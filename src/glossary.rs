use vstd::prelude::*;
use crate::text::{chars_of, contains, contains_chars};

verus! {

/// A term pair: occurrences of `source` are translated as `target`.
#[derive(Clone, Debug)]
pub struct GlossaryEntry {
    pub source: String,
    pub target: String,
}

pub open spec fn glossary_entry_view(e: GlossaryEntry) -> (Seq<char>, Seq<char>) {
    (e.source@, e.target@)
}

/// The lower-case form of `s`, as Unicode case mapping defines it.
pub uninterp spec fn lower_of(s: Seq<char>) -> Seq<char>;

/// Relies on `str::to_lowercase`: the result depends on the characters alone.
#[verifier::external_body]
fn lowercase(s: &str) -> (r: String)
    ensures
        r@ == lower_of(s@),
{
    s.to_lowercase()
}

/// Whether the case-folded `needle` occurs in the case-folded `haystack`.
pub fn folded_contains(haystack_folded: &str, needle_folded: &str) -> (r: bool)
    ensures
        r == contains(haystack_folded@, needle_folded@),
{
    contains_chars(&chars_of(haystack_folded), &chars_of(needle_folded))
}

/// The entries whose source occurs in the text, case-insensitively, in
/// glossary order.
pub open spec fn matching_entries(entries: Seq<GlossaryEntry>, text: Seq<char>) -> Seq<
    GlossaryEntry,
>
    decreases entries.len(),
{
    if entries.len() == 0 {
        Seq::empty()
    } else {
        let rest = matching_entries(entries.drop_last(), text);
        if contains(lower_of(text), lower_of(entries.last().source@)) {
            rest.push(entries.last())
        } else {
            rest
        }
    }
}

/// Versioned term list. The version takes part in cache keys, so editing
/// the glossary invalidates translations made under the old one.
pub struct Glossary {
    version: u32,
    entries: Vec<GlossaryEntry>,
}

impl Glossary {
    pub closed spec fn spec_version(&self) -> u32 {
        self.version
    }

    pub closed spec fn spec_entries(&self) -> Seq<GlossaryEntry> {
        self.entries@
    }

    /// A glossary with the given version and entries.
    pub fn new(version: u32, entries: Vec<GlossaryEntry>) -> (r: Self)
        ensures
            r.spec_version() == version,
            r.spec_entries() == entries@,
    {
        Glossary { version, entries }
    }

    /// Version 0, no entries: the fallback when no glossary can be loaded.
    pub fn empty() -> (r: Self)
        ensures
            r.spec_version() == 0,
            r.spec_entries() == Seq::<GlossaryEntry>::empty(),
    {
        Glossary { version: 0, entries: Vec::new() }
    }

    pub fn version(&self) -> (r: u32)
        ensures
            r == self.spec_version(),
    {
        self.version
    }

    /// Entries whose `source` occurs in `text`, ignoring case.
    pub fn match_entries(&self, text: &str) -> (r: Vec<GlossaryEntry>)
        ensures
            r@.map_values(|e: GlossaryEntry| glossary_entry_view(e)) == matching_entries(
                self.spec_entries(),
                text@,
            ).map_values(|e: GlossaryEntry| glossary_entry_view(e)),
    {
        let text_lower = lowercase(text);
        let mut out: Vec<GlossaryEntry> = Vec::new();
        let mut i: usize = 0;
        while i < self.entries.len()
            invariant
                i <= self.entries@.len(),
                text_lower@ == lower_of(text@),
                out@.map_values(|e: GlossaryEntry| glossary_entry_view(e)) == matching_entries(
                    self.entries@.subrange(0, i as int),
                    text@,
                ).map_values(|e: GlossaryEntry| glossary_entry_view(e)),
            decreases self.entries.len() - i,
        {
            let ghost before = out@.map_values(|e: GlossaryEntry| glossary_entry_view(e));
            let source_lower = lowercase(self.entries[i].source.as_str());
            let e = &self.entries[i];
            proof {
                assert(self.entries@.subrange(0, i + 1).drop_last() =~= self.entries@.subrange(
                    0,
                    i as int,
                ));
            }
            if folded_contains(text_lower.as_str(), source_lower.as_str()) {
                let c = GlossaryEntry { source: e.source.clone(), target: e.target.clone() };
                out.push(c);
                proof {
                    assert(out@.map_values(|e: GlossaryEntry| glossary_entry_view(e)) =~= before.push(
                        glossary_entry_view(self.entries@[i as int]),
                    ));
                    assert(matching_entries(self.entries@.subrange(0, i + 1), text@).map_values(
                        |e: GlossaryEntry| glossary_entry_view(e),
                    ) =~= matching_entries(self.entries@.subrange(0, i as int), text@).map_values(
                        |e: GlossaryEntry| glossary_entry_view(e),
                    ).push(glossary_entry_view(self.entries@[i as int])));
                }
            }
            i = i + 1;
        }
        proof {
            assert(self.entries@.subrange(0, self.entries@.len() as int) =~= self.entries@);
        }
        out
    }
}

} // verus!
