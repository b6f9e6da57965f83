use vstd::prelude::*;
use crate::text::{
    chars_of, string_of, contains, replace_first, replace_all, occurs_at, first_occurrence,
    replace_first_chars, replace_all_chars, lemma_first_occurrence_exists,
    lemma_replace_all_found, lemma_replace_all_absent, digit_char, decimal, push_decimal,
};

verus! {

/// What the pattern `pattern` matches in `text`, leftmost first and without
/// overlaps, as the regular-expression engine finds them.
pub uninterp spec fn pattern_matches(pattern: Seq<char>, text: Seq<char>) -> Seq<Seq<char>>;

/// Relies on `regex::Regex::new` and `Regex::find_iter`: the text of every
/// successive non-overlapping match of `pattern` in `text` (none when the
/// pattern does not compile).
#[verifier::external_body]
fn find_matches(pattern: &str, text: &str) -> (r: Vec<String>)
    ensures
        r@.map_values(|m: String| m@) == pattern_matches(pattern@, text@),
{
    match regex::Regex::new(pattern) {
        Ok(re) => re.find_iter(text).map(|m| m.as_str().to_string()).collect(),
        Err(_) => Vec::new(),
    }
}

/// The statistical language guess for `text`: its three-letter code and
/// whether the guess is reliable; `None` when no language is recognised.
pub uninterp spec fn language_guess(text: Seq<char>) -> Option<(Seq<char>, bool)>;

/// Relies on `whatlang::detect`, with `Info::lang`, `Lang::code` and
/// `Info::is_reliable` read off its result.
#[verifier::external_body]
fn guess_language(text: &str) -> (r: Option<(String, bool)>)
    ensures
        match r {
            Some(g) => language_guess(text@) == Some((g.0@, g.1)),
            None => language_guess(text@) is None,
        },
{
    whatlang::detect(text).map(|info| (info.lang().code().to_string(), info.is_reliable()))
}

/// Two-letter code used for a three-letter language code; `other` for
/// languages without one here.
pub open spec fn short_code(code: Seq<char>) -> Seq<char> {
    if code == "eng"@ {
        "en"@
    } else if code == "cmn"@ {
        "zh"@
    } else if code == "jpn"@ {
        "ja"@
    } else if code == "kor"@ {
        "ko"@
    } else if code == "fra"@ {
        "fr"@
    } else if code == "deu"@ {
        "de"@
    } else if code == "spa"@ {
        "es"@
    } else if code == "rus"@ {
        "ru"@
    } else if code == "por"@ {
        "pt"@
    } else if code == "ita"@ {
        "it"@
    } else if code == "ara"@ {
        "ar"@
    } else if code == "hin"@ {
        "hi"@
    } else if code == "tur"@ {
        "tr"@
    } else if code == "vie"@ {
        "vi"@
    } else if code == "tha"@ {
        "th"@
    } else if code == "nld"@ {
        "nl"@
    } else if code == "pol"@ {
        "pl"@
    } else if code == "ukr"@ {
        "uk"@
    } else {
        "other"@
    }
}

/// The reliable language of `text` as a two-letter code.
pub open spec fn spec_detect_language(text: Seq<char>) -> Option<Seq<char>> {
    match language_guess(text) {
        Some(g) => if g.1 {
            Some(short_code(g.0))
        } else {
            None
        },
        None => None,
    }
}

fn str_eq(a: &str, b: &str) -> (r: bool)
    ensures
        r == (a@ == b@),
{
    let x = chars_of(a);
    let y = chars_of(b);
    if x.len() != y.len() {
        return false;
    }
    let mut i: usize = 0;
    while i < x.len()
        invariant
            i <= x@.len(),
            x@ == a@,
            y@ == b@,
            x@.len() == y@.len(),
            forall|k: int| 0 <= k < i ==> x@[k] == y@[k],
        decreases x.len() - i,
    {
        if x[i] != y[i] {
            assert(x@[i as int] != y@[i as int]);
            return false;
        }
        i = i + 1;
    }
    assert(x@ =~= y@);
    true
}

fn short_code_of(code: &str) -> (r: String)
    ensures
        r@ == short_code(code@),
{
    proof {
        reveal_strlit("eng");
        reveal_strlit("cmn");
        reveal_strlit("jpn");
        reveal_strlit("kor");
        reveal_strlit("fra");
        reveal_strlit("deu");
        reveal_strlit("spa");
        reveal_strlit("rus");
        reveal_strlit("por");
        reveal_strlit("ita");
        reveal_strlit("ara");
        reveal_strlit("hin");
        reveal_strlit("tur");
        reveal_strlit("vie");
        reveal_strlit("tha");
        reveal_strlit("nld");
        reveal_strlit("pol");
        reveal_strlit("ukr");
    }
    let short = if str_eq(code, "eng") {
        "en"
    } else if str_eq(code, "cmn") {
        "zh"
    } else if str_eq(code, "jpn") {
        "ja"
    } else if str_eq(code, "kor") {
        "ko"
    } else if str_eq(code, "fra") {
        "fr"
    } else if str_eq(code, "deu") {
        "de"
    } else if str_eq(code, "spa") {
        "es"
    } else if str_eq(code, "rus") {
        "ru"
    } else if str_eq(code, "por") {
        "pt"
    } else if str_eq(code, "ita") {
        "it"
    } else if str_eq(code, "ara") {
        "ar"
    } else if str_eq(code, "hin") {
        "hi"
    } else if str_eq(code, "tur") {
        "tr"
    } else if str_eq(code, "vie") {
        "vi"
    } else if str_eq(code, "tha") {
        "th"
    } else if str_eq(code, "nld") {
        "nl"
    } else if str_eq(code, "pol") {
        "pl"
    } else if str_eq(code, "ukr") {
        "uk"
    } else {
        "other"
    };
    String::from_str(short)
}

/// The dominant language of `text` as a two-letter code, or `None` when
/// the detector is unsure.
pub fn detect_language(text: &str) -> (r: Option<String>)
    ensures
        match r {
            Some(c) => spec_detect_language(text@) == Some(c@),
            None => spec_detect_language(text@) is None,
        },
{
    match guess_language(text) {
        Some(g) => if g.1 {
            Some(short_code_of(g.0.as_str()))
        } else {
            None
        },
        None => None,
    }
}

/// A protected token: `tag` stands in the text where `original` stood.
#[derive(Clone, Debug)]
pub struct PlaceholderEntry {
    pub tag: String,
    pub original: String,
}

/// Outcome of normalising a source text.
#[derive(Clone, Debug)]
pub struct NormalizeResult {
    pub normalized_text: String,
    pub detected_lang: Option<String>,
    pub placeholders: Vec<PlaceholderEntry>,
}

/// A placeholder entry as `(tag, original)`.
pub type EntryView = (Seq<char>, Seq<char>);

pub open spec fn entry_view(e: PlaceholderEntry) -> EntryView {
    (e.tag@, e.original@)
}

pub open spec fn entries_view(v: Seq<PlaceholderEntry>) -> Seq<EntryView> {
    v.map_values(|e: PlaceholderEntry| entry_view(e))
}

/// The tag of the `n`-th placeholder: `<<PHn>>`.
pub open spec fn tag_text(n: nat) -> Seq<char> {
    "<<PH"@ + decimal(n) + ">>"@
}

/// Applies the substitutions in order: each replaces the first occurrence
/// of its original by its tag.
pub open spec fn apply_entries(t: Seq<char>, entries: Seq<EntryView>) -> Seq<char>
    decreases entries.len(),
{
    if entries.len() == 0 {
        t
    } else {
        replace_first(apply_entries(t, entries.drop_last()), entries.last().1, entries.last().0)
    }
}

/// Undoes the substitutions, the latest first: each tag is replaced by its
/// original everywhere.
pub open spec fn restore_entries(t: Seq<char>, entries: Seq<EntryView>) -> Seq<char>
    decreases entries.len(),
{
    if entries.len() == 0 {
        t
    } else {
        restore_entries(replace_all(t, entries.last().0, entries.last().1), entries.drop_last())
    }
}

/// Entries tagged in order from `start`.
pub open spec fn tagged_from(matches: Seq<Seq<char>>, start: nat) -> Seq<EntryView> {
    Seq::new(matches.len(), |i: int| (tag_text((start + i) as nat), matches[i]))
}

/// The entries `protect` records for `t` under `patterns`: each pattern in
/// turn is matched against the text as protected so far, and numbering
/// continues across patterns.
pub open spec fn protect_entries(patterns: Seq<Seq<char>>, t: Seq<char>) -> Seq<EntryView>
    decreases patterns.len(),
{
    if patterns.len() == 0 {
        Seq::empty()
    } else {
        let prev = protect_entries(patterns.drop_last(), t);
        prev + tagged_from(pattern_matches(patterns.last(), apply_entries(t, prev)), prev.len())
    }
}

/// No tag is already present in the text at the moment it is inserted.
pub open spec fn steps_clean(t: Seq<char>, entries: Seq<EntryView>) -> bool {
    forall|i: int|
        0 <= i < entries.len() ==> !contains(
            #[trigger] apply_entries(t, entries.take(i)),
            entries[i].0,
        )
}

/// Every tag is `<<PHn>>` for its own position `n`.
pub open spec fn tagged_in_order(entries: Seq<EntryView>) -> bool {
    forall|i: int| 0 <= i < entries.len() ==> (#[trigger] entries[i]).0 == tag_text(i as nat)
}

/// Patterns of untranslatable tokens, in the order they are protected:
/// URLs, e-mail addresses, numbers with units, standalone numbers, inline
/// code.
pub open spec fn protector_patterns() -> Seq<Seq<char>> {
    seq![
        "https?://[^\\s,，。)）\\]]+"@,
        "[a-zA-Z0-9._%+\\-]+@[a-zA-Z0-9.\\-]+\\.[a-zA-Z]{2,}"@,
        "[$€¥£]?\\d+(?:\\.\\d+)?(?:%|px|em|rem|pt|kg|km|mb|gb|tb|ms|fps|hz)\\b"@,
        "\\b\\d+(?:\\.\\d+)?\\b"@,
        "`[^`]+`"@,
    ]
}

fn make_tag(n: usize) -> (r: Vec<char>)
    ensures
        r@ == tag_text(n as nat),
{
    proof {
        reveal_strlit("<<PH");
        reveal_strlit(">>");
    }
    let mut out: Vec<char> = chars_of("<<PH");
    push_decimal(&mut out, n as u64);
    out.push('>');
    out.push('>');
    assert(out@ =~= tag_text(n as nat));
    out
}

/// Replaces untranslatable tokens by `<<PH0>>`, `<<PH1>>`, ... so that the
/// translator leaves them alone.
pub struct PlaceholderProtector {
    patterns: Vec<String>,
}

impl PlaceholderProtector {
    pub closed spec fn spec_patterns(&self) -> Seq<Seq<char>> {
        self.patterns@.map_values(|p: String| p@)
    }

    pub fn new() -> (r: Self)
        ensures
            r.spec_patterns() == protector_patterns(),
    {
        let mut patterns: Vec<String> = Vec::new();
        patterns.push(String::from_str("https?://[^\\s,，。)）\\]]+"));
        patterns.push(String::from_str("[a-zA-Z0-9._%+\\-]+@[a-zA-Z0-9.\\-]+\\.[a-zA-Z]{2,}"));
        patterns.push(
            String::from_str("[$€¥£]?\\d+(?:\\.\\d+)?(?:%|px|em|rem|pt|kg|km|mb|gb|tb|ms|fps|hz)\\b"),
        );
        patterns.push(String::from_str("\\b\\d+(?:\\.\\d+)?\\b"));
        patterns.push(String::from_str("`[^`]+`"));
        let r = PlaceholderProtector { patterns };
        assert(r.spec_patterns() =~= protector_patterns());
        r
    }

    /// Protects `text`: for each pattern in turn, every match in the text
    /// protected so far is replaced (first occurrence of the matched string)
    /// by the next tag. Returns the protected text and the entries.
    pub fn protect(&self, text: &str) -> (r: (String, Vec<PlaceholderEntry>))
        ensures
            entries_view(r.1@) == protect_entries(self.spec_patterns(), text@),
            r.0@ == apply_entries(text@, entries_view(r.1@)),
    {
        let mut entries: Vec<PlaceholderEntry> = Vec::new();
        let mut current: Vec<char> = chars_of(text);
        let mut k: usize = 0;
        proof {
            assert(self.spec_patterns().take(0) =~= Seq::<Seq<char>>::empty());
            assert(entries_view(entries@) =~= Seq::<EntryView>::empty());
        }
        while k < self.patterns.len()
            invariant
                k <= self.patterns@.len(),
                entries_view(entries@) == protect_entries(self.spec_patterns().take(k as int), text@),
                current@ == apply_entries(text@, entries_view(entries@)),
            decreases self.patterns.len() - k,
        {
            let ghost prev = entries_view(entries@);
            let current_str = string_of(current.as_slice());
            let found = find_matches(self.patterns[k].as_str(), current_str.as_str());
            let ghost ms = found@.map_values(|m: String| m@);
            let mut j: usize = 0;
            while j < found.len()
                invariant
                    j <= found@.len(),
                    ms == found@.map_values(|m: String| m@),
                    entries_view(entries@) == prev + tagged_from(ms, prev.len()).take(j as int),
                    current@ == apply_entries(text@, entries_view(entries@)),
                decreases found.len() - j,
            {
                let tag = make_tag(entries.len());
                let orig = chars_of(found[j].as_str());
                let ghost before = entries_view(entries@);
                current = replace_first_chars(&current, &orig, &tag);
                entries.push(PlaceholderEntry { tag: string_of(tag.as_slice()), original: found[j].clone() });
                proof {
                    assert(before.len() == prev.len() + j);
                    assert(entries_view(entries@) =~= before.push((tag@, orig@)));
                    assert(entries_view(entries@).drop_last() =~= before);
                    assert(tagged_from(ms, prev.len()).take(j + 1) =~= tagged_from(ms, prev.len()).take(
                        j as int,
                    ).push((tag_text((prev.len() + j) as nat), ms[j as int])));
                }
                j = j + 1;
            }
            proof {
                let pats = self.spec_patterns().take(k + 1);
                assert(pats.drop_last() =~= self.spec_patterns().take(k as int));
                assert(pats.last() == self.patterns@[k as int]@);
                assert(tagged_from(ms, prev.len()).take(found@.len() as int) =~= tagged_from(ms, prev.len()));
            }
            k = k + 1;
        }
        proof {
            assert(self.spec_patterns().take(self.patterns@.len() as int) =~= self.spec_patterns());
        }
        (string_of(current.as_slice()), entries)
    }

    /// Puts the originals back: the latest entry first, each tag replaced
    /// everywhere by its original.
    pub fn restore(&self, text: &str, entries: &[PlaceholderEntry]) -> (r: String)
        ensures
            r@ == restore_entries(text@, entries_view(entries@)),
    {
        let mut current: Vec<char> = chars_of(text);
        let mut i: usize = entries.len();
        assert(entries_view(entries@).take(entries@.len() as int) =~= entries_view(entries@));
        while i > 0
            invariant
                i <= entries@.len(),
                restore_entries(current@, entries_view(entries@).take(i as int)) == restore_entries(
                    text@,
                    entries_view(entries@),
                ),
            decreases i,
        {
            let ghost before = current@;
            let tag = chars_of(entries[i - 1].tag.as_str());
            let orig = chars_of(entries[i - 1].original.as_str());
            if tag.len() > 0 {
                current = replace_all_chars(&current, &tag, &orig);
            } else {
                proof {
                    reveal(replace_all);
                }
            }
            proof {
                let es = entries_view(entries@).take(i as int);
                assert(es.last() == (tag@, orig@));
                assert(es.drop_last() =~= entries_view(entries@).take(i - 1));
            }
            i = i - 1;
        }
        proof {
            assert(entries_view(entries@).take(entries@.len() as int) =~= entries_view(entries@));
            assert(entries_view(entries@).take(0) =~= Seq::<EntryView>::empty());
        }
        string_of(current.as_slice())
    }
}

/// Detects the language and protects placeholders.
pub fn normalize(text: &str) -> (r: NormalizeResult)
    ensures
        match r.detected_lang {
            Some(c) => spec_detect_language(text@) == Some(c@),
            None => spec_detect_language(text@) is None,
        },
        entries_view(r.placeholders@) == protect_entries(protector_patterns(), text@),
        r.normalized_text@ == apply_entries(text@, entries_view(r.placeholders@)),
{
    let detected_lang = detect_language(text);
    let protector = PlaceholderProtector::new();
    let (normalized_text, placeholders) = protector.protect(text);
    NormalizeResult { normalized_text, detected_lang, placeholders }
}

/// Starts with `<<P` and holds no `<` after its second character, so no
/// occurrence of it can overlap another one partially.
pub open spec fn tag_shaped(tag: Seq<char>) -> bool {
    &&& tag.len() >= 3
    &&& tag[0] == '<'
    &&& tag[1] == '<'
    &&& tag[2] == 'P'
    &&& forall|k: int| 2 <= k < tag.len() ==> tag[k] != '<'
}

proof fn lemma_decimal_digits(n: nat)
    ensures
        forall|k: int| 0 <= k < decimal(n).len() ==> decimal(n)[k] != '<',
    decreases n,
{
    if n >= 10 {
        lemma_decimal_digits(n / 10);
        let d = decimal(n / 10);
        assert(digit_char(n % 10) != '<');
        assert forall|k: int| 0 <= k < decimal(n).len() implies decimal(n)[k] != '<' by {
            if k < d.len() {
                assert(decimal(n)[k] == d[k]);
            }
        }
    } else {
        assert(digit_char(n) != '<');
        assert(decimal(n)[0] == digit_char(n));
    }
}

proof fn lemma_tag_text_shaped(n: nat)
    ensures
        tag_shaped(tag_text(n)),
{
    reveal_strlit("<<PH");
    reveal_strlit(">>");
    lemma_decimal_digits(n);
    let t = tag_text(n);
    assert forall|k: int| 2 <= k < t.len() implies t[k] != '<' by {
        if 4 <= k < 4 + decimal(n).len() {
            assert(t[k] == decimal(n)[k - 4]);
        }
    }
}

/// Replacing the first occurrence of `m` by a fresh tag, then every
/// occurrence of that tag by `m`, gives back the text.
proof fn lemma_undo_one(s: Seq<char>, m: Seq<char>, tag: Seq<char>)
    requires
        tag_shaped(tag),
        !contains(s, tag),
    ensures
        replace_all(replace_first(s, m, tag), tag, m) == s,
{
    assert(s.subrange(0, s.len() as int) == s);
    match first_occurrence(s, m) {
        None => {
            lemma_replace_all_absent(s, tag, m, 0);
        },
        Some(i0) => {
            let w = choose|w: int| occurs_at(s, m, w);
            lemma_first_occurrence_exists(s, m, w);
            let i = i0;
            let pre = s.subrange(0, i);
            let post = s.subrange(i + m.len(), s.len() as int);
            let r = pre + tag + post;
            assert(replace_first(s, m, tag) == r);
            assert(r.subrange(i, i + tag.len()) =~= tag);
            assert forall|j: int| 0 <= j < i implies !occurs_at(r, tag, j) by {
                if occurs_at(r, tag, j) {
                    if j + tag.len() <= i {
                        assert(r.subrange(j, j + tag.len()) =~= s.subrange(j, j + tag.len()));
                        assert(occurs_at(s, tag, j));
                    } else {
                        let k = i - j;
                        assert(r.subrange(j, j + tag.len())[k] == tag[k]);
                        assert(r[i] == '<');
                        assert(k == 1);
                        assert(r.subrange(j, j + tag.len())[2] == tag[2]);
                        assert(r[i + 1] == '<');
                    }
                }
            }
            lemma_replace_all_found(r, tag, m, 0, i);
            assert(r.subrange(0, i) =~= pre);
            assert(r.subrange(i + tag.len(), r.len() as int) =~= post);
            assert forall|j: int| 0 <= j implies !occurs_at(post, tag, j) by {
                if occurs_at(post, tag, j) {
                    assert(post.subrange(j, j + tag.len()) =~= s.subrange(
                        i + m.len() + j,
                        i + m.len() + j + tag.len(),
                    ));
                    assert(occurs_at(s, tag, i + m.len() + j));
                }
            }
            lemma_replace_all_absent(post, tag, m, 0);
            assert(post.subrange(0, post.len() as int) == post);
            assert(r.subrange(0, r.len() as int) == r);
            assert(pre + m + post =~= s);
        },
    }
}

/// Restoring the latest-first undoes the substitutions whenever no tag was
/// already in the text when it was inserted.
pub proof fn lemma_restore_undoes_apply(t: Seq<char>, entries: Seq<EntryView>)
    requires
        tagged_in_order(entries),
        steps_clean(t, entries),
    ensures
        restore_entries(apply_entries(t, entries), entries) == t,
    decreases entries.len(),
{
    if entries.len() > 0 {
        let n = entries.len() - 1;
        let prev = entries.drop_last();
        assert(entries.take(n) =~= prev);
        assert(entries[n].0 == tag_text(n as nat));
        lemma_tag_text_shaped(n as nat);
        assert(!contains(apply_entries(t, entries.take(n)), entries[n].0));
        lemma_undo_one(apply_entries(t, prev), entries.last().1, entries.last().0);
        assert forall|i: int| 0 <= i < prev.len() implies (#[trigger] prev[i]).0 == tag_text(
            i as nat,
        ) by {
            assert(prev[i] == entries[i]);
        }
        assert forall|i: int| 0 <= i < prev.len() implies !contains(
            #[trigger] apply_entries(t, prev.take(i)),
            prev[i].0,
        ) by {
            assert(prev.take(i) =~= entries.take(i));
            assert(prev[i] == entries[i]);
            assert(!contains(apply_entries(t, entries.take(i)), entries[i].0));
        }
        lemma_restore_undoes_apply(t, prev);
    }
}

proof fn lemma_protect_entries_tagged(patterns: Seq<Seq<char>>, t: Seq<char>)
    ensures
        tagged_in_order(protect_entries(patterns, t)),
    decreases patterns.len(),
{
    if patterns.len() > 0 {
        lemma_protect_entries_tagged(patterns.drop_last(), t);
        let prev = protect_entries(patterns.drop_last(), t);
        let all = protect_entries(patterns, t);
        assert forall|i: int| 0 <= i < all.len() implies (#[trigger] all[i]).0 == tag_text(
            i as nat,
        ) by {
            if i < prev.len() {
                assert(all[i] == prev[i]);
            }
        }
    }
}

/// Placeholder round trip: under an identity translation, restoring the
/// protected text with its entries gives back the input, for every input in
/// which no tag is already present at the moment it is inserted.
pub proof fn lemma_placeholder_round_trip(t: Seq<char>)
    requires
        steps_clean(t, protect_entries(protector_patterns(), t)),
    ensures
        restore_entries(
            apply_entries(t, protect_entries(protector_patterns(), t)),
            protect_entries(protector_patterns(), t),
        ) == t,
{
    lemma_protect_entries_tagged(protector_patterns(), t);
    lemma_restore_undoes_apply(t, protect_entries(protector_patterns(), t));
}

} // verus!
