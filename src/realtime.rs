use vstd::prelude::*;
use vstd::utf8::encode_utf8;
use crate::digest::{blake3_of, line_material, line_hash, same_digest};
use crate::ocr::OcrLine;
use crate::text::{chars_of, string_of, seq_eq, copy_range};

verus! {

/// Interval between two realtime samples.
pub const SAMPLE_INTERVAL_MS: u64 = 500;

/// Diff key of a line: digest of its text and vertical bucket.
pub open spec fn line_key(l: OcrLine) -> Seq<u8> {
    blake3_of(line_material(encode_utf8(l.text@), l.y_center))
}

pub open spec fn keys_of(lines: Seq<OcrLine>) -> Seq<Seq<u8>> {
    lines.map_values(|l: OcrLine| line_key(l))
}

/// The lines of `new_lines` whose key is absent from (`want_present` false)
/// or present in (`want_present` true) `old_keys`, in order.
pub open spec fn select_lines(new_lines: Seq<OcrLine>, old_keys: Seq<Seq<u8>>, want_present: bool) -> Seq<
    OcrLine,
>
    decreases new_lines.len(),
{
    if new_lines.len() == 0 {
        Seq::empty()
    } else {
        let rest = select_lines(new_lines.drop_last(), old_keys, want_present);
        if old_keys.contains(line_key(new_lines.last())) == want_present {
            rest.push(new_lines.last())
        } else {
            rest
        }
    }
}

/// Every new line is either added or unchanged.
pub proof fn lemma_select_partition(new_lines: Seq<OcrLine>, old_keys: Seq<Seq<u8>>)
    ensures
        select_lines(new_lines, old_keys, false).len() + select_lines(new_lines, old_keys, true).len()
            == new_lines.len(),
    decreases new_lines.len(),
{
    if new_lines.len() > 0 {
        lemma_select_partition(new_lines.drop_last(), old_keys);
    }
}

/// Line-level difference between two frames.
pub struct LineDiff {
    /// Lines of the new frame whose key the old frame lacks.
    pub added: Vec<OcrLine>,
    /// Lines of the new frame whose key the old frame has.
    pub unchanged: Vec<OcrLine>,
}

fn line_key_of(l: &OcrLine) -> (r: [u8; 32])
    ensures
        r@ == line_key(*l),
{
    line_hash(l.text.as_str(), l.y_center)
}

fn contains_digest(keys: &Vec<[u8; 32]>, k: &[u8; 32]) -> (r: bool)
    ensures
        r == keys@.map_values(|d: [u8; 32]| d@).contains(k@),
{
    let ghost ks = keys@.map_values(|d: [u8; 32]| d@);
    let mut i: usize = 0;
    while i < keys.len()
        invariant
            i <= keys@.len(),
            ks == keys@.map_values(|d: [u8; 32]| d@),
            forall|j: int| 0 <= j < i ==> ks[j] != k@,
        decreases keys.len() - i,
    {
        if same_digest(&keys[i], k) {
            assert(ks[i as int] == k@);
            return true;
        }
        i = i + 1;
    }
    false
}

/// Splits the new frame's lines into added and unchanged, by line key,
/// keeping document order within each.
pub fn diff_lines(old_lines: &[OcrLine], new_lines: &[OcrLine]) -> (r: LineDiff)
    ensures
        r.added@ == select_lines(new_lines@, keys_of(old_lines@), false),
        r.unchanged@ == select_lines(new_lines@, keys_of(old_lines@), true),
{
    let mut old_keys: Vec<[u8; 32]> = Vec::new();
    let mut i: usize = 0;
    while i < old_lines.len()
        invariant
            i <= old_lines@.len(),
            old_keys@.map_values(|d: [u8; 32]| d@) == keys_of(old_lines@.subrange(0, i as int)),
        decreases old_lines.len() - i,
    {
        let k = line_key_of(&old_lines[i]);
        let ghost prev = old_keys@.map_values(|d: [u8; 32]| d@);
        old_keys.push(k);
        proof {
            assert(old_keys@.map_values(|d: [u8; 32]| d@) =~= prev.push(k@));
            assert(keys_of(old_lines@.subrange(0, i + 1)) =~= keys_of(old_lines@.subrange(0, i as int)).push(
                line_key(old_lines@[i as int]),
            ));
        }
        i = i + 1;
    }
    proof {
        assert(old_lines@.subrange(0, old_lines@.len() as int) =~= old_lines@);
    }
    let ghost ok = keys_of(old_lines@);
    let mut added: Vec<OcrLine> = Vec::new();
    let mut unchanged: Vec<OcrLine> = Vec::new();
    let mut j: usize = 0;
    while j < new_lines.len()
        invariant
            j <= new_lines@.len(),
            old_keys@.map_values(|d: [u8; 32]| d@) == ok,
            added@ == select_lines(new_lines@.subrange(0, j as int), ok, false),
            unchanged@ == select_lines(new_lines@.subrange(0, j as int), ok, true),
        decreases new_lines.len() - j,
    {
        let k = line_key_of(&new_lines[j]);
        let line = new_lines[j].duplicate();
        proof {
            assert(new_lines@.subrange(0, j + 1).drop_last() =~= new_lines@.subrange(0, j as int));
        }
        if contains_digest(&old_keys, &k) {
            unchanged.push(line);
        } else {
            added.push(line);
        }
        j = j + 1;
    }
    proof {
        assert(new_lines@.subrange(0, new_lines@.len() as int) =~= new_lines@);
    }
    LineDiff { added, unchanged }
}

/// The first translation cached for `text`.
pub open spec fn cached_translation(cache: Seq<(Seq<char>, Seq<char>)>, text: Seq<char>) -> Option<
    Seq<char>,
>
    decreases cache.len(),
{
    if cache.len() == 0 {
        None
    } else {
        match cached_translation(cache.drop_last(), text) {
            Some(t) => Some(t),
            None => if cache.last().0 == text {
                Some(cache.last().1)
            } else {
                None
            },
        }
    }
}

/// Texts of `added` that need the translation pipeline: not cached, and
/// not already listed, in order of first appearance.
pub open spec fn texts_to_translate(added: Seq<OcrLine>, cache: Seq<(Seq<char>, Seq<char>)>) -> Seq<
    Seq<char>,
>
    decreases added.len(),
{
    if added.len() == 0 {
        Seq::empty()
    } else {
        let rest = texts_to_translate(added.drop_last(), cache);
        let t = added.last().text@;
        if cached_translation(cache, t) is Some || rest.contains(t) {
            rest
        } else {
            rest.push(t)
        }
    }
}

/// `a + b`, saturating at the largest `u64`.
pub open spec fn sat_add(a: u64, b: nat) -> u64 {
    if a + b <= u64::MAX {
        (a + b) as u64
    } else {
        u64::MAX
    }
}

fn add_sat(a: u64, b: u64) -> (r: u64)
    ensures
        r == sat_add(a, b as nat),
{
    if a <= u64::MAX - b {
        a + b
    } else {
        u64::MAX
    }
}

/// Share of lines served from cache, as a whole percentage rounded down;
/// 0 when no line was served at all.
pub open spec fn spec_saving_pct(from_cache: u64, via_api: u64) -> u64 {
    if from_cache as int + via_api as int == 0 {
        0
    } else {
        ((from_cache as int * 100) / (from_cache as int + via_api as int)) as u64
    }
}

/// `from_cache / (from_cache + via_api)` as a whole percentage.
pub fn saving_pct(from_cache: u64, via_api: u64) -> (r: u64)
    ensures
        r == spec_saving_pct(from_cache, via_api),
{
    let c = from_cache as u128;
    let total = c + via_api as u128;
    if total == 0 {
        return 0;
    }
    assert((c * 100) as int / (total as int) <= 100) by (nonlinear_arith)
        requires
            c <= total,
            total > 0,
    ;
    (c * 100 / total) as u64
}

/// Counters of a realtime session.
#[derive(Clone, Copy, Debug, PartialEq, Eq, Structural)]
pub struct RealtimeStats {
    pub total_lines_seen: u64,
    pub lines_translated_via_api: u64,
    pub lines_from_cache: u64,
    pub token_saving_pct: u64,
    pub frames_no_change: u64,
    pub frames_changed: u64,
}

/// What one changed frame needs.
pub struct FramePlan {
    /// Lines new to this frame.
    pub added: usize,
    /// Lines carried over from the previous frame.
    pub unchanged: usize,
    /// Lines served from the session cache this frame.
    pub from_cache: usize,
    /// Texts to send through the translation pipeline, in order.
    pub to_translate: Vec<String>,
}

impl FramePlan {
    /// This update's saving: lines served from cache over lines served in
    /// all, as a whole percentage.
    pub fn saving_pct(&self) -> (r: u64)
        ensures
            r == spec_saving_pct(self.from_cache as u64, self.to_translate@.len() as u64),
    {
        saving_pct(self.from_cache as u64, self.to_translate.len() as u64)
    }
}

/// State of one realtime incremental translation session.
pub struct RealtimeSession {
    previous_lines: Vec<OcrLine>,
    line_cache: Vec<(String, String)>,
    total_lines_seen: u64,
    lines_translated_via_api: u64,
    lines_from_cache: u64,
    frames_no_change: u64,
    frames_changed: u64,
}

pub open spec fn pair_view(p: (String, String)) -> (Seq<char>, Seq<char>) {
    (p.0@, p.1@)
}

impl RealtimeSession {
    pub closed spec fn spec_previous(&self) -> Seq<OcrLine> {
        self.previous_lines@
    }

    pub closed spec fn spec_cache(&self) -> Seq<(Seq<char>, Seq<char>)> {
        self.line_cache@.map_values(|p: (String, String)| pair_view(p))
    }

    pub closed spec fn spec_stats(&self) -> RealtimeStats {
        RealtimeStats {
            total_lines_seen: self.total_lines_seen,
            lines_translated_via_api: self.lines_translated_via_api,
            lines_from_cache: self.lines_from_cache,
            token_saving_pct: spec_saving_pct(self.lines_from_cache, self.lines_translated_via_api),
            frames_no_change: self.frames_no_change,
            frames_changed: self.frames_changed,
        }
    }

    pub fn new() -> (r: Self)
        ensures
            r.spec_previous() == Seq::<OcrLine>::empty(),
            r.spec_cache() == Seq::<(Seq<char>, Seq<char>)>::empty(),
            r.spec_stats() == (RealtimeStats {
                total_lines_seen: 0,
                lines_translated_via_api: 0,
                lines_from_cache: 0,
                token_saving_pct: 0,
                frames_no_change: 0,
                frames_changed: 0,
            }),
    {
        let r = RealtimeSession {
            previous_lines: Vec::new(),
            line_cache: Vec::new(),
            total_lines_seen: 0,
            lines_translated_via_api: 0,
            lines_from_cache: 0,
            frames_no_change: 0,
            frames_changed: 0,
        };
        assert(r.spec_cache() =~= Seq::<(Seq<char>, Seq<char>)>::empty());
        r
    }

    /// The translation cached for `text`, if any.
    pub fn lookup(&self, text: &str) -> (r: Option<String>)
        ensures
            match r {
                Some(t) => cached_translation(self.spec_cache(), text@) == Some(t@),
                None => cached_translation(self.spec_cache(), text@) is None,
            },
    {
        let key = chars_of(text);
        let mut i: usize = 0;
        while i < self.line_cache.len()
            invariant
                i <= self.line_cache@.len(),
                key@ == text@,
                cached_translation(self.spec_cache().subrange(0, i as int), text@) is None,
            decreases self.line_cache.len() - i,
        {
            proof {
                assert(self.spec_cache().subrange(0, i + 1).drop_last() =~= self.spec_cache().subrange(
                    0,
                    i as int,
                ));
            }
            if seq_eq(&chars_of(self.line_cache[i].0.as_str()), &key) {
                proof {
                    lemma_cached_prefix(self.spec_cache(), text@, i + 1);
                }
                return Some(self.line_cache[i].1.clone());
            }
            i = i + 1;
        }
        proof {
            assert(self.spec_cache().subrange(0, self.line_cache@.len() as int) =~= self.spec_cache());
        }
        None
    }

    /// A frame that did not change.
    pub fn record_unchanged_frame(&mut self)
        ensures
            final(self).spec_stats().frames_no_change == sat_add(old(self).spec_stats().frames_no_change, 1),
            final(self).spec_stats().frames_changed == old(self).spec_stats().frames_changed,
            final(self).spec_stats().total_lines_seen == old(self).spec_stats().total_lines_seen,
            final(self).spec_stats().lines_from_cache == old(self).spec_stats().lines_from_cache,
            final(self).spec_stats().lines_translated_via_api == old(self).spec_stats().lines_translated_via_api,
            final(self).spec_cache() == old(self).spec_cache(),
            final(self).spec_previous() == old(self).spec_previous(),
    {
        self.frames_no_change = add_sat(self.frames_no_change, 1);
    }

    /// Diffs a changed frame against the previous one and lists what must
    /// be translated. Unchanged lines, and added lines whose text is cached
    /// or already listed, count as served from cache.
    pub fn plan_frame(&mut self, new_lines: &[OcrLine]) -> (r: FramePlan)
        ensures
            ({
                let added = select_lines(new_lines@, keys_of(old(self).spec_previous()), false);
                let unchanged = select_lines(new_lines@, keys_of(old(self).spec_previous()), true);
                let todo = texts_to_translate(added, old(self).spec_cache());
                &&& r.added == added.len()
                &&& r.unchanged == unchanged.len()
                &&& r.from_cache == unchanged.len() + (added.len() - todo.len())
                &&& r.to_translate@.map_values(|s: String| s@) == todo
                &&& final(self).spec_stats().lines_from_cache == sat_add(
                    sat_add(old(self).spec_stats().lines_from_cache, unchanged.len()),
                    (added.len() - todo.len()) as nat,
                )
            }),
            final(self).spec_stats().frames_changed == sat_add(old(self).spec_stats().frames_changed, 1),
            final(self).spec_stats().total_lines_seen == sat_add(
                old(self).spec_stats().total_lines_seen,
                new_lines@.len(),
            ),
            final(self).spec_stats().frames_no_change == old(self).spec_stats().frames_no_change,
            final(self).spec_stats().lines_translated_via_api == old(self).spec_stats().lines_translated_via_api,
            final(self).spec_cache() == old(self).spec_cache(),
            final(self).spec_previous() == old(self).spec_previous(),
    {
        let diff = diff_lines(self.previous_lines.as_slice(), new_lines);
        self.frames_changed = add_sat(self.frames_changed, 1);
        self.total_lines_seen = add_sat(self.total_lines_seen, new_lines.len() as u64);
        let mut todo: Vec<String> = Vec::new();
        let mut todo_chars: Vec<Vec<char>> = Vec::new();
        let mut i: usize = 0;
        let ghost cache = self.spec_cache();
        while i < diff.added.len()
            invariant
                i <= diff.added@.len(),
                cache == self.spec_cache(),
                todo@.map_values(|s: String| s@) == texts_to_translate(diff.added@.subrange(0, i as int), cache),
                todo_chars@.map_values(|v: Vec<char>| v@) == todo@.map_values(|s: String| s@),
                todo@.len() <= i,
            decreases diff.added.len() - i,
        {
            let text = diff.added[i].text.as_str();
            let ghost prev = todo@.map_values(|s: String| s@);
            proof {
                let sub = diff.added@.subrange(0, i + 1);
                assert(sub.drop_last() =~= diff.added@.subrange(0, i as int));
                assert(sub.last() == diff.added@[i as int]);
            }
            let cached = self.lookup(text);
            if cached.is_none() {
                let tc = chars_of(text);
                let mut listed = false;
                let mut j: usize = 0;
                while j < todo_chars.len()
                    invariant
                        j <= todo_chars@.len(),
                        tc@ == text@,
                        todo_chars@.map_values(|v: Vec<char>| v@) == prev,
                        listed == exists|m: int| 0 <= m < j && prev[m] == tc@,
                    decreases todo_chars.len() - j,
                {
                    assert(prev[j as int] == todo_chars@[j as int]@);
                    if seq_eq(&todo_chars[j], &tc) {
                        listed = true;
                    }
                    proof {
                        if !listed {
                            assert forall|m: int| 0 <= m < j + 1 implies prev[m] != tc@ by {
                                if m < j {
                                } else {
                                    assert(m == j);
                                }
                            }
                        }
                    }
                    j = j + 1;
                }
                if !listed {
                    todo.push(String::from_str(text));
                    todo_chars.push(tc);
                    proof {
                        assert(todo@.map_values(|s: String| s@) =~= prev.push(text@));
                        assert(todo_chars@.map_values(|v: Vec<char>| v@) =~= prev.push(text@));
                    }
                }
            }
            i = i + 1;
        }
        proof {
            assert(diff.added@.subrange(0, diff.added@.len() as int) =~= diff.added@);
        }
        let with_unchanged = add_sat(self.lines_from_cache, diff.unchanged.len() as u64);
        self.lines_from_cache = add_sat(with_unchanged, (diff.added.len() - todo.len()) as u64);
        proof {
            lemma_select_partition(new_lines@, keys_of(old(self).spec_previous()));
        }
        let from_cache = diff.unchanged.len() + (diff.added.len() - todo.len());
        FramePlan {
            added: diff.added.len(),
            unchanged: diff.unchanged.len(),
            from_cache,
            to_translate: todo,
        }
    }

    /// Records the pipeline's answer for `source`: the translation, or
    /// `None` when it failed, in which case the original text stands in.
    pub fn record_translation(&mut self, source: &str, translated: Option<String>)
        ensures
            final(self).spec_cache() == old(self).spec_cache().push(
                (
                    source@,
                    match translated {
                        Some(t) => t@,
                        None => source@,
                    },
                ),
            ),
            final(self).spec_stats().lines_translated_via_api == if translated is Some {
                sat_add(old(self).spec_stats().lines_translated_via_api, 1)
            } else {
                old(self).spec_stats().lines_translated_via_api
            },
            final(self).spec_stats().lines_from_cache == old(self).spec_stats().lines_from_cache,
            final(self).spec_stats().total_lines_seen == old(self).spec_stats().total_lines_seen,
            final(self).spec_stats().frames_changed == old(self).spec_stats().frames_changed,
            final(self).spec_stats().frames_no_change == old(self).spec_stats().frames_no_change,
            final(self).spec_previous() == old(self).spec_previous(),
    {
        let ghost before = self.spec_cache();
        let value = match translated {
            Some(t) => {
                self.lines_translated_via_api = add_sat(self.lines_translated_via_api, 1);
                t
            },
            None => String::from_str(source),
        };
        self.line_cache.push((String::from_str(source), value));
        assert(self.spec_cache() =~= before.push((source@, value@)));
    }

    /// Source and translated text of `lines`, one line each, joined by
    /// newlines; an uncached line shows its original text.
    pub fn build_merged(&self, lines: &[OcrLine]) -> (r: (String, String))
        ensures
            r.0@ == join_lines(lines@.map_values(|l: OcrLine| l.text@)),
            r.1@ == join_lines(
                lines@.map_values(
                    |l: OcrLine|
                        match cached_translation(self.spec_cache(), l.text@) {
                            Some(t) => t,
                            None => l.text@,
                        },
                ),
            ),
    {
        let ghost srcs = lines@.map_values(|l: OcrLine| l.text@);
        let ghost outs = lines@.map_values(
            |l: OcrLine|
                match cached_translation(self.spec_cache(), l.text@) {
                    Some(t) => t,
                    None => l.text@,
                },
        );
        let mut s: Vec<char> = Vec::new();
        let mut t: Vec<char> = Vec::new();
        let mut i: usize = 0;
        while i < lines.len()
            invariant
                i <= lines@.len(),
                srcs == lines@.map_values(|l: OcrLine| l.text@),
                outs == lines@.map_values(
                    |l: OcrLine|
                        match cached_translation(self.spec_cache(), l.text@) {
                            Some(t) => t,
                            None => l.text@,
                        },
                ),
                s@ == join_lines(srcs.subrange(0, i as int)),
                t@ == join_lines(outs.subrange(0, i as int)),
            decreases lines.len() - i,
        {
            if i > 0 {
                s.push('\n');
                t.push('\n');
            }
            let src = chars_of(lines[i].text.as_str());
            copy_range(&mut s, &src, 0, src.len());
            let out = match self.lookup(lines[i].text.as_str()) {
                Some(x) => chars_of(x.as_str()),
                None => src,
            };
            copy_range(&mut t, &out, 0, out.len());
            proof {
                assert(src@.subrange(0, src@.len() as int) =~= src@);
                assert(out@.subrange(0, out@.len() as int) =~= out@);
                assert(srcs.subrange(0, i + 1).drop_last() =~= srcs.subrange(0, i as int));
                assert(outs.subrange(0, i + 1).drop_last() =~= outs.subrange(0, i as int));
                assert(s@ =~= join_lines(srcs.subrange(0, i + 1)));
                assert(t@ =~= join_lines(outs.subrange(0, i + 1)));
            }
            i = i + 1;
        }
        proof {
            assert(srcs.subrange(0, lines@.len() as int) =~= srcs);
            assert(outs.subrange(0, lines@.len() as int) =~= outs);
        }
        (string_of(s.as_slice()), string_of(t.as_slice()))
    }

    /// Renders the frame and makes it the previous one.
    pub fn finish_frame(&mut self, new_lines: Vec<OcrLine>) -> (r: (String, String))
        ensures
            final(self).spec_previous() == new_lines@,
            final(self).spec_cache() == old(self).spec_cache(),
            final(self).spec_stats() == old(self).spec_stats(),
            r.0@ == join_lines(new_lines@.map_values(|l: OcrLine| l.text@)),
            r.1@ == join_lines(
                new_lines@.map_values(
                    |l: OcrLine|
                        match cached_translation(old(self).spec_cache(), l.text@) {
                            Some(t) => t,
                            None => l.text@,
                        },
                ),
            ),
    {
        let r = self.build_merged(new_lines.as_slice());
        self.previous_lines = new_lines;
        r
    }

    /// Whether any line has been translated or cached this session.
    pub fn has_translations(&self) -> (r: bool)
        ensures
            r == (self.spec_cache().len() > 0),
    {
        self.line_cache.len() > 0
    }

    /// The previous frame rendered again (for the session summary).
    pub fn merged_previous(&self) -> (r: (String, String))
        ensures
            r.0@ == join_lines(self.spec_previous().map_values(|l: OcrLine| l.text@)),
    {
        self.build_merged(self.previous_lines.as_slice())
    }

    /// `lines_from_cache / (lines_from_cache + lines_translated_via_api)`,
    /// as a whole percentage.
    pub fn token_saving_pct(&self) -> (r: u64)
        ensures
            r == self.spec_stats().token_saving_pct,
    {
        saving_pct(self.lines_from_cache, self.lines_translated_via_api)
    }

    pub fn stats(&self) -> (r: RealtimeStats)
        ensures
            r == self.spec_stats(),
    {
        RealtimeStats {
            total_lines_seen: self.total_lines_seen,
            lines_translated_via_api: self.lines_translated_via_api,
            lines_from_cache: self.lines_from_cache,
            token_saving_pct: self.token_saving_pct(),
            frames_no_change: self.frames_no_change,
            frames_changed: self.frames_changed,
        }
    }
}

/// Lines joined by newlines.
pub open spec fn join_lines(lines: Seq<Seq<char>>) -> Seq<char>
    decreases lines.len(),
{
    if lines.len() == 0 {
        Seq::empty()
    } else if lines.len() == 1 {
        lines[0]
    } else {
        join_lines(lines.drop_last()) + seq!['\n'] + lines.last()
    }
}

proof fn lemma_cached_prefix(cache: Seq<(Seq<char>, Seq<char>)>, text: Seq<char>, n: int)
    requires
        0 < n <= cache.len(),
        cached_translation(cache.subrange(0, n - 1), text) is None,
        cache[n - 1].0 == text,
    ensures
        cached_translation(cache, text) == Some(cache[n - 1].1),
    decreases cache.len() - n,
{
    assert(cache.subrange(0, n).drop_last() =~= cache.subrange(0, n - 1));
    if n < cache.len() {
        assert(cache.subrange(0, n + 1).drop_last() =~= cache.subrange(0, n));
        lemma_cached_prefix_extend(cache, text, n);
    } else {
        assert(cache.subrange(0, n) =~= cache);
    }
}

proof fn lemma_cached_prefix_extend(cache: Seq<(Seq<char>, Seq<char>)>, text: Seq<char>, n: int)
    requires
        0 < n <= cache.len(),
        cached_translation(cache.subrange(0, n), text) is Some,
    ensures
        cached_translation(cache, text) == cached_translation(cache.subrange(0, n), text),
    decreases cache.len() - n,
{
    if n < cache.len() {
        assert(cache.subrange(0, n + 1).drop_last() =~= cache.subrange(0, n));
        lemma_cached_prefix_extend(cache, text, n + 1);
    } else {
        assert(cache.subrange(0, n) =~= cache);
    }
}

} // verus!
