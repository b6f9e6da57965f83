use vstd::prelude::*;
use crate::text::{chars_of, string_of, trimmed, trim_str};

verus! {

/// `choices[0].delta.content` of the JSON document `data`, when `data` is a
/// JSON document and that member exists and is a string.
pub uninterp spec fn delta_content_of(data: Seq<char>) -> Option<Seq<char>>;

/// Relies on `serde_json::from_str` into a `Value`, `Value::pointer` and
/// `Value::as_str`.
#[verifier::external_body]
fn delta_content(data: &str) -> (r: Option<String>)
    ensures
        match r {
            Some(c) => delta_content_of(data@) == Some(c@),
            None => delta_content_of(data@) is None,
        },
{
    serde_json::from_str::<serde_json::Value>(data).ok().and_then(
        |v| v.pointer("/choices/0/delta/content").and_then(|c| c.as_str()).map(|c| c.to_string()),
    )
}

/// `usage.total_tokens` of the JSON document `data`, when present and a
/// non-negative integer.
pub uninterp spec fn usage_tokens_of(data: Seq<char>) -> Option<u64>;

/// Relies on `serde_json::from_str` into a `Value`, `Value::pointer` and
/// `Value::as_u64`.
#[verifier::external_body]
fn usage_tokens(data: &str) -> (r: Option<u64>)
    ensures
        r == usage_tokens_of(data@),
{
    serde_json::from_str::<serde_json::Value>(data).ok().and_then(
        |v| v.pointer("/usage/total_tokens").and_then(|t| t.as_u64()),
    )
}

/// What one line of the event stream means.
pub enum LineEvent {
    Content(Seq<char>),
    Done,
    Ignore,
}

pub open spec fn data_prefix() -> Seq<char> {
    "data: "@
}

/// The payload of a `data: ` line, after trimming.
pub open spec fn line_data(line: Seq<char>) -> Option<Seq<char>> {
    let t = trimmed(line);
    if t.len() >= 6 && t.subrange(0, 6) == data_prefix() {
        Some(t.subrange(6, t.len() as int))
    } else {
        None
    }
}

pub open spec fn line_event(line: Seq<char>) -> LineEvent {
    match line_data(line) {
        Some(d) => if d == "[DONE]"@ {
            LineEvent::Done
        } else {
            match delta_content_of(d) {
                Some(c) => LineEvent::Content(c),
                None => LineEvent::Ignore,
            }
        },
        None => LineEvent::Ignore,
    }
}

/// The complete lines of `s` (each ended by a newline, which is dropped)
/// and the unfinished last line.
pub open spec fn split_lines(s: Seq<char>) -> (Seq<Seq<char>>, Seq<char>)
    decreases s.len(),
{
    if s.len() == 0 {
        (Seq::empty(), Seq::empty())
    } else {
        let (lines, cur) = split_lines(s.drop_last());
        if s.last() == '\n' {
            (lines.push(cur), Seq::empty())
        } else {
            (lines, cur.push(s.last()))
        }
    }
}

/// Some line is the `[DONE]` marker.
pub open spec fn lines_done(lines: Seq<Seq<char>>) -> bool
    decreases lines.len(),
{
    if lines.len() == 0 {
        false
    } else {
        lines_done(lines.drop_last()) || line_event(lines.last()) is Done
    }
}

/// The deltas of the lines, in order, up to the `[DONE]` marker.
pub open spec fn lines_content(lines: Seq<Seq<char>>) -> Seq<char>
    decreases lines.len(),
{
    if lines.len() == 0 {
        Seq::empty()
    } else if lines_done(lines.drop_last()) {
        lines_content(lines.drop_last())
    } else {
        match line_event(lines.last()) {
            LineEvent::Content(c) => lines_content(lines.drop_last()) + c,
            _ => lines_content(lines.drop_last()),
        }
    }
}

/// The text a stream carries: the deltas of its complete lines, in order,
/// up to `[DONE]`.
pub open spec fn stream_content(s: Seq<char>) -> Seq<char> {
    lines_content(split_lines(s).0)
}

/// The last token count that a complete line before `[DONE]` reported.
pub open spec fn lines_tokens(lines: Seq<Seq<char>>) -> Option<u64>
    decreases lines.len(),
{
    if lines.len() == 0 {
        None
    } else if lines_done(lines.drop_last()) {
        lines_tokens(lines.drop_last())
    } else {
        match line_data(lines.last()) {
            Some(d) => if d != "[DONE]"@ && usage_tokens_of(d) is Some {
                usage_tokens_of(d)
            } else {
                lines_tokens(lines.drop_last())
            },
            None => lines_tokens(lines.drop_last()),
        }
    }
}

pub open spec fn concat_all(parts: Seq<Seq<char>>) -> Seq<char>
    decreases parts.len(),
{
    if parts.len() == 0 {
        Seq::empty()
    } else {
        concat_all(parts.drop_last()) + parts.last()
    }
}

/// Minimum time between two flushes of streamed text.
pub const FLUSH_INTERVAL_MS: u64 = 40;

/// Incremental parser of a server-sent-events translation stream.
///
/// Chunks may split the stream anywhere; the parser's state depends only
/// on the concatenation of what it was fed. Streamed text is handed out in
/// batches, at most one per flush interval, and always at `[DONE]` and at
/// the end.
pub struct SseParser {
    line_buf: Vec<char>,
    full_text: Vec<char>,
    batch: Vec<char>,
    done: bool,
    tokens_used: Option<u64>,
    last_flush_ms: u64,
    consumed: Ghost<Seq<char>>,
    emitted: Ghost<Seq<char>>,
}

impl SseParser {
    /// Everything fed so far.
    pub closed spec fn consumed(&self) -> Seq<char> {
        self.consumed@
    }

    /// Everything handed out in batches so far.
    pub closed spec fn emitted(&self) -> Seq<char> {
        self.emitted@
    }

    pub closed spec fn spec_content(&self) -> Seq<char> {
        self.full_text@
    }

    pub closed spec fn spec_pending(&self) -> Seq<char> {
        self.batch@
    }

    pub closed spec fn spec_done(&self) -> bool {
        self.done
    }

    pub closed spec fn spec_tokens(&self) -> Option<u64> {
        self.tokens_used
    }

    pub closed spec fn wf(&self) -> bool {
        let (lines, cur) = split_lines(self.consumed@);
        &&& self.line_buf@ == cur
        &&& self.full_text@ == lines_content(lines)
        &&& self.done == lines_done(lines)
        &&& self.tokens_used == lines_tokens(lines)
        &&& self.emitted@ + self.batch@ == self.full_text@
        &&& self.done ==> self.batch@.len() == 0
    }

    /// When the pending batch was last handed out on the flush clock.
    pub closed spec fn spec_last_flush(&self) -> u64 {
        self.last_flush_ms
    }

    /// At `now`, the flush interval has passed since `last`.
    pub open spec fn interval_passed(last: u64, now: u64) -> bool {
        now >= last && now - last >= FLUSH_INTERVAL_MS
    }

    /// A parser that has seen nothing; `now_ms` starts the flush clock.
    pub fn new(now_ms: u64) -> (r: Self)
        ensures
            r.wf(),
            r.consumed() == Seq::<char>::empty(),
            r.emitted() == Seq::<char>::empty(),
    {
        let r = SseParser {
            line_buf: Vec::new(),
            full_text: Vec::new(),
            batch: Vec::new(),
            done: false,
            tokens_used: None,
            last_flush_ms: now_ms,
            consumed: Ghost(Seq::empty()),
            emitted: Ghost(Seq::empty()),
        };
        assert(r.emitted@ + r.batch@ =~= r.full_text@);
        r
    }

    /// Handles one complete line; `lines` are the complete lines before it.
    fn process_line(&mut self, line: &Vec<char>, Ghost(lines): Ghost<Seq<Seq<char>>>) -> (flushed:
        Option<String>)
        requires
            old(self).full_text@ == lines_content(lines),
            old(self).done == lines_done(lines),
            old(self).tokens_used == lines_tokens(lines),
            old(self).emitted@ + old(self).batch@ == old(self).full_text@,
            old(self).done ==> old(self).batch@.len() == 0,
        ensures
            final(self).done ==> final(self).batch@.len() == 0,
            old(self).done ==> final(self).done,
            flushed is Some ==> flushed->Some_0@.len() > 0 && final(self).done && !old(self).done,
            final(self).full_text@ == lines_content(lines.push(line@)),
            final(self).done == lines_done(lines.push(line@)),
            final(self).tokens_used == lines_tokens(lines.push(line@)),
            final(self).emitted@ + final(self).batch@ == final(self).full_text@,
            flushed is None ==> final(self).emitted@ == old(self).emitted@,
            flushed is Some ==> final(self).emitted@ == old(self).emitted@ + flushed->Some_0@,
            final(self).line_buf == old(self).line_buf,
            final(self).consumed == old(self).consumed,
            final(self).last_flush_ms == old(self).last_flush_ms,
    {
        let ghost all = lines.push(line@);
        proof {
            assert(all.drop_last() =~= lines);
            assert(all.last() == line@);
        }
        if self.done {
            return None;
        }
        proof {
            reveal_strlit("data: ");
            reveal_strlit("[DONE]");
        }
        let line_str = string_of(line.as_slice());
        let t = chars_of(trim_str(line_str.as_str()).as_str());
        let prefix = chars_of("data: ");
        let mut is_data = t.len() >= 6;
        let mut k: usize = 0;
        while is_data && k < 6
            invariant
                k <= 6,
                prefix@ == data_prefix(),
                prefix@.len() == 6,
                t@ == trimmed(line@),
                is_data ==> t@.len() >= 6,
                is_data ==> forall|m: int| 0 <= m < k ==> t@[m] == prefix@[m],
                !is_data ==> !(t@.len() >= 6 && t@.subrange(0, 6) == data_prefix()),
            decreases 6 - k,
        {
            if t[k] != prefix[k] {
                assert(t@.subrange(0, 6)[k as int] != prefix@[k as int]);
                is_data = false;
            }
            k = k + 1;
        }
        if !is_data {
            return None;
        }
        assert(t@.subrange(0, 6) =~= data_prefix());
        let mut data_chars: Vec<char> = Vec::new();
        crate::text::copy_range(&mut data_chars, &t, 6, t.len());
        assert(data_chars@ =~= t@.subrange(6, t@.len() as int));
        let data = string_of(data_chars.as_slice());
        let done_marker = chars_of("[DONE]");
        if crate::text::seq_eq(&data_chars, &done_marker) {
            self.done = true;
            if self.batch.len() > 0 {
                let out = string_of(self.batch.as_slice());
                self.emitted = Ghost(self.emitted@ + self.batch@);
                self.batch = Vec::new();
                assert(self.emitted@ + self.batch@ =~= self.full_text@);
                return Some(out);
            }
            return None;
        }
        match delta_content(data.as_str()) {
            Some(c) => {
                let cs = chars_of(c.as_str());
                let mut i: usize = 0;
                let ghost f0 = self.full_text@;
                let ghost b0 = self.batch@;
                while i < cs.len()
                    invariant
                        i <= cs@.len(),
                        self.emitted@ + b0 == f0,
                        self.emitted == old(self).emitted,
                        self.done == old(self).done,
                        self.tokens_used == old(self).tokens_used,
                        self.line_buf == old(self).line_buf,
                        self.consumed == old(self).consumed,
                        self.last_flush_ms == old(self).last_flush_ms,
                        self.full_text@ == f0 + cs@.subrange(0, i as int),
                        self.batch@ == b0 + cs@.subrange(0, i as int),
                    decreases cs.len() - i,
                {
                    self.full_text.push(cs[i]);
                    self.batch.push(cs[i]);
                    proof {
                        assert(cs@.subrange(0, i + 1) =~= cs@.subrange(0, i as int).push(cs@[i as int]));
                    }
                    i = i + 1;
                }
                assert(cs@.subrange(0, cs@.len() as int) =~= cs@);
                assert(self.emitted@ + self.batch@ =~= self.full_text@);
            },
            None => {},
        }
        match usage_tokens(data.as_str()) {
            Some(n) => {
                self.tokens_used = Some(n);
            },
            None => {},
        }
        None
    }

    /// Hands out the pending batch, if any, and restarts the flush clock.
    fn flush(&mut self, now_ms: u64) -> (r: Option<String>)
        ensures
            final(self).emitted@ == old(self).emitted@ + old(self).batch@,
            final(self).batch@ == Seq::<char>::empty(),
            match r {
                Some(f) => f@ == old(self).batch@ && f@.len() > 0,
                None => old(self).batch@.len() == 0,
            },
            final(self).full_text == old(self).full_text,
            final(self).done == old(self).done,
            final(self).tokens_used == old(self).tokens_used,
            final(self).line_buf == old(self).line_buf,
            r is Some ==> final(self).last_flush_ms == now_ms,
            r is None ==> final(self).last_flush_ms == old(self).last_flush_ms,
            final(self).consumed == old(self).consumed,
    {
        if self.batch.len() == 0 {
            assert(self.emitted@ + self.batch@ =~= self.emitted@);
            return None;
        }
        let out = string_of(self.batch.as_slice());
        self.emitted = Ghost(self.emitted@ + self.batch@);
        self.batch = Vec::new();
        self.last_flush_ms = now_ms;
        Some(out)
    }

    /// Feeds one chunk of the stream received at `now_ms`. Returns the
    /// batches handed out meanwhile, in order: one at `[DONE]`, and one at
    /// the end of the chunk when the flush interval has passed.
    pub fn feed(&mut self, chunk: &str, now_ms: u64) -> (r: Vec<String>)
        requires
            old(self).wf(),
        ensures
            final(self).wf(),
            final(self).consumed() == old(self).consumed() + chunk@,
            final(self).emitted() == old(self).emitted() + concat_all(
                r@.map_values(|s: String| s@),
            ),
            forall|i: int| 0 <= i < r@.len() ==> (#[trigger] r@[i])@.len() > 0,
            r@.len() <= 1,
            r@.len() == 1 && !(final(self).spec_done() && !old(self).spec_done()) ==> Self::interval_passed(
                old(self).spec_last_flush(),
                now_ms,
            ) && final(self).spec_last_flush() == now_ms,
            final(self).spec_pending().len() > 0 ==> !Self::interval_passed(
                old(self).spec_last_flush(),
                now_ms,
            ) && final(self).spec_last_flush() == old(self).spec_last_flush(),
            final(self).spec_done() ==> final(self).spec_pending().len() == 0,
    {
        let cs = chars_of(chunk);
        let ghost was_done = self.done;
        let mut out: Vec<String> = Vec::new();
        let mut i: usize = 0;
        let ghost e0 = self.emitted@;
        let ghost c0 = self.consumed@;
        while i < cs.len()
            invariant
                self.wf(),
                i <= cs@.len(),
                cs@ == chunk@,
                self.consumed@ == c0 + cs@.subrange(0, i as int),
                self.emitted@ == e0 + concat_all(out@.map_values(|s: String| s@)),
                self.last_flush_ms == old(self).last_flush_ms,
                was_done == old(self).done,
                was_done ==> self.done,
                out@.len() <= 1,
                out@.len() == 1 ==> self.done && !was_done && out@[0]@.len() > 0,
            decreases cs.len() - i,
        {
            let c = cs[i];
            let ghost before = self.consumed@;
            let ghost (lines, cur) = split_lines(before);
            let ghost out_before = out@.map_values(|s: String| s@);
            if c == '\n' {
                let line = self.line_buf.clone();
                assert(line@ == cur);
                let ghost em_before = self.emitted@;
                match self.process_line(&line, Ghost(lines)) {
                    Some(f) => {
                        out.push(f);
                        proof {
                            let now = out@.map_values(|s: String| s@);
                            assert(now.drop_last() =~= out_before);
                            assert(now.last() == f@);
                            assert(concat_all(now) == concat_all(out_before) + f@);
                            assert(self.emitted@ =~= e0 + concat_all(now));
                        }
                    },
                    None => {},
                }
                self.line_buf = Vec::new();
            } else {
                self.line_buf.push(c);
            }
            self.consumed = Ghost(before.push(c));
            proof {
                assert(self.consumed@.drop_last() =~= before);
                assert(c0 + cs@.subrange(0, i + 1) =~= (c0 + cs@.subrange(0, i as int)).push(c));
            }
            i = i + 1;
        }
        proof {
            assert(cs@.subrange(0, cs@.len() as int) =~= cs@);
        }
        if self.batch.len() > 0 && now_ms >= self.last_flush_ms && now_ms - self.last_flush_ms
            >= FLUSH_INTERVAL_MS {
            let ghost out_before = out@.map_values(|s: String| s@);
            match self.flush(now_ms) {
                Some(f) => {
                    out.push(f);
                    proof {
                        let now = out@.map_values(|s: String| s@);
                        assert(now.drop_last() =~= out_before);
                        assert(now.last() == f@);
                        assert(concat_all(now) == concat_all(out_before) + f@);
                        assert(self.emitted@ =~= e0 + concat_all(now));
                    }
                },
                None => {},
            }
        }
        out
    }

    /// Ends the stream: hands out whatever is still pending.
    pub fn finish(&mut self, now_ms: u64) -> (r: Option<String>)
        requires
            old(self).wf(),
        ensures
            final(self).wf(),
            r is Some ==> r->Some_0@.len() > 0,
            final(self).spec_pending().len() == 0,
            final(self).consumed() == old(self).consumed(),
            final(self).emitted() == final(self).spec_content(),
            final(self).spec_content() == old(self).spec_content(),
            final(self).emitted() == old(self).emitted() + match r {
                Some(f) => f@,
                None => Seq::<char>::empty(),
            },
    {
        let r = self.flush(now_ms);
        assert(self.emitted@ + self.batch@ =~= self.emitted@);
        r
    }

    /// The translated text received so far.
    pub fn content(&self) -> (r: String)
        ensures
            r@ == self.spec_content(),
    {
        string_of(self.full_text.as_slice())
    }

    /// Whether `[DONE]` has been seen.
    pub fn is_done(&self) -> (r: bool)
        ensures
            r == self.spec_done(),
    {
        self.done
    }

    /// The last token count reported by the server.
    pub fn tokens_used(&self) -> (r: Option<u64>)
        ensures
            r == self.spec_tokens(),
    {
        self.tokens_used
    }
}

/// However a valid stream is cut into chunks, the parser reconstructs the
/// same text: the deltas of its `data:` lines in emission order, up to
/// `[DONE]`.
pub proof fn lemma_content_independent_of_chunking(p: &SseParser)
    requires
        p.wf(),
    ensures
        p.spec_content() == stream_content(p.consumed()),
{
}

} // verus!
