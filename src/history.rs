use vstd::prelude::*;

verus! {

/// One translation recorded to history.
#[derive(Clone, Debug)]
pub struct HistoryRecord {
    pub request_id: String,
    pub source_text: String,
    pub translated_text: String,
    pub source_lang: Option<String>,
    pub target_lang: String,
    /// `selection`, `ocr_region` or `realtime`.
    pub mode: String,
    pub tokens_used: u32,
    pub cached: bool,
    /// Seconds since the Unix epoch.
    pub created_at: i64,
}

/// Flush period of the history writer.
pub const HISTORY_FLUSH_MS: u64 = 300;

/// Records asked for when no limit is given.
pub const DEFAULT_HISTORY_LIMIT: usize = 50;

impl HistoryRecord {
    /// The record of a finished translation in `mode`.
    pub fn finished(
        request_id: String,
        source_text: String,
        translated_text: String,
        target_lang: String,
        mode: String,
        created_at: i64,
    ) -> (r: Self)
        ensures
            r.request_id == request_id,
            r.source_text == source_text,
            r.translated_text == translated_text,
            r.source_lang is None,
            r.target_lang == target_lang,
            r.mode == mode,
            r.tokens_used == 0,
            !r.cached,
            r.created_at == created_at,
    {
        HistoryRecord {
            request_id,
            source_text,
            translated_text,
            source_lang: None,
            target_lang,
            mode,
            tokens_used: 0,
            cached: false,
            created_at,
        }
    }
}

/// Seconds before `now` beyond which records of `days` days are removed.
pub open spec fn spec_cutoff(now: i64, days: u32) -> int {
    now - days as int * 86400
}

/// Cut-off time for removing records older than `days` days, saturating.
pub fn cleanup_cutoff(now: i64, days: u32) -> (r: i64)
    ensures
        spec_cutoff(now, days) >= i64::MIN ==> r == spec_cutoff(now, days),
        spec_cutoff(now, days) < i64::MIN ==> r == i64::MIN,
{
    let span = days as i64 * 86400;
    if now >= i64::MIN + span {
        now - span
    } else {
        i64::MIN
    }
}

} // verus!
