use vstd::prelude::*;
use crate::glossary::GlossaryEntry;
use crate::text::{chars_of, string_of, push_decimal, decimal, copy_range};
use crate::cache::TranslationCache;
use crate::digest::{blake3_of, key_material, compute_key};
use crate::glossary::{Glossary, glossary_entry_view, matching_entries};
use crate::normalize::{
    NormalizeResult, PlaceholderProtector, normalize, spec_detect_language, entries_view,
    protect_entries, protector_patterns, apply_entries, restore_entries,
};
use crate::prompt::{build_user_prompt, build_request_body, estimate_max_tokens, user_prompt, request_body, max_tokens_for};
use vstd::utf8::encode_utf8;

verus! {

/// A translation request.
#[derive(Clone, Debug)]
pub struct TranslateRequest {
    pub request_id: String,
    pub generation: u64,
    pub source_text: String,
    pub source_lang: Option<String>,
    pub target_lang: String,
    pub glossary_entries: Vec<GlossaryEntry>,
    pub stream: bool,
}

/// A finished translation.
#[derive(Clone, Debug)]
pub struct TranslateResult {
    pub request_id: String,
    pub translated_text: String,
    pub source_lang_detected: Option<String>,
    pub tokens_used: u32,
    pub cached: bool,
    pub elapsed_ms: u64,
}

/// Why a translation failed.
#[derive(Clone, Debug)]
pub enum TranslateError {
    ApiError(String),
    RateLimited { retry_after_ms: u64 },
    Timeout,
    Cancelled,
    InvalidInput(String),
}

/// The text shown for an error.
pub open spec fn error_text(e: TranslateError) -> Seq<char> {
    match e {
        TranslateError::ApiError(m) => "API error: "@ + m@,
        TranslateError::RateLimited { retry_after_ms } => "rate limited, retry after "@ + decimal(
            retry_after_ms as nat,
        ) + "ms"@,
        TranslateError::Timeout => "translation timeout"@,
        TranslateError::Cancelled => "translation cancelled"@,
        TranslateError::InvalidInput(m) => "invalid input: "@ + m@,
    }
}

fn concat_str(a: &str, b: &str) -> (r: String)
    ensures
        r@ == a@ + b@,
{
    let mut v = chars_of(a);
    let w = chars_of(b);
    copy_range(&mut v, &w, 0, w.len());
    assert(w@.subrange(0, w@.len() as int) == w@);
    string_of(v.as_slice())
}

impl TranslateError {
    /// Describes the error for the user interface.
    pub fn message(&self) -> (r: String)
        ensures
            r@ == error_text(*self),
    {
        proof {
            reveal_strlit("API error: ");
            reveal_strlit("rate limited, retry after ");
            reveal_strlit("ms");
            reveal_strlit("translation timeout");
            reveal_strlit("translation cancelled");
            reveal_strlit("invalid input: ");
        }
        match self {
            TranslateError::ApiError(m) => concat_str("API error: ", m.as_str()),
            TranslateError::RateLimited { retry_after_ms } => {
                let mut v = chars_of("rate limited, retry after ");
                push_decimal(&mut v, *retry_after_ms);
                v.push('m');
                v.push('s');
                assert(v@ =~= error_text(*self));
                string_of(v.as_slice())
            },
            TranslateError::Timeout => String::from_str("translation timeout"),
            TranslateError::Cancelled => String::from_str("translation cancelled"),
            TranslateError::InvalidInput(m) => concat_str("invalid input: ", m.as_str()),
        }
    }

    /// Cancellation is absorbed silently, never shown as an error.
    pub fn is_cancelled(&self) -> (r: bool)
        ensures
            r == (*self is Cancelled),
    {
        match self {
            TranslateError::Cancelled => true,
            _ => false,
        }
    }
}

/// Everything the pipeline derives from a source text before any lookup.
pub struct Prepared {
    pub norm: NormalizeResult,
    /// Detected language, or `auto`.
    pub src_lang: String,
    /// Glossary entries found in the source text.
    pub matched: Vec<GlossaryEntry>,
    /// L1/L2 cache key.
    pub key: [u8; 32],
}

/// The language part of the cache key: the detected code, else `auto`.
pub open spec fn src_lang_of(text: Seq<char>) -> Seq<char> {
    match spec_detect_language(text) {
        Some(c) => c,
        None => "auto"@,
    }
}

/// Cache key of a request.
pub open spec fn request_key(text: Seq<char>, target: Seq<char>, glossary_version: u32) -> Seq<u8> {
    blake3_of(
        key_material(
            encode_utf8(src_lang_of(text)),
            encode_utf8(target),
            glossary_version,
            encode_utf8(apply_entries(text, protect_entries(protector_patterns(), text))),
        ),
    )
}

/// The translation pipeline's own state: the glossary, the L1 cache and
/// the placeholder protector. Network and disk stay with the caller, which
/// hands in what they returned.
pub struct TranslationService {
    pub cache: TranslationCache,
    pub glossary: Glossary,
    pub protector: PlaceholderProtector,
}

impl TranslationService {
    pub closed spec fn wf(&self) -> bool {
        self.cache.wf() && self.cache.spec_ttl() > 0 && self.protector.spec_patterns() == protector_patterns()
    }

    pub fn new(cache: TranslationCache, glossary: Glossary) -> (r: Self)
        requires
            cache.wf(),
            cache.spec_ttl() > 0,
        ensures
            r.wf(),
            r.cache == cache,
            r.glossary == glossary,
    {
        TranslationService { cache, glossary, protector: PlaceholderProtector::new() }
    }

    /// Normalises the text, matches the glossary and computes the key.
    pub fn prepare(&self, source_text: &str, target_lang: &str) -> (r: Prepared)
        requires
            self.wf(),
        ensures
            r.norm.normalized_text@ == apply_entries(
                source_text@,
                protect_entries(protector_patterns(), source_text@),
            ),
            entries_view(r.norm.placeholders@) == protect_entries(protector_patterns(), source_text@),
            r.src_lang@ == src_lang_of(source_text@),
            r.matched@.map_values(|e: GlossaryEntry| glossary_entry_view(e)) == matching_entries(
                self.glossary.spec_entries(),
                source_text@,
            ).map_values(|e: GlossaryEntry| glossary_entry_view(e)),
            r.key@ == request_key(source_text@, target_lang@, self.glossary.spec_version()),
    {
        let norm = normalize(source_text);
        let src_lang = match &norm.detected_lang {
            Some(c) => c.clone(),
            None => String::from_str("auto"),
        };
        proof {
            reveal_strlit("auto");
        }
        let matched = self.glossary.match_entries(source_text);
        let key = compute_key(
            src_lang.as_str(),
            target_lang,
            self.glossary.version(),
            norm.normalized_text.as_str(),
        );
        Prepared { norm, src_lang, matched, key }
    }

    /// L1 lookup at `now_ms`.
    pub fn lookup_l1(&mut self, prepared: &Prepared, now_ms: u64) -> (r: Option<String>)
        requires
            old(self).wf(),
        ensures
            final(self).wf(),
            final(self).glossary == old(self).glossary,
            match r {
                Some(s) => old(self).cache.lookup(prepared.key@, now_ms) == Some(s@),
                None => old(self).cache.lookup(prepared.key@, now_ms) is None,
            },
    {
        self.cache.get(&prepared.key, now_ms)
    }

    /// Copies an L2 hit into L1.
    pub fn promote(&mut self, prepared: &Prepared, text: &str, now_ms: u64)
        requires
            old(self).wf(),
        ensures
            final(self).wf(),
            final(self).glossary == old(self).glossary,
            final(self).cache.lookup(prepared.key@, now_ms) == Some(text@),
    {
        self.cache.insert(prepared.key, String::from_str(text), now_ms);
    }

    /// The result for a cache hit: the full text, `cached`, no tokens.
    pub fn cached_result(&self, request_id: &str, prepared: &Prepared, text: String) -> (r:
        TranslateResult)
        ensures
            r.request_id@ == request_id@,
            r.translated_text == text,
            r.source_lang_detected == prepared.norm.detected_lang,
            r.tokens_used == 0,
            r.cached,
            r.elapsed_ms == 0,
    {
        TranslateResult {
            request_id: String::from_str(request_id),
            translated_text: text,
            source_lang_detected: prepared.norm.detected_lang.clone(),
            tokens_used: 0,
            cached: true,
            elapsed_ms: 0,
        }
    }

    /// The chat-completion body for the API call.
    pub fn request_body(&self, prepared: &Prepared, target_lang: &str) -> (r: String)
        ensures
            r@ == request_body(
                user_prompt(prepared.norm.normalized_text@, target_lang@, prepared.matched@),
                max_tokens_for(prepared.norm.normalized_text@.len()) as nat,
            ),
    {
        let prompt = build_user_prompt(prepared.norm.normalized_text.as_str(), target_lang, prepared.matched.as_slice());
        let max_tokens = estimate_max_tokens(prepared.norm.normalized_text.as_str());
        build_request_body(prompt.as_str(), max_tokens)
    }

    /// Finishes an API translation: restores the placeholders in the
    /// streamed text and writes the result to L1 at `now_ms`.
    pub fn complete(
        &mut self,
        request_id: &str,
        prepared: &Prepared,
        api_text: &str,
        tokens_used: u32,
        elapsed_ms: u64,
        now_ms: u64,
    ) -> (r: TranslateResult)
        requires
            old(self).wf(),
        ensures
            final(self).wf(),
            final(self).glossary == old(self).glossary,
            r.translated_text@ == restore_entries(api_text@, entries_view(prepared.norm.placeholders@)),
            r.request_id@ == request_id@,
            r.source_lang_detected == prepared.norm.detected_lang,
            r.tokens_used == tokens_used,
            !r.cached,
            r.elapsed_ms == elapsed_ms,
            final(self).cache.lookup(prepared.key@, now_ms) == Some(r.translated_text@),
    {
        let restored = self.protector.restore(api_text, prepared.norm.placeholders.as_slice());
        self.cache.insert(prepared.key, restored.clone(), now_ms);
        TranslateResult {
            request_id: String::from_str(request_id),
            translated_text: restored,
            source_lang_detected: prepared.norm.detected_lang.clone(),
            tokens_used,
            cached: false,
            elapsed_ms,
        }
    }
}

} // verus!
