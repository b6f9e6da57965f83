use ciallo::cache::TranslationCache;
use ciallo::digest::{compute_key, line_hash, same_digest};
use ciallo::glossary::{folded_contains, Glossary, GlossaryEntry};
use ciallo::normalize::{detect_language, normalize, PlaceholderProtector};
use ciallo::prompt::{build_request_body, build_user_prompt, escape_json_string, estimate_max_tokens};
use ciallo::retry::{error_for, AttemptOutcome, RetryState, RetryStep};
use ciallo::sse::SseParser;
use ciallo::translate::{TranslateError, TranslationService};

fn entry(s: &str, t: &str) -> GlossaryEntry {
    GlossaryEntry { source: s.to_string(), target: t.to_string() }
}

#[test]
fn placeholders_numbered_across_patterns() {
    let p = PlaceholderProtector::new();
    let (text, entries) = p.protect("See https://example.com for 3.5kg and 42 items");
    assert_eq!(text, "See <<PH0>> for <<PH1>> and <<PH2>> items");
    assert_eq!(entries.len(), 3);
    assert_eq!(entries[0].original, "https://example.com");
    assert_eq!(entries[1].original, "3.5kg");
    assert_eq!(entries[2].tag, "<<PH2>>");
    assert_eq!(entries[2].original, "42");
}

#[test]
fn placeholder_round_trip_identity_translation() {
    let p = PlaceholderProtector::new();
    for t in [
        "mail me@example.org about `cargo build` at 10:30",
        "plain words only",
        "",
        "100% of 5 boxes, 12px wide, see http://a.b/c?d=1",
        "`42`",
        "5kg 0",
    ] {
        let (text, entries) = p.protect(t);
        assert_eq!(p.restore(&text, &entries), t);
    }
}

#[test]
fn restore_replaces_every_occurrence() {
    let p = PlaceholderProtector::new();
    let (_, entries) = p.protect("x 7 y");
    assert_eq!(p.restore("<<PH0>> and <<PH0>>", &entries), "7 and 7");
}

#[test]
fn normalize_protects_and_detects() {
    let n = normalize("Visit https://rust-lang.org today");
    assert_eq!(n.normalized_text, "Visit <<PH0>> today");
    assert_eq!(n.placeholders.len(), 1);
    let lang = detect_language("This is a rather long English sentence about the weather and the sea.");
    assert_eq!(lang.as_deref(), Some("en"));
}

#[test]
fn glossary_matches_ignoring_case() {
    let g = Glossary::new(3, vec![entry("Rust", "锈"), entry("cargo", "货物"), entry("tokio", "东京")]);
    let m = g.match_entries("I love RUST and Cargo");
    assert_eq!(m.len(), 2);
    assert_eq!(m[0].target, "锈");
    assert_eq!(m[1].source, "cargo");
    assert_eq!(g.version(), 3);
    assert_eq!(Glossary::empty().version(), 0);
    assert!(Glossary::empty().match_entries("anything").is_empty());
    assert!(folded_contains("hello world", "o w"));
    assert!(!folded_contains("hello", "world"));
}

#[test]
fn json_escaping() {
    assert_eq!(escape_json_string("a\"b\\c\nd\re\tf"), "a\\\"b\\\\c\\nd\\re\\tf");
    assert_eq!(escape_json_string("\u{1}x\u{7f}"), "\\u0001x\\u007f");
    assert_eq!(escape_json_string("你好"), "你好");
}

#[test]
fn user_prompt_shapes() {
    assert_eq!(build_user_prompt("Hi \"x\"", "zh", &[]), "{\"t\":\"Hi \\\"x\\\"\",\"l\":\"zh\"}");
    let g = vec![entry("a", "b"), entry("c", "d")];
    assert_eq!(
        build_user_prompt("t", "zh", &g),
        "{\"t\":\"t\",\"l\":\"zh\",\"g\":{\"a\":\"b\",\"c\":\"d\"}}"
    );
}

#[test]
fn max_tokens_formula() {
    assert_eq!(estimate_max_tokens(""), 64);
    assert_eq!(estimate_max_tokens(&"a".repeat(120)), 78);
    assert_eq!(estimate_max_tokens(&"a".repeat(600)), 262);
    assert_eq!(estimate_max_tokens(&"a".repeat(10_000)), 768);
}

#[test]
fn request_body_serialises_prompt() {
    let body = build_request_body("{\"t\":\"x\",\"l\":\"zh\"}", 64);
    let v: serde_json::Value = serde_json::from_str(&body).unwrap();
    assert_eq!(v["model"], "deepseek-chat");
    assert_eq!(v["max_tokens"], 64);
    assert_eq!(v["stream"], true);
    assert_eq!(v["messages"][1]["content"], "{\"t\":\"x\",\"l\":\"zh\"}");
    assert_eq!(v["messages"][0]["role"], "system");
}

#[test]
fn cache_key_depends_on_every_part() {
    let k = compute_key("en", "zh", 1, "hello");
    assert_eq!(k, compute_key("en", "zh", 1, "hello"));
    assert_ne!(k, compute_key("en", "zh", 2, "hello"));
    assert_ne!(k, compute_key("fr", "zh", 1, "hello"));
    let mut material = Vec::new();
    material.extend_from_slice(b"en|zh|");
    material.extend_from_slice(&1u32.to_le_bytes());
    material.extend_from_slice(b"|hello");
    assert_eq!(k, *blake3::hash(&material).as_bytes());
}

#[test]
fn line_hash_depends_on_text_and_bucket() {
    assert!(same_digest(&line_hash("abc", 17), &line_hash("abc", 23)));
    assert!(!same_digest(&line_hash("abc", 15), &line_hash("abc", 16)));
    assert!(!same_digest(&line_hash("abc", 16), &line_hash("abd", 16)));
    let mut material = b"abc|".to_vec();
    material.extend_from_slice(&16u32.to_le_bytes());
    assert_eq!(line_hash("abc", 17), *blake3::hash(&material).as_bytes());
}

#[test]
fn cache_hit_within_ttl_then_expired() {
    let mut c = TranslationCache::new(2, 600_000);
    let k = compute_key("en", "zh", 0, "a");
    c.insert(k, "甲".to_string(), 1_000);
    assert_eq!(c.get(&k, 1_000 + 599_999), Some("甲".to_string()));
    assert_eq!(c.get(&k, 1_000 + 600_000), None);
    assert_eq!(c.len(), 0);
}

#[test]
fn cache_never_exceeds_capacity() {
    let mut c = TranslationCache::new(2, 600_000);
    for i in 0..5u32 {
        c.insert(compute_key("en", "zh", i, "x"), format!("v{i}"), 0);
        assert!(c.len() <= 2);
    }
    assert_eq!(c.get(&compute_key("en", "zh", 4, "x"), 1), Some("v4".to_string()));
    assert_eq!(c.get(&compute_key("en", "zh", 0, "x"), 1), None);
}

fn sse_line(content: &str) -> String {
    format!("data: {{\"choices\":[{{\"delta\":{{\"content\":\"{content}\"}}}}]}}\n\n")
}

fn stream_text() -> String {
    let mut s = String::new();
    s.push_str(&sse_line("你好"));
    s.push_str(&sse_line("，"));
    s.push_str(&sse_line("世界。"));
    s.push_str("data: {\"choices\":[{\"delta\":{}}],\"usage\":{\"total_tokens\":17}}\n");
    s.push_str("data: [DONE]\n");
    s
}

#[test]
fn sse_content_independent_of_chunking() {
    let whole = stream_text();
    let chars: Vec<char> = whole.chars().collect();
    for size in [1usize, 2, 3, 7, 50, 1000] {
        let mut p = SseParser::new(0);
        let mut emitted = String::new();
        for (i, chunk) in chars.chunks(size).enumerate() {
            let s: String = chunk.iter().collect();
            for b in p.feed(&s, i as u64) {
                emitted.push_str(&b);
            }
        }
        if let Some(rest) = p.finish(10_000) {
            emitted.push_str(&rest);
        }
        assert_eq!(p.content(), "你好，世界。");
        assert_eq!(emitted, "你好，世界。");
        assert!(p.is_done());
        assert_eq!(p.tokens_used(), Some(17));
    }
}

#[test]
fn sse_batches_at_flush_interval() {
    let mut p = SseParser::new(0);
    assert!(p.feed(&sse_line("a"), 10).is_empty());
    assert_eq!(p.feed(&sse_line("b"), 45), vec!["ab".to_string()]);
    assert!(p.feed(&sse_line("c"), 50).is_empty());
    assert_eq!(p.feed("data: [DONE]\n", 51), vec!["c".to_string()]);
    assert!(p.feed(&sse_line("ignored"), 200).is_empty());
    assert_eq!(p.content(), "abc");
}

fn step(s: &mut RetryState, status: u16) -> RetryStep {
    s.next_step(&AttemptOutcome::Response { status, retry_after_secs: None })
}

#[test]
fn retry_ladder_429() {
    for n in 0..=3u32 {
        let mut s = RetryState::new();
        let mut waits = Vec::new();
        for _ in 0..n {
            match step(&mut s, 429) {
                RetryStep::Wait { ms } => waits.push(ms),
                other => panic!("unexpected {other:?}"),
            }
        }
        assert_eq!(step(&mut s, 200), RetryStep::Proceed);
        assert_eq!(waits, [1000, 2000, 4000][..n as usize].to_vec());
    }
    let mut s = RetryState::new();
    for _ in 0..3 {
        step(&mut s, 429);
    }
    let last = step(&mut s, 429);
    assert_eq!(last, RetryStep::RateLimited);
    let outcome = AttemptOutcome::Response { status: 429, retry_after_secs: None };
    assert!(matches!(error_for(last, &outcome), Some(TranslateError::RateLimited { retry_after_ms: 0 })));
}

#[test]
fn retry_ladder_other_outcomes() {
    let mut s = RetryState::new();
    let r = s.next_step(&AttemptOutcome::Response { status: 429, retry_after_secs: Some(7) });
    assert_eq!(r, RetryStep::Wait { ms: 7000 });
    let mut s = RetryState::new();
    assert_eq!(step(&mut s, 503), RetryStep::Wait { ms: 500 });
    assert_eq!(step(&mut s, 503), RetryStep::Wait { ms: 1000 });
    assert_eq!(step(&mut s, 503), RetryStep::ServerError { status: 503 });
    let e = error_for(RetryStep::ServerError { status: 503 }, &AttemptOutcome::TimedOut).unwrap();
    assert_eq!(e.message(), "API error: server error: 503");
    let mut s = RetryState::new();
    assert_eq!(s.next_step(&AttemptOutcome::TimedOut), RetryStep::RetryNow);
    assert_eq!(s.next_step(&AttemptOutcome::TimedOut), RetryStep::TimedOut);
    assert_eq!(step(&mut s, 404), RetryStep::UnexpectedStatus { status: 404 });
    assert_eq!(TranslateError::RateLimited { retry_after_ms: 0 }.message(), "rate limited, retry after 0ms");
    assert_eq!(TranslateError::Cancelled.message(), "translation cancelled");
}

#[test]
fn scenario_selection_translate_then_cached() {
    let mut service = TranslationService::new(TranslationCache::new(512, 600_000), Glossary::empty());
    let source = "Hello, world.";
    let prepared = service.prepare(source, "zh");
    assert!(service.lookup_l1(&prepared, 0).is_none());
    let body = service.request_body(&prepared, "zh");
    assert!(body.contains("\\\"t\\\":\\\"Hello, world.\\\""));
    let mut parser = SseParser::new(0);
    let mut chunks = Vec::new();
    let all = stream_text();
    let parts: Vec<&str> = all.split_inclusive("\n\n").collect();
    for (i, part) in parts.iter().enumerate() {
        chunks.extend(parser.feed(part, 50 * i as u64));
    }
    chunks.extend(parser.finish(1_000));
    assert!(!chunks.is_empty());
    assert_eq!(chunks.concat(), "你好，世界。");
    let result = service.complete("r1", &prepared, &parser.content(), 17, 120, 1_000);
    assert_eq!(result.translated_text, "你好，世界。");
    assert!(!result.cached);
    let again = service.prepare(source, "zh");
    let hit = service.lookup_l1(&again, 2_000).expect("second request is cached");
    let cached = service.cached_result("r2", &again, hit);
    assert!(cached.cached);
    assert_eq!(cached.translated_text, "你好，世界。");
    assert_eq!(cached.tokens_used, 0);
}

#[test]
fn cache_evicts_least_recently_used_only_when_full() {
    let mut c = TranslationCache::new(2, 600_000);
    let (a, b, d) = (compute_key("en", "zh", 0, "a"), compute_key("en", "zh", 0, "b"), compute_key("en", "zh", 0, "d"));
    c.insert(a, "A".to_string(), 0);
    c.insert(b, "B".to_string(), 0);
    assert_eq!(c.len(), 2);
    assert_eq!(c.get(&a, 1), Some("A".to_string()));
    c.insert(d, "D".to_string(), 2);
    assert_eq!(c.get(&b, 3), None);
    assert_eq!(c.get(&a, 3), Some("A".to_string()));
    assert_eq!(c.get(&d, 3), Some("D".to_string()));
    c.insert(a, "A2".to_string(), 4);
    assert_eq!(c.len(), 2);
    assert_eq!(c.get(&a, 5), Some("A2".to_string()));
}
