use ciallo::capture::{
    detect_backend, judge_clipboard, make_text_packet, CaptureBackend, CaptureError, CaptureSource,
    ClipboardCapture, ScreenCapture, ScreenCaptureError,
};
use ciallo::cancellation::CancelCoordinator;
use ciallo::history::{cleanup_cutoff, HistoryRecord};
use ciallo::metrics::{MetricsRegistry, RequestIds, SampleRing};
use ciallo::ocr::{
    frame_len, frame_message, health_step, interpret_reply, roi_wire_name, BBox, OcrError, OcrLine,
    OcrResult, PreprocessConfig, RoiParams, RoiType, StubOcrEngine, OcrEngine, WorkerReply,
};
use ciallo::pipeline::{
    after_capture, after_ocr, after_translate, begin_ocr, build_roi, join_ocr_lines, parse_mode,
    render_result, roi_request_parts, select_mode, ModeAction, OcrOutcome, UiEvent,
};
use ciallo::realtime::{diff_lines, saving_pct, RealtimeSession};
use ciallo::scheduler::{OcrRoi, P1Task};
use ciallo::state_machine::{AppState, StateMachine, TranslateMode};
use ciallo::translate::TranslateError;

fn line(text: &str, y: u32) -> OcrLine {
    OcrLine {
        text: text.to_string(),
        confidence_milli: 900,
        bbox: BBox { x: 0, y: y.saturating_sub(5), w: 100, h: 10 },
        y_center: y,
    }
}

fn in_capture(mode: &str) -> (StateMachine, CancelCoordinator, ModeAction) {
    let mut sm = StateMachine::new();
    sm.transition(AppState::WakeConfirm).unwrap();
    sm.transition(AppState::ModeSelect).unwrap();
    let mut c = CancelCoordinator::new();
    let a = select_mode(&mut sm, &mut c, mode, true).unwrap();
    (sm, c, a)
}

#[test]
fn mode_selection() {
    assert_eq!(parse_mode("ocr_region"), Ok(TranslateMode::OcrRegion));
    assert_eq!(parse_mode("dance"), Err("unknown mode: dance".to_string()));
    let (sm, c, a) = in_capture("selection");
    assert_eq!(a, ModeAction::SubmitCapture { generation: 1 });
    assert_eq!(c.p1.current_generation(), 1);
    assert_eq!(sm.current(), AppState::Capture);
    assert_eq!(sm.current_mode(), Some(TranslateMode::Selection));
    let mut sm = StateMachine::new();
    let mut c = CancelCoordinator::new();
    let err = select_mode(&mut sm, &mut c, "selection", true).unwrap_err();
    assert_eq!(err, "invalid transition: Sleep -> Capture");
    assert_eq!(sm.current(), AppState::Sleep);
    assert_eq!(sm.current_mode(), None);
    assert_eq!(c.p1.current_generation(), 0);
    let mut sm = StateMachine::new();
    sm.transition(AppState::WakeConfirm).unwrap();
    sm.transition(AppState::ModeSelect).unwrap();
    let a = select_mode(&mut sm, &mut c, "realtime", false).unwrap();
    assert_eq!(a, ModeAction::Unavailable);
    assert_eq!(sm.current(), AppState::Sleep);
}

#[test]
fn scenario_selection_pipeline_stages() {
    let (mut sm, c, _) = in_capture("selection");
    let fx = after_capture(&mut sm, &c.p1, Ok("Hello, world.".to_string()), "r1".to_string(), 1, 10);
    assert_eq!(sm.current(), AppState::Translate);
    assert!(matches!(&fx.events[0], UiEvent::CaptureComplete { text } if text == "Hello, world."));
    let next = fx.next.unwrap();
    assert!(matches!(&next, P1Task::Translate { target_lang, text, .. } if target_lang == "zh" && text == "Hello, world."));
    let fx = after_translate(&mut sm, &c.p1, Ok("你好，世界。".to_string()), "r1".to_string(), 1, "Hello, world.".to_string(), 20);
    assert_eq!(sm.current(), AppState::Render);
    assert!(fx.events.is_empty());
    let fx = render_result(&mut sm, &c.p1, "r1".to_string(), 1, "Hello, world.".to_string(), "你好，世界。".to_string());
    assert!(matches!(&fx.events[0], UiEvent::TranslateComplete { translated, .. } if translated == "你好，世界。"));
    assert!(fx.show_result && fx.record_history);
    assert_eq!(sm.current(), AppState::Idle);
}

#[test]
fn stale_or_cancelled_stages_do_nothing() {
    let (mut sm, c, _) = in_capture("selection");
    let fx = after_capture(&mut sm, &c.p1, Ok("x".to_string()), "r".to_string(), 0, 0);
    assert!(fx.events.is_empty() && fx.next.is_none());
    assert_eq!(sm.current(), AppState::Capture);
    let fx = after_translate(&mut sm, &c.p1, Err(TranslateError::Cancelled), "r".to_string(), 1, "x".to_string(), 0);
    assert!(fx.events.is_empty() && fx.next.is_none());
    let fx = render_result(&mut sm, &c.p1, "r".to_string(), 0, "x".to_string(), "y".to_string());
    assert!(fx.events.is_empty() && !fx.show_result);
}

#[test]
fn failures_report_and_sleep() {
    let (mut sm, c, _) = in_capture("selection");
    let fx = after_capture(&mut sm, &c.p1, Err("no text selected".to_string()), "r".to_string(), 1, 0);
    assert!(matches!(&fx.events[0], UiEvent::CaptureError { error } if error == "no text selected"));
    assert_eq!(sm.current(), AppState::Sleep);
    let (mut sm, c, _) = in_capture("selection");
    let fx = after_translate(&mut sm, &c.p1, Err(TranslateError::Timeout), "r".to_string(), 1, "x".to_string(), 0);
    assert!(matches!(&fx.events[0], UiEvent::TranslateError { error } if error == "translation timeout"));
    assert_eq!(sm.current(), AppState::Sleep);
}

#[test]
fn scenario_ocr_region() {
    let roi = build_roi("rect", [0, 0, 100, 20], vec![]).unwrap();
    assert!(matches!(roi, OcrRoi::Rect { x: 0, y: 0, w: 100, h: 20 }));
    let (t, p) = roi_request_parts(roi);
    assert_eq!(t, RoiType::Rect);
    assert_eq!(roi_wire_name(t, &p), "rect");
    let (mut sm, c, a) = in_capture("ocr_region");
    assert_eq!(a, ModeAction::ShowOverlay);
    let fx = begin_ocr(&mut sm, &c.p2, "r5".to_string(), 0);
    assert_eq!(sm.current(), AppState::Ocr);
    assert!(matches!(&fx.events[0], UiEvent::OcrStarted { request_id } if request_id == "r5"));
    let res = OcrResult { request_id: "r5".to_string(), lines: vec![line("Bonjour", 10)], elapsed_ms: 30 };
    let fx = after_ocr(&mut sm, &c.p2, OcrOutcome::Done(res), "r5".to_string(), 0, c.p1.current_generation(), 99);
    assert!(matches!(&fx.events[0], UiEvent::OcrComplete { lines: 1, text, .. } if text == "Bonjour"));
    assert!(matches!(fx.next, Some(P1Task::Translate { ref text, .. }) if text == "Bonjour"));
    assert_eq!(sm.current(), AppState::Translate);
    let fx = after_translate(&mut sm, &c.p1, Ok("你好".to_string()), "r5".to_string(), 0, "Bonjour".to_string(), 100);
    assert!(matches!(fx.next, Some(P1Task::RenderResult { ref translated, .. }) if translated == "你好"));
}

#[test]
fn ocr_blank_error_and_crash() {
    let (mut sm, c, _) = in_capture("ocr_region");
    let res = OcrResult { request_id: "r".to_string(), lines: vec![line("  ", 1), line("", 9)], elapsed_ms: 1 };
    let fx = after_ocr(&mut sm, &c.p2, OcrOutcome::Done(res), "r".to_string(), 0, 0, 0);
    assert!(matches!(&fx.events[0], UiEvent::OcrError { error } if error == "OCR produced no text"));
    assert_eq!(sm.current(), AppState::Sleep);
    let (mut sm, c, _) = in_capture("ocr_region");
    let fx = after_ocr(&mut sm, &c.p2, OcrOutcome::Failed(OcrError::Timeout), "r".to_string(), 0, 0, 0);
    assert!(matches!(&fx.events[0], UiEvent::OcrError { error } if error == "OCR timeout"));
    let (mut sm, c, _) = in_capture("ocr_region");
    let fx = after_ocr(&mut sm, &c.p2, OcrOutcome::Crashed, "r".to_string(), 0, 0, 0);
    assert!(matches!(&fx.events[0], UiEvent::OcrError { error } if error.starts_with("OCR worker crashed")));
    assert_eq!(OcrError::ProcessingFailed("x".to_string()).message(), "OCR processing failed: x");
}

#[test]
fn roi_building() {
    let pts = vec![(1, 2), (3, 4), (5, 6), (7, 8)];
    assert!(matches!(build_roi("perspective", [0; 4], pts.clone()), Ok(OcrRoi::Perspective { corners }) if corners[3] == (7, 8)));
    assert_eq!(build_roi("perspective", [0; 4], vec![(1, 2)]).unwrap_err(), "perspective requires exactly 4 corners");
    assert!(matches!(build_roi("polygon", [0; 4], pts), Ok(OcrRoi::Polygon { points }) if points.len() == 4));
    assert_eq!(build_roi("circle", [0; 4], vec![]).unwrap_err(), "unknown roi_type: circle");
    assert_eq!(roi_wire_name(RoiType::Rect, &RoiParams::Polygon { points: vec![] }), "fullframe");
}

#[test]
fn ocr_lines_join_in_document_order() {
    assert_eq!(join_ocr_lines(&[line("a", 1), line("b", 2), line("c", 3)]), "a\nb\nc");
    assert_eq!(join_ocr_lines(&[]), "");
}

#[test]
fn scenario_realtime_diff() {
    let mut s = RealtimeSession::new();
    let first = vec![line("Hello", 10), line("World", 30)];
    let plan = s.plan_frame(&first);
    assert_eq!((plan.added, plan.unchanged), (2, 0));
    assert_eq!(plan.to_translate, vec!["Hello".to_string(), "World".to_string()]);
    s.record_translation("Hello", Some("你好".to_string()));
    s.record_translation("World", Some("世界".to_string()));
    let (src, tr) = s.finish_frame(first);
    assert_eq!(src, "Hello\nWorld");
    assert_eq!(tr, "你好\n世界");
    // one line changed; the other moved within its 8-pixel bucket
    let second = vec![line("Hello", 12), line("Moon", 30)];
    let before = s.stats();
    let plan = s.plan_frame(&second);
    assert_eq!((plan.added, plan.unchanged), (1, 1));
    assert_eq!(plan.to_translate, vec!["Moon".to_string()]);
    assert_eq!(plan.from_cache, 1);
    assert_eq!(plan.saving_pct(), 50);
    s.record_translation("Moon", None);
    let (_, tr) = s.finish_frame(second);
    assert_eq!(tr, "你好\nMoon");
    let after = s.stats();
    assert_eq!(after.lines_from_cache - before.lines_from_cache, 1);
    assert_eq!(after.lines_translated_via_api, 2);
    assert_eq!(after.token_saving_pct, 33);
    assert_eq!(after.frames_changed, 2);
    s.record_unchanged_frame();
    assert_eq!(s.stats().frames_no_change, 1);
}

#[test]
fn diff_keys_on_text_and_bucket() {
    let d = diff_lines(&[line("a", 8), line("b", 20)], &[line("a", 15), line("b", 24), line("c", 8)]);
    assert_eq!(d.unchanged.len(), 1);
    assert_eq!(d.unchanged[0].text, "a");
    assert_eq!(d.added.len(), 2);
    assert_eq!(d.added[0].text, "b");
    assert_eq!(saving_pct(0, 0), 0);
}

#[test]
fn clipboard_judgement() {
    assert!(matches!(judge_clipboard(Some("same"), "same".to_string()), Err(CaptureError::NoSelection)));
    assert!(matches!(judge_clipboard(None, "  \n".to_string()), Err(CaptureError::NoSelection)));
    assert_eq!(judge_clipboard(Some("old"), "new".to_string()).unwrap(), "new");
    let c = ClipboardCapture::new(60, 200, true, false);
    assert!(matches!(c.check_tools(), Err(CaptureError::ToolNotAvailable(_))));
    let p = make_text_packet("t".to_string(), CaptureSource::Clipboard, "id".to_string(), 4);
    assert_eq!(p.generation, 4);
    assert!(p.captured_at_us > 0);
}

#[test]
fn screen_backend_choice() {
    assert_eq!(detect_backend(true, true, true), Some(CaptureBackend::Grim));
    assert_eq!(detect_backend(false, true, true), Some(CaptureBackend::Maim));
    assert_eq!(detect_backend(false, false, true), Some(CaptureBackend::Scrot));
    assert_eq!(detect_backend(false, false, false), None);
    let none = ScreenCapture::new(None);
    assert!(!none.is_available());
    assert!(matches!(none.capture(|_| Ok(vec![1])), Err(ScreenCaptureError::NoBackendAvailable)));
    let some = ScreenCapture::new(Some(CaptureBackend::Maim));
    assert_eq!(some.capture(|b| Ok(vec![b as u8])).unwrap(), vec![CaptureBackend::Maim as u8]);
}

#[test]
fn worker_framing_and_replies() {
    assert_eq!(frame_message(&[9, 8]).unwrap(), vec![0, 0, 0, 2, 9, 8]);
    assert_eq!(frame_len([0, 0, 1, 0]).unwrap(), 256);
    assert!(frame_len([0xff, 0, 0, 0]).is_err());
    let ok = WorkerReply { msg_type: "ocr_result".to_string(), lines: Some(vec![line("x", 1)]), elapsed_ms: None, message: None };
    let r = interpret_reply("id".to_string(), ok, 77).unwrap();
    assert_eq!((r.lines.len(), r.elapsed_ms), (1, 77));
    let err = WorkerReply { msg_type: "error".to_string(), lines: None, elapsed_ms: None, message: None };
    assert!(matches!(interpret_reply("id".to_string(), err, 0), Err(OcrError::ProcessingFailed(m)) if m == "unknown error"));
    let odd = WorkerReply { msg_type: "pong".to_string(), lines: None, elapsed_ms: None, message: None };
    assert!(matches!(interpret_reply("id".to_string(), odd, 0), Err(OcrError::ProcessingFailed(m)) if m == "unexpected response type: pong"));
    assert_eq!(health_step(2, false), (3, true));
    assert_eq!(health_step(2, true), (0, false));
    assert!(!StubOcrEngine.is_available());
    let cfg = PreprocessConfig::standard();
    assert!(cfg.grayscale && !cfg.deskew);
}

#[test]
fn metrics_percentiles() {
    let mut ring = SampleRing::new(4);
    assert_eq!(ring.percentile(50), 0);
    for v in [40, 10, 30, 20, 50] {
        ring.push(v);
    }
    // capacity 4: the first sample was overwritten
    assert_eq!(ring.percentile(0), 10);
    assert_eq!(ring.percentile(50), 30);
    assert_eq!(ring.percentile(100), 50);
    let mut m = MetricsRegistry::new();
    m.record("t_ocr_done", 5);
    m.record("t_ocr_done", 7);
    m.record("queue_wait_p1", 1);
    let s = m.summary();
    assert_eq!(s.len(), 2);
    assert_eq!(s[0].0, "t_ocr_done");
    assert_eq!(s[0].1.count, 2);
    assert_eq!(m.percentile("t_ocr_done", 100), 7);
    assert_eq!(m.percentile("missing", 50), 0);
    let ids = RequestIds::new(3);
    assert_eq!(ids.trace_id.len(), 36);
    assert_ne!(ids.trace_id, ids.request_id);
}

#[test]
fn history_helpers() {
    let r = HistoryRecord::finished("id".into(), "s".into(), "t".into(), "zh".into(), "selection".into(), 10);
    assert!(!r.cached && r.source_lang.is_none());
    assert_eq!(cleanup_cutoff(1_000_000, 1), 1_000_000 - 86_400);
    assert_eq!(cleanup_cutoff(i64::MIN + 5, 1), i64::MIN);
}

#[test]
fn render_queued_before_preemption_is_dropped() {
    let (mut sm, mut c, _) = in_capture("selection");
    let fx = after_translate(&mut sm, &c.p1, Ok("t".to_string()), "r".to_string(), 1, "s".to_string(), 0);
    assert!(fx.next.is_some());
    c.cancel_all_and_advance();
    let before = sm.current();
    let fx = render_result(&mut sm, &c.p1, "r".to_string(), 1, "s".to_string(), "t".to_string());
    assert!(fx.events.is_empty() && !fx.show_result && !fx.record_history);
    assert_eq!(sm.current(), before);
}

#[test]
fn unicode_white_space_counts_as_blank() {
    assert!(matches!(judge_clipboard(None, "\u{3000}\t\u{a0}\n".to_string()), Err(CaptureError::NoSelection)));
    assert_eq!(judge_clipboard(None, " \u{2003}x ".to_string()).unwrap(), " \u{2003}x ");
}
