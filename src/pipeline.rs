use vstd::prelude::*;
use crate::ocr::{OcrError, OcrLine, OcrResult, RoiType, RoiParams};
use crate::scheduler::{OcrRoi, P1Task};
use crate::state_machine::{AppState, StateMachine, TranslateMode, transition_allowed, transition_error_text};
use crate::cancellation::{CancelCoordinator, CancelSignal, GenerationGuard, TaskGeneration};
use crate::text::{chars_of, string_of, copy_range, trimmed, trim_str, seq_eq};
use crate::translate::{TranslateError, error_text};

verus! {

/// Events the P1 and P2 stages send to the user interface.
#[derive(Clone, Debug)]
pub enum UiEvent {
    /// `capture-complete{text}`
    CaptureComplete { text: String },
    /// `capture-error{error}`
    CaptureError { error: String },
    /// `translate-error{error}`
    TranslateError { error: String },
    /// `translate-complete{request_id, source, translated}`
    TranslateComplete { request_id: String, source: String, translated: String },
    /// `ocr-started{request_id}`
    OcrStarted { request_id: String },
    /// `ocr-complete{request_id, text, lines, elapsed_ms}`
    OcrComplete { request_id: String, text: String, lines: usize, elapsed_ms: u64 },
    /// `ocr-error{error}`
    OcrError { error: String },
}

/// What a stage asks of its worker loop.
pub struct StageEffects {
    /// Events to emit, in order.
    pub events: Vec<UiEvent>,
    /// The next P1 task to enqueue.
    pub next: Option<P1Task>,
    /// Show the result window.
    pub show_result: bool,
    /// Record the outcome to history.
    pub record_history: bool,
}

/// Target language of every translation.
pub const TARGET_LANG: &'static str = "zh";

fn nothing() -> (r: StageEffects)
    ensures
        r.events@.len() == 0,
        r.next is None,
        !r.show_result,
        !r.record_history,
{
    StageEffects { events: Vec::new(), next: None, show_result: false, record_history: false }
}

/// The state after attempting `to` from `from`.
pub open spec fn after_attempt(from: AppState, to: AppState) -> AppState {
    if transition_allowed(from, to) {
        to
    } else {
        from
    }
}

/// A task issued in `generation` is still wanted: no newer generation has
/// started and the live signal has not fired.
pub open spec fn task_current(generation: u64, live: &TaskGeneration) -> bool {
    generation == live.spec_generation() && !live.signal_cancelled(CancelSignal { issued_in: generation })
}

/// Checks a task's generation against the live one, as its guard would.
pub fn is_task_current(generation: u64, live: &TaskGeneration) -> (r: bool)
    ensures
        r == task_current(generation, live),
{
    GenerationGuard::new(generation, CancelSignal { issued_in: generation }).should_continue(live)
}

/// No task issued before a preemption is still wanted afterwards: its
/// result is never rendered.
pub proof fn lemma_preempted_tasks_are_stale(before: &CancelCoordinator, after: &CancelCoordinator, g: u64)
    requires
        after.advanced_from(before),
        g <= before.p1.spec_generation(),
    ensures
        !task_current(g, &after.p1),
        !task_current(g, &after.p2) || g > before.p2.spec_generation(),
{
}

/// After the blocking selection capture. A stale task does nothing. A
/// capture moves to `Translate` and enqueues the translation; a failure is
/// reported and the machine sleeps.
pub fn after_capture(
    sm: &mut StateMachine,
    live: &TaskGeneration,
    captured: Result<String, String>,
    request_id: String,
    generation: u64,
    now_us: u64,
) -> (r: StageEffects)
    ensures
        !task_current(generation, live) ==> r.events@.len() == 0 && r.next is None && final(sm).spec_state()
            == old(sm).spec_state() && final(sm).spec_mode() == old(sm).spec_mode(),
        task_current(generation, live) && captured is Ok ==> {
            &&& r.events@.len() == 1
            &&& r.events@[0] is CaptureComplete
            &&& r.events@[0]->CaptureComplete_text == captured->Ok_0
            &&& r.next is Some
            &&& r.next->Some_0 is Translate
            &&& r.next->Some_0->Translate_request_id == request_id
            &&& r.next->Some_0->Translate_generation == generation
            &&& r.next->Some_0->Translate_text == captured->Ok_0
            &&& r.next->Some_0->Translate_target_lang@ == TARGET_LANG@
            &&& r.next->Some_0->Translate_enqueued_at_us == now_us
            &&& final(sm).spec_state() == after_attempt(old(sm).spec_state(), AppState::Translate)
        },
        task_current(generation, live) && captured is Err ==> {
            &&& r.events@.len() == 1
            &&& r.events@[0] is CaptureError
            &&& r.events@[0]->CaptureError_error == captured->Err_0
            &&& r.next is None
            &&& final(sm).spec_state() == AppState::Sleep
            &&& final(sm).spec_mode() is None
        },
        !r.show_result,
        !r.record_history,
{
    if !is_task_current(generation, live) {
        return nothing();
    }
    match captured {
        Ok(text) => {
            let _ = sm.transition(AppState::Translate);
            let mut events: Vec<UiEvent> = Vec::new();
            events.push(UiEvent::CaptureComplete { text: text.clone() });
            let next = P1Task::Translate {
                request_id,
                generation,
                text,
                target_lang: String::from_str(TARGET_LANG),
                enqueued_at_us: now_us,
            };
            StageEffects { events, next: Some(next), show_result: false, record_history: false }
        },
        Err(e) => {
            sm.force_sleep();
            let mut events: Vec<UiEvent> = Vec::new();
            events.push(UiEvent::CaptureError { error: e });
            StageEffects { events, next: None, show_result: false, record_history: false }
        },
    }
}

/// After the translation pipeline. A stale task or a cancellation does
/// nothing. A translation moves to `Render` and enqueues the render; any
/// other error is reported and the machine sleeps.
pub fn after_translate(
    sm: &mut StateMachine,
    live: &TaskGeneration,
    result: Result<String, TranslateError>,
    request_id: String,
    generation: u64,
    source: String,
    now_us: u64,
) -> (r: StageEffects)
    ensures
        (!task_current(generation, live) || (result is Err && result->Err_0 is Cancelled)) ==> r.events@.len() == 0
            && r.next is None && final(sm).spec_state() == old(sm).spec_state()
            && final(sm).spec_mode() == old(sm).spec_mode(),
        task_current(generation, live) && result is Ok ==> {
            &&& r.events@.len() == 0
            &&& r.next == Some(
                P1Task::RenderResult {
                    request_id,
                    generation,
                    source,
                    translated: result->Ok_0,
                    enqueued_at_us: now_us,
                },
            )
            &&& final(sm).spec_state() == after_attempt(old(sm).spec_state(), AppState::Render)
        },
        task_current(generation, live) && result is Err && !(result->Err_0 is Cancelled) ==> {
            &&& r.events@.len() == 1
            &&& r.events@[0] is TranslateError
            &&& r.events@[0]->TranslateError_error@ == error_text(result->Err_0)
            &&& r.next is None
            &&& final(sm).spec_state() == AppState::Sleep
        },
        !r.show_result,
        !r.record_history,
{
    if !is_task_current(generation, live) {
        return nothing();
    }
    match result {
        Ok(translated) => {
            let _ = sm.transition(AppState::Render);
            let next = P1Task::RenderResult {
                request_id,
                generation,
                source,
                translated,
                enqueued_at_us: now_us,
            };
            StageEffects { events: Vec::new(), next: Some(next), show_result: false, record_history: false }
        },
        Err(e) => {
            if e.is_cancelled() {
                return nothing();
            }
            sm.force_sleep();
            let mut events: Vec<UiEvent> = Vec::new();
            events.push(UiEvent::TranslateError { error: e.message() });
            StageEffects { events, next: None, show_result: false, record_history: false }
        },
    }
}

/// The render stage: emits the completed translation, shows the result,
/// records history and moves to `Idle`; a stale task does nothing.
pub fn render_result(
    sm: &mut StateMachine,
    live: &TaskGeneration,
    request_id: String,
    generation: u64,
    source: String,
    translated: String,
) -> (r: StageEffects)
    ensures
        !task_current(generation, live) ==> r.events@.len() == 0 && !r.show_result && !r.record_history
            && final(sm).spec_state() == old(sm).spec_state(),
        task_current(generation, live) ==> {
            &&& r.events@.len() == 1
            &&& r.events@[0] == (UiEvent::TranslateComplete { request_id, source, translated })
            &&& r.show_result
            &&& r.record_history
            &&& final(sm).spec_state() == after_attempt(old(sm).spec_state(), AppState::Idle)
        },
        r.next is None,
        final(sm).spec_mode() == old(sm).spec_mode(),
{
    if !is_task_current(generation, live) {
        return nothing();
    }
    let mut events: Vec<UiEvent> = Vec::new();
    events.push(UiEvent::TranslateComplete { request_id, source, translated });
    let _ = sm.transition(AppState::Idle);
    StageEffects { events, next: None, show_result: true, record_history: true }
}

/// Start of the OCR stage: moves to `Ocr` and announces it; a stale task
/// does nothing.
pub fn begin_ocr(sm: &mut StateMachine, live: &TaskGeneration, request_id: String, generation: u64) -> (r:
    StageEffects)
    ensures
        !task_current(generation, live) ==> r.events@.len() == 0 && final(sm).spec_state() == old(sm).spec_state(),
        task_current(generation, live) ==> r.events@.len() == 1 && r.events@[0] == (UiEvent::OcrStarted { request_id })
            && final(sm).spec_state() == after_attempt(old(sm).spec_state(), AppState::Ocr),
        r.next is None,
        !r.show_result,
        !r.record_history,
        final(sm).spec_mode() == old(sm).spec_mode(),
{
    if !is_task_current(generation, live) {
        return nothing();
    }
    let _ = sm.transition(AppState::Ocr);
    let mut events: Vec<UiEvent> = Vec::new();
    events.push(UiEvent::OcrStarted { request_id });
    StageEffects { events, next: None, show_result: false, record_history: false }
}

/// Texts of `lines` joined by newlines, in document order.
pub open spec fn joined_text(lines: Seq<OcrLine>) -> Seq<char>
    decreases lines.len(),
{
    if lines.len() == 0 {
        Seq::empty()
    } else if lines.len() == 1 {
        lines[0].text@
    } else {
        joined_text(lines.drop_last()) + seq!['\n'] + lines.last().text@
    }
}

/// Joins the recognised lines by newlines.
pub fn join_ocr_lines(lines: &[OcrLine]) -> (r: String)
    ensures
        r@ == joined_text(lines@),
{
    let mut out: Vec<char> = Vec::new();
    let mut i: usize = 0;
    while i < lines.len()
        invariant
            i <= lines@.len(),
            out@ == joined_text(lines@.subrange(0, i as int)),
        decreases lines.len() - i,
    {
        if i > 0 {
            out.push('\n');
        }
        let t = chars_of(lines[i].text.as_str());
        copy_range(&mut out, &t, 0, t.len());
        proof {
            let sub = lines@.subrange(0, i + 1);
            assert(sub.drop_last() =~= lines@.subrange(0, i as int));
            assert(t@.subrange(0, t@.len() as int) =~= t@);
            if i == 0 {
                assert(sub.len() == 1);
            }
            assert(out@ =~= joined_text(sub));
        }
        i = i + 1;
    }
    assert(lines@.subrange(0, lines@.len() as int) =~= lines@);
    string_of(out.as_slice())
}

/// The text shown for an OCR error.
pub open spec fn ocr_error_text(e: OcrError) -> Seq<char> {
    match e {
        OcrError::EngineNotLoaded => "OCR engine not loaded"@,
        OcrError::ProcessingFailed(m) => "OCR processing failed: "@ + m@,
        OcrError::Timeout => "OCR timeout"@,
        OcrError::Cancelled => "OCR cancelled"@,
    }
}

impl OcrError {
    /// Describes the error for the user interface.
    pub fn message(&self) -> (r: String)
        ensures
            r@ == ocr_error_text(*self),
    {
        proof {
            reveal_strlit("OCR engine not loaded");
            reveal_strlit("OCR processing failed: ");
            reveal_strlit("OCR timeout");
            reveal_strlit("OCR cancelled");
        }
        match self {
            OcrError::EngineNotLoaded => String::from_str("OCR engine not loaded"),
            OcrError::ProcessingFailed(m) => {
                let mut v = chars_of("OCR processing failed: ");
                let w = chars_of(m.as_str());
                copy_range(&mut v, &w, 0, w.len());
                assert(w@.subrange(0, w@.len() as int) =~= w@);
                string_of(v.as_slice())
            },
            OcrError::Timeout => String::from_str("OCR timeout"),
            OcrError::Cancelled => String::from_str("OCR cancelled"),
        }
    }
}

/// How the blocking recognition call ended.
pub enum OcrOutcome {
    Done(OcrResult),
    Failed(OcrError),
    /// The worker panicked.
    Crashed,
}

/// Message when recognition found no text.
pub const NO_TEXT: &'static str = "OCR produced no text";

/// Message when the worker crashed.
pub const WORKER_CRASHED: &'static str = "OCR worker crashed, restarting...";

/// After recognition. A stale task does nothing. Text moves to `Translate`
/// and is handed to P1; blank text, an engine error or a crash is reported
/// and the machine sleeps.
pub fn after_ocr(
    sm: &mut StateMachine,
    live: &TaskGeneration,
    outcome: OcrOutcome,
    request_id: String,
    generation: u64,
    p1_generation: u64,
    now_us: u64,
) -> (r: StageEffects)
    ensures
        !task_current(generation, live) ==> r.events@.len() == 0 && r.next is None && final(sm).spec_state()
            == old(sm).spec_state(),
        task_current(generation, live) ==> match outcome {
            OcrOutcome::Done(res) => if trimmed(joined_text(res.lines@)).len() == 0 {
                &&& r.events@.len() == 1
                &&& r.events@[0] is OcrError
                &&& r.events@[0]->OcrError_error@ == NO_TEXT@
                &&& r.next is None
                &&& final(sm).spec_state() == AppState::Sleep
            } else {
                &&& r.events@.len() == 1
                &&& r.events@[0] is OcrComplete
                &&& r.events@[0]->OcrComplete_request_id == request_id
                &&& r.events@[0]->OcrComplete_text@ == joined_text(res.lines@)
                &&& r.events@[0]->OcrComplete_lines == res.lines@.len()
                &&& r.events@[0]->OcrComplete_elapsed_ms == res.elapsed_ms
                &&& r.next is Some
                &&& r.next->Some_0 is Translate
                &&& r.next->Some_0->Translate_request_id == request_id
                &&& r.next->Some_0->Translate_generation == p1_generation
                &&& r.next->Some_0->Translate_text@ == joined_text(res.lines@)
                &&& r.next->Some_0->Translate_target_lang@ == TARGET_LANG@
                &&& r.next->Some_0->Translate_enqueued_at_us == now_us
                &&& final(sm).spec_state() == after_attempt(old(sm).spec_state(), AppState::Translate)
            },
            OcrOutcome::Failed(e) => {
                &&& r.events@.len() == 1
                &&& r.events@[0] is OcrError
                &&& r.events@[0]->OcrError_error@ == ocr_error_text(e)
                &&& r.next is None
                &&& final(sm).spec_state() == AppState::Sleep
            },
            OcrOutcome::Crashed => {
                &&& r.events@.len() == 1
                &&& r.events@[0] is OcrError
                &&& r.events@[0]->OcrError_error@ == WORKER_CRASHED@
                &&& r.next is None
                &&& final(sm).spec_state() == AppState::Sleep
            },
        },
        !r.show_result,
        !r.record_history,
{
    if !is_task_current(generation, live) {
        return nothing();
    }
    let mut events: Vec<UiEvent> = Vec::new();
    match outcome {
        OcrOutcome::Done(res) => {
            let text = join_ocr_lines(res.lines.as_slice());
            let t = trim_str(text.as_str());
            if t.unicode_len() == 0 {
                sm.force_sleep();
                events.push(UiEvent::OcrError { error: String::from_str(NO_TEXT) });
                return StageEffects { events, next: None, show_result: false, record_history: false };
            }
            events.push(
                UiEvent::OcrComplete {
                    request_id: request_id.clone(),
                    text: text.clone(),
                    lines: res.lines.len(),
                    elapsed_ms: res.elapsed_ms,
                },
            );
            let _ = sm.transition(AppState::Translate);
            let next = P1Task::Translate {
                request_id,
                generation: p1_generation,
                text,
                target_lang: String::from_str(TARGET_LANG),
                enqueued_at_us: now_us,
            };
            StageEffects { events, next: Some(next), show_result: false, record_history: false }
        },
        OcrOutcome::Failed(e) => {
            sm.force_sleep();
            events.push(UiEvent::OcrError { error: e.message() });
            StageEffects { events, next: None, show_result: false, record_history: false }
        },
        OcrOutcome::Crashed => {
            sm.force_sleep();
            events.push(UiEvent::OcrError { error: String::from_str(WORKER_CRASHED) });
            StageEffects { events, next: None, show_result: false, record_history: false }
        },
    }
}

/// The request parts of a region of interest.
pub fn roi_request_parts(roi: OcrRoi) -> (r: (RoiType, RoiParams))
    ensures
        match roi {
            OcrRoi::Rect { x, y, w, h } => r.0 == RoiType::Rect && r.1 == (RoiParams::Rect { x, y, w, h }),
            OcrRoi::Polygon { points } => r.0 == RoiType::Polygon && r.1 == (RoiParams::Polygon { points }),
            OcrRoi::Perspective { corners } => r.0 == RoiType::Perspective && r.1 == (
            RoiParams::Perspective { corners }),
        },
{
    match roi {
        OcrRoi::Rect { x, y, w, h } => (RoiType::Rect, RoiParams::Rect { x, y, w, h }),
        OcrRoi::Polygon { points } => (RoiType::Polygon, RoiParams::Polygon { points }),
        OcrRoi::Perspective { corners } => (RoiType::Perspective, RoiParams::Perspective { corners }),
    }
}

fn str_is(s: &str, lit: &str) -> (r: bool)
    ensures
        r == (s@ == lit@),
{
    seq_eq(&chars_of(s), &chars_of(lit))
}

fn prefixed(prefix: &str, s: &str) -> (r: String)
    ensures
        r@ == prefix@ + s@,
{
    let mut v = chars_of(prefix);
    let w = chars_of(s);
    copy_range(&mut v, &w, 0, w.len());
    assert(w@.subrange(0, w@.len() as int) =~= w@);
    string_of(v.as_slice())
}

/// The mode named by the user interface.
pub open spec fn mode_named(name: Seq<char>) -> Option<TranslateMode> {
    if name == "selection"@ {
        Some(TranslateMode::Selection)
    } else if name == "ocr_region"@ {
        Some(TranslateMode::OcrRegion)
    } else if name == "realtime"@ {
        Some(TranslateMode::RealtimeIncremental)
    } else {
        None
    }
}

/// Parses `selection`, `ocr_region` or `realtime`.
pub fn parse_mode(name: &str) -> (r: Result<TranslateMode, String>)
    ensures
        match mode_named(name@) {
            Some(m) => r == Ok::<TranslateMode, String>(m),
            None => r is Err && r->Err_0@ == "unknown mode: "@ + name@,
        },
{
    proof {
        reveal_strlit("selection");
        reveal_strlit("ocr_region");
        reveal_strlit("realtime");
    }
    if str_is(name, "selection") {
        Ok(TranslateMode::Selection)
    } else if str_is(name, "ocr_region") {
        Ok(TranslateMode::OcrRegion)
    } else if str_is(name, "realtime") {
        Ok(TranslateMode::RealtimeIncremental)
    } else {
        Err(prefixed("unknown mode: ", name))
    }
}

/// Builds a region of interest from the overlay's selection. `rect` holds
/// `x, y, w, h` (a missing value reads as 0; values are truncated to 32
/// bits); `points` holds the polygon points or the perspective corners.
pub fn build_roi(roi_type: &str, rect: [u64; 4], points: Vec<(u32, u32)>) -> (r: Result<OcrRoi, String>)
    ensures
        roi_type@ == "rect"@ ==> r == Ok::<OcrRoi, String>(
            OcrRoi::Rect {
                x: rect@[0] as u32,
                y: rect@[1] as u32,
                w: rect@[2] as u32,
                h: rect@[3] as u32,
            },
        ),
        roi_type@ == "polygon"@ ==> r == Ok::<OcrRoi, String>(OcrRoi::Polygon { points }),
        roi_type@ == "perspective"@ && points@.len() == 4 ==> r is Ok && r->Ok_0 is Perspective
            && r->Ok_0->Perspective_corners@ == points@,
        roi_type@ == "perspective"@ && points@.len() != 4 ==> r is Err && r->Err_0@
            == "perspective requires exactly 4 corners"@,
        roi_type@ != "rect"@ && roi_type@ != "polygon"@ && roi_type@ != "perspective"@ ==> r is Err
            && r->Err_0@ == "unknown roi_type: "@ + roi_type@,
{
    proof {
        reveal_strlit("rect");
        reveal_strlit("polygon");
        reveal_strlit("perspective");
        assert("rect"@.len() == 4);
        assert("polygon"@.len() == 7);
        assert("perspective"@.len() == 11);
        assert("rect"@ != "polygon"@);
        assert("rect"@ != "perspective"@);
        assert("polygon"@ != "perspective"@);
    }
    if str_is(roi_type, "rect") {
        Ok(OcrRoi::Rect { x: rect[0] as u32, y: rect[1] as u32, w: rect[2] as u32, h: rect[3] as u32 })
    } else if str_is(roi_type, "polygon") {
        Ok(OcrRoi::Polygon { points })
    } else if str_is(roi_type, "perspective") {
        if points.len() != 4 {
            return Err(String::from_str("perspective requires exactly 4 corners"));
        }
        let corners = [points[0], points[1], points[2], points[3]];
        assert(corners@ =~= points@);
        Ok(OcrRoi::Perspective { corners })
    } else {
        Err(prefixed("unknown roi_type: ", roi_type))
    }
}

/// What the shell does after a mode was selected.
#[derive(Clone, Copy, Debug, PartialEq, Eq, Structural)]
pub enum ModeAction {
    /// Enqueue a selection capture under this P1 generation.
    SubmitCapture { generation: u64 },
    /// Take a screenshot and show the region overlay.
    ShowOverlay,
    /// Realtime mode lacks its OCR engine or translation service; the
    /// machine went back to sleep.
    Unavailable,
}

/// Handles the user's mode choice: sets the mode and moves to `Capture`.
/// Selection then advances the P1 generation for a fresh capture; the OCR
/// modes need the region overlay, and realtime also needs its engines.
pub fn select_mode(
    sm: &mut StateMachine,
    cancel: &mut CancelCoordinator,
    name: &str,
    realtime_ready: bool,
) -> (r: Result<ModeAction, String>)
    requires
        old(cancel).p1.spec_generation() < u64::MAX,
    ensures
        mode_named(name@) is None ==> r is Err && r->Err_0@ == "unknown mode: "@ + name@
            && final(sm).spec_state() == old(sm).spec_state() && final(sm).spec_mode() == old(sm).spec_mode(),
        mode_named(name@) is Some && !transition_allowed(old(sm).spec_state(), AppState::Capture) ==> r is Err
            && r->Err_0@ == transition_error_text(old(sm).spec_state(), AppState::Capture)
            && final(sm).spec_state() == old(sm).spec_state()
            && final(sm).spec_mode() == old(sm).spec_mode(),
        mode_named(name@) is Some && transition_allowed(old(sm).spec_state(), AppState::Capture) ==> {
            let m = mode_named(name@)->Some_0;
            &&& m == TranslateMode::Selection ==> r == Ok::<ModeAction, String>(
                ModeAction::SubmitCapture { generation: (old(cancel).p1.spec_generation() + 1) as u64 },
            ) && final(cancel).p1.spec_generation() == old(cancel).p1.spec_generation() + 1
                && final(sm).spec_state() == AppState::Capture && final(sm).spec_mode() == Some(m)
            &&& m == TranslateMode::OcrRegion ==> r == Ok::<ModeAction, String>(ModeAction::ShowOverlay)
                && final(sm).spec_state() == AppState::Capture && final(sm).spec_mode() == Some(m)
            &&& m == TranslateMode::RealtimeIncremental && realtime_ready ==> r == Ok::<
                ModeAction,
                String,
            >(ModeAction::ShowOverlay) && final(sm).spec_state() == AppState::Capture
                && final(sm).spec_mode() == Some(m)
            &&& m == TranslateMode::RealtimeIncremental && !realtime_ready ==> r == Ok::<
                ModeAction,
                String,
            >(ModeAction::Unavailable) && final(sm).spec_state() == AppState::Sleep
                && final(sm).spec_mode() is None
        },
        p1_moves_only_for_selection(old(cancel), final(cancel), name@),
{
    let mode = match parse_mode(name) {
        Ok(m) => m,
        Err(e) => return Err(e),
    };
    match sm.transition(AppState::Capture) {
        Ok(_) => {},
        Err(e) => return Err(e),
    }
    sm.set_mode(mode);
    match mode {
        TranslateMode::Selection => {
            let generation = cancel.p1.cancel_and_advance();
            Ok(ModeAction::SubmitCapture { generation })
        },
        TranslateMode::OcrRegion => Ok(ModeAction::ShowOverlay),
        TranslateMode::RealtimeIncremental => {
            if realtime_ready {
                Ok(ModeAction::ShowOverlay)
            } else {
                sm.force_sleep();
                Ok(ModeAction::Unavailable)
            }
        },
    }
}

/// The P1 generation moves only for a selection.
pub open spec fn p1_moves_only_for_selection(before: &CancelCoordinator, after: &CancelCoordinator, name: Seq<char>) -> bool {
    mode_named(name) != Some(TranslateMode::Selection) ==> after.p1.spec_generation()
        == before.p1.spec_generation()
}

} // verus!
