use vstd::prelude::*;
use crate::state_machine::{AppState, StateMachine, transition_allowed};
use crate::cancellation::CancelCoordinator;

verus! {

/// Latency-critical wake/UI work, served by a dedicated consumer.
///
/// Wake scores are in ten-thousandths (0 ..= 10000 stands for 0.0 ..= 1.0);
/// timestamps are microseconds on the caller's monotonic clock.
#[derive(Clone, Debug)]
pub enum P0Task {
    WakeDetected { wake_score: u32, timestamp_us: u64 },
    WakeConfirmed { timestamp_us: u64 },
    WakeRejected,
    ShowModePanel,
    HideModePanel,
    PlaySound { sound_id: &'static str },
    ForceCancel,
}

/// Interactive work: capture, translate, render.
#[derive(Clone, Debug)]
pub enum P1Task {
    CaptureSelection { request_id: String, generation: u64, enqueued_at_us: u64 },
    Translate {
        request_id: String,
        generation: u64,
        text: String,
        target_lang: String,
        enqueued_at_us: u64,
    },
    RenderResult {
        request_id: String,
        generation: u64,
        source: String,
        translated: String,
        enqueued_at_us: u64,
    },
}

/// Region of interest for OCR.
#[derive(Clone, Debug)]
pub enum OcrRoi {
    Rect { x: u32, y: u32, w: u32, h: u32 },
    Polygon { points: Vec<(u32, u32)> },
    Perspective { corners: [(u32, u32); 4] },
}

/// Heavy OCR work.
#[derive(Clone, Debug)]
pub enum P2Task {
    OcrRegion {
        request_id: String,
        generation: u64,
        image_data: Vec<u8>,
        roi: OcrRoi,
        enqueued_at_us: u64,
    },
}

/// What the P0 consumer asks the shell to do.
#[derive(Clone, Debug)]
pub enum P0Effect {
    /// `wake-detected{score, timestamp_us}`
    EmitWakeDetected { score: u32, timestamp_us: u64 },
    /// `wake-confirmed`
    EmitWakeConfirmed,
    /// `wake-rejected`
    EmitWakeRejected,
    /// `play-sound(id)`
    EmitPlaySound { sound_id: &'static str },
    /// `force-cancel`
    EmitForceCancel,
    ShowModePanel,
    HideModePanel,
    HideResultPanel,
}

/// The effects of one P0 task, in order.
pub open spec fn p0_effects(task: P0Task) -> Seq<P0Effect> {
    match task {
        P0Task::WakeDetected { wake_score, timestamp_us } => seq![
            P0Effect::EmitWakeDetected { score: wake_score, timestamp_us },
        ],
        P0Task::WakeConfirmed { .. } => seq![P0Effect::EmitWakeConfirmed, P0Effect::ShowModePanel],
        P0Task::WakeRejected => seq![P0Effect::EmitWakeRejected],
        P0Task::ShowModePanel => seq![P0Effect::ShowModePanel],
        P0Task::HideModePanel => seq![P0Effect::HideModePanel],
        P0Task::PlaySound { sound_id } => seq![P0Effect::EmitPlaySound { sound_id }],
        P0Task::ForceCancel => seq![
            P0Effect::EmitForceCancel,
            P0Effect::HideModePanel,
            P0Effect::HideResultPanel,
        ],
    }
}

/// The state a P0 task leads to: wake events try their lifecycle edge,
/// rejection and force-cancel go to sleep, the rest leave the state alone.
pub open spec fn p0_next_state(s: AppState, task: P0Task) -> AppState {
    match task {
        P0Task::WakeDetected { .. } => if transition_allowed(s, AppState::WakeConfirm) {
            AppState::WakeConfirm
        } else {
            s
        },
        P0Task::WakeConfirmed { .. } => if transition_allowed(s, AppState::ModeSelect) {
            AppState::ModeSelect
        } else {
            s
        },
        P0Task::WakeRejected => AppState::Sleep,
        P0Task::ForceCancel => AppState::Sleep,
        _ => s,
    }
}

/// Handles one P0 task: drives the state machine and lists the UI effects.
/// A detected wake preempts all P1 and P2 work first.
pub fn handle_p0_task(sm: &mut StateMachine, cancel: &mut CancelCoordinator, task: &P0Task) -> (r: Vec<
    P0Effect,
>)
    requires
        old(cancel).p1.spec_generation() < u64::MAX,
        old(cancel).p2.spec_generation() < u64::MAX,
        old(cancel).spec_global_generation() < u64::MAX,
    ensures
        *task is WakeDetected ==> final(cancel).advanced_from(old(cancel)),
        !(*task is WakeDetected) ==> *final(cancel) == *old(cancel),
        r@ == p0_effects(*task),
        final(sm).spec_state() == p0_next_state(old(sm).spec_state(), *task),
        (*task is WakeRejected || *task is ForceCancel) ==> final(sm).spec_mode() is None,
        !(*task is WakeRejected || *task is ForceCancel) ==> final(sm).spec_mode()
            == old(sm).spec_mode(),
{
    let mut out: Vec<P0Effect> = Vec::new();
    match task {
        P0Task::WakeDetected { wake_score, timestamp_us } => {
            cancel.cancel_all_and_advance();
            let _ = sm.transition(AppState::WakeConfirm);
            out.push(P0Effect::EmitWakeDetected { score: *wake_score, timestamp_us: *timestamp_us });
        },
        P0Task::WakeConfirmed { .. } => {
            let _ = sm.transition(AppState::ModeSelect);
            out.push(P0Effect::EmitWakeConfirmed);
            out.push(P0Effect::ShowModePanel);
        },
        P0Task::WakeRejected => {
            sm.force_sleep();
            out.push(P0Effect::EmitWakeRejected);
        },
        P0Task::ShowModePanel => {
            out.push(P0Effect::ShowModePanel);
        },
        P0Task::HideModePanel => {
            out.push(P0Effect::HideModePanel);
        },
        P0Task::PlaySound { sound_id } => {
            out.push(P0Effect::EmitPlaySound { sound_id: *sound_id });
        },
        P0Task::ForceCancel => {
            sm.force_sleep();
            out.push(P0Effect::EmitForceCancel);
            out.push(P0Effect::HideModePanel);
            out.push(P0Effect::HideResultPanel);
        },
    }
    proof {
        assert(out@ =~= p0_effects(*task));
    }
    out
}

/// What a non-blocking send attempt on a bounded queue reported.
#[derive(Clone, Copy, Debug, PartialEq, Eq, Structural)]
pub enum TrySendOutcome {
    Sent,
    Full,
    Closed,
}

/// What the sender does next.
#[derive(Clone, Copy, Debug, PartialEq, Eq, Structural)]
pub enum SendStep {
    /// The send is over; `true` when the task was queued.
    Done(bool),
    /// Wait for a free slot and send then; the task is kept, never dropped.
    AwaitSlot,
}

/// Send policy of the bounded P1 and P2 queues: try first, and on a full
/// queue wait for a slot rather than drop the task.
pub fn send_policy(outcome: TrySendOutcome) -> (r: SendStep)
    ensures
        outcome == TrySendOutcome::Sent ==> r == SendStep::Done(true),
        outcome == TrySendOutcome::Full ==> r == SendStep::AwaitSlot,
        outcome == TrySendOutcome::Closed ==> r == SendStep::Done(false),
{
    match outcome {
        TrySendOutcome::Sent => SendStep::Done(true),
        TrySendOutcome::Full => SendStep::AwaitSlot,
        TrySendOutcome::Closed => SendStep::Done(false),
    }
}

/// Slots of the P1 queue.
pub const P1_QUEUE_SLOTS: usize = 64;

/// Slots of the P2 queue.
pub const P2_QUEUE_SLOTS: usize = 16;

} // verus!
