use ciallo::cancellation::CancelCoordinator;
use ciallo::ring_buffer::RingBuffer;
use ciallo::scheduler::{handle_p0_task, send_policy, P0Effect, P0Task, SendStep, TrySendOutcome};
use ciallo::state_machine::{AppState, StateMachine, TranslateMode};
use ciallo::wake::{mean_square, EnergyVad, WakeConfirmer, WakeTracker};

#[test]
fn ring_buffer_capacity_from_rate_and_duration() {
    let rb = RingBuffer::new(16000, 3000);
    assert_eq!(rb.capacity(), 48000);
    assert_eq!(rb.sample_rate(), 16000);
    assert_eq!(rb.available(), 0);
}

#[test]
fn ring_buffer_reads_in_write_order() {
    let mut rb = RingBuffer::new(1000, 8);
    rb.write(&[1, 2, 3]);
    assert_eq!(rb.available(), 3);
    let mut out = [0i16; 2];
    assert_eq!(rb.read(&mut out), 2);
    assert_eq!(out, [1, 2]);
    assert_eq!(rb.available(), 1);
    let mut rest = [9i16; 4];
    assert_eq!(rb.read(&mut rest), 1);
    assert_eq!(rest, [3, 9, 9, 9]);
    assert_eq!(rb.available(), 0);
}

#[test]
fn ring_buffer_reader_sees_stream_suffix_after_wrap() {
    // capacity 8; writes totalling 13 samples, reads in between
    let mut rb = RingBuffer::new(1000, 8);
    rb.write(&[1, 2, 3, 4, 5]);
    let mut out = [0i16; 3];
    assert_eq!(rb.read(&mut out), 3);
    assert_eq!(out, [1, 2, 3]);
    rb.write(&[6, 7, 8, 9, 10, 11, 12, 13]);
    // unread = (write_pos - read_pos) mod capacity
    let avail = rb.available();
    assert!(avail < rb.capacity());
    let mut all = vec![0i16; avail];
    assert_eq!(rb.read(&mut all), avail);
    let expected: Vec<i16> = (14 - avail as i16..14).collect();
    assert_eq!(all, expected);
}

#[test]
fn ring_buffer_peek_last_and_reset() {
    let mut rb = RingBuffer::new(1000, 4);
    rb.write(&[1, 2]);
    assert_eq!(rb.peek_last(3), vec![0, 1, 2]);
    rb.write(&[3, 4, 5]);
    assert_eq!(rb.peek_last(10), vec![2, 3, 4, 5]);
    assert_eq!(rb.peek_last(2), vec![4, 5]);
    rb.reset_read();
    assert_eq!(rb.available(), 0);
    let mut out = [0i16; 4];
    assert_eq!(rb.read(&mut out), 0);
}

#[test]
fn state_machine_allows_listed_edges_only() {
    assert!(AppState::Sleep.can_transition_to(AppState::WakeConfirm));
    assert!(AppState::Capture.can_transition_to(AppState::Translate));
    assert!(AppState::Idle.can_transition_to(AppState::ModeSelect));
    assert!(AppState::Render.can_transition_to(AppState::Sleep));
    assert!(!AppState::Sleep.can_transition_to(AppState::Capture));
    assert!(!AppState::Translate.can_transition_to(AppState::Ocr));
    assert!(!AppState::Idle.can_transition_to(AppState::Render));
}

#[test]
fn state_machine_invalid_transition_keeps_state() {
    let mut sm = StateMachine::new();
    let err = sm.transition(AppState::Render).unwrap_err();
    assert_eq!(err, "invalid transition: Sleep -> Render");
    assert_eq!(sm.current(), AppState::Sleep);
    assert_eq!(sm.transition(AppState::WakeConfirm), Ok(AppState::WakeConfirm));
    assert_eq!(sm.published(), AppState::WakeConfirm);
}

#[test]
fn state_machine_force_sleep_clears_mode() {
    let mut sm = StateMachine::new();
    sm.transition(AppState::WakeConfirm).unwrap();
    sm.transition(AppState::ModeSelect).unwrap();
    sm.set_mode(TranslateMode::Selection);
    sm.transition(AppState::Capture).unwrap();
    assert_eq!(sm.current_mode(), Some(TranslateMode::Selection));
    sm.force_sleep();
    assert_eq!(sm.current(), AppState::Sleep);
    assert_eq!(sm.current_mode(), None);
    assert_eq!(sm.published(), AppState::Sleep);
    assert_eq!(AppState::WakeConfirm.name(), "WakeConfirm");
}

#[test]
fn preemption_stops_old_guards_and_new_guards_continue() {
    let mut c = CancelCoordinator::new();
    let g1 = c.p1_guard();
    let g2 = c.p2_guard();
    assert!(g1.should_continue(&c.p1));
    assert!(g2.should_continue(&c.p2));
    assert_eq!(c.cancel_all_and_advance(), 1);
    assert!(!g1.should_continue(&c.p1));
    assert!(!g2.should_continue(&c.p2));
    assert!(g1.is_cancelled(&c.p1));
    assert!(!g1.is_current(&c.p1));
    let fresh = c.p1_guard();
    assert_eq!(fresh.my_generation(), 1);
    assert!(fresh.should_continue(&c.p1));
    c.p1.cancel_all();
    assert!(!fresh.should_continue(&c.p1));
}

#[test]
fn scenario_preemption_drops_slow_translation() {
    let mut c = CancelCoordinator::new();
    let (_, generation) = c.p1.child_token();
    let guard = c.p1_guard();
    assert_eq!(generation, 0);
    // a wake arrives while the translation is streaming
    let mut sm = StateMachine::new();
    let effects = handle_p0_task(&mut sm, &mut c, &P0Task::WakeDetected { wake_score: 500, timestamp_us: 50_000 });
    assert_eq!(effects.len(), 1);
    // the wake itself preempted P1 and P2
    assert_eq!(c.p1.current_generation(), 1);
    assert_eq!(c.p2.current_generation(), 1);
    // the translate stage checks its guard before completing
    assert!(!guard.should_continue(&c.p1));
}

#[test]
fn backpressure_waits_on_full_queue() {
    assert_eq!(send_policy(TrySendOutcome::Full), SendStep::AwaitSlot);
    assert_eq!(send_policy(TrySendOutcome::Sent), SendStep::Done(true));
    assert_eq!(send_policy(TrySendOutcome::Closed), SendStep::Done(false));
    assert_eq!(ciallo::scheduler::P1_QUEUE_SLOTS, 64);
    assert_eq!(ciallo::scheduler::P2_QUEUE_SLOTS, 16);
}

#[test]
fn p0_force_cancel_sleeps_and_hides() {
    let mut sm = StateMachine::new();
    sm.transition(AppState::WakeConfirm).unwrap();
    let mut c = CancelCoordinator::new();
    let effects = handle_p0_task(&mut sm, &mut c, &P0Task::ForceCancel);
    assert_eq!(c.p1.current_generation(), 0);
    assert_eq!(sm.current(), AppState::Sleep);
    assert_eq!(effects.len(), 3);
    assert!(matches!(effects[0], P0Effect::EmitForceCancel));
    assert!(matches!(effects[2], P0Effect::HideResultPanel));
}

fn frame(level: i16) -> Vec<i16> {
    (0..512).map(|i| if i % 2 == 0 { level } else { -level }).collect()
}

#[test]
fn vad_mean_square_and_gate() {
    assert_eq!(mean_square(&frame(200)), 40_000);
    assert_eq!(mean_square(&[]), 0);
    assert_eq!(mean_square(&[3, 4]), 12);
    let mut vad = EnergyVad::new();
    let loud = vad.process(&frame(2000));
    assert!(loud.voice_active && loud.should_run_wake);
    assert_eq!(loud.mean_square, 4_000_000);
    for _ in 0..7 {
        let r = vad.process(&frame(200));
        assert!(r.voice_active);
    }
    let r = vad.process(&frame(200));
    assert!(!r.voice_active);
    // frame counter is 9 now: only every fourth frame is scored
    assert!(!r.should_run_wake);
    let _ = vad.process(&frame(200));
    let _ = vad.process(&frame(200));
    let r = vad.process(&frame(200));
    assert!(r.should_run_wake);
}

#[test]
fn confirmer_thresholds() {
    let c = WakeConfirmer::new();
    assert!(c.should_trigger(200));
    assert!(!c.should_trigger(199));
    assert!(c.is_confirmed(&[400, 100, 450]));
    assert!(!c.is_confirmed(&[400, 399]));
}

fn drive(sm: &mut StateMachine, tasks: Vec<P0Task>, log: &mut Vec<P0Task>) {
    let mut c = CancelCoordinator::new();
    for t in tasks {
        handle_p0_task(sm, &mut c, &t);
        log.push(t);
    }
}

#[test]
fn scenario_wake_accept() {
    let mut sm = StateMachine::new();
    let mut tracker = WakeTracker::new();
    let mut log = Vec::new();
    // quiet frames: RMS 200
    for k in 0..4u64 {
        let need = tracker.needs_score(sm.current(), &frame(200), k * 32);
        let out = tracker.on_frame(sm.current(), k * 32, if need { Some(0) } else { None });
        assert!(out.is_empty());
    }
    // rising to RMS 2000: the detector reports 0.05 for the loud frames
    let mut t = 128u64;
    assert!(tracker.needs_score(sm.current(), &frame(2000), t));
    let out = tracker.on_frame(sm.current(), t, Some(500));
    drive(&mut sm, out, &mut log);
    assert_eq!(sm.current(), AppState::WakeConfirm);
    for _ in 0..2 {
        t += 32;
        assert!(tracker.needs_score(sm.current(), &frame(2000), t));
        let out = tracker.on_frame(sm.current(), t, Some(500));
        assert!(out.is_empty());
    }
    t = 128 + 151;
    assert!(!tracker.needs_score(sm.current(), &frame(2000), t));
    let out = tracker.on_frame(sm.current(), t, None);
    drive(&mut sm, out, &mut log);
    assert!(matches!(log[0], P0Task::WakeDetected { wake_score: 500, .. }));
    assert!(matches!(log[1], P0Task::PlaySound { sound_id: "wake" }));
    assert!(matches!(log[2], P0Task::WakeConfirmed { .. }));
    assert!(matches!(log[3], P0Task::ShowModePanel));
    assert_eq!(sm.current(), AppState::ModeSelect);
}

#[test]
fn scenario_wake_reject() {
    let mut sm = StateMachine::new();
    let mut tracker = WakeTracker::new();
    let mut log = Vec::new();
    assert!(tracker.needs_score(sm.current(), &frame(2000), 0));
    let out = tracker.on_frame(sm.current(), 0, Some(300));
    drive(&mut sm, out, &mut log);
    assert_eq!(sm.current(), AppState::WakeConfirm);
    let out = tracker.on_frame(sm.current(), 40, Some(0));
    assert!(out.is_empty());
    let out = tracker.on_frame(sm.current(), 200, None);
    drive(&mut sm, out, &mut log);
    assert!(matches!(log[0], P0Task::WakeDetected { wake_score: 300, .. }));
    assert!(matches!(log[2], P0Task::WakeRejected));
    assert!(matches!(log[3], P0Task::PlaySound { sound_id: "reject" }));
    assert_eq!(sm.current(), AppState::Sleep);
}

#[test]
fn audio_config_defaults_size_the_ring() {
    let cfg = ciallo::ring_buffer::AudioConfig::default();
    assert_eq!((cfg.sample_rate, cfg.channels, cfg.ring_buffer_ms, cfg.frame_size), (16000, 1, 3000, 512));
    let rb = RingBuffer::new(cfg.sample_rate, cfg.ring_buffer_ms);
    assert_eq!(rb.capacity(), 48_000);
}
