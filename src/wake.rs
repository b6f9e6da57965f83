use vstd::prelude::*;
use crate::scheduler::P0Task;
use crate::state_machine::AppState;

verus! {

/// Sum of the squared samples.
pub open spec fn sum_squares(s: Seq<i16>) -> nat
    decreases s.len(),
{
    if s.len() == 0 {
        0
    } else {
        sum_squares(s.drop_last()) + (s.last() as int * s.last() as int) as nat
    }
}

/// Mean energy of a frame, rounded down: the square of its RMS level.
pub open spec fn spec_mean_square(s: Seq<i16>) -> nat {
    if s.len() == 0 {
        0
    } else {
        sum_squares(s) / s.len()
    }
}

proof fn lemma_sum_squares_bound(s: Seq<i16>)
    ensures
        sum_squares(s) <= s.len() * 0x4000_0000,
    decreases s.len(),
{
    if s.len() > 0 {
        lemma_sum_squares_bound(s.drop_last());
        let x = s.last() as int;
        assert(x * x <= 0x4000_0000) by (nonlinear_arith)
            requires
                -0x8000 <= x <= 0x7fff,
        ;
        assert((s.len() - 1) * 0x4000_0000 + 0x4000_0000 == s.len() * 0x4000_0000)
            by (nonlinear_arith);
        assert(x * x >= 0) by (nonlinear_arith);
        assert(sum_squares(s) == sum_squares(s.drop_last()) + x * x);
    }
}

/// Mean of the squared samples, rounded down (0 for an empty frame).
///
/// An RMS level is below `t` exactly when this value is below `t * t`.
pub fn mean_square(samples: &[i16]) -> (r: u64)
    ensures
        r == spec_mean_square(samples@),
{
    let n = samples.len();
    if n == 0 {
        return 0;
    }
    let mut sum: u128 = 0;
    let mut i: usize = 0;
    while i < n
        invariant
            i <= n,
            n == samples@.len(),
            sum == sum_squares(samples@.subrange(0, i as int)),
        decreases n - i,
    {
        proof {
            lemma_sum_squares_bound(samples@.subrange(0, i as int));
            assert(samples@.subrange(0, i + 1).drop_last() == samples@.subrange(0, i as int));
            assert((i as int) * 0x4000_0000 + 0x4000_0000 <= 0x1_0000_0000_0000_0000 * 0x4000_0000)
                by (nonlinear_arith)
                requires
                    i < 0x1_0000_0000_0000_0000,
            ;
        }
        let x = samples[i] as i64;
        assert(x * x <= 0x4000_0000) by (nonlinear_arith)
            requires
                -0x8000 <= x <= 0x7fff,
        ;
        assert(x * x >= 0) by (nonlinear_arith);
        sum = sum + (x * x) as u128;
        i = i + 1;
    }
    proof {
        assert(samples@.subrange(0, n as int) == samples@);
        lemma_sum_squares_bound(samples@);
        assert(sum_squares(samples@) / (n as nat) <= 0x4000_0000) by (nonlinear_arith)
            requires
                sum_squares(samples@) <= n * 0x4000_0000,
                n > 0,
        ;
    }
    (sum / (n as u128)) as u64
}

/// Outcome of the voice-activity gate for one frame.
#[derive(Clone, Copy, Debug, PartialEq, Eq, Structural)]
pub struct VadResult {
    pub voice_active: bool,
    /// Square of the frame's RMS level, rounded down.
    pub mean_square: u64,
    /// Whether the wake detector should score this frame.
    pub should_run_wake: bool,
}

/// Energy-based voice-activity detection.
///
/// A frame is silent when its RMS level is below the threshold. After
/// enough consecutive silent frames the voice is inactive, and the wake
/// detector then runs only on every fourth frame.
pub struct EnergyVad {
    silence_threshold: u32,
    silence_frames_needed: u32,
    silent_count: u32,
    voice_active: bool,
    frame_counter: u64,
}

/// RMS level below which a frame counts as silent.
pub const SILENCE_RMS: u32 = 300;

/// Consecutive silent frames after which the voice is inactive.
pub const SILENCE_FRAMES: u32 = 8;

impl EnergyVad {
    pub closed spec fn spec_voice_active(&self) -> bool {
        self.voice_active
    }

    pub closed spec fn spec_silent_count(&self) -> u32 {
        self.silent_count
    }

    pub closed spec fn spec_frame_counter(&self) -> u64 {
        self.frame_counter
    }

    pub closed spec fn spec_threshold(&self) -> u32 {
        self.silence_threshold
    }

    pub closed spec fn spec_frames_needed(&self) -> u32 {
        self.silence_frames_needed
    }

    pub fn new() -> (r: Self)
        ensures
            r.spec_threshold() == SILENCE_RMS,
            r.spec_frames_needed() == SILENCE_FRAMES,
            r.spec_silent_count() == 0,
            !r.spec_voice_active(),
            r.spec_frame_counter() == 0,
    {
        EnergyVad {
            silence_threshold: SILENCE_RMS,
            silence_frames_needed: SILENCE_FRAMES,
            silent_count: 0,
            voice_active: false,
            frame_counter: 0,
        }
    }

    /// Gates one frame.
    pub fn process(&mut self, samples: &[i16]) -> (r: VadResult)
        ensures
            r.mean_square == spec_mean_square(samples@),
            final(self).spec_threshold() == old(self).spec_threshold(),
            final(self).spec_frames_needed() == old(self).spec_frames_needed(),
            final(self).spec_frame_counter() == if old(self).spec_frame_counter() < u64::MAX {
                (old(self).spec_frame_counter() + 1) as u64
            } else {
                0u64
            },
            ({
                let silent = (r.mean_square as int) < old(self).spec_threshold() as int
                    * old(self).spec_threshold() as int;
                &&& silent ==> final(self).spec_silent_count() == if old(self).spec_silent_count()
                    < u32::MAX {
                    (old(self).spec_silent_count() + 1) as u32
                } else {
                    u32::MAX
                }
                &&& silent ==> final(self).spec_voice_active() == (old(self).spec_voice_active()
                    && final(self).spec_silent_count() < old(self).spec_frames_needed())
                &&& silent ==> r.should_run_wake == (final(self).spec_voice_active()
                    || final(self).spec_frame_counter() % 4 == 0)
                &&& !silent ==> final(self).spec_silent_count() == 0
                &&& !silent ==> final(self).spec_voice_active()
                &&& !silent ==> r.should_run_wake
            }),
            r.voice_active == final(self).spec_voice_active(),
{
    let ms = mean_square(samples);
    self.frame_counter = if self.frame_counter < u64::MAX {
        self.frame_counter + 1
    } else {
        0
    };
    let t = self.silence_threshold as u64;
    assert(t * t <= 0xFFFF_FFFF * 0xFFFF_FFFF) by (nonlinear_arith)
        requires
            t <= 0xFFFF_FFFF,
    ;
    if ms < t * t {
        if self.silent_count < u32::MAX {
            self.silent_count = self.silent_count + 1;
        }
        if self.silent_count >= self.silence_frames_needed {
            self.voice_active = false;
        }
        let run = self.should_run_wake_inference();
        VadResult { voice_active: self.voice_active, mean_square: ms, should_run_wake: run }
    } else {
        self.silent_count = 0;
        self.voice_active = true;
        VadResult { voice_active: true, mean_square: ms, should_run_wake: true }
    }
}

    /// Every frame while voice is active, every fourth frame otherwise.
    fn should_run_wake_inference(&self) -> (r: bool)
        ensures
            r == (self.spec_voice_active() || self.spec_frame_counter() % 4 == 0),
    {
        if self.voice_active {
            true
        } else {
            self.frame_counter % 4 == 0
        }
    }

    pub fn is_voice_active(&self) -> (r: bool)
        ensures
            r == self.spec_voice_active(),
    {
        self.voice_active
    }
}

/// Two-stage wake thresholds, scores in ten-thousandths.
#[derive(Clone, Copy, Debug, PartialEq, Eq, Structural)]
pub struct WakeConfirmer {
    /// Stage 1: a score at or above this acknowledges at once.
    pub th_low: u32,
    /// Stage 2: scores at or above this count towards confirmation.
    pub th_high: u32,
    /// Length of the confirmation window.
    pub confirm_window_ms: u64,
    /// Scores above `th_high` needed inside the window.
    pub confirm_frames_needed: u32,
}

/// How many of `scores` reach `th`.
pub open spec fn count_at_least(scores: Seq<u32>, th: u32) -> nat
    decreases scores.len(),
{
    if scores.len() == 0 {
        0
    } else {
        count_at_least(scores.drop_last(), th) + if scores.last() >= th {
            1nat
        } else {
            0nat
        }
    }
}

impl WakeConfirmer {
    /// Thresholds 0.02 and 0.04, a 150 ms window, two confirming frames.
    pub fn new() -> (r: Self)
        ensures
            r.th_low == 200,
            r.th_high == 400,
            r.confirm_window_ms == 150,
            r.confirm_frames_needed == 2,
    {
        WakeConfirmer { th_low: 200, th_high: 400, confirm_window_ms: 150, confirm_frames_needed: 2 }
    }

    /// Stage 1.
    pub fn should_trigger(&self, wake_score: u32) -> (r: bool)
        ensures
            r == (wake_score >= self.th_low),
    {
        wake_score >= self.th_low
    }

    /// Stage 2: enough window scores reached the high threshold.
    pub fn is_confirmed(&self, scores: &[u32]) -> (r: bool)
        ensures
            r == (count_at_least(scores@, self.th_high) >= self.confirm_frames_needed),
    {
        let mut hits: usize = 0;
        let mut i: usize = 0;
        while i < scores.len()
            invariant
                i <= scores@.len(),
                hits == count_at_least(scores@.subrange(0, i as int), self.th_high),
                hits <= i,
            decreases scores.len() - i,
        {
            proof {
                assert(scores@.subrange(0, i + 1).drop_last() == scores@.subrange(0, i as int));
            }
            if scores[i] >= self.th_high {
                hits = hits + 1;
            }
            i = i + 1;
        }
        proof {
            assert(scores@.subrange(0, scores@.len() as int) == scores@);
        }
        hits as u64 >= self.confirm_frames_needed as u64
    }
}

/// The frame-by-frame decisions of the wake path.
///
/// Asleep, a gated frame is scored and a score at the low threshold emits
/// `WakeDetected` at once and opens the confirmation window. While waiting
/// for confirmation, scores are collected until the window has passed;
/// then enough high scores emit `WakeConfirmed`, otherwise `WakeRejected`.
pub struct WakeTracker {
    pub vad: EnergyVad,
    pub confirmer: WakeConfirmer,
    scores: Vec<u32>,
    window_start_ms: Option<u64>,
}

/// Sound played on a stage-1 acknowledgement.
pub const SOUND_WAKE: &'static str = "wake";

/// Sound played when confirmation fails.
pub const SOUND_REJECT: &'static str = "reject";

impl WakeTracker {
    pub closed spec fn spec_scores(&self) -> Seq<u32> {
        self.scores@
    }

    pub closed spec fn spec_window_start(&self) -> Option<u64> {
        self.window_start_ms
    }

    pub closed spec fn spec_confirmer(&self) -> WakeConfirmer {
        self.confirmer
    }

    pub closed spec fn spec_vad(&self) -> EnergyVad {
        self.vad
    }

    /// The confirmation window opened at `start` is over at `now`.
    pub open spec fn window_over(&self, start: u64, now_ms: u64) -> bool {
        now_ms >= start && now_ms - start > self.spec_confirmer().confirm_window_ms
    }

    pub fn new() -> (r: Self)
        ensures
            r.spec_confirmer().th_low == 200,
            r.spec_confirmer().th_high == 400,
            r.spec_confirmer().confirm_window_ms == 150,
            r.spec_confirmer().confirm_frames_needed == 2,
            r.spec_scores() == Seq::<u32>::empty(),
            r.spec_window_start() is None,
            !r.spec_vad().spec_voice_active(),
            r.spec_vad().spec_threshold() == SILENCE_RMS,
            r.spec_vad().spec_frames_needed() == SILENCE_FRAMES,
            r.spec_vad().spec_silent_count() == 0,
            r.spec_vad().spec_frame_counter() == 0,
    {
        WakeTracker {
            vad: EnergyVad::new(),
            confirmer: WakeConfirmer::new(),
            scores: Vec::new(),
            window_start_ms: None,
        }
    }

    /// First half of a frame. Asleep, runs the voice gate on `samples`;
    /// returns whether the detector must score this frame.
    pub fn needs_score(&mut self, state: AppState, samples: &[i16], now_ms: u64) -> (r: bool)
        ensures
            final(self).spec_confirmer() == old(self).spec_confirmer(),
            final(self).spec_scores() == old(self).spec_scores(),
            final(self).spec_window_start() == old(self).spec_window_start(),
            state != AppState::Sleep ==> final(self).spec_vad() == old(self).spec_vad(),
            state == AppState::WakeConfirm ==> r == (match old(self).spec_window_start() {
                Some(start) => !old(self).window_over(start, now_ms),
                None => false,
            }),
            state != AppState::Sleep && state != AppState::WakeConfirm ==> !r,
    {
        match state {
            AppState::Sleep => {
                let v = self.vad.process(samples);
                v.should_run_wake
            },
            AppState::WakeConfirm => match self.window_start_ms {
                Some(start) => !(now_ms >= start && now_ms - start > self.confirmer.confirm_window_ms),
                None => false,
            },
            _ => false,
        }
    }

    /// Second half of a frame: `score` is the detector's score when
    /// `needs_score` asked for one. Returns the P0 tasks to submit, in order.
    pub fn on_frame(&mut self, state: AppState, now_ms: u64, score: Option<u32>) -> (r: Vec<P0Task>)
        ensures
            final(self).spec_confirmer() == old(self).spec_confirmer(),
            final(self).spec_vad() == old(self).spec_vad(),
            state == AppState::Sleep ==> match score {
                Some(s) if s >= old(self).spec_confirmer().th_low => {
                    &&& r@.len() == 2
                    &&& r@[0] == (P0Task::WakeDetected { wake_score: s, timestamp_us: spec_micros(now_ms) })
                    &&& r@[1] == (P0Task::PlaySound { sound_id: SOUND_WAKE })
                    &&& final(self).spec_scores() == seq![s]
                    &&& final(self).spec_window_start() == Some(now_ms)
                },
                _ => {
                    &&& r@.len() == 0
                    &&& final(self).spec_scores() == old(self).spec_scores()
                    &&& final(self).spec_window_start() == old(self).spec_window_start()
                },
            },
            state == AppState::WakeConfirm ==> match old(self).spec_window_start() {
                Some(start) => if old(self).window_over(start, now_ms) {
                    &&& r@.len() == 2
                    &&& if count_at_least(old(self).spec_scores(), old(self).spec_confirmer().th_high)
                        >= old(self).spec_confirmer().confirm_frames_needed {
                        &&& r@[0] == (P0Task::WakeConfirmed { timestamp_us: spec_micros(now_ms) })
                        &&& r@[1] == P0Task::ShowModePanel
                    } else {
                        &&& r@[0] == P0Task::WakeRejected
                        &&& r@[1] == (P0Task::PlaySound { sound_id: SOUND_REJECT })
                    }
                    &&& final(self).spec_scores() == Seq::<u32>::empty()
                    &&& final(self).spec_window_start() is None
                } else {
                    &&& r@.len() == 0
                    &&& final(self).spec_scores() == match score {
                        Some(s) => old(self).spec_scores().push(s),
                        None => old(self).spec_scores(),
                    }
                    &&& final(self).spec_window_start() == old(self).spec_window_start()
                },
                None => {
                    &&& r@.len() == 0
                    &&& final(self).spec_scores() == old(self).spec_scores()
                    &&& final(self).spec_window_start() is None
                },
            },
            state != AppState::Sleep && state != AppState::WakeConfirm ==> {
                &&& r@.len() == 0
                &&& final(self).spec_scores() == old(self).spec_scores()
                &&& final(self).spec_window_start() == old(self).spec_window_start()
            },
    {
        let mut out: Vec<P0Task> = Vec::new();
        match state {
            AppState::Sleep => {
                if let Some(s) = score {
                    if self.confirmer.should_trigger(s) {
                        out.push(P0Task::WakeDetected { wake_score: s, timestamp_us: micros(now_ms) });
                        out.push(P0Task::PlaySound { sound_id: SOUND_WAKE });
                        self.scores = Vec::new();
                        self.scores.push(s);
                        self.window_start_ms = Some(now_ms);
                        proof {
                            assert(self.scores@ =~= seq![s]);
                        }
                    }
                }
            },
            AppState::WakeConfirm => {
                if let Some(start) = self.window_start_ms {
                    if now_ms >= start && now_ms - start > self.confirmer.confirm_window_ms {
                        if self.confirmer.is_confirmed(self.scores.as_slice()) {
                            out.push(P0Task::WakeConfirmed { timestamp_us: micros(now_ms) });
                            out.push(P0Task::ShowModePanel);
                        } else {
                            out.push(P0Task::WakeRejected);
                            out.push(P0Task::PlaySound { sound_id: SOUND_REJECT });
                        }
                        self.window_start_ms = None;
                        self.scores = Vec::new();
                    } else if let Some(s) = score {
                        self.scores.push(s);
                    }
                }
            },
            _ => {},
        }
        out
    }
}

/// Milliseconds to microseconds, saturating.
pub open spec fn spec_micros(ms: u64) -> u64 {
    if ms as int * 1000 <= u64::MAX {
        (ms * 1000) as u64
    } else {
        u64::MAX
    }
}

fn micros(ms: u64) -> (r: u64)
    ensures
        r == spec_micros(ms),
{
    if ms <= u64::MAX / 1000 {
        ms * 1000
    } else {
        u64::MAX
    }
}

} // verus!
