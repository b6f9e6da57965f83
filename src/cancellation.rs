use vstd::prelude::*;

verus! {

/// A cancellation signal, identified by the generation it was issued in.
///
/// A signal is cancelled once its generation's signal has been fired, which
/// happens at the latest when the generation advances.
#[derive(Clone, Copy, Debug, PartialEq, Eq, Structural)]
pub struct CancelSignal {
    pub issued_in: u64,
}

/// Generation counter of one pipeline together with the cancellation state
/// of its current signal.
pub struct TaskGeneration {
    generation: u64,
    current_fired: bool,
}

impl TaskGeneration {
    pub closed spec fn spec_generation(&self) -> u64 {
        self.generation
    }

    pub closed spec fn spec_current_fired(&self) -> bool {
        self.current_fired
    }

    /// Whether `sig` has been cancelled: its generation is over, or the
    /// current signal was fired.
    pub open spec fn signal_cancelled(&self, sig: CancelSignal) -> bool {
        sig.issued_in < self.spec_generation() || (sig.issued_in == self.spec_generation()
            && self.spec_current_fired())
    }

    pub fn new() -> (r: Self)
        ensures
            r.spec_generation() == 0,
            !r.spec_current_fired(),
    {
        TaskGeneration { generation: 0, current_fired: false }
    }

    /// Cancels every holder of the current signal, starts a fresh one and
    /// returns the new generation number.
    pub fn cancel_and_advance(&mut self) -> (r: u64)
        requires
            old(self).spec_generation() < u64::MAX,
        ensures
            r == old(self).spec_generation() + 1,
            final(self).spec_generation() == r,
            !final(self).spec_current_fired(),
    {
        self.generation = self.generation + 1;
        self.current_fired = false;
        self.generation
    }

    /// A signal tied to the current generation, without cancelling anything.
    pub fn child_token(&self) -> (r: (CancelSignal, u64))
        ensures
            r.0.issued_in == self.spec_generation(),
            r.1 == self.spec_generation(),
    {
        (CancelSignal { issued_in: self.generation }, self.generation)
    }

    pub fn current_generation(&self) -> (r: u64)
        ensures
            r == self.spec_generation(),
    {
        self.generation
    }

    /// Fires the current signal without advancing the generation.
    pub fn cancel_all(&mut self)
        ensures
            final(self).spec_generation() == old(self).spec_generation(),
            final(self).spec_current_fired(),
    {
        self.current_fired = true;
    }

    /// Whether `sig` has been cancelled.
    pub fn is_signal_cancelled(&self, sig: CancelSignal) -> (r: bool)
        ensures
            r == self.signal_cancelled(sig),
    {
        sig.issued_in < self.generation || (sig.issued_in == self.generation && self.current_fired)
    }
}

/// What a task carries to decide, before each user-visible effect, whether
/// its work is still wanted.
#[derive(Clone, Copy, Debug, PartialEq, Eq, Structural)]
pub struct GenerationGuard {
    my_generation: u64,
    token: CancelSignal,
}

impl GenerationGuard {
    pub closed spec fn spec_my_generation(&self) -> u64 {
        self.my_generation
    }

    pub closed spec fn spec_token(&self) -> CancelSignal {
        self.token
    }

    /// The guard is current and its signal not cancelled.
    pub open spec fn continues(&self, live: &TaskGeneration) -> bool {
        self.spec_my_generation() == live.spec_generation() && !live.signal_cancelled(
            self.spec_token(),
        )
    }

    pub fn new(my_generation: u64, token: CancelSignal) -> (r: Self)
        ensures
            r.spec_my_generation() == my_generation,
            r.spec_token() == token,
    {
        GenerationGuard { my_generation, token }
    }

    /// Whether no newer generation has started.
    pub fn is_current(&self, live: &TaskGeneration) -> (r: bool)
        ensures
            r == (self.spec_my_generation() == live.spec_generation()),
    {
        self.my_generation == live.current_generation()
    }

    pub fn is_cancelled(&self, live: &TaskGeneration) -> (r: bool)
        ensures
            r == live.signal_cancelled(self.spec_token()),
    {
        live.is_signal_cancelled(self.token)
    }

    /// Not cancelled and still current.
    pub fn should_continue(&self, live: &TaskGeneration) -> (r: bool)
        ensures
            r == self.continues(live),
    {
        !self.is_cancelled(live) && self.is_current(live)
    }

    pub fn token(&self) -> (r: CancelSignal)
        ensures
            r == self.spec_token(),
    {
        self.token
    }

    pub fn my_generation(&self) -> (r: u64)
        ensures
            r == self.spec_my_generation(),
    {
        self.my_generation
    }
}

/// Generations of the interactive (P1) and OCR (P2) pipelines, plus a
/// global counter of preemptions.
pub struct CancelCoordinator {
    pub p1: TaskGeneration,
    pub p2: TaskGeneration,
    pub global_generation: u64,
}

impl CancelCoordinator {
    pub closed spec fn spec_global_generation(&self) -> u64 {
        self.global_generation
    }

    /// A guard was handed out by this coordinator's P1 side at some point:
    /// neither its generation nor its signal lies in the future.
    pub open spec fn p1_issued(&self, g: GenerationGuard) -> bool {
        g.spec_my_generation() <= self.p1.spec_generation() && g.spec_token().issued_in
            <= self.p1.spec_generation()
    }

    pub open spec fn p2_issued(&self, g: GenerationGuard) -> bool {
        g.spec_my_generation() <= self.p2.spec_generation() && g.spec_token().issued_in
            <= self.p2.spec_generation()
    }

    /// The effect of `cancel_all_and_advance` on the pipeline generations.
    pub open spec fn advanced_from(&self, before: &CancelCoordinator) -> bool {
        &&& self.p1.spec_generation() == before.p1.spec_generation() + 1
        &&& self.p2.spec_generation() == before.p2.spec_generation() + 1
        &&& !self.p1.spec_current_fired()
        &&& !self.p2.spec_current_fired()
        &&& self.spec_global_generation() == before.spec_global_generation() + 1
    }

    pub fn new() -> (r: Self)
        ensures
            r.p1.spec_generation() == 0,
            r.p2.spec_generation() == 0,
            !r.p1.spec_current_fired(),
            !r.p2.spec_current_fired(),
            r.spec_global_generation() == 0,
    {
        CancelCoordinator { p1: TaskGeneration::new(), p2: TaskGeneration::new(), global_generation: 0 }
    }

    /// Preempts all P1 and P2 work: both pipelines advance and fire their
    /// signals. Returns the new global generation.
    pub fn cancel_all_and_advance(&mut self) -> (r: u64)
        requires
            old(self).p1.spec_generation() < u64::MAX,
            old(self).p2.spec_generation() < u64::MAX,
            old(self).spec_global_generation() < u64::MAX,
        ensures
            final(self).advanced_from(old(self)),
            r == final(self).spec_global_generation(),
    {
        self.p1.cancel_and_advance();
        self.p2.cancel_and_advance();
        self.global_generation = self.global_generation + 1;
        self.global_generation
    }

    /// A guard for a P1 task, bound to the current P1 generation.
    pub fn p1_guard(&self) -> (r: GenerationGuard)
        ensures
            r.spec_my_generation() == self.p1.spec_generation(),
            r.spec_token().issued_in == self.p1.spec_generation(),
    {
        let (token, generation) = self.p1.child_token();
        GenerationGuard::new(generation, token)
    }

    /// A guard for a P2 task, bound to the current P2 generation.
    pub fn p2_guard(&self) -> (r: GenerationGuard)
        ensures
            r.spec_my_generation() == self.p2.spec_generation(),
            r.spec_token().issued_in == self.p2.spec_generation(),
    {
        let (token, generation) = self.p2.child_token();
        GenerationGuard::new(generation, token)
    }
}

/// After a global preemption, no guard handed out before it may continue,
/// on either pipeline.
pub proof fn lemma_preemption_stops_old_guards(
    before: &CancelCoordinator,
    after: &CancelCoordinator,
    g1: GenerationGuard,
    g2: GenerationGuard,
)
    requires
        after.advanced_from(before),
        before.p1_issued(g1),
        before.p2_issued(g2),
    ensures
        !g1.continues(&after.p1),
        !g2.continues(&after.p2),
{
}

/// A guard taken after a preemption continues until the next advance or
/// the next firing of its pipeline's signal.
pub proof fn lemma_fresh_guard_continues(
    before: &CancelCoordinator,
    after: &CancelCoordinator,
    g1: GenerationGuard,
    g2: GenerationGuard,
)
    requires
        after.advanced_from(before),
        g1.spec_my_generation() == after.p1.spec_generation(),
        g1.spec_token().issued_in == after.p1.spec_generation(),
        g2.spec_my_generation() == after.p2.spec_generation(),
        g2.spec_token().issued_in == after.p2.spec_generation(),
    ensures
        g1.continues(&after.p1),
        g2.continues(&after.p2),
{
}

} // verus!
