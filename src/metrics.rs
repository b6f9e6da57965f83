use vstd::prelude::*;
use crate::text::{chars_of, seq_eq};

verus! {

/// Relies on `uuid::Uuid::new_v4` and its hyphenated `Display`: a random
/// identifier of 36 characters.
#[verifier::external_body]
fn random_id() -> (r: String)
    ensures
        r@.len() == 36,
{
    uuid::Uuid::new_v4().to_string()
}

/// Identifiers every request carries: `trace_id` survives end to end,
/// `request_id` is per submission, `generation` is the counter at
/// submission.
#[derive(Clone, Debug)]
pub struct RequestIds {
    pub trace_id: String,
    pub request_id: String,
    pub generation: u64,
}

impl RequestIds {
    pub fn new(generation: u64) -> (r: Self)
        ensures
            r.generation == generation,
            r.trace_id@.len() == 36,
            r.request_id@.len() == 36,
    {
        RequestIds { trace_id: random_id(), request_id: random_id(), generation }
    }
}

pub open spec fn sorted(s: Seq<u64>) -> bool {
    forall|i: int, j: int| 0 <= i <= j < s.len() ==> s[i] <= s[j]
}

/// Relies on `slice::sort_unstable`: the same values, in ascending order.
#[verifier::external_body]
fn sort_ascending(v: &mut Vec<u64>)
    ensures
        final(v)@.to_multiset() == old(v)@.to_multiset(),
        final(v)@.len() == old(v)@.len(),
        sorted(final(v)@),
{
    v.sort_unstable()
}

/// Index of the `p`-th percentile among `count` sorted samples:
/// `round(p / 100 * (count - 1))`.
pub open spec fn percentile_index(p: nat, count: nat) -> nat {
    let idx = ((p * (count - 1) + 50) / 100) as nat;
    if idx < count {
        idx
    } else {
        (count - 1) as nat
    }
}

/// A sample ring as plain values: `(slots, next slot, count, capacity)`.
pub type RingView = (Seq<u64>, nat, nat, nat);

/// The samples held: the first `count` slots. Until the ring is full these
/// are the pushes in order; once full, every slot holds one of the last
/// `capacity` pushes.
pub open spec fn held_of(v: RingView) -> Seq<u64> {
    v.0.subrange(0, v.2 as int)
}

/// The ring after pushing `value`: the next slot is overwritten and the
/// position wraps; the count grows until the capacity.
pub open spec fn pushed(v: RingView, value: u64) -> RingView {
    (
        v.0.update(v.1 as int, value),
        if v.1 + 1 == v.3 { 0 } else { v.1 + 1 },
        if v.2 < v.3 { v.2 + 1 } else { v.2 },
        v.3,
    )
}

/// An empty ring of `capacity` zeroed slots.
pub open spec fn empty_ring(capacity: nat) -> RingView {
    (Seq::new(capacity, |i: int| 0u64), 0, 0, capacity)
}

/// `r` is the `p`-th percentile of the held samples: the sample at
/// `round(p / 100 * (count - 1))` in ascending order, or 0 when empty.
pub open spec fn is_percentile(v: RingView, p: nat, r: u64) -> bool {
    &&& v.2 == 0 ==> r == 0
    &&& v.2 > 0 ==> exists|s: Seq<u64>|
        s.to_multiset() == held_of(v).to_multiset() && sorted(s) && s.len() == v.2 && r
            == s[percentile_index(p, v.2) as int]
}

/// Fixed-capacity ring of samples, in microseconds.
pub struct SampleRing {
    samples: Vec<u64>,
    pos: usize,
    count: usize,
    capacity: usize,
}

impl SampleRing {
    pub closed spec fn wf(&self) -> bool {
        &&& self.capacity > 0
        &&& self.samples@.len() == self.capacity
        &&& self.pos < self.capacity
        &&& self.count <= self.capacity
        &&& self.count < self.capacity ==> self.pos == self.count
    }

    pub closed spec fn view(&self) -> RingView {
        (self.samples@, self.pos as nat, self.count as nat, self.capacity as nat)
    }

    /// The samples held.
    pub open spec fn held(&self) -> Seq<u64> {
        held_of(self.view())
    }

    pub open spec fn spec_count(&self) -> nat {
        self.view().2
    }

    pub open spec fn spec_capacity(&self) -> nat {
        self.view().3
    }

    pub fn new(capacity: usize) -> (r: Self)
        requires
            capacity > 0,
        ensures
            r.wf(),
            r.view() == empty_ring(capacity as nat),
    {
        let mut samples: Vec<u64> = Vec::new();
        while samples.len() < capacity
            invariant
                samples@.len() <= capacity,
                forall|k: int| 0 <= k < samples@.len() ==> samples@[k] == 0,
            decreases capacity - samples.len(),
        {
            samples.push(0);
        }
        let r = SampleRing { samples, pos: 0, count: 0, capacity };
        assert(r.samples@ =~= empty_ring(capacity as nat).0);
        r
    }

    /// Stores a sample in the next slot, overwriting the oldest once full.
    pub fn push(&mut self, value: u64)
        requires
            old(self).wf(),
        ensures
            final(self).wf(),
            final(self).view() == pushed(old(self).view(), value),
    {
        self.samples.set(self.pos, value);
        self.pos = if self.pos + 1 == self.capacity {
            0
        } else {
            self.pos + 1
        };
        if self.count < self.capacity {
            self.count = self.count + 1;
        }
    }

    pub fn count(&self) -> (r: usize)
        ensures
            r == self.spec_count(),
    {
        self.count
    }

    /// The `p`-th percentile (0 to 100) of the held samples.
    pub fn percentile(&self, p: u64) -> (r: u64)
        requires
            self.wf(),
            p <= 100,
        ensures
            is_percentile(self.view(), p as nat, r),
    {
        if self.count == 0 {
            return 0;
        }
        let mut sorted_samples: Vec<u64> = Vec::new();
        let mut i: usize = 0;
        while i < self.count
            invariant
                self.wf(),
                i <= self.count,
                sorted_samples@ == self.samples@.subrange(0, i as int),
            decreases self.count - i,
        {
            sorted_samples.push(self.samples[i]);
            proof {
                assert(self.samples@.subrange(0, i + 1) =~= self.samples@.subrange(0, i as int).push(
                    self.samples@[i as int],
                ));
            }
            i = i + 1;
        }
        sort_ascending(&mut sorted_samples);
        let n = self.count as u64;
        assert(p * (n - 1) + 50 <= 100 * n + 50) by (nonlinear_arith)
            requires
                p <= 100,
                n >= 1,
        ;
        assert(n <= usize::MAX);
        let raw = (p as u128 * (n - 1) as u128 + 50) / 100;
        let idx = if raw < n as u128 {
            raw as usize
        } else {
            (n - 1) as usize
        };
        let r = sorted_samples[idx];
        assert(is_percentile(self.view(), p as nat, r));
        r
    }
}

/// Percentiles of one metric.
#[derive(Clone, Copy, Debug, PartialEq, Eq, Structural)]
pub struct MetricSummary {
    pub p50_us: u64,
    pub p95_us: u64,
    pub p99_us: u64,
    pub count: usize,
}

/// Samples kept per metric.
pub const RING_CAPACITY: usize = 1024;

/// Named histograms of timings.
pub struct MetricsRegistry {
    histograms: Vec<(String, SampleRing)>,
    ring_capacity: usize,
}

impl MetricsRegistry {
    pub closed spec fn wf(&self) -> bool {
        &&& self.ring_capacity > 0
        &&& forall|i: int| 0 <= i < self.histograms@.len() ==> (#[trigger] self.histograms@[i]).1.wf()
        &&& forall|i: int, j: int|
            0 <= i < j < self.histograms@.len() ==> self.histograms@[i].0@ != self.histograms@[j].0@
    }

    /// Names of the metrics recorded so far, in order of first record.
    pub closed spec fn names(&self) -> Seq<Seq<char>> {
        self.histograms@.map_values(|h: (String, SampleRing)| h.0@)
    }

    /// The rings, in the order of `names()`.
    pub closed spec fn rings(&self) -> Seq<RingView> {
        self.histograms@.map_values(|h: (String, SampleRing)| h.1.view())
    }

    pub closed spec fn spec_ring_capacity(&self) -> nat {
        self.ring_capacity as nat
    }

    pub fn new() -> (r: Self)
        ensures
            r.wf(),
            r.names() == Seq::<Seq<char>>::empty(),
            r.rings() == Seq::<RingView>::empty(),
            r.spec_ring_capacity() == RING_CAPACITY,
    {
        let r = MetricsRegistry { histograms: Vec::new(), ring_capacity: RING_CAPACITY };
        assert(r.names() =~= Seq::<Seq<char>>::empty());
        assert(r.rings() =~= Seq::<RingView>::empty());
        r
    }

    fn find(&self, name: &str) -> (r: Option<usize>)
        ensures
            match r {
                Some(i) => i < self.histograms@.len() && self.names()[i as int] == name@,
                None => !self.names().contains(name@),
            },
    {
        let key = chars_of(name);
        let mut i: usize = 0;
        while i < self.histograms.len()
            invariant
                i <= self.histograms@.len(),
                key@ == name@,
                forall|j: int| 0 <= j < i ==> self.names()[j] != name@,
            decreases self.histograms.len() - i,
        {
            if seq_eq(&chars_of(self.histograms[i].0.as_str()), &key) {
                return Some(i);
            }
            i = i + 1;
        }
        None
    }

    /// Records `value_us` under `name`, creating the histogram on first use;
    /// every other metric is unchanged.
    pub fn record(&mut self, name: &str, value_us: u64)
        requires
            old(self).wf(),
        ensures
            final(self).wf(),
            final(self).spec_ring_capacity() == old(self).spec_ring_capacity(),
            forall|i: int|
                0 <= i < old(self).names().len() && old(self).names()[i] == name@ ==> {
                    &&& final(self).names() == old(self).names()
                    &&& final(self).rings() == old(self).rings().update(
                        i,
                        pushed(old(self).rings()[i], value_us),
                    )
                },
            !old(self).names().contains(name@) ==> {
                &&& final(self).names() == old(self).names().push(name@)
                &&& final(self).rings() == old(self).rings().push(
                    pushed(empty_ring(old(self).spec_ring_capacity()), value_us),
                )
            },
    {
        let ghost old_rings = self.rings();
        let ghost old_names = self.names();
        match self.find(name) {
            Some(i) => {
                let mut entry = self.histograms.remove(i);
                entry.1.push(value_us);
                self.histograms.insert(i, entry);
                proof {
                    assert(self.names() =~= old_names);
                    assert(self.rings() =~= old_rings.update(i as int, pushed(old_rings[i as int], value_us)));
                    assert forall|k: int|
                        0 <= k < old_names.len() && old_names[k] == name@ implies k == i by {
                        if k != i {
                            assert(old(self).histograms@[k].0@ == old(self).histograms@[i as int].0@);
                        }
                    }
                }
            },
            None => {
                let mut ring = SampleRing::new(self.ring_capacity);
                ring.push(value_us);
                self.histograms.push((String::from_str(name), ring));
                proof {
                    assert(self.names() =~= old_names.push(name@));
                    assert(self.rings() =~= old_rings.push(pushed(empty_ring(self.ring_capacity as nat), value_us)));
                    assert forall|a: int, b: int|
                        0 <= a < b < self.histograms@.len() implies self.histograms@[a].0@
                        != self.histograms@[b].0@ by {
                        if b == self.histograms@.len() - 1 {
                            assert(old_names[a] == self.histograms@[a].0@);
                        }
                    }
                }
            },
        }
    }

    /// The `p`-th percentile of `name`'s held samples; 0 for an unknown
    /// metric.
    pub fn percentile(&self, name: &str, p: u64) -> (r: u64)
        requires
            self.wf(),
            p <= 100,
        ensures
            !self.names().contains(name@) ==> r == 0,
            forall|i: int|
                0 <= i < self.names().len() && self.names()[i] == name@ ==> is_percentile(
                    self.rings()[i],
                    p as nat,
                    r,
                ),
    {
        match self.find(name) {
            Some(i) => {
                let r = self.histograms[i].1.percentile(p);
                proof {
                    assert forall|k: int|
                        0 <= k < self.names().len() && self.names()[k] == name@ implies is_percentile(
                        self.rings()[k],
                        p as nat,
                        r,
                    ) by {
                        if k != i {
                            assert(self.histograms@[k].0@ == self.histograms@[i as int].0@);
                        }
                    }
                }
                r
            },
            None => 0,
        }
    }

    /// p50, p95, p99 and count of every metric, in order of first record.
    pub fn summary(&self) -> (r: Vec<(String, MetricSummary)>)
        requires
            self.wf(),
        ensures
            r@.map_values(|e: (String, MetricSummary)| e.0@) == self.names(),
            forall|i: int|
                0 <= i < r@.len() ==> {
                    let s = (#[trigger] r@[i]).1;
                    &&& is_percentile(self.rings()[i], 50, s.p50_us)
                    &&& is_percentile(self.rings()[i], 95, s.p95_us)
                    &&& is_percentile(self.rings()[i], 99, s.p99_us)
                    &&& s.count == self.rings()[i].2
                },
    {
        let mut out: Vec<(String, MetricSummary)> = Vec::new();
        let mut i: usize = 0;
        while i < self.histograms.len()
            invariant
                self.wf(),
                i <= self.histograms@.len(),
                out@.len() == i,
                out@.map_values(|e: (String, MetricSummary)| e.0@) == self.names().subrange(0, i as int),
                forall|k: int|
                    0 <= k < i ==> {
                        let s = (#[trigger] out@[k]).1;
                        &&& is_percentile(self.rings()[k], 50, s.p50_us)
                        &&& is_percentile(self.rings()[k], 95, s.p95_us)
                        &&& is_percentile(self.rings()[k], 99, s.p99_us)
                        &&& s.count == self.rings()[k].2
                    },
            decreases self.histograms.len() - i,
        {
            let ghost before = out@.map_values(|e: (String, MetricSummary)| e.0@);
            let ring = &self.histograms[i].1;
            assert(self.rings()[i as int] == ring.view());
            let s = MetricSummary {
                p50_us: ring.percentile(50),
                p95_us: ring.percentile(95),
                p99_us: ring.percentile(99),
                count: ring.count(),
            };
            out.push((self.histograms[i].0.clone(), s));
            proof {
                assert(out@.map_values(|e: (String, MetricSummary)| e.0@) =~= before.push(self.names()[i as int]));
                assert(self.names().subrange(0, i + 1) =~= self.names().subrange(0, i as int).push(self.names()[i as int]));
            }
            i = i + 1;
        }
        assert(self.names().subrange(0, self.histograms@.len() as int) =~= self.names());
        out
    }
}

/// Well-known metric names.
pub const WAKE_DETECTED: &'static str = "t_wake_detected";
pub const WAKE_UI_EMITTED: &'static str = "t_wake_ui_emitted";
pub const MODE_PANEL_VISIBLE: &'static str = "t_mode_panel_visible";
pub const CAPTURE_DONE: &'static str = "t_capture_done";
pub const OCR_DONE: &'static str = "t_ocr_done";
pub const TRANSLATE_FIRST_CHUNK: &'static str = "t_translate_first_chunk";
pub const TRANSLATE_DONE: &'static str = "t_translate_done";
pub const RENDER_DONE: &'static str = "t_render_done";
pub const QUEUE_WAIT_P0: &'static str = "queue_wait_p0";
pub const QUEUE_WAIT_P1: &'static str = "queue_wait_p1";
pub const QUEUE_WAIT_P2: &'static str = "queue_wait_p2";
pub const CANCEL_LATENCY: &'static str = "cancel_latency";
pub const REALTIME_CYCLE: &'static str = "t_realtime_cycle";

} // verus!
