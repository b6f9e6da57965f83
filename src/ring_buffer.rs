use vstd::prelude::*;

verus! {

/// Audio pipeline settings.
#[derive(Clone, Copy, Debug, PartialEq, Eq, Structural)]
pub struct AudioConfig {
    pub sample_rate: u32,
    pub channels: u16,
    /// Length of the ring buffer.
    pub ring_buffer_ms: u32,
    /// Samples per processing frame.
    pub frame_size: usize,
}

impl Default for AudioConfig {
    /// 16 kHz mono, a three-second ring, 512-sample frames.
    fn default() -> (r: Self)
        ensures
            r.sample_rate == 16000 && r.channels == 1 && r.ring_buffer_ms == 3000 && r.frame_size == 512,
    {
        AudioConfig { sample_rate: 16000, channels: 1, ring_buffer_ms: 3000, frame_size: 512 }
    }
}

/// Fixed-capacity circular store of PCM samples.
///
/// The ghost `stream` records every sample ever written, in order. The
/// unread samples are always the last `available()` samples of that stream.
pub struct RingBuffer {
    buffer: Vec<i16>,
    write_pos: usize,
    read_pos: usize,
    capacity: usize,
    sample_rate: u32,
    stream: Ghost<Seq<i16>>,
}

impl RingBuffer {
    /// Every sample written so far.
    pub closed spec fn stream(&self) -> Seq<i16> {
        self.stream@
    }

    pub closed spec fn spec_capacity(&self) -> nat {
        self.capacity as nat
    }

    pub closed spec fn spec_sample_rate(&self) -> u32 {
        self.sample_rate
    }

    /// Unread count: `(write_pos - read_pos) mod capacity`.
    pub closed spec fn spec_available(&self) -> nat {
        if self.write_pos >= self.read_pos {
            (self.write_pos - self.read_pos) as nat
        } else {
            (self.capacity - self.read_pos + self.write_pos) as nat
        }
    }

    /// The samples a reader has not consumed yet, oldest first.
    pub open spec fn unread(&self) -> Seq<i16> {
        self.stream().subrange(
            self.stream().len() - self.spec_available(),
            self.stream().len() as int,
        )
    }

    /// The `n` most recent samples, oldest first; positions before the
    /// start of the stream read as silence.
    pub open spec fn recent(&self, n: nat) -> Seq<i16> {
        let len = self.stream().len();
        Seq::new(n, |i: int| if n - i <= len { self.stream()[len - (n - i)] } else { 0i16 })
    }

    /// How many writes ago slot `j` was last written (1 = the latest write).
    spec fn slot_age(&self, j: int) -> int {
        if j < self.write_pos {
            self.write_pos - j
        } else {
            self.write_pos + self.capacity - j
        }
    }

    /// Slot `j` holds the sample written `slot_age(j)` writes ago, or
    /// silence when the stream is shorter than that.
    spec fn slot_holds(&self, j: int) -> bool {
        if self.slot_age(j) <= self.stream@.len() {
            self.buffer@[j] == self.stream@[self.stream@.len() - self.slot_age(j)]
        } else {
            self.buffer@[j] == 0
        }
    }

    pub closed spec fn wf(&self) -> bool {
        &&& self.capacity > 0
        &&& self.buffer@.len() == self.capacity
        &&& self.write_pos < self.capacity
        &&& self.read_pos < self.capacity
        &&& self.spec_available() <= self.stream@.len()
        &&& forall|j: int| 0 <= j < self.capacity ==> #[trigger] self.slot_holds(j)
    }

    /// A buffer of `sample_rate * duration_ms / 1000` samples, all silent.
    pub fn new(sample_rate: u32, duration_ms: u32) -> (r: Self)
        requires
            (sample_rate as int * duration_ms as int) / 1000 > 0,
            (sample_rate as int * duration_ms as int) / 1000 <= usize::MAX,
        ensures
            r.wf(),
            r.spec_capacity() == (sample_rate as int * duration_ms as int) / 1000,
            r.spec_sample_rate() == sample_rate,
            r.stream() == Seq::<i16>::empty(),
            r.spec_available() == 0,
    {
        assert(sample_rate as int * duration_ms as int <= 0xFFFF_FFFF * 0xFFFF_FFFF) by (nonlinear_arith)
            requires
                sample_rate <= 0xFFFF_FFFFu32,
                duration_ms <= 0xFFFF_FFFFu32,
        ;
        let capacity = ((sample_rate as u64 * duration_ms as u64) / 1000) as usize;
        let mut buffer: Vec<i16> = Vec::new();
        while buffer.len() < capacity
            invariant
                buffer.len() <= capacity,
                forall|j: int| 0 <= j < buffer.len() ==> buffer@[j] == 0,
            decreases capacity - buffer.len(),
        {
            buffer.push(0);
        }
        RingBuffer {
            buffer,
            write_pos: 0,
            read_pos: 0,
            capacity,
            sample_rate,
            stream: Ghost(Seq::empty()),
        }
    }

    /// Appends `samples` to the stream, overwriting the oldest slots once
    /// the buffer wraps. No allocation takes place.
    pub fn write(&mut self, samples: &[i16])
        requires
            old(self).wf(),
        ensures
            final(self).wf(),
            final(self).stream() == old(self).stream() + samples@,
            final(self).spec_capacity() == old(self).spec_capacity(),
            final(self).spec_sample_rate() == old(self).spec_sample_rate(),
            final(self).spec_available() as int == ((old(self).spec_available() + samples@.len())
                % old(self).spec_capacity()) as int,
            old(self).spec_available() + samples@.len() < old(self).spec_capacity() ==> final(self).unread()
                == old(self).unread() + samples@,
    {
        let ghost a0 = self.spec_available();
        let ghost s0 = self.stream@;
        let n = samples.len();
        let mut i: usize = 0;
        proof {
            vstd::arithmetic::div_mod::lemma_small_mod(a0, self.capacity as nat);
        }
        while i < n
            invariant
                self.wf(),
                i <= n,
                n == samples@.len(),
                self.stream@ == s0 + samples@.subrange(0, i as int),
                self.spec_available() as int == (a0 + i) % (self.capacity as int),
                self.capacity == old(self).capacity,
                self.sample_rate == old(self).sample_rate,
            decreases n - i,
        {
            let s = samples[i];
            let ghost prev = *self;
            let wp = self.write_pos;
            self.buffer.set(wp, s);
            if wp + 1 == self.capacity {
                self.write_pos = 0;
            } else {
                self.write_pos = wp + 1;
            }
            self.stream = Ghost(self.stream@.push(s));
            proof {
                let cap = self.capacity as int;
                assert forall|j: int| 0 <= j < cap implies #[trigger] self.slot_holds(j) by {
                    assert(prev.slot_holds(j));
                    if j != wp as int {
                        assert(self.slot_age(j) == prev.slot_age(j) + 1);
                    } else {
                        assert(self.slot_age(j) == 1);
                    }
                }
                vstd::arithmetic::div_mod::lemma_add_mod_noop(a0 + i, 1, cap);
                if cap > 1 {
                    vstd::arithmetic::div_mod::lemma_small_mod(1, cap as nat);
                }
                if prev.spec_available() + 1 < cap {
                    vstd::arithmetic::div_mod::lemma_small_mod(
                        (prev.spec_available() + 1) as nat,
                        cap as nat,
                    );
                } else {
                    vstd::arithmetic::div_mod::lemma_mod_self_0(cap);
                }
                assert(s0 + samples@.subrange(0, i + 1) == (s0 + samples@.subrange(0, i as int)).push(s));
            }
            i = i + 1;
        }
        proof {
            assert(samples@.subrange(0, n as int) == samples@);
            if a0 + n < self.capacity {
                vstd::arithmetic::div_mod::lemma_small_mod((a0 + n) as nat, self.capacity as nat);
                assert(self.unread() =~= old(self).unread() + samples@);
            }
        }
    }

    /// Moves up to `output.len()` unread samples into `output`, oldest first,
    /// and returns how many were moved.
    pub fn read(&mut self, output: &mut [i16]) -> (r: usize)
        requires
            old(self).wf(),
        ensures
            final(self).wf(),
            r as int == if old(output)@.len() < old(self).spec_available() {
                old(output)@.len() as int
            } else {
                old(self).spec_available() as int
            },
            final(output)@.len() == old(output)@.len(),
            final(output)@.subrange(0, r as int) == old(self).unread().subrange(0, r as int),
            final(output)@.subrange(r as int, old(output)@.len() as int) == old(output)@.subrange(
                r as int,
                old(output)@.len() as int,
            ),
            final(self).stream() == old(self).stream(),
            final(self).unread() == old(self).unread().subrange(r as int, old(self).unread().len() as int),
            final(self).spec_available() == old(self).spec_available() - r,
            final(self).spec_capacity() == old(self).spec_capacity(),
            final(self).spec_sample_rate() == old(self).spec_sample_rate(),
    {
        let available = self.available();
        let to_read = if output.len() < available {
            output.len()
        } else {
            available
        };
        let ghost u0 = self.unread();
        let ghost out0 = output@;
        let mut i: usize = 0;
        while i < to_read
            invariant
                self.wf(),
                i <= to_read,
                to_read <= available,
                to_read <= output@.len(),
                available == u0.len(),
                output@.len() == out0.len(),
                self.stream@ == old(self).stream@,
                self.spec_available() == available - i,
                self.unread() == u0.subrange(i as int, u0.len() as int),
                available <= self.stream@.len(),
                u0 == self.stream@.subrange(
                    self.stream@.len() - available,
                    self.stream@.len() as int,
                ),
                forall|k: int| 0 <= k < i ==> output@[k] == u0[k],
                forall|k: int| i <= k < out0.len() ==> output@[k] == out0[k],
                self.capacity == old(self).capacity,
                self.sample_rate == old(self).sample_rate,
            decreases to_read - i,
        {
            let rp = self.read_pos;
            let ghost prev = *self;
            assert(self.slot_age(rp as int) == self.spec_available());
            assert(self.slot_holds(rp as int));
            assert(self.unread()[0] == u0[i as int]);
            assert(self.buffer@[rp as int] == u0[i as int]);
            output[i] = self.buffer[rp];
            if rp + 1 == self.capacity {
                self.read_pos = 0;
            } else {
                self.read_pos = rp + 1;
            }
            proof {
                lemma_wf_read_pos_moved(prev, *self);
                assert(self.spec_available() == prev.spec_available() - 1);
                assert(self.unread() =~= u0.subrange(i + 1, u0.len() as int));
            }
            i = i + 1;
        }
        proof {
            assert(output@.subrange(0, to_read as int) =~= u0.subrange(0, to_read as int));
            assert(output@.subrange(to_read as int, out0.len() as int) =~= out0.subrange(
                to_read as int,
                out0.len() as int,
            ));
        }
        to_read
    }

    /// Number of unread samples.
    pub fn available(&self) -> (r: usize)
        requires
            self.wf(),
        ensures
            r == self.spec_available(),
            r < self.spec_capacity(),
    {
        if self.write_pos >= self.read_pos {
            self.write_pos - self.read_pos
        } else {
            self.capacity - self.read_pos + self.write_pos
        }
    }

    /// Copies the `min(n, capacity)` most recent samples without consuming
    /// anything.
    pub fn peek_last(&self, n: usize) -> (r: Vec<i16>)
        requires
            self.wf(),
        ensures
            r@ == self.recent(if n < self.spec_capacity() { n as nat } else { self.spec_capacity() }),
    {
        let m = if n < self.capacity {
            n
        } else {
            self.capacity
        };
        let start = if self.write_pos >= m {
            self.write_pos - m
        } else {
            self.capacity - (m - self.write_pos)
        };
        let mut out: Vec<i16> = Vec::new();
        let mut i: usize = 0;
        while i < m
            invariant
                self.wf(),
                m <= self.capacity,
                i <= m,
                start < self.capacity,
                start == if self.write_pos >= m {
                    self.write_pos - m
                } else {
                    self.capacity - (m - self.write_pos)
                },
                out@.len() == i,
                forall|k: int| 0 <= k < i ==> out@[k] == #[trigger] self.recent(m as nat)[k],
            decreases m - i,
        {
            let idx = if i >= self.capacity - start {
                i - (self.capacity - start)
            } else {
                start + i
            };
            assert(self.slot_age(idx as int) == m - i);
            assert(self.slot_holds(idx as int));
            out.push(self.buffer[idx]);
            i = i + 1;
        }
        assert(out@ =~= self.recent(m as nat));
        out
    }

    pub fn sample_rate(&self) -> (r: u32)
        ensures
            r == self.spec_sample_rate(),
    {
        self.sample_rate
    }

    pub fn capacity(&self) -> (r: usize)
        ensures
            r == self.spec_capacity(),
    {
        self.capacity
    }

    /// Discards every unread sample.
    pub fn reset_read(&mut self)
        requires
            old(self).wf(),
        ensures
            final(self).wf(),
            final(self).stream() == old(self).stream(),
            final(self).spec_available() == 0,
            final(self).unread() == Seq::<i16>::empty(),
            final(self).spec_capacity() == old(self).spec_capacity(),
            final(self).spec_sample_rate() == old(self).spec_sample_rate(),
    {
        let ghost prev = *self;
        self.read_pos = self.write_pos;
        proof {
            lemma_wf_read_pos_moved(prev, *self);
        }
        assert(self.unread() =~= Seq::<i16>::empty());
    }
}

/// Moving only the read position keeps every slot's content in place.
proof fn lemma_wf_read_pos_moved(a: RingBuffer, b: RingBuffer)
    requires
        a.wf(),
        b.buffer@ == a.buffer@,
        b.write_pos == a.write_pos,
        b.capacity == a.capacity,
        b.stream@ == a.stream@,
        b.read_pos < b.capacity,
        b.spec_available() <= b.stream@.len(),
    ensures
        b.wf(),
{
    assert forall|j: int| 0 <= j < b.capacity implies #[trigger] b.slot_holds(j) by {
        assert(a.slot_holds(j));
        assert(b.slot_age(j) == a.slot_age(j));
    }
}

/// Whatever sequence of writes and reads has happened, a reader only ever
/// sees a suffix of the writer's stream, and fewer samples than the capacity
/// are pending.
pub proof fn lemma_unread_is_stream_suffix(rb: &RingBuffer)
    requires
        rb.wf(),
    ensures
        rb.unread().len() < rb.spec_capacity(),
        rb.unread().len() <= rb.stream().len(),
        rb.stream().subrange(rb.stream().len() - rb.unread().len(), rb.stream().len() as int)
            == rb.unread(),
{
}

} // verus!
