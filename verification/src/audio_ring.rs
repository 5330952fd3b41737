use vstd::prelude::*;
use vstd::arithmetic::div_mod::{lemma_small_mod, lemma_mod_self_0};

verus! {

/// Number of entries of the 16 x 16 gain routing matrix.
pub const ROUTING_MATRIX_LEN: usize = 256;

/// Bit pattern of the `f32` value 1.0 (unity gain).
pub const UNITY_GAIN_BITS: u32 = 0x3F80_0000;

/// Physical slot that the `i`-th queued sample occupies, counting from the
/// read position `tail`, in a buffer of `cap` slots.
pub open spec fn slot(tail: int, i: int, cap: int) -> int {
    if tail + i < cap {
        tail + i
    } else {
        tail + i - cap
    }
}

/// Number of queued samples between read position `tail` and write
/// position `head`.
pub open spec fn occupancy(head: int, tail: int, cap: int) -> int {
    if head >= tail {
        head - tail
    } else {
        cap - tail + head
    }
}

/// Default gain of routing cell `i` (input channel `i / 16` to output bus
/// `i % 16`): unity on the first two diagonal cells, silence elsewhere.
pub open spec fn default_route_bits(i: int) -> u32 {
    if i / 16 == i % 16 && i / 16 < 2 {
        UNITY_GAIN_BITS
    } else {
        0
    }
}

/// A call that changes a ring.
pub enum RingCall {
    Push(u32),
    Pop,
    Clear,
    Flush,
    SetRoute(usize, usize, u32),
    SetRoutingOffset(u8),
}

/// The queued samples after `call` on a ring of `cap` slots holding `q`:
/// a push appends unless only the reserved slot is left, a pop drops the
/// oldest sample of a non-empty ring, clear and flush empty it, and the
/// routing calls leave it alone.
pub open spec fn queue_after(q: Seq<u32>, cap: nat, call: RingCall) -> Seq<u32> {
    match call {
        RingCall::Push(x) => if q.len() + 1 < cap { q.push(x) } else { q },
        RingCall::Pop => if q.len() > 0 { q.drop_first() } else { q },
        RingCall::Clear => Seq::empty(),
        RingCall::Flush => Seq::empty(),
        RingCall::SetRoute(_, _, _) => q,
        RingCall::SetRoutingOffset(_) => q,
    }
}

/// The queued samples after `calls`, in order, on a ring of `cap` slots
/// that held `q`.
pub open spec fn queue_replay(q: Seq<u32>, cap: nat, calls: Seq<RingCall>) -> Seq<u32>
    decreases calls.len(),
{
    if calls.len() == 0 {
        q
    } else {
        queue_after(queue_replay(q, cap, calls.drop_last()), cap, calls.last())
    }
}

/// Number of pushes among `calls`, on a ring of `cap` slots that started
/// empty, that returned `Ok`, counted since the last clear or flush.
pub open spec fn ok_pushes(cap: nat, calls: Seq<RingCall>) -> int
    decreases calls.len(),
{
    if calls.len() == 0 {
        0
    } else {
        let before = queue_replay(Seq::empty(), cap, calls.drop_last());
        let n = ok_pushes(cap, calls.drop_last());
        match calls.last() {
            RingCall::Push(_) => if before.len() + 1 < cap { n + 1 } else { n },
            RingCall::Clear => 0,
            RingCall::Flush => 0,
            _ => n,
        }
    }
}

/// Number of pops among `calls`, on a ring of `cap` slots that started
/// empty, that returned `Some`, counted since the last clear or flush.
pub open spec fn some_pops(cap: nat, calls: Seq<RingCall>) -> int
    decreases calls.len(),
{
    if calls.len() == 0 {
        0
    } else {
        let before = queue_replay(Seq::empty(), cap, calls.drop_last());
        let n = some_pops(cap, calls.drop_last());
        match calls.last() {
            RingCall::Pop => if before.len() > 0 { n + 1 } else { n },
            RingCall::Clear => 0,
            RingCall::Flush => 0,
            _ => n,
        }
    }
}

/// Single-producer / single-consumer ring of audio samples. Samples are
/// carried as the raw bit patterns of `f32` values; one slot always stays
/// free, so a ring of capacity `c` holds at most `c - 1` samples.
pub struct AudioRingBuffer {
    buffer: Vec<u32>,
    head: usize,
    tail: usize,
    capacity: usize,
    routing_matrix: Vec<u32>,
    routing_offset: u8,
}

impl AudioRingBuffer {
    /// Internal consistency of the ring.
    pub closed spec fn wf(&self) -> bool {
        &&& self.buffer@.len() == self.capacity
        &&& self.routing_matrix@.len() == ROUTING_MATRIX_LEN
        &&& (self.capacity == 0 ==> self.head == 0 && self.tail == 0)
        &&& (self.capacity > 0 ==> self.head < self.capacity && self.tail < self.capacity)
    }

    /// Number of slots of the ring.
    pub closed spec fn cap(&self) -> nat {
        self.capacity as nat
    }

    /// The queued samples, oldest first.
    pub closed spec fn view(&self) -> Seq<u32> {
        Seq::new(
            occupancy(self.head as int, self.tail as int, self.capacity as int) as nat,
            |i: int| self.buffer@[slot(self.tail as int, i, self.capacity as int)],
        )
    }

    /// The 256 gain cells (bit patterns of `f32` gains), row-major by
    /// input channel.
    pub closed spec fn routes(&self) -> Seq<u32> {
        self.routing_matrix@
    }

    /// Output channel pair offset applied by the mixer.
    pub closed spec fn offset(&self) -> u8 {
        self.routing_offset
    }

    /// Whether `after` is what `call` makes of `self`: still consistent,
    /// with the same capacity, and queueing `queue_after` of what `self`
    /// queued.
    pub open spec fn steps_to(self, call: RingCall, after: AudioRingBuffer) -> bool {
        &&& after.wf()
        &&& after.cap() == self.cap()
        &&& after.view() == queue_after(self.view(), self.cap(), call)
    }

    /// An empty ring of `capacity` slots with the default routing matrix
    /// and a zero routing offset.
    pub fn new(capacity: usize) -> (ring: Self)
        ensures
            ring.wf(),
            ring.cap() == capacity,
            ring.view() == Seq::<u32>::empty(),
            ring.offset() == 0,
            forall|i: int| 0 <= i < ROUTING_MATRIX_LEN ==> #[trigger] ring.routes()[i] == default_route_bits(i),
            forall|i: int| 0 <= i < ROUTING_MATRIX_LEN ==> #[trigger] ring.routes()[i] == (if i == 0 || i == 17 {
                UNITY_GAIN_BITS
            } else {
                0
            }),
    {
        let mut buffer: Vec<u32> = Vec::with_capacity(capacity);
        let mut k: usize = 0;
        while k < capacity
            invariant
                k <= capacity,
                buffer@.len() == k,
            decreases capacity - k,
        {
            buffer.push(0);
            k = k + 1;
        }
        let mut matrix: Vec<u32> = Vec::with_capacity(ROUTING_MATRIX_LEN);
        let mut i: usize = 0;
        while i < ROUTING_MATRIX_LEN
            invariant
                i <= ROUTING_MATRIX_LEN,
                matrix@.len() == i,
                forall|j: int| 0 <= j < i ==> #[trigger] matrix@[j] == default_route_bits(j),
            decreases ROUTING_MATRIX_LEN - i,
        {
            let in_ch: usize = i / 16;
            let out_bus: usize = i % 16;
            let gain: u32 = if in_ch == out_bus && in_ch < 2 { UNITY_GAIN_BITS } else { 0 };
            matrix.push(gain);
            i = i + 1;
        }
        let ring = AudioRingBuffer {
            buffer,
            head: 0,
            tail: 0,
            capacity,
            routing_matrix: matrix,
            routing_offset: 0,
        };
        assert(ring.view() =~= Seq::<u32>::empty());
        proof {
            lemma_default_routes_are_stereo_identity();
        }
        ring
    }

    /// Stores a gain (bit pattern of a linear `f32` gain) for input channel
    /// `in_ch` on output bus `out_bus`; indices of 16 or more are ignored.
    pub fn set_route(&mut self, in_ch: usize, out_bus: usize, gain_bits: u32)
        requires
            old(self).wf(),
        ensures
            final(self).wf(),
            final(self).view() == old(self).view(),
            final(self).cap() == old(self).cap(),
            final(self).offset() == old(self).offset(),
            final(self).routes() == (if in_ch < 16 && out_bus < 16 {
                old(self).routes().update(in_ch * 16 + out_bus, gain_bits)
            } else {
                old(self).routes()
            }),
            old(self).steps_to(RingCall::SetRoute(in_ch, out_bus, gain_bits), *final(self)),
    {
        if in_ch < 16 && out_bus < 16 {
            self.routing_matrix.set(in_ch * 16 + out_bus, gain_bits);
        }
        assert(self.view() =~= old(self).view());
    }

    /// Drops every queued sample at once by moving the read position onto
    /// the write position.
    pub fn clear(&mut self)
        requires
            old(self).wf(),
        ensures
            final(self).wf(),
            final(self).view() == Seq::<u32>::empty(),
            final(self).cap() == old(self).cap(),
            final(self).routes() == old(self).routes(),
            final(self).offset() == old(self).offset(),
            old(self).steps_to(RingCall::Clear, *final(self)),
    {
        self.tail = self.head;
        assert(self.view() =~= Seq::<u32>::empty());
    }

    /// Drops every queued sample at once (same effect as `clear`).
    pub fn flush(&mut self)
        requires
            old(self).wf(),
        ensures
            final(self).wf(),
            final(self).view() == Seq::<u32>::empty(),
            final(self).cap() == old(self).cap(),
            final(self).routes() == old(self).routes(),
            final(self).offset() == old(self).offset(),
            old(self).steps_to(RingCall::Flush, *final(self)),
    {
        self.tail = self.head;
        assert(self.view() =~= Seq::<u32>::empty());
    }

    /// Number of queued samples.
    pub fn get_occupancy(&self) -> (n: usize)
        requires
            self.wf(),
        ensures
            n == self.view().len(),
    {
        let w = self.head;
        let r = self.tail;
        if w >= r {
            w - r
        } else {
            self.capacity - r + w
        }
    }

    /// Number of slots of the ring.
    pub fn get_capacity(&self) -> (c: usize)
        ensures
            c == self.cap(),
    {
        self.capacity
    }

    /// Output channel pair offset applied by the mixer.
    pub fn get_routing_offset(&self) -> (o: u8)
        ensures
            o == self.offset(),
    {
        self.routing_offset
    }

    /// Sets the output channel pair offset applied by the mixer.
    pub fn set_routing_offset(&mut self, offset: u8)
        requires
            old(self).wf(),
        ensures
            final(self).wf(),
            final(self).offset() == offset,
            final(self).view() == old(self).view(),
            final(self).cap() == old(self).cap(),
            final(self).routes() == old(self).routes(),
            old(self).steps_to(RingCall::SetRoutingOffset(offset), *final(self)),
    {
        self.routing_offset = offset;
    }

    /// Gain cell `index` of the routing matrix (bit pattern of an `f32`).
    pub fn route_gain(&self, index: usize) -> (g: u32)
        requires
            self.wf(),
            index < ROUTING_MATRIX_LEN,
        ensures
            g == self.routes()[index as int],
    {
        self.routing_matrix[index]
    }

    /// Appends one sample. Fails, leaving the ring unchanged, when only the
    /// reserved free slot is left.
    pub fn push(&mut self, sample_bits: u32) -> (r: Result<(), &'static str>)
        requires
            old(self).wf(),
            old(self).cap() > 0,
        ensures
            final(self).wf(),
            final(self).cap() == old(self).cap(),
            final(self).routes() == old(self).routes(),
            final(self).offset() == old(self).offset(),
            old(self).view().len() + 1 == old(self).cap() ==> {
                &&& r == Err::<(), &'static str>("Audio Buffer Overflow")
                &&& final(self).view() == old(self).view()
            },
            old(self).view().len() + 1 < old(self).cap() ==> {
                &&& r == Ok::<(), &'static str>(())
                &&& final(self).view() == old(self).view().push(sample_bits)
            },
            old(self).steps_to(RingCall::Push(sample_bits), *final(self)),
    {
        let ghost old_view = self.view();
        let head = self.head;
        let tail = self.tail;
        let cap = self.capacity;
        proof {
            if head + 1 < cap {
                lemma_small_mod((head + 1) as nat, cap as nat);
            } else {
                lemma_mod_self_0(cap as int);
            }
        }
        let next_head = (head + 1) % cap;
        if next_head == tail {
            return Err("Audio Buffer Overflow");
        }
        self.buffer.set(head, sample_bits);
        self.head = next_head;
        proof {
            assert(self.view() =~= old_view.push(sample_bits));
        }
        Ok(())
    }

    /// Removes and returns the oldest sample, or `None` when the ring is
    /// empty.
    pub fn pop(&mut self) -> (r: Option<u32>)
        requires
            old(self).wf(),
        ensures
            final(self).wf(),
            final(self).cap() == old(self).cap(),
            final(self).routes() == old(self).routes(),
            final(self).offset() == old(self).offset(),
            old(self).view().len() == 0 ==> r == None::<u32> && final(self).view() == old(self).view(),
            old(self).view().len() > 0 ==> {
                &&& r == Some(old(self).view()[0])
                &&& final(self).view() == old(self).view().drop_first()
            },
            old(self).steps_to(RingCall::Pop, *final(self)),
    {
        let ghost old_view = self.view();
        let tail = self.tail;
        let head = self.head;
        if tail == head {
            return None;
        }
        let cap = self.capacity;
        let bits = self.buffer[tail];
        proof {
            if tail + 1 < cap {
                lemma_small_mod((tail + 1) as nat, cap as nat);
            } else {
                lemma_mod_self_0(cap as int);
            }
        }
        self.tail = (tail + 1) % cap;
        proof {
            assert(self.view() =~= old_view.drop_first());
        }
        Some(bits)
    }
}

/// A ring of `c` slots never holds more than `c - 1` samples.
pub proof fn lemma_ring_bounded(ring: &AudioRingBuffer)
    requires
        ring.wf(),
        ring.cap() > 0,
    ensures
        ring.view().len() < ring.cap(),
{
}

/// First in, first out: appending a sample does not change which sample
/// comes out next (unless the ring was empty, when it is the new one), and
/// removing the oldest sample commutes with appending behind it.
pub proof fn lemma_ring_fifo(queued: Seq<u32>, sample: u32)
    ensures
        queued.push(sample)[0] == (if queued.len() == 0 { sample } else { queued[0] }),
        queued.len() > 0 ==> queued.push(sample).drop_first() == queued.drop_first().push(sample),
{
    if queued.len() > 0 {
        assert(queued.push(sample).drop_first() =~= queued.drop_first().push(sample));
    }
}

/// Counting law of the queue model: on a ring of `cap >= 1` slots that
/// started empty, the number of queued samples is the number of pushes that
/// returned `Ok` minus the number of pops that returned `Some` since the
/// last clear or flush, and never exceeds `cap - 1`.
pub proof fn lemma_replay_counts(cap: nat, calls: Seq<RingCall>)
    requires
        cap >= 1,
    ensures
        queue_replay(Seq::empty(), cap, calls).len() == ok_pushes(cap, calls) - some_pops(cap, calls),
        queue_replay(Seq::empty(), cap, calls).len() <= cap - 1,
    decreases calls.len(),
{
    if calls.len() > 0 {
        lemma_replay_counts(cap, calls.drop_last());
    }
}

/// Whole-sequence law of a ring: start from a consistent empty ring (a
/// fresh `new(c)`, or one just cleared or flushed) and apply the calls in
/// order through the ring's methods, whose contracts each give `steps_to`.
/// Then every state keeps the starting capacity (what `get_capacity`
/// returns), every state queues exactly what the queue model replays, and
/// the final occupancy (what `get_occupancy` returns) is the number of
/// pushes that returned `Ok` minus the number of pops that returned `Some`
/// since the last clear or flush, at most `c - 1` when `c >= 1`.
pub proof fn lemma_ring_call_sequence(rings: Seq<AudioRingBuffer>, calls: Seq<RingCall>)
    requires
        rings.len() == calls.len() + 1,
        rings[0].wf(),
        rings[0].view() == Seq::<u32>::empty(),
        forall|i: int| #![trigger calls[i]] 0 <= i < calls.len() ==> rings[i].steps_to(calls[i], rings[i + 1]),
    ensures
        forall|i: int| #![trigger rings[i]] 0 <= i < rings.len() ==> rings[i].wf() && rings[i].cap() == rings[0].cap(),
        forall|i: int| #![trigger rings[i]] 0 <= i < rings.len()
            ==> rings[i].view() == queue_replay(Seq::empty(), rings[0].cap(), calls.take(i)),
        rings.last().view().len() == ok_pushes(rings[0].cap(), calls) - some_pops(rings[0].cap(), calls),
        rings[0].cap() >= 1 ==> rings.last().view().len() <= rings[0].cap() - 1,
    decreases calls.len(),
{
    let n = calls.len() as int;
    let cap = rings[0].cap();
    if n == 0 {
        assert(calls.take(0) =~= Seq::<RingCall>::empty());
    } else {
        let rs = rings.drop_last();
        let cs = calls.drop_last();
        assert forall|i: int| #![trigger cs[i]] 0 <= i < cs.len() implies rs[i].steps_to(cs[i], rs[i + 1]) by {
            assert(calls[i] == cs[i]);
        }
        lemma_ring_call_sequence(rs, cs);
        assert(rings[n - 1] == rs[n - 1]);
        assert(rings[n - 1].steps_to(calls[n - 1], rings[n]));
        assert(calls.take(n) =~= calls);
        assert(calls.take(n).drop_last() =~= cs.take(n - 1));
        assert forall|i: int| #![trigger rings[i]] 0 <= i < rings.len() implies rings[i].wf() && rings[i].cap() == cap
            && rings[i].view() == queue_replay(Seq::empty(), cap, calls.take(i)) by {
            if i < n {
                assert(rings[i] == rs[i]);
                assert(calls.take(i) =~= cs.take(i));
            }
        }
        assert(calls.drop_last() == cs);
        assert(rings.last() == rings[n]);
        assert(queue_replay(Seq::empty(), cap, calls) == rings[n].view());
    }
    if cap >= 1 {
        lemma_replay_counts(cap, calls);
    } else {
        lemma_zero_cap_counts(calls);
    }
}

/// On a ring without slots nothing is ever queued, pushed or popped.
proof fn lemma_zero_cap_counts(calls: Seq<RingCall>)
    ensures
        queue_replay(Seq::empty(), 0, calls).len() == 0,
        ok_pushes(0, calls) == 0,
        some_pops(0, calls) == 0,
    decreases calls.len(),
{
    if calls.len() > 0 {
        lemma_zero_cap_counts(calls.drop_last());
    }
}

/// The default routing matrix is the stereo identity: input 0 to bus 0
/// (cell 0) and input 1 to bus 1 (cell 17) at unity gain, every other of
/// the 256 cells silent.
pub proof fn lemma_default_routes_are_stereo_identity()
    ensures
        forall|i: int| 0 <= i < ROUTING_MATRIX_LEN ==> #[trigger] default_route_bits(i) == (if i == 0 || i == 17 {
            UNITY_GAIN_BITS
        } else {
            0
        }),
{
    assert forall|i: int| 0 <= i < ROUTING_MATRIX_LEN implies #[trigger] default_route_bits(i) == (if i == 0 || i == 17 {
        UNITY_GAIN_BITS
    } else {
        0
    }) by {
        if i / 16 == i % 16 && i / 16 < 2 {
            assert(i == 0 || i == 17);
        }
    }
}

} // verus!
