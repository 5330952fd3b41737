use vstd::prelude::*;
use crate::audio_ring::AudioRingBuffer;

verus! {

/// Channels carried per frame by each deck's ring.
pub const DECK_CHANNELS: usize = 16;

/// The next `DECK_CHANNELS` samples of a queue, silence (bit pattern 0,
/// the `f32` 0.0) standing in for samples that have not arrived.
pub open spec fn frame_of(q: Seq<u32>) -> Seq<u32> {
    Seq::new(DECK_CHANNELS as nat, |i: int| if i < q.len() { q[i] } else { 0u32 })
}

/// Takes one 16-channel frame from a deck's ring; an underrun is padded
/// with silence.
pub fn pop_deck_frame(ring: &mut AudioRingBuffer) -> (frame: Vec<u32>)
    requires
        old(ring).wf(),
    ensures
        final(ring).wf(),
        frame@ == frame_of(old(ring).view()),
        final(ring).view() == (if old(ring).view().len() >= DECK_CHANNELS {
            old(ring).view().skip(DECK_CHANNELS as int)
        } else {
            Seq::<u32>::empty()
        }),
        final(ring).cap() == old(ring).cap(),
        final(ring).routes() == old(ring).routes(),
        final(ring).offset() == old(ring).offset(),
{
    let ghost q = ring.view();
    let mut frame: Vec<u32> = Vec::with_capacity(DECK_CHANNELS);
    let mut i: usize = 0;
    while i < DECK_CHANNELS
        invariant
            i <= DECK_CHANNELS,
            ring.wf(),
            frame@.len() == i,
            forall|j: int| 0 <= j < i ==> #[trigger] frame@[j] == frame_of(q)[j],
            ring.view() == (if q.len() >= i { q.skip(i as int) } else { Seq::<u32>::empty() }),
            ring.cap() == old(ring).cap(),
            ring.routes() == old(ring).routes(),
            ring.offset() == old(ring).offset(),
        decreases DECK_CHANNELS - i,
    {
        let ghost before = ring.view();
        let s = match ring.pop() {
            Some(bits) => bits,
            None => 0u32,
        };
        frame.push(s);
        proof {
            if q.len() >= i + 1 {
                assert(before[0] == q[i as int]);
                assert(q.skip(i as int).drop_first() =~= q.skip(i + 1));
            } else if q.len() == i {
                assert(q.skip(i as int) =~= Seq::<u32>::empty());
            }
        }
        i = i + 1;
    }
    assert(frame@ =~= frame_of(q));
    frame
}

/// Where one deck's stereo pair lands in an output frame of `num_channels`
/// channels: channel `2 * offset` (left) and the one after it (right),
/// each only if the device has that channel.
pub fn deck_output_slots(routing_offset: u8, num_channels: usize) -> (r: (Option<usize>, Option<usize>))
    ensures
        r.0 == (if 2 * routing_offset < num_channels { Some((2 * routing_offset) as usize) } else { None::<usize> }),
        r.1 == (if 2 * routing_offset + 1 < num_channels { Some((2 * routing_offset + 1) as usize) } else { None::<usize> }),
{
    let offset: usize = routing_offset as usize * 2;
    let left = if offset < num_channels { Some(offset) } else { None };
    let right = if offset + 1 < num_channels { Some(offset + 1) } else { None };
    (left, right)
}

/// Index of channel `ch` of frame `frame_idx` in a planar buffer holding
/// `num_frames` frames per channel plane.
pub fn planar_index(ch: usize, num_frames: usize, frame_idx: usize) -> (i: usize)
    requires
        ch < DECK_CHANNELS,
        frame_idx < num_frames,
        num_frames * DECK_CHANNELS <= usize::MAX,
    ensures
        i == ch * num_frames + frame_idx,
        i < num_frames * DECK_CHANNELS,
{
    proof {
        assert(ch * num_frames + frame_idx < num_frames * 16) by (nonlinear_arith)
            requires
                ch < 16,
                frame_idx < num_frames,
        ;
    }
    ch * num_frames + frame_idx
}

/// Frames the device can take now: its buffer size minus the frames still
/// queued in it.
pub fn frames_available(buffer_frames: u32, padding: u32) -> (n: u32)
    requires
        padding <= buffer_frames,
    ensures
        n == buffer_frames - padding,
{
    buffer_frames - padding
}

/// Output device to open: `None` for the system default (requested with
/// `u32::MAX`), otherwise the active render device at that index.
pub fn device_choice(target_index: u32) -> (d: Option<u32>)
    ensures
        d == (if target_index == u32::MAX { None::<u32> } else { Some(target_index) }),
{
    if target_index == u32::MAX {
        None
    } else {
        Some(target_index)
    }
}

/// Peak levels of the left and right output channels since the last read,
/// kept as bit patterns of non-negative `f32` magnitudes (whose integer
/// order is their numeric order).
pub struct PeakMeter {
    pub left: u32,
    pub right: u32,
}

impl PeakMeter {
    /// Both peaks at 0.0.
    pub fn new() -> (m: Self)
        ensures
            m.left == 0,
            m.right == 0,
    {
        PeakMeter { left: 0, right: 0 }
    }

    /// Folds the peaks of one device buffer into the meter.
    pub fn record(&mut self, left_bits: u32, right_bits: u32)
        ensures
            final(self).left == (if left_bits > old(self).left { left_bits } else { old(self).left }),
            final(self).right == (if right_bits > old(self).right { right_bits } else { old(self).right }),
    {
        if left_bits > self.left {
            self.left = left_bits;
        }
        if right_bits > self.right {
            self.right = right_bits;
        }
    }

    /// Returns the peaks and resets them to 0.0.
    pub fn take(&mut self) -> (r: (u32, u32))
        ensures
            r == (old(self).left, old(self).right),
            final(self).left == 0,
            final(self).right == 0,
    {
        let r = (self.left, self.right);
        self.left = 0;
        self.right = 0;
        r
    }
}

} // verus!
