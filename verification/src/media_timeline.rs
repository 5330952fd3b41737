use vstd::prelude::*;

verus! {

/// What the decoder does with one decoded video frame.
#[derive(PartialEq, Eq, Structural, Clone, Copy, Debug)]
pub enum FrameVerdict {
    /// Discard: the frame lies before the trim boundary (pre-roll).
    Skip,
    /// The out point was reached on a looping cue: queue a scrub back to
    /// the in point and discard the frame.
    LoopToIn,
    /// The out point was reached on a cue that holds its last frame: pause
    /// the deck and discard the frame.
    Hold,
    /// The out point was reached: stop decoding.
    End,
    /// Show the frame; its timestamp on the clip's timeline is given.
    Present(i64),
}

/// Major type of a decoder output stream, as far as stream discovery cares.
#[derive(PartialEq, Eq, Structural, Clone, Copy, Debug)]
pub enum StreamKind {
    Video,
    Audio,
    /// Another major type, or no stream at that index.
    Other,
}

/// Number of stream indices probed when looking for the audio and video
/// streams of a file.
pub const PROBED_STREAMS: usize = 10;

/// The stream index chosen for `kind` among the probed `kinds`: the last
/// index of that kind, or `default` when there is none.
pub open spec fn last_index_of(kinds: Seq<StreamKind>, kind: StreamKind, default: u32) -> u32
    decreases kinds.len(),
{
    if kinds.len() == 0 {
        default
    } else if kinds.last() == kind {
        (kinds.len() - 1) as u32
    } else {
        last_index_of(kinds.drop_last(), kind, default)
    }
}

/// Picks the video and audio stream indices from the major types of the
/// first ten stream indices (`kinds[i]` for index `i`; missing entries
/// count as no stream): the last video and last audio index win, with 0
/// and 1 as the defaults.
pub fn discover_streams(kinds: &[StreamKind]) -> (r: (u32, u32))
    ensures
        r.0 == last_index_of(kinds@.subrange(0, if kinds@.len() < 10 { kinds@.len() as int } else { 10 }), StreamKind::Video, 0),
        r.1 == last_index_of(kinds@.subrange(0, if kinds@.len() < 10 { kinds@.len() as int } else { 10 }), StreamKind::Audio, 1),
{
    let n: usize = if kinds.len() < PROBED_STREAMS { kinds.len() } else { PROBED_STREAMS };
    let mut video: u32 = 0;
    let mut audio: u32 = 1;
    let mut i: usize = 0;
    while i < n
        invariant
            i <= n,
            n <= kinds@.len(),
            n <= 10,
            video == last_index_of(kinds@.subrange(0, i as int), StreamKind::Video, 0),
            audio == last_index_of(kinds@.subrange(0, i as int), StreamKind::Audio, 1),
        decreases n - i,
    {
        let k = kinds[i];
        proof {
            let pre = kinds@.subrange(0, i + 1);
            assert(pre.drop_last() =~= kinds@.subrange(0, i as int));
            assert(pre.last() == k);
        }
        if k == StreamKind::Video {
            video = i as u32;
        } else if k == StreamKind::Audio {
            audio = i as u32;
        }
        i = i + 1;
    }
    (video, audio)
}

/// Trim and timeline bookkeeping of one decoder. Some hardware decoders
/// restart their timestamps at zero after a seek; when the first frame
/// after a seek is stamped below half the seek target, the decoder is
/// taken to be such a one and the target is added back to every stamp.
pub struct TimelineGate {
    pub first_video_frame_seen: bool,
    pub is_normalized_decoder: bool,
    /// Timeline position of the last seek (the in point at start).
    pub current_base_hnsecs: i64,
}

/// Whether the frame stamped `ts` is read on a normalised timeline (the
/// seek position is added to its stamp).
pub open spec fn gate_normalizes(g: TimelineGate, ts: i64) -> bool {
    if g.first_video_frame_seen {
        g.is_normalized_decoder
    } else {
        g.current_base_hnsecs > 0 && ts < g.current_base_hnsecs / 2
    }
}

/// Gate state and verdict for a video frame stamped `ts`, for a cue with
/// out point `out` (0 meaning none).
pub open spec fn gate_step(g: TimelineGate, ts: i64, out: i64, looping: bool, hold: bool) -> (TimelineGate, FrameVerdict) {
    let normalized = gate_normalizes(g, ts);
    let g2 = TimelineGate { first_video_frame_seen: true, is_normalized_decoder: normalized, ..g };
    let t = if normalized { ts + g.current_base_hnsecs } else { ts as int };
    let verdict = if t < g.current_base_hnsecs {
        FrameVerdict::Skip
    } else if out > 0 && t >= out {
        if looping {
            FrameVerdict::LoopToIn
        } else if hold {
            FrameVerdict::Hold
        } else {
            FrameVerdict::End
        }
    } else {
        FrameVerdict::Present(t as i64)
    };
    (g2, verdict)
}

impl TimelineGate {
    /// Bookkeeping for a clip that starts at `in_point_hnsecs`.
    pub fn new(in_point_hnsecs: i64) -> (g: Self)
        ensures
            !g.first_video_frame_seen,
            !g.is_normalized_decoder,
            g.current_base_hnsecs == in_point_hnsecs,
    {
        TimelineGate { first_video_frame_seen: false, is_normalized_decoder: false, current_base_hnsecs: in_point_hnsecs }
    }

    /// A seek to `target_hnsecs`: the next frame re-decides normalisation
    /// and nothing before the target is shown.
    pub fn on_scrub(&mut self, target_hnsecs: i64)
        ensures
            !final(self).first_video_frame_seen,
            final(self).is_normalized_decoder == old(self).is_normalized_decoder,
            final(self).current_base_hnsecs == target_hnsecs,
    {
        self.current_base_hnsecs = target_hnsecs;
        self.first_video_frame_seen = false;
    }

    /// Whether a frame stamped `timestamp_hnsecs` would be read on a
    /// normalised timeline (its stamp shifted by the seek position).
    pub fn normalizes(&self, timestamp_hnsecs: i64) -> (b: bool)
        ensures
            b == gate_normalizes(*self, timestamp_hnsecs),
    {
        if self.first_video_frame_seen {
            self.is_normalized_decoder
        } else {
            self.current_base_hnsecs > 0 && timestamp_hnsecs < self.current_base_hnsecs / 2
        }
    }

    /// Classifies a decoded video frame stamped `timestamp_hnsecs`.
    pub fn on_video_frame(
        &mut self,
        timestamp_hnsecs: i64,
        out_point_hnsecs: i64,
        is_looping: bool,
        hold_last_frame: bool,
    ) -> (v: FrameVerdict)
        requires
            gate_normalizes(*old(self), timestamp_hnsecs) ==> i64::MIN <= timestamp_hnsecs + old(self).current_base_hnsecs <= i64::MAX,
        ensures
            (*final(self), v) == gate_step(*old(self), timestamp_hnsecs, out_point_hnsecs, is_looping, hold_last_frame),
            final(self).first_video_frame_seen,
            final(self).current_base_hnsecs == old(self).current_base_hnsecs,
            old(self).first_video_frame_seen ==> final(self).is_normalized_decoder == old(self).is_normalized_decoder,
            v matches FrameVerdict::Present(t) ==> t == (if final(self).is_normalized_decoder {
                timestamp_hnsecs + old(self).current_base_hnsecs
            } else {
                timestamp_hnsecs as int
            }),
    {
        let mut frame_time: i64 = timestamp_hnsecs;
        if !self.first_video_frame_seen {
            if self.current_base_hnsecs > 0 && frame_time < (self.current_base_hnsecs / 2) {
                self.is_normalized_decoder = true;
            } else {
                self.is_normalized_decoder = false;
            }
            self.first_video_frame_seen = true;
        }
        if self.is_normalized_decoder {
            frame_time = frame_time + self.current_base_hnsecs;
        }
        if frame_time < self.current_base_hnsecs {
            return FrameVerdict::Skip;
        }
        if out_point_hnsecs > 0 && frame_time >= out_point_hnsecs {
            if is_looping {
                return FrameVerdict::LoopToIn;
            } else if hold_last_frame {
                return FrameVerdict::Hold;
            } else {
                return FrameVerdict::End;
            }
        }
        FrameVerdict::Present(frame_time)
    }
}

/// Trim boundaries are respected: a presented frame never lies before the
/// last seek position (the in point at start), and never at or after a
/// set out point.
pub proof fn lemma_presented_frames_within_trim(g: TimelineGate, ts: i64, out: i64, looping: bool, hold: bool)
    requires
        gate_normalizes(g, ts) ==> i64::MIN <= ts + g.current_base_hnsecs <= i64::MAX,
    ensures
        gate_step(g, ts, out, looping, hold).1 matches FrameVerdict::Present(t) ==> {
            &&& t >= g.current_base_hnsecs
            &&& (out > 0 ==> t < out)
        },
{
}

/// Reaching the out point loops a looping cue (whatever its hold flag),
/// otherwise holds the last frame when asked to, otherwise ends the clip.
pub proof fn lemma_out_point_behaviour(g: TimelineGate, ts: i64, out: i64, looping: bool, hold: bool)
    requires
        out > 0,
        g.first_video_frame_seen,
        !g.is_normalized_decoder,
        ts >= g.current_base_hnsecs,
        ts >= out,
    ensures
        gate_step(g, ts, out, looping, hold).1 == (if looping {
            FrameVerdict::LoopToIn
        } else if hold {
            FrameVerdict::Hold
        } else {
            FrameVerdict::End
        }),
{
}

/// Normalisation is settled once per seek. On the first frame after a
/// seek (or the start) a decoder counts as restarting its stamps exactly
/// when a positive seek position is followed by a stamp below half of it.
/// Until the next seek every later frame leaves that flag and the seek
/// position alone, and a frame's timeline position is `ts + base` when
/// the flag is set and `ts` when it is not.
pub proof fn lemma_normalisation_fixed_until_seek(g: TimelineGate, ts: i64, out: i64, looping: bool, hold: bool)
    ensures
        ({
            let (g2, v) = gate_step(g, ts, out, looping, hold);
            let t: int = if g2.is_normalized_decoder { ts + g.current_base_hnsecs } else { ts as int };
            &&& g2.first_video_frame_seen
            &&& g2.current_base_hnsecs == g.current_base_hnsecs
            &&& (g.first_video_frame_seen ==> g2.is_normalized_decoder == g.is_normalized_decoder)
            &&& (!g.first_video_frame_seen ==> g2.is_normalized_decoder == (g.current_base_hnsecs > 0 && 2 * ts < g.current_base_hnsecs - 1))
            &&& (t < g.current_base_hnsecs ==> v == FrameVerdict::Skip)
            &&& (t >= g.current_base_hnsecs && !(out > 0 && t >= out) ==> v == FrameVerdict::Present(t as i64))
        }),
{
}

} // verus!
