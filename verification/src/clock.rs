use vstd::prelude::*;
use vstd::arithmetic::div_mod::lemma_add_mod_noop;

verus! {

/// Rust's truncating integer division (rounds toward zero), as opposed to
/// the Euclidean division that `/` denotes in specifications.
pub open spec fn trunc_div(a: int, b: int) -> int
    recommends
        b > 0,
{
    if a >= 0 {
        a / b
    } else {
        -((-a) / b)
    }
}

/// The source of truth for time in the engine: a count of audio frames
/// handed to the output device, at a fixed sample rate, plus a pause flag
/// that freezes the count.
pub struct MasterClock {
    audio_frames_played: u64,
    sample_rate: u32,
    is_paused: bool,
}

impl MasterClock {
    /// Number of audio frames counted so far.
    pub closed spec fn frames(&self) -> u64 {
        self.audio_frames_played
    }

    /// Sample rate the clock was created with.
    pub closed spec fn rate(&self) -> u32 {
        self.sample_rate
    }

    /// Whether the clock is frozen.
    pub closed spec fn paused(&self) -> bool {
        self.is_paused
    }

    /// A clock at frame zero, running (not paused).
    pub fn new(sample_rate: u32) -> (clock: Self)
        ensures
            clock.frames() == 0,
            clock.rate() == sample_rate,
            !clock.paused(),
    {
        MasterClock { audio_frames_played: 0, sample_rate, is_paused: false }
    }

    /// Advances the clock by `frames` unless it is paused. The counter wraps
    /// around at 2^64, as an atomic fetch-add does.
    pub fn add_frames(&mut self, frames: u64)
        ensures
            final(self).frames() == (if old(self).paused() {
                old(self).frames() as int
            } else {
                (old(self).frames() + frames) % 0x1_0000_0000_0000_0000
            }),
            final(self).rate() == old(self).rate(),
            final(self).paused() == old(self).paused(),
    {
        if !self.is_paused {
            self.audio_frames_played = self.audio_frames_played.wrapping_add(frames);
        }
    }

    /// Sets the clock to the 48 kHz frame count of a position given in
    /// 100-nanosecond units. The quotient is truncated toward zero and a
    /// negative position wraps around, as `as u64` does.
    pub fn overwrite_time(&mut self, hnsecs: i64)
        requires
            i64::MIN <= hnsecs * 48_000 <= i64::MAX,
        ensures
            final(self).frames() == (trunc_div(hnsecs * 48_000, 10_000_000) as u64),
            final(self).rate() == old(self).rate(),
            final(self).paused() == old(self).paused(),
    {
        let new_audio_frames: i64 = (hnsecs * 48_000) / 10_000_000;
        self.audio_frames_played = new_audio_frames as u64;
    }

    /// Number of audio frames counted so far.
    pub fn frames_played(&self) -> (f: u64)
        ensures
            f == self.frames(),
    {
        self.audio_frames_played
    }

    /// Sample rate the clock was created with.
    pub fn sample_rate(&self) -> (r: u32)
        ensures
            r == self.rate(),
    {
        self.sample_rate
    }

    /// Whether the clock is frozen.
    pub fn is_paused(&self) -> (p: bool)
        ensures
            p == self.paused(),
    {
        self.is_paused
    }

    /// Freezes or releases the clock.
    pub fn set_paused(&mut self, paused: bool)
        ensures
            final(self).paused() == paused,
            final(self).frames() == old(self).frames(),
            final(self).rate() == old(self).rate(),
    {
        self.is_paused = paused;
    }
}

/// Advancing a running clock by `a` and then by `b` frames lands on the
/// same count as advancing it once by `a + b` (modulo the 64-bit wrap).
pub proof fn lemma_add_frames_additive(start: u64, a: u64, b: u64)
    ensures
        ((start + a) % 0x1_0000_0000_0000_0000 + b) % 0x1_0000_0000_0000_0000
            == (start + a + b) % 0x1_0000_0000_0000_0000,
{
    lemma_add_mod_noop(start + a, b as int, 0x1_0000_0000_0000_0000);
    assert((b as int) % 0x1_0000_0000_0000_0000 == b);
    assert(((start + a) % 0x1_0000_0000_0000_0000int) % 0x1_0000_0000_0000_0000int
        == (start + a) % 0x1_0000_0000_0000_0000int) by {
        vstd::arithmetic::div_mod::lemma_mod_twice(start + a, 0x1_0000_0000_0000_0000);
    }
}

} // verus!
