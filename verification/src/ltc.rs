use vstd::prelude::*;

verus! {

/// The SMPTE linear timecode sync word, as it appears in the sixteen most
/// recently decoded bits.
pub const LTC_SYNC_WORD: u128 = 0x3FFD;

/// The bits of `b` selected by dividing by `scale` (a power of two: the
/// field's lowest bit) and keeping the remainder modulo `range` (a power
/// of two: the field's width).
pub open spec fn bit_field(b: u128, scale: int, range: int) -> int {
    (b as int / scale) % range
}

/// The timecode carried by the decoded bit window `b` (most recent bit in
/// bit 0), packed as hours << 24 | minutes << 16 | seconds << 8 | frames,
/// each field being tens * 10 + units.
pub open spec fn ltc_timecode(b: u128) -> int {
    let ff = bit_field(b, 0x100_0000, 4) * 10 + bit_field(b, 0x1_0000, 16);
    let ss = bit_field(b, 0x100_0000_0000, 8) * 10 + bit_field(b, 0x1_0000_0000, 16);
    let mm = bit_field(b, 0x100_0000_0000_0000, 8) * 10 + bit_field(b, 0x1_0000_0000_0000, 16);
    let hh = bit_field(b, 0x100_0000_0000_0000_0000, 4) * 10 + bit_field(b, 0x1_0000_0000_0000_0000, 16);
    hh * 0x100_0000 + mm * 0x1_0000 + ss * 0x100 + ff
}

/// Bi-phase mark decoder for linear timecode. It is fed the sign of each
/// audio sample; at every zero crossing after more than four samples of the
/// same sign it shifts in one bit: a long half-period (more than twelve
/// samples) is a 0, a short one a 1.
pub struct LtcDecoder {
    pub bit_buffer: u128,
    pub last_sign: bool,
    pub samples_since_cross: i32,
}

/// The decoder state after one more sample of sign `sign`, and the
/// timecode completed by it, if any.
pub open spec fn ltc_step(d: LtcDecoder, sign: bool) -> (LtcDecoder, Option<u64>) {
    if sign != d.last_sign {
        if d.samples_since_cross > 4 {
            let bit: int = if d.samples_since_cross > 12 { 0 } else { 1 };
            let b = ((d.bit_buffer as int * 2 + bit) % 0x1_0000_0000_0000_0000_0000_0000_0000_0000int) as u128;
            let next = LtcDecoder { bit_buffer: b, last_sign: sign, samples_since_cross: 0 };
            if b as int % 0x1_0000 == LTC_SYNC_WORD {
                (next, Some(ltc_timecode(b) as u64))
            } else {
                (next, None)
            }
        } else {
            (LtcDecoder { last_sign: sign, samples_since_cross: 0, ..d }, None)
        }
    } else {
        (LtcDecoder { samples_since_cross: (d.samples_since_cross + 1) as i32, ..d }, None)
    }
}

impl LtcDecoder {
    /// An empty bit window, last sign negative, no samples counted.
    pub fn new() -> (d: Self)
        ensures
            d.bit_buffer == 0,
            !d.last_sign,
            d.samples_since_cross == 0,
    {
        LtcDecoder { bit_buffer: 0, last_sign: false, samples_since_cross: 0 }
    }

    /// Feeds the sign of one sample (`true` for a sample at or above zero).
    /// Returns the packed timecode when this sample completes a sync word.
    pub fn feed(&mut self, sign: bool) -> (tc: Option<u64>)
        requires
            sign == old(self).last_sign ==> old(self).samples_since_cross < i32::MAX,
        ensures
            (*final(self), tc) == ltc_step(*old(self), sign),
    {
        if sign != self.last_sign {
            let mut result: Option<u64> = None;
            if self.samples_since_cross > 4 {
                let bit: u128 = if self.samples_since_cross > 12 { 0 } else { 1 };
                let old_b = self.bit_buffer;
                let b: u128 = (old_b << 1u32) | bit;
                proof {
                    assert(b == ((old_b as int * 2 + bit) % 0x1_0000_0000_0000_0000_0000_0000_0000_0000int) as u128) by (bit_vector)
                        requires
                            b == (old_b << 1u32) | bit,
                            bit <= 1,
                    ;
                }
                self.bit_buffer = b;
                if (b & 0xFFFF) == LTC_SYNC_WORD {
                    result = Some(Self::timecode_of(b));
                }
                proof {
                    assert((b & 0xFFFF) == (b as int % 0x1_0000) as u128) by (bit_vector);
                }
            }
            self.samples_since_cross = 0;
            self.last_sign = sign;
            result
        } else {
            self.samples_since_cross = self.samples_since_cross + 1;
            None
        }
    }

    /// Packs the timecode fields of a bit window.
    fn timecode_of(b: u128) -> (tc: u64)
        ensures
            tc == ltc_timecode(b),
    {
        let frame_units = ((b >> 16u32) & 0x0F) as u64;
        let frame_tens = ((b >> 24u32) & 0x03) as u64;
        let sec_units = ((b >> 32u32) & 0x0F) as u64;
        let sec_tens = ((b >> 40u32) & 0x07) as u64;
        let min_units = ((b >> 48u32) & 0x0F) as u64;
        let min_tens = ((b >> 56u32) & 0x07) as u64;
        let hour_units = ((b >> 64u32) & 0x0F) as u64;
        let hour_tens = ((b >> 72u32) & 0x03) as u64;
        proof {
            assert((b >> 16u32) & 0x0F == (b / 0x1_0000) % 16) by (bit_vector);
            assert((b >> 24u32) & 0x03 == (b / 0x100_0000) % 4) by (bit_vector);
            assert((b >> 32u32) & 0x0F == (b / 0x1_0000_0000) % 16) by (bit_vector);
            assert((b >> 40u32) & 0x07 == (b / 0x100_0000_0000) % 8) by (bit_vector);
            assert((b >> 48u32) & 0x0F == (b / 0x1_0000_0000_0000) % 16) by (bit_vector);
            assert((b >> 56u32) & 0x07 == (b / 0x100_0000_0000_0000) % 8) by (bit_vector);
            assert((b >> 64u32) & 0x0F == (b / 0x1_0000_0000_0000_0000) % 16) by (bit_vector);
            assert((b >> 72u32) & 0x03 == (b / 0x100_0000_0000_0000_0000) % 4) by (bit_vector);
        }
        let ff = frame_tens * 10 + frame_units;
        let ss = sec_tens * 10 + sec_units;
        let mm = min_tens * 10 + min_units;
        let hh = hour_tens * 10 + hour_units;
        proof {
            assert((hh << 24u64) | (mm << 16u64) | (ss << 8u64) | ff
                == hh * 0x100_0000 + mm * 0x1_0000 + ss * 0x100 + ff) by (bit_vector)
                requires
                    hh < 0x100,
                    mm < 0x100,
                    ss < 0x100,
                    ff < 0x100,
            ;
        }
        (hh << 24u64) | (mm << 16u64) | (ss << 8u64) | ff
    }
}

/// A decoded timecode always fits the 32-bit packed layout: every field
/// stays below 0x100 (hours at most 45, minutes and seconds at most 85,
/// frames at most 45, as tens and units are 2-, 3- or 4-bit fields).
pub proof fn lemma_timecode_fields_bounded(b: u128)
    ensures
        0 <= ltc_timecode(b) < 0x1_0000_0000,
{
    let f1 = bit_field(b, 0x100_0000, 4);
    let f0 = bit_field(b, 0x1_0000, 16);
    let s1 = bit_field(b, 0x100_0000_0000, 8);
    let s0 = bit_field(b, 0x1_0000_0000, 16);
    let m1 = bit_field(b, 0x100_0000_0000_0000, 8);
    let m0 = bit_field(b, 0x1_0000_0000_0000, 16);
    let h1 = bit_field(b, 0x100_0000_0000_0000_0000, 4);
    let h0 = bit_field(b, 0x1_0000_0000_0000_0000, 16);
    assert(0 <= f1 < 4 && 0 <= f0 < 16 && 0 <= s1 < 8 && 0 <= s0 < 16);
    assert(0 <= m1 < 8 && 0 <= m0 < 16 && 0 <= h1 < 4 && 0 <= h0 < 16);
}

/// Only a completed sync word yields a timecode, and a sample of the same
/// sign as the previous one never does.
pub proof fn lemma_timecode_only_on_sync(d: LtcDecoder, sign: bool)
    ensures
        ltc_step(d, sign).1 matches Some(tc) ==> {
            &&& sign != d.last_sign
            &&& d.samples_since_cross > 4
            &&& ltc_step(d, sign).0.bit_buffer as int % 0x1_0000 == LTC_SYNC_WORD
            &&& tc == ltc_timecode(ltc_step(d, sign).0.bit_buffer)
        },
{
}

/// Decoding inverts the SMPTE packing of the time fields: a bit window
/// that holds the sync word in its low 16 bits and the BCD digits of
/// `hh:mm:ss:ff` (units at bits 16, 32, 48 and 64, tens at bits 24, 40, 56
/// and 72) decodes to `hh << 24 | mm << 16 | ss << 8 | ff`, for every
/// valid time of day and frame number.
pub proof fn lemma_decoding_inverts_smpte_packing(b: u128, hh: int, mm: int, ss: int, ff: int)
    requires
        0 <= hh < 24,
        0 <= mm < 60,
        0 <= ss < 60,
        0 <= ff < 30,
        b as int == LTC_SYNC_WORD + (ff % 10) * 0x1_0000 + (ff / 10) * 0x100_0000
            + (ss % 10) * 0x1_0000_0000 + (ss / 10) * 0x100_0000_0000
            + (mm % 10) * 0x1_0000_0000_0000 + (mm / 10) * 0x100_0000_0000_0000
            + (hh % 10) * 0x1_0000_0000_0000_0000 + (hh / 10) * 0x100_0000_0000_0000_0000,
    ensures
        ltc_timecode(b) == hh * 0x100_0000 + mm * 0x1_0000 + ss * 0x100 + ff,
        b as int % 0x1_0000 == LTC_SYNC_WORD,
{
    let fu = (ff % 10) as u128;
    let ft = (ff / 10) as u128;
    let su = (ss % 10) as u128;
    let st = (ss / 10) as u128;
    let mu = (mm % 10) as u128;
    let mt = (mm / 10) as u128;
    let hu = (hh % 10) as u128;
    let ht = (hh / 10) as u128;
    assert(fu < 10 && ft < 3 && su < 10 && st < 6 && mu < 10 && mt < 6 && hu < 10 && ht < 3);
    assert(b == 0x3FFD + fu * 0x1_0000 + ft * 0x100_0000 + su * 0x1_0000_0000 + st * 0x100_0000_0000
        + mu * 0x1_0000_0000_0000 + mt * 0x100_0000_0000_0000 + hu * 0x1_0000_0000_0000_0000
        + ht * 0x100_0000_0000_0000_0000);
    assert({
        &&& (b / 0x1_0000) % 16 == fu
        &&& (b / 0x100_0000) % 4 == ft
        &&& (b / 0x1_0000_0000) % 16 == su
        &&& (b / 0x100_0000_0000) % 8 == st
        &&& (b / 0x1_0000_0000_0000) % 16 == mu
        &&& (b / 0x100_0000_0000_0000) % 8 == mt
        &&& (b / 0x1_0000_0000_0000_0000) % 16 == hu
        &&& (b / 0x100_0000_0000_0000_0000) % 4 == ht
        &&& b % 0x1_0000 == 0x3FFD
    }) by (bit_vector)
        requires
            fu < 10 && ft < 3 && su < 10 && st < 6 && mu < 10 && mt < 6 && hu < 10 && ht < 3,
            b == 0x3FFD + fu * 0x1_0000 + ft * 0x100_0000 + su * 0x1_0000_0000 + st * 0x100_0000_0000
                + mu * 0x1_0000_0000_0000 + mt * 0x100_0000_0000_0000 + hu * 0x1_0000_0000_0000_0000
                + ht * 0x100_0000_0000_0000_0000,
    ;
    assert(ft * 10 + fu == ff && st * 10 + su == ss && mt * 10 + mu == mm && ht * 10 + hu == hh);
}

} // verus!
