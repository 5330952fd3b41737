use vstd::prelude::*;

verus! {

/// Number of audio channels in every network audio frame.
pub const NDI_AUDIO_CHANNELS: usize = 16;

/// A program-feed frame read back from the GPU, on its way to the network
/// sender: BGRA rows of `stride` bytes.
pub struct NdiVideoFrame {
    pub data: Vec<u8>,
    pub width: i32,
    pub height: i32,
    pub stride: i32,
}

/// Layout of a planar audio frame of `float_count` samples spread over the
/// 16 channels: the samples per channel (truncated to `i32` as `as` does)
/// and the byte distance between channel planes (4 bytes per sample).
pub fn audio_frame_layout(float_count: usize) -> (r: (i32, i32))
    requires
        i32::MIN <= ((float_count / 16) as i32) * 4 <= i32::MAX,
    ensures
        r.0 == (float_count / 16) as i32,
        r.1 == r.0 * 4,
{
    let no_samples = (float_count / NDI_AUDIO_CHANNELS) as i32;
    (no_samples, no_samples * 4)
}

} // verus!
