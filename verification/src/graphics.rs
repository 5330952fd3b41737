use vstd::prelude::*;

verus! {

/// Number of staging textures in the read-back ring of the network feed.
pub const READBACK_SLOTS: usize = 3;

/// A network video frame received in system memory, waiting to be uploaded
/// to the GPU by the render loop.
pub struct NdiPingPong {
    pub width: u32,
    pub height: u32,
    pub stride: u32,
    pub pixels: Vec<u8>,
    pub is_dirty: bool,
}

impl NdiPingPong {
    /// No frame yet.
    pub fn new() -> (p: Self)
        ensures
            p.width == 0,
            p.height == 0,
            p.stride == 0,
            p.pixels@ == Seq::<u8>::empty(),
            !p.is_dirty,
    {
        NdiPingPong { width: 0, height: 0, stride: 0, pixels: Vec::new(), is_dirty: false }
    }

    /// Stores a received frame of `yres` rows of `stride` bytes taken from
    /// the front of `data`, records its geometry and marks it for upload.
    pub fn store_frame(&mut self, data: &[u8], xres: i32, yres: i32, stride: i32)
        requires
            0 <= stride * yres <= i32::MAX,
            stride * yres <= data@.len(),
        ensures
            final(self).pixels@ == data@.subrange(0, stride * yres),
            final(self).width == xres as u32,
            final(self).height == yres as u32,
            final(self).stride == stride as u32,
            final(self).is_dirty,
    {
        let size: usize = (stride * yres) as usize;
        if self.pixels.len() != size {
            self.pixels.resize(size, 0u8);
        }
        let mut i: usize = 0;
        while i < size
            invariant
                i <= size,
                size <= data@.len(),
                self.pixels@.len() == size,
                self.pixels@.subrange(0, i as int) == data@.subrange(0, i as int),
            decreases size - i,
        {
            self.pixels.set(i, data[i]);
            i = i + 1;
            assert(self.pixels@.subrange(0, i as int) =~= data@.subrange(0, i as int));
        }
        assert(self.pixels@ =~= self.pixels@.subrange(0, size as int));
        self.width = xres as u32;
        self.height = yres as u32;
        self.stride = stride as u32;
        self.is_dirty = true;
    }

    /// Whether the render loop has a frame to upload: a fresh frame with a
    /// non-empty picture.
    pub fn needs_upload(&self) -> (b: bool)
        ensures
            b == (self.is_dirty && self.width > 0 && self.height > 0),
    {
        self.is_dirty && self.width > 0 && self.height > 0
    }

    /// Records that the frame went to the GPU.
    pub fn mark_uploaded(&mut self)
        ensures
            !final(self).is_dirty,
            final(self).width == old(self).width,
            final(self).height == old(self).height,
            final(self).stride == old(self).stride,
            final(self).pixels@ == old(self).pixels@,
    {
        self.is_dirty = false;
    }
}

/// Which staging textures one rendered frame uses.
#[derive(PartialEq, Eq, Structural, Clone, Copy, Debug)]
pub struct ReadbackStep {
    /// The texture the GPU copies this frame into.
    pub write_slot: usize,
    /// The texture the CPU maps and reads this frame, once two frames have
    /// been written.
    pub read_slot: Option<usize>,
}

/// Pipelined read-back of the program feed through three staging textures:
/// each frame is copied into one texture while the texture filled two
/// frames earlier is read, so the CPU never waits for the GPU.
pub struct NdiReadback {
    index: usize,
    frame_count: u64,
}

impl NdiReadback {
    /// The slot the next frame is written to.
    pub closed spec fn slot(&self) -> usize {
        self.index
    }

    /// Number of frames rendered so far (wrapping at 2^64).
    pub closed spec fn frames(&self) -> u64 {
        self.frame_count
    }

    /// Internal consistency: the slot is a valid texture index.
    pub closed spec fn wf(&self) -> bool {
        self.index < READBACK_SLOTS
    }

    /// Slot 0 first, no frame rendered.
    pub fn new() -> (r: Self)
        ensures
            r.wf(),
            r.slot() == 0,
            r.frames() == 0,
    {
        NdiReadback { index: 0, frame_count: 0 }
    }

    /// One rendered frame: writes the current slot, reads the slot after it
    /// (the one written two frames earlier) from the third frame on, then
    /// moves to the next slot.
    pub fn advance(&mut self) -> (step: ReadbackStep)
        requires
            old(self).wf(),
        ensures
            final(self).wf(),
            step.write_slot == old(self).slot(),
            step.read_slot == (if old(self).frames() >= 2 {
                Some(((old(self).slot() + 1) % 3) as usize)
            } else {
                None::<usize>
            }),
            final(self).slot() == (old(self).slot() + 1) % 3,
            final(self).frames() == (old(self).frames() + 1) % 0x1_0000_0000_0000_0000,
    {
        let frame = self.frame_count;
        let current = self.index;
        let next = (current + 1) % READBACK_SLOTS;
        let read_slot = if frame >= 2 { Some(next) } else { None };
        self.index = next;
        self.frame_count = self.frame_count.wrapping_add(1);
        ReadbackStep { write_slot: current, read_slot }
    }
}

/// DXGI format code of 8-bit 4:2:0 planar video (NV12).
pub const FORMAT_NV12: i32 = 103;

/// DXGI format code of 10-bit 4:2:0 planar video (P010).
pub const FORMAT_P010: i32 = 104;

/// How a decoded deck texture is bound for the pixel shader.
#[derive(PartialEq, Eq, Structural, Clone, Copy, Debug)]
pub enum ShaderInput {
    /// Planar YUV: copied into a private planar texture and converted to
    /// RGB by the compute shader (10-bit when `ten_bit`).
    PlanarConversion { ten_bit: bool },
    /// One slice (`slice`) of a texture array, viewed directly.
    ArraySlice { slice: u32 },
    /// A plain 2D texture, viewed directly.
    Plain,
}

/// The binding of a deck texture of DXGI format `format` with `array_size`
/// slices, whose current frame is subresource `subresource`.
pub fn shader_input_for(format: i32, array_size: u32, subresource: u32) -> (r: ShaderInput)
    ensures
        r == (if format == FORMAT_P010 {
            ShaderInput::PlanarConversion { ten_bit: true }
        } else if format == FORMAT_NV12 {
            ShaderInput::PlanarConversion { ten_bit: false }
        } else if array_size > 1 {
            ShaderInput::ArraySlice { slice: subresource }
        } else {
            ShaderInput::Plain
        }),
{
    if format == FORMAT_P010 {
        ShaderInput::PlanarConversion { ten_bit: true }
    } else if format == FORMAT_NV12 {
        ShaderInput::PlanarConversion { ten_bit: false }
    } else if array_size > 1 {
        ShaderInput::ArraySlice { slice: subresource }
    } else {
        ShaderInput::Plain
    }
}

/// Subresource holding the chroma plane of frame `subresource` in a planar
/// texture array of `array_size` slices (the luma planes come first).
pub fn chroma_subresource(subresource: u32, array_size: u32) -> (c: u32)
    requires
        subresource + array_size <= u32::MAX,
    ensures
        c == subresource + array_size,
{
    subresource + array_size
}

/// Whether cached GPU resources made for a (width, height, format) must be
/// rebuilt for a frame of another shape; nothing cached means rebuild.
pub fn needs_realloc(cached: Option<(u32, u32, u32)>, width: u32, height: u32, format: u32) -> (b: bool)
    ensures
        b == match cached {
            Some(c) => c.0 != width || c.1 != height || c.2 != format,
            None => true,
        },
{
    match cached {
        Some(c) => c.0 != width || c.1 != height || c.2 != format,
        None => true,
    }
}

/// Compute-shader thread groups of 8 x 8 covering a `width` x `height`
/// texture.
pub fn dispatch_groups(width: u32, height: u32) -> (g: (u32, u32))
    requires
        width + 7 <= u32::MAX,
        height + 7 <= u32::MAX,
    ensures
        g.0 == (width + 7) / 8,
        g.1 == (height + 7) / 8,
        g.0 * 8 >= width,
        g.1 * 8 >= height,
{
    ((width + 7) / 8, (height + 7) / 8)
}

/// Size of the texture holding a UYVY (4:2:2) frame of `width` x `height`
/// pixels: each texel packs two pixels (U, Y0, V, Y1).
pub fn uyvy_texture_size(width: u32, height: u32) -> (r: (u32, u32))
    ensures
        r == (width / 2, height),
{
    (width / 2, height)
}

/// Whether a failed present means the GPU was removed or reset
/// (DXGI_ERROR_DEVICE_REMOVED or DXGI_ERROR_DEVICE_RESET).
pub fn is_device_lost(hresult: u32) -> (b: bool)
    ensures
        b == (hresult == 0x887A_0005 || hresult == 0x887A_0007),
{
    hresult == 0x887A_0005 || hresult == 0x887A_0007
}

/// The read-back pipeline is two frames deep: from a fresh start, the
/// slot read while rendering frame `n` (counting from 0, `n >= 2`) is the
/// slot that frame `n - 2` was written to, and frame `n` writes slot
/// `n % 3`.
pub proof fn lemma_readback_reads_frame_two_back(n: nat)
    requires
        n >= 2,
    ensures
        (n + 1) % 3 == (n - 2) % 3,
{
}

/// Starting fresh, the write slot always equals the frame count modulo 3:
/// one `advance` from a state where this holds (below the wrap-around of
/// the 64-bit counter) keeps it.
pub proof fn lemma_readback_slot_tracks_count(slot: nat, frames: nat)
    requires
        slot == frames % 3,
        frames + 1 < 0x1_0000_0000_0000_0000,
    ensures
        (slot + 1) % 3 == ((frames + 1) % 0x1_0000_0000_0000_0000) % 3,
{
}

} // verus!
