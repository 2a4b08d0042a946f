use vstd::prelude::*;

verus! {

/// Pixel dimensions for frame buffers.
#[derive(Debug, Clone, Copy, PartialEq, Eq)]
pub struct FrameDims {
    pub width: usize,
    pub height: usize,
}

impl FrameDims {
    /// Native NES visible framebuffer dimensions (256 x 240).
    pub fn nes() -> (r: Self)
        ensures
            r.width == 256,
            r.height == 240,
    {
        Self { width: 256, height: 240 }
    }

    /// Number of pixels in one single-channel frame.
    pub fn len(self) -> (r: usize)
        requires
            self.width * self.height <= usize::MAX,
        ensures
            r == self.width * self.height,
    {
        self.width * self.height
    }

    /// True when either dimension is zero.
    pub fn is_empty(self) -> (r: bool)
        ensures
            r == (self.width == 0 || self.height == 0),
    {
        self.width == 0 || self.height == 0
    }
}

/// Palette-index framebuffer, one byte per NES pixel.
#[derive(Debug, Clone, PartialEq, Eq)]
pub struct IndexedFrame {
    pub dims: FrameDims,
    pub pixels: Vec<u8>,
}

/// RGB framebuffer, three bytes per pixel.
#[derive(Debug, Clone, PartialEq, Eq)]
pub struct RgbFrame {
    pub dims: FrameDims,
    pub pixels: Vec<u8>,
}

/// Grayscale framebuffer, one byte per pixel.
#[derive(Debug, Clone, PartialEq, Eq)]
pub struct GrayscaleFrame {
    pub dims: FrameDims,
    pub pixels: Vec<u8>,
}

impl IndexedFrame {
    /// Blank native-size indexed frame filled with the transparent/background
    /// sentinel 0x80.
    pub fn blank_nes() -> (r: Self)
        ensures
            r.dims.width == 256,
            r.dims.height == 240,
            r.pixels@.len() == 256 * 240,
            forall|i: int| 0 <= i < 256 * 240 ==> r.pixels@[i] == 0x80,
    {
        let dims = FrameDims::nes();
        let n = dims.len();
        let mut pixels: Vec<u8> = Vec::with_capacity(n);
        let mut i: usize = 0;
        while i < n
            invariant
                n == 256 * 240,
                i <= n,
                pixels@.len() == i,
                forall|j: int| 0 <= j < i ==> pixels@[j] == 0x80,
            decreases n - i,
        {
            pixels.push(0x80);
            i = i + 1;
        }
        Self { dims, pixels }
    }
}

} // verus!
