//! Decoded video frames: owned, immutable RGBA8 pixel buffers tagged with a
//! sequence index and their pixel dimensions.

use vstd::prelude::*;

verus! {

/// Upper bound on a frame's width and height in pixels. It keeps every
/// derived quantity (`4 * width`, `width * height * 4`) comfortably inside
/// `u32` and `usize` ranges.
pub const MAX_FRAME_DIM: u32 = 16384;

/// Why a frame could not be built from raw parts.
#[derive(Clone, Copy, Debug, PartialEq, Eq, Structural)]
pub enum FrameError {
    /// Width or height exceeds `MAX_FRAME_DIM`.
    DimensionsTooLarge,
    /// The pixel buffer length is not `width * height * 4`.
    SizeMismatch,
}

/// Mathematical image of a `Frame`.
pub struct FrameView {
    pub width: u32,
    pub height: u32,
    pub index: u64,
    pub pixels: Seq<u8>,
}

/// The shape every frame keeps: bounded dimensions and a pixel buffer of
/// exactly `width * height * 4` bytes (RGBA8 layout).
pub open spec fn frame_wf(v: FrameView) -> bool {
    &&& v.width <= MAX_FRAME_DIM
    &&& v.height <= MAX_FRAME_DIM
    &&& v.pixels.len() == v.width * v.height * 4
}

/// One decoded video image in RGBA8 layout, tagged with a monotonically
/// increasing sequence index assigned by the decode worker.
pub struct Frame {
    width: u32,
    height: u32,
    index: u64,
    pixels: Vec<u8>,
}

impl View for Frame {
    type V = FrameView;

    closed spec fn view(&self) -> FrameView {
        FrameView {
            width: self.width,
            height: self.height,
            index: self.index,
            pixels: self.pixels@,
        }
    }
}

impl Frame {
    /// Every frame value satisfies this: constructors establish it and
    /// nothing can break it afterwards. Callers recover it with
    /// `use_type_invariant`.
    #[verifier::type_invariant]
    pub open spec fn size_invariant(self) -> bool {
        frame_wf(self@)
    }

    /// Builds a frame from raw parts, rejecting oversized dimensions and any
    /// pixel buffer whose length is not `width * height * 4`.
    pub fn new(width: u32, height: u32, index: u64, pixels: Vec<u8>) -> (r: Result<
        Frame,
        FrameError,
    >)
        ensures
            r matches Ok(f) ==> f@ == (FrameView {
                width,
                height,
                index,
                pixels: pixels@,
            }),
            r is Ok <==> {
                &&& width <= MAX_FRAME_DIM
                &&& height <= MAX_FRAME_DIM
                &&& pixels@.len() == width * height * 4
            },
            r == Err::<Frame, FrameError>(FrameError::DimensionsTooLarge) <==> (width
                > MAX_FRAME_DIM || height > MAX_FRAME_DIM),
            r == Err::<Frame, FrameError>(FrameError::SizeMismatch) <==> {
                &&& width <= MAX_FRAME_DIM
                &&& height <= MAX_FRAME_DIM
                &&& pixels@.len() != width * height * 4
            },
    {
        if width > MAX_FRAME_DIM || height > MAX_FRAME_DIM {
            return Err(FrameError::DimensionsTooLarge);
        }
        proof {
            assert((width as int) * (height as int) * 4 <= 0x4000_0000int) by (nonlinear_arith)
                requires
                    width <= 16384,
                    height <= 16384,
            ;
        }
        let expected: u64 = (width as u64) * (height as u64) * 4;
        if pixels.len() as u64 != expected {
            return Err(FrameError::SizeMismatch);
        }
        Ok(Frame { width, height, index, pixels })
    }

    /// Pixel width of the decoded image.
    pub fn width(&self) -> (w: u32)
        ensures
            w == self@.width,
    {
        self.width
    }

    /// Pixel height of the decoded image.
    pub fn height(&self) -> (h: u32)
        ensures
            h == self@.height,
    {
        self.height
    }

    /// Sequence index assigned at decode time.
    pub fn index(&self) -> (i: u64)
        ensures
            i == self@.index,
    {
        self.index
    }

    /// Borrows the RGBA8 pixel buffer.
    pub fn pixels(&self) -> (p: &Vec<u8>)
        ensures
            p@ == self@.pixels,
    {
        &self.pixels
    }

    /// Consumes the frame, handing out its pixel buffer.
    pub fn into_pixels(self) -> (p: Vec<u8>)
        ensures
            p@ == self@.pixels,
            p@.len() == self@.width * self@.height * 4,
    {
        proof {
            use_type_invariant(&self);
        }
        let Frame { pixels, .. } = self;
        pixels
    }
}

} // verus!
