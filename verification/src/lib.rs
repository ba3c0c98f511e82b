use vstd::prelude::*;

pub mod chunks;
pub mod face;
pub mod raster;
pub mod render;
pub mod sampler;

verus! {

/// One of the six cube faces of a cubemap, in the order the renderer
/// processes them.
#[derive(Clone, Copy, PartialEq, Eq, Structural, Debug)]
pub enum Face {
    Right,
    Left,
    Up,
    Down,
    Front,
    Back,
}

/// Why a render request was rejected before any work was scheduled.
#[derive(Clone, Copy, PartialEq, Eq, Structural, Debug)]
pub enum RenderError {
    /// The requested face size was zero or above `MAX_FACE_SIZE`.
    BadFaceSize,
    /// The encode quality was outside `1..=100`.
    BadQuality,
    /// The source raster had a zero dimension or one above `MAX_DIM`.
    BadSourceDimensions,
    /// The source byte buffer did not hold exactly `3 * width * height` bytes.
    BadSourceData,
}

/// Largest face size (pixels per side) the renderer accepts; keeps every
/// buffer index and fixed-point product comfortably inside the machine types.
pub const MAX_FACE_SIZE: usize = 16384;

/// Largest source-image dimension the sampler accepts; keeps the fixed-point
/// products `coordinate * dimension` inside `i64`.
pub const MAX_DIM: usize = 16777216;

} // verus!
