//! Rasters: the immutable source panorama and the mutable face buffer.
//!
//! Both are plain row-major RGB byte buffers with 8-bit channels. The source
//! image is decoded by the driver and shared read-only for a whole run; a
//! face buffer is owned by the renderer of one face until it is complete and
//! handed back.

use vstd::prelude::*;

verus! {

use crate::MAX_DIM;
use crate::MAX_FACE_SIZE;
use crate::RenderError;

/// An immutable RGB source raster, `width * height` pixels, three bytes per
/// pixel in row-major order.
pub struct SourceImage {
    pub width: usize,
    pub height: usize,
    pub data: Vec<u8>,
}

impl SourceImage {
    /// Both dimensions are positive and bounded, and the byte buffer holds
    /// exactly one RGB triple per pixel.
    pub open spec fn wf(&self) -> bool {
        &&& 1 <= self.width <= MAX_DIM
        &&& 1 <= self.height <= MAX_DIM
        &&& self.data@.len() == 3 * (self.width * self.height)
    }

    /// Channel `c` (0 red, 1 green, 2 blue) of the pixel at `(x, y)`.
    pub open spec fn spec_channel(&self, x: int, y: int, c: int) -> u8 {
        self.data@[3 * (y * self.width + x) + c]
    }

    /// Builds a source raster, rejecting malformed input before any work:
    /// a zero or oversized dimension, or a byte buffer of the wrong length.
    pub fn new(width: usize, height: usize, data: Vec<u8>) -> (r: Result<SourceImage, RenderError>)
        ensures
            r is Ok <==> (1 <= width <= MAX_DIM && 1 <= height <= MAX_DIM
                && data@.len() == 3 * (width * height)),
            r matches Ok(img) ==> img.wf() && img.width == width && img.height == height
                && img.data@ == data@,
            !(1 <= width <= MAX_DIM && 1 <= height <= MAX_DIM)
                ==> (r matches Err(e) && e == RenderError::BadSourceDimensions),
            (1 <= width <= MAX_DIM && 1 <= height <= MAX_DIM
                && data@.len() != 3 * (width * height))
                ==> (r matches Err(e) && e == RenderError::BadSourceData),
    {
        if width == 0 || height == 0 || width > MAX_DIM || height > MAX_DIM {
            return Err(RenderError::BadSourceDimensions);
        }
        assert(3 * ((width as int) * (height as int)) <= 3 * (16777216 * 16777216)
        && (width as int) * (height as int) <= 16777216 * 16777216)
            by (nonlinear_arith)
            requires
                width as int <= 16777216,
                height as int <= 16777216,
                1 <= width as int,
                1 <= height as int,
        ;
        let expected: u64 = 3 * ((width as u64) * (height as u64));
        if (data.len() as u64) != expected {
            return Err(RenderError::BadSourceData);
        }
        Ok(SourceImage { width, height, data })
    }

    /// Reads channel `c` of the pixel at `(x, y)`.
    pub fn channel(&self, x: usize, y: usize, c: usize) -> (v: u8)
        requires
            self.wf(),
            x < self.width,
            y < self.height,
            c < 3,
        ensures
            v == self.spec_channel(x as int, y as int, c as int),
    {
        let n = self.data.len();
        assert((y as int) * (self.width as int) + (x as int) < (self.width as int) * (self.height as int)
            && 3 * ((y as int) * (self.width as int) + (x as int)) + (c as int)
                < 3 * ((self.width as int) * (self.height as int))) by (nonlinear_arith)
            requires
                (x as int) < (self.width as int),
                (y as int) < (self.height as int),
                (c as int) < 3,
                1 <= (self.width as int),
                0 <= (x as int),
                0 <= (y as int),
                0 <= (c as int),
        ;
        let idx = 3 * (y * self.width + x) + c;
        self.data[idx]
    }
}

/// A row-major pixel index on a bounded square raster stays inside the byte
/// buffer: the last of its three channel bytes sits below `3 * s * s`.
proof fn lemma_px_index(i: int, s: int)
    requires
        0 <= i < s * s,
        1 <= s <= 16384,
    ensures
        3 * i + 2 < 3 * (s * s),
        3 * (s * s) <= 3 * 16384 * 16384,
{
    assert(3 * i + 2 < 3 * (s * s) && 3 * (s * s) <= 3 * 16384 * 16384) by (nonlinear_arith)
        requires
            0 <= i < s * s,
            1 <= s <= 16384,
    ;
}

/// The mutable RGB raster of one cube face, `size * size` pixels, three
/// bytes per pixel in row-major order.
pub struct FaceBuffer {
    pub size: usize,
    pub data: Vec<u8>,
}

impl FaceBuffer {
    /// The side is positive and bounded, and the byte buffer holds exactly
    /// one RGB triple per pixel.
    pub open spec fn wf(&self) -> bool {
        &&& 1 <= self.size <= MAX_FACE_SIZE
        &&& self.data@.len() == 3 * (self.size * self.size)
    }

    /// The RGB triple of the pixel with row-major index `i`.
    pub open spec fn spec_px(&self, i: int) -> (u8, u8, u8) {
        (self.data@[3 * i], self.data@[3 * i + 1], self.data@[3 * i + 2])
    }

    /// The RGB triple of the pixel at `(x, y)`.
    pub open spec fn spec_pixel(&self, x: int, y: int) -> (u8, u8, u8) {
        self.spec_px(y * self.size + x)
    }

    /// Allocates an all-black face buffer of side `size`.
    pub fn new(size: usize) -> (b: FaceBuffer)
        requires
            1 <= size <= MAX_FACE_SIZE,
        ensures
            b.wf(),
            b.size == size,
            forall|i: int| 0 <= i < size * size ==> b.spec_px(i) == (0u8, 0u8, 0u8),
    {
        assert((size as int) * (size as int) <= 16384 * 16384) by (nonlinear_arith)
            requires
                1 <= (size as int) <= 16384,
        ;
        let n: usize = 3 * (size * size);
        let mut data: Vec<u8> = Vec::new();
        let mut k: usize = 0;
        while k < n
            invariant
                k <= n,
                data@.len() == k,
                forall|j: int| 0 <= j < k ==> data@[j] == 0u8,
            decreases n - k,
        {
            data.push(0u8);
            k += 1;
        }
        FaceBuffer { size, data }
    }

    /// Writes the pixel with row-major index `i`, leaving every other pixel
    /// unchanged.
    pub fn set_px(&mut self, i: usize, rgb: (u8, u8, u8))
        requires
            old(self).wf(),
            i < old(self).size * old(self).size,
        ensures
            final(self).wf(),
            final(self).size == old(self).size,
            final(self).spec_px(i as int) == rgb,
            forall|j: int|
                0 <= j < old(self).size * old(self).size && j != i
                    ==> final(self).spec_px(j) == old(self).spec_px(j),
    {
        proof {
            lemma_px_index(i as int, self.size as int);
        }
        let idx = 3 * i;
        self.data.set(idx, rgb.0);
        self.data.set(idx + 1, rgb.1);
        self.data.set(idx + 2, rgb.2);
    }

    /// Reads the pixel with row-major index `i`.
    pub fn px(&self, i: usize) -> (rgb: (u8, u8, u8))
        requires
            self.wf(),
            i < self.size * self.size,
        ensures
            rgb == self.spec_px(i as int),
    {
        proof {
            lemma_px_index(i as int, self.size as int);
        }
        let idx = 3 * i;
        (self.data[idx], self.data[idx + 1], self.data[idx + 2])
    }

    /// Reads the pixel at `(x, y)`.
    pub fn pixel(&self, x: usize, y: usize) -> (rgb: (u8, u8, u8))
        requires
            self.wf(),
            x < self.size,
            y < self.size,
        ensures
            rgb == self.spec_pixel(x as int, y as int),
    {
        assert((y as int) * (self.size as int) + (x as int) < (self.size as int) * (self.size as int)
            && (self.size as int) * (self.size as int) <= 16384 * 16384) by (nonlinear_arith)
            requires
                (x as int) < (self.size as int),
                (y as int) < (self.size as int),
                1 <= (self.size as int) <= 16384,
                0 <= (x as int),
                0 <= (y as int),
        ;
        self.px(y * self.size + x)
    }

    /// Hands the raw row-major RGB bytes to the caller, for encoding.
    pub fn raw(&self) -> (d: &Vec<u8>)
        ensures
            d@ == self.data@,
    {
        &self.data
    }
}

} // verus!
