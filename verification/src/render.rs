//! The face renderer: fills one face buffer chunk by chunk.
//!
//! The driver computes one fixed-point spherical coordinate per pixel (in
//! row-major order) and hands the whole table here together with the shared
//! source raster. The renderer walks the chunk partition and, for every
//! pixel of every chunk, writes exactly the sampler's color for that
//! pixel's coordinate. The chunk capacity is a performance tunable: the
//! contract below does not mention it, because the output is the same for
//! every positive capacity. Each chunk touches only its own pixel range, so
//! chunks may also run concurrently, as the driver arranges.

use vstd::prelude::*;

verus! {

use crate::MAX_FACE_SIZE;
use crate::RenderError;
use crate::chunks::chunk_bounds;
use crate::chunks::lemma_chunks_reach;
use crate::chunks::num_chunks;
use crate::chunks::spec_chunk_end;
use crate::chunks::spec_chunk_start;
use crate::chunks::spec_num_chunks;
use crate::raster::FaceBuffer;
use crate::raster::SourceImage;
use crate::sampler::UV_BOUND;
use crate::sampler::sample;
use crate::sampler::spec_sample_channel;

/// A fixed-point coordinate pair the sampler accepts.
pub open spec fn spec_uv_ok(uv: (i64, i64)) -> bool {
    &&& -UV_BOUND <= uv.0 <= UV_BOUND
    &&& -UV_BOUND <= uv.1 <= UV_BOUND
}

/// Pixel `i` of `buf` holds exactly the sampler's color for coordinate
/// `uvs[i]` on `img`.
pub open spec fn spec_rendered_px(buf: FaceBuffer, img: SourceImage, uvs: Seq<(i64, i64)>, i: int) -> bool {
    &&& buf.spec_px(i).0 as int == spec_sample_channel(img, uvs[i].0 as int, uvs[i].1 as int, 0)
    &&& buf.spec_px(i).1 as int == spec_sample_channel(img, uvs[i].0 as int, uvs[i].1 as int, 1)
    &&& buf.spec_px(i).2 as int == spec_sample_channel(img, uvs[i].0 as int, uvs[i].1 as int, 2)
}

/// Renders the pixels `[start, end)` — one chunk — into `buf`, leaving
/// every pixel outside the chunk untouched.
fn render_chunk(
    img: &SourceImage,
    uvs: &Vec<(i64, i64)>,
    buf: &mut FaceBuffer,
    start: usize,
    end: usize,
)
    requires
        img.wf(),
        old(buf).wf(),
        uvs@.len() == old(buf).size * old(buf).size,
        forall|i: int| 0 <= i < uvs@.len() ==> spec_uv_ok(uvs@[i]),
        start <= end <= uvs@.len(),
    ensures
        final(buf).wf(),
        final(buf).size == old(buf).size,
        forall|i: int| start <= i < end ==> spec_rendered_px(*final(buf), *img, uvs@, i),
        forall|i: int|
            0 <= i < uvs@.len() && !(start <= i < end)
                ==> final(buf).spec_px(i) == old(buf).spec_px(i),
{
    let mut k = start;
    while k < end
        invariant
            img.wf(),
            buf.wf(),
            buf.size == old(buf).size,
            uvs@.len() == buf.size * buf.size,
            forall|i: int| 0 <= i < uvs@.len() ==> spec_uv_ok(uvs@[i]),
            start <= k <= end <= uvs@.len(),
            forall|i: int| start <= i < k ==> spec_rendered_px(*buf, *img, uvs@, i),
            forall|i: int|
                0 <= i < uvs@.len() && !(start <= i < k)
                    ==> buf.spec_px(i) == old(buf).spec_px(i),
        decreases end - k,
    {
        let uv = uvs[k];
        let rgb = sample(img, uv.0, uv.1);
        let ghost prev = *buf;
        buf.set_px(k, rgb);
        proof {
            assert forall|i: int| start <= i < k + 1 implies spec_rendered_px(
                *buf,
                *img,
                uvs@,
                i,
            ) by {
                if i < k {
                    assert(spec_rendered_px(prev, *img, uvs@, i));
                    assert(buf.spec_px(i) == prev.spec_px(i));
                }
            };
        }
        k += 1;
    }
}

/// Fully populates one face's buffer: pixel `i` (row-major) receives
/// exactly the sampler's color for coordinate `uvs[i]` on `img`. The chunk
/// capacity `chunk_cap` groups pixels into independent units of work and
/// has no effect on the result.
pub fn render_face(
    img: &SourceImage,
    uvs: &Vec<(i64, i64)>,
    size: usize,
    chunk_cap: usize,
) -> (buf: FaceBuffer)
    requires
        img.wf(),
        1 <= size <= MAX_FACE_SIZE,
        1 <= chunk_cap,
        uvs@.len() == size * size,
        forall|i: int| 0 <= i < uvs@.len() ==> spec_uv_ok(uvs@[i]),
    ensures
        buf.wf(),
        buf.size == size,
        forall|i: int| 0 <= i < size * size ==> spec_rendered_px(buf, *img, uvs@, i),
{
    let mut buf = FaceBuffer::new(size);
    let n = uvs.len();
    let nc = num_chunks(n, chunk_cap);
    let mut c: usize = 0;
    while c < nc
        invariant
            img.wf(),
            buf.wf(),
            buf.size == size,
            1 <= chunk_cap,
            n == uvs@.len(),
            n == size * size,
            forall|i: int| 0 <= i < uvs@.len() ==> spec_uv_ok(uvs@[i]),
            nc as int == spec_num_chunks(n as int, chunk_cap as int),
            c <= nc,
            forall|i: int|
                0 <= i < spec_chunk_start(c as int, chunk_cap as int) && i < n
                    ==> spec_rendered_px(buf, *img, uvs@, i),
        decreases nc - c,
    {
        let (start, end) = chunk_bounds(n, chunk_cap, c);
        let ghost prev = buf;
        render_chunk(img, uvs, &mut buf, start, end);
        proof {
            assert(spec_chunk_start(c as int + 1, chunk_cap as int)
                == spec_chunk_start(c as int, chunk_cap as int) + chunk_cap) by (nonlinear_arith);
            assert forall|i: int|
                0 <= i < spec_chunk_start(c as int + 1, chunk_cap as int) && i < n implies
                spec_rendered_px(buf, *img, uvs@, i) by {
                if i < start {
                    assert(spec_rendered_px(prev, *img, uvs@, i));
                    assert(buf.spec_px(i) == prev.spec_px(i));
                } else {
                    assert(start <= i < end);
                }
            };
        }
        c += 1;
    }
    proof {
        lemma_chunks_reach(n as int, chunk_cap as int);
        assert(spec_chunk_start(nc as int, chunk_cap as int) == nc as int * chunk_cap as int);
    }
    buf
}

/// The renderer's contract determines a face's pixels completely: two
/// buffers that both hold the rendered color for pixel `i` hold the same
/// bytes there. The chunk capacity and the completion order of chunks
/// therefore cannot change the output.
pub proof fn lemma_rendered_px_unique(
    a: FaceBuffer,
    b: FaceBuffer,
    img: SourceImage,
    uvs: Seq<(i64, i64)>,
    i: int,
)
    requires
        spec_rendered_px(a, img, uvs, i),
        spec_rendered_px(b, img, uvs, i),
    ensures
        a.spec_px(i) == b.spec_px(i),
{
}

/// Renders the pixels `[start, end)` — one chunk — into a fresh byte
/// vector, three bytes per pixel in row-major order: the bytes a chunk task
/// contributes to its disjoint slice of a face's buffer. Concatenating the
/// spans of consecutive chunks reproduces `render_face`'s buffer bytes.
pub fn render_span(
    img: &SourceImage,
    uvs: &Vec<(i64, i64)>,
    start: usize,
    end: usize,
) -> (out: Vec<u8>)
    requires
        img.wf(),
        start <= end <= uvs@.len(),
        forall|i: int| 0 <= i < uvs@.len() ==> spec_uv_ok(uvs@[i]),
    ensures
        out@.len() == 3 * (end - start),
        forall|i: int|
            start <= i < end ==> {
                &&& out@[3 * (i - start)] as int == spec_sample_channel(
                    *img,
                    uvs@[i].0 as int,
                    uvs@[i].1 as int,
                    0,
                )
                &&& out@[3 * (i - start) + 1] as int == spec_sample_channel(
                    *img,
                    uvs@[i].0 as int,
                    uvs@[i].1 as int,
                    1,
                )
                &&& out@[3 * (i - start) + 2] as int == spec_sample_channel(
                    *img,
                    uvs@[i].0 as int,
                    uvs@[i].1 as int,
                    2,
                )
            },
{
    let mut out: Vec<u8> = Vec::new();
    let mut k = start;
    while k < end
        invariant
            img.wf(),
            start <= k <= end <= uvs@.len(),
            forall|i: int| 0 <= i < uvs@.len() ==> spec_uv_ok(uvs@[i]),
            out@.len() == 3 * (k - start),
            forall|i: int|
                start <= i < k ==> {
                    &&& out@[3 * (i - start)] as int == spec_sample_channel(
                        *img,
                        uvs@[i].0 as int,
                        uvs@[i].1 as int,
                        0,
                    )
                    &&& out@[3 * (i - start) + 1] as int == spec_sample_channel(
                        *img,
                        uvs@[i].0 as int,
                        uvs@[i].1 as int,
                        1,
                    )
                    &&& out@[3 * (i - start) + 2] as int == spec_sample_channel(
                        *img,
                        uvs@[i].0 as int,
                        uvs@[i].1 as int,
                        2,
                    )
                },
        decreases end - k,
    {
        let uv = uvs[k];
        let rgb = sample(img, uv.0, uv.1);
        out.push(rgb.0);
        out.push(rgb.1);
        out.push(rgb.2);
        k += 1;
    }
    out
}

/// One batch request: a face size and a JPEG encode quality.
pub struct RenderJob {
    pub size: usize,
    pub quality: u8,
}

impl RenderJob {
    /// The face size is positive and bounded; the quality lies in
    /// `1..=100`.
    pub open spec fn wf(&self) -> bool {
        &&& 1 <= self.size <= MAX_FACE_SIZE
        &&& 1 <= self.quality <= 100
    }

    /// Builds a render job, rejecting an invalid face size or quality
    /// before any work is scheduled.
    pub fn new(size: usize, quality: u8) -> (r: Result<RenderJob, RenderError>)
        ensures
            r is Ok <==> (1 <= size <= MAX_FACE_SIZE && 1 <= quality <= 100),
            r matches Ok(j) ==> j.wf() && j.size == size && j.quality == quality,
            !(1 <= size <= MAX_FACE_SIZE)
                ==> (r matches Err(e) && e == RenderError::BadFaceSize),
            (1 <= size <= MAX_FACE_SIZE && !(1 <= quality <= 100))
                ==> (r matches Err(e) && e == RenderError::BadQuality),
    {
        if size == 0 || size > MAX_FACE_SIZE {
            Err(RenderError::BadFaceSize)
        } else if quality == 0 || quality > 100 {
            Err(RenderError::BadQuality)
        } else {
            Ok(RenderJob { size, quality })
        }
    }
}

} // verus!
