//! Partition of a face's pixel grid into contiguous chunks.
//!
//! A face of `n` pixels (in row-major order) is cut into chunks of at most
//! `cap` pixels each; every chunk is an independent unit of work. The chunk
//! bounds are pure arithmetic, and the partition lemmas state that the
//! chunks cover every pixel exactly once — the invariant that lets all
//! chunks run concurrently with no write ever racing another. The cap is a
//! performance tunable only: the lemmas hold for every positive cap, so the
//! cap cannot change which pixels are written, nor how often.

use vstd::prelude::*;

verus! {

use vstd::arithmetic::div_mod::lemma_div_is_ordered;
use vstd::arithmetic::div_mod::lemma_fundamental_div_mod;
use vstd::arithmetic::div_mod::lemma_fundamental_div_mod_converse;
use vstd::arithmetic::div_mod::lemma_mod_bound;

/// How many chunks of capacity `cap` cover `n` pixels: `n / cap`, rounded
/// up.
pub open spec fn spec_num_chunks(n: int, cap: int) -> int {
    (n + cap - 1) / cap
}

/// First pixel index of chunk `c`.
pub open spec fn spec_chunk_start(c: int, cap: int) -> int {
    c * cap
}

/// One past the last pixel index of chunk `c`: a full chunk ends `cap`
/// pixels after its start, and the last chunk ends at `n`.
pub open spec fn spec_chunk_end(c: int, cap: int, n: int) -> int {
    if c * cap + cap <= n {
        c * cap + cap
    } else {
        n
    }
}

/// Partition completeness, covering half: every pixel index `p` of the face
/// lies inside the bounds of a chunk — namely chunk `p / cap`.
pub proof fn lemma_chunk_of_pixel(n: int, cap: int, p: int)
    requires
        1 <= cap,
        0 <= p < n,
    ensures
        0 <= p / cap < spec_num_chunks(n, cap),
        spec_chunk_start(p / cap, cap) <= p < spec_chunk_end(p / cap, cap, n),
{
    let c = p / cap;
    lemma_fundamental_div_mod(p, cap);
    lemma_mod_bound(p, cap);
    assert(c * cap == cap * c) by (nonlinear_arith);
    lemma_div_is_ordered(p, n - 1, cap);
    lemma_fundamental_div_mod(n - 1, cap);
    lemma_mod_bound(n - 1, cap);
    let q = (n - 1) / cap;
    assert((q + 1) * cap + (n - 1) % cap == n + cap - 1) by (nonlinear_arith)
        requires
            n - 1 == cap * q + (n - 1) % cap,
    ;
    lemma_fundamental_div_mod_converse(n + cap - 1, cap, q + 1, (n - 1) % cap);
}

/// Partition completeness, disjointness half: two distinct chunks never
/// share a pixel — the earlier chunk ends no later than the later one
/// starts.
pub proof fn lemma_chunks_disjoint(n: int, cap: int, c1: int, c2: int)
    requires
        1 <= cap,
        0 <= c1 < c2,
    ensures
        spec_chunk_end(c1, cap, n) <= spec_chunk_start(c2, cap),
{
    assert(c1 * cap + cap == (c1 + 1) * cap && (c1 + 1) * cap <= c2 * cap) by (nonlinear_arith)
        requires
            c1 + 1 <= c2,
            1 <= cap,
    ;
}

/// Every chunk of the partition is nonempty and lies inside the face.
pub proof fn lemma_chunk_in_face(n: int, cap: int, c: int)
    requires
        1 <= cap,
        0 <= n,
        0 <= c < spec_num_chunks(n, cap),
    ensures
        0 <= spec_chunk_start(c, cap) < spec_chunk_end(c, cap, n) <= n,
{
    let nc = spec_num_chunks(n, cap);
    lemma_fundamental_div_mod(n + cap - 1, cap);
    lemma_mod_bound(n + cap - 1, cap);
    assert(0 <= c * cap && c * cap + cap <= nc * cap) by (nonlinear_arith)
        requires
            0 <= c,
            c + 1 <= nc,
            1 <= cap,
    ;
    assert(nc * cap <= n + cap - 1) by (nonlinear_arith)
        requires
            n + cap - 1 == cap * nc + (n + cap - 1) % cap,
            0 <= (n + cap - 1) % cap,
    ;
}

/// The chunks together reach the end of the face: the last chunk's nominal
/// end is at or past `n`.
pub proof fn lemma_chunks_reach(n: int, cap: int)
    requires
        1 <= cap,
        0 <= n,
    ensures
        n <= spec_num_chunks(n, cap) * cap,
{
    let nc = spec_num_chunks(n, cap);
    lemma_fundamental_div_mod(n + cap - 1, cap);
    lemma_mod_bound(n + cap - 1, cap);
    assert(n <= nc * cap) by (nonlinear_arith)
        requires
            n + cap - 1 == cap * nc + (n + cap - 1) % cap,
            (n + cap - 1) % cap <= cap - 1,
    ;
}

/// Number of chunks of capacity `cap` that cover `n` pixels.
pub fn num_chunks(n: usize, cap: usize) -> (r: usize)
    requires
        1 <= cap,
    ensures
        r as int == spec_num_chunks(n as int, cap as int),
{
    if n == 0 {
        proof {
            lemma_fundamental_div_mod_converse(cap as int - 1, cap as int, 0, cap as int - 1);
        }
        0
    } else {
        let q = (n - 1) / cap;
        proof {
            lemma_fundamental_div_mod(n as int - 1, cap as int);
            lemma_mod_bound(n as int - 1, cap as int);
            let qi = (n as int - 1) / (cap as int);
            assert(qi <= qi * cap) by (nonlinear_arith)
                requires
                    0 <= qi,
                    1 <= cap,
            ;
            assert((qi + 1) * cap + (n as int - 1) % (cap as int) == n as int + cap as int - 1)
                by (nonlinear_arith)
                requires
                    n as int - 1 == cap as int * qi + (n as int - 1) % (cap as int),
            ;
            lemma_fundamental_div_mod_converse(
                n as int + cap as int - 1,
                cap as int,
                qi + 1,
                (n as int - 1) % (cap as int),
            );
        }
        q + 1
    }
}

/// First and one-past-last pixel index of chunk `c`.
pub fn chunk_bounds(n: usize, cap: usize, c: usize) -> (se: (usize, usize))
    requires
        1 <= cap,
        (c as int) < spec_num_chunks(n as int, cap as int),
    ensures
        se.0 as int == spec_chunk_start(c as int, cap as int),
        se.1 as int == spec_chunk_end(c as int, cap as int, n as int),
        se.0 < se.1 <= n,
{
    proof {
        lemma_chunk_in_face(n as int, cap as int, c as int);
    }
    let start = c * cap;
    let end = if n - start > cap {
        start + cap
    } else {
        n
    };
    (start, end)
}

} // verus!
