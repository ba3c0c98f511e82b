//! The per-face projection descriptor.
//!
//! Each cube face maps a pixel `(x, y)` of an `S`-pixel face to a direction
//! in space, from which the driver derives spherical angles. The six faces
//! differ only in a fixed signed permutation of the components, so the whole
//! mapping is captured here exactly, over integers: a pixel's
//! normalized-device coordinate is the rational `(2*p - S) / S`, and the
//! direction is a triple of numerators over the common denominator `S`.
//! Equality of these triples is equality of directions, so the seam
//! lemmas below state continuity across face boundaries exactly, before
//! any rounding enters.

use vstd::prelude::*;

verus! {

use crate::Face;
use crate::MAX_FACE_SIZE;

/// Numerator of the normalized-device coordinate of pixel `p` on a face with
/// `s` pixels per side: the coordinate itself is `(2*p - s) / s`, which for
/// `0 <= p < s` lies in `[-1, 1)`.
pub open spec fn spec_ndc(p: int, s: int) -> int {
    2 * p - s
}

/// Direction assigned by face `f` to normalized-device numerators
/// `(xn, yn)`; the three components share the denominator `s`.
///
/// The first two components are the horizontal pair whose arc tangent gives
/// the azimuth; the third, divided by the triple's length, gives the cosine
/// of the polar angle.
pub open spec fn spec_dir(f: Face, xn: int, yn: int, s: int) -> (int, int, int) {
    match f {
        Face::Right => (s, yn, xn),
        Face::Left => (-s, yn, -xn),
        Face::Up => (yn, -xn, s),
        Face::Down => (-yn, xn, -s),
        Face::Front => (s, xn, yn),
        Face::Back => (-s, -xn, -yn),
    }
}

/// Direction numerators for pixel `(x, y)` of face `f` at size `size`.
pub fn direction(f: Face, x: usize, y: usize, size: usize) -> (d: (i64, i64, i64))
    requires
        1 <= size <= MAX_FACE_SIZE,
        x < size,
        y < size,
    ensures
        (d.0 as int, d.1 as int, d.2 as int) == spec_dir(
            f,
            spec_ndc(x as int, size as int),
            spec_ndc(y as int, size as int),
            size as int,
        ),
{
    let s = size as i64;
    let xn = 2 * (x as i64) - s;
    let yn = 2 * (y as i64) - s;
    match f {
        Face::Right => (s, yn, xn),
        Face::Left => (-s, yn, -xn),
        Face::Up => (yn, -xn, s),
        Face::Down => (-yn, xn, -s),
        Face::Front => (s, xn, yn),
        Face::Back => (-s, -xn, -yn),
    }
}

/// The six faces, in rendering order.
pub fn all_faces() -> (v: Vec<Face>)
    ensures
        v@ =~= seq![Face::Right, Face::Left, Face::Up, Face::Down, Face::Front, Face::Back],
{
    let mut v: Vec<Face> = Vec::new();
    v.push(Face::Right);
    v.push(Face::Left);
    v.push(Face::Up);
    v.push(Face::Down);
    v.push(Face::Front);
    v.push(Face::Back);
    v
}

/// Every pixel's direction is bounded by the face's principal axis: each
/// component lies in `[-s, s]`, and one principal component is `s` or `-s`
/// exactly, so the triple is never zero.
pub proof fn lemma_direction_bounds(f: Face, x: int, y: int, s: int)
    requires
        1 <= s,
        0 <= x < s,
        0 <= y < s,
    ensures
        ({
            let d = spec_dir(f, spec_ndc(x, s), spec_ndc(y, s), s);
            &&& -s <= d.0 <= s
            &&& -s <= d.1 <= s
            &&& -s <= d.2 <= s
            &&& (d.0 == s || d.0 == -s || d.2 == s || d.2 == -s)
        }),
{
}

/// Seam continuity, right face against front face: the right face is the
/// front face with its pixel axes transposed, so the two assign identical
/// directions to transposed pixels — in particular along their shared
/// boundary rows and columns.
pub proof fn lemma_seam_right_front(a: int, b: int, s: int)
    ensures
        spec_dir(Face::Right, a, b, s) == spec_dir(Face::Front, b, a, s),
{
}

/// Seam continuity, up face against front face: along the boundary where the
/// vertical normalized-device coordinate reaches `1` (numerator `s`), the up
/// face and the front face assign identical directions to horizontally
/// mirrored pixels.
pub proof fn lemma_seam_up_front(xn: int, s: int)
    ensures
        spec_dir(Face::Up, xn, s, s) == spec_dir(Face::Front, -xn, s, s),
{
}

/// Seam continuity, down face against front face: along the boundary where
/// the vertical normalized-device coordinate is `-1` (numerator `-s`), the
/// down face and the front face assign identical directions to the same
/// pixel column.
pub proof fn lemma_seam_down_front(xn: int, s: int)
    ensures
        spec_dir(Face::Down, xn, -s, s) == spec_dir(Face::Front, xn, -s, s),
{
}

/// Seam continuity, left face against back face: the left face is the back
/// face with its pixel axes rotated a quarter turn, so the two assign
/// identical directions to such pixel pairs — in particular along their
/// shared boundaries.
pub proof fn lemma_seam_left_back(xn: int, yn: int, s: int)
    ensures
        spec_dir(Face::Left, xn, yn, s) == spec_dir(Face::Back, -yn, xn, s),
{
}

} // verus!
