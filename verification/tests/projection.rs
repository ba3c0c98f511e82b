use cubemap::face::all_faces;
use cubemap::face::direction;
use cubemap::Face;

const PI: f32 = std::f32::consts::PI;

/// Normalized spherical coordinates of a face pixel: the library's exact
/// integer direction, followed by the driver's floating-point angle
/// normalization (azimuth over a full turn plus one half; polar angle over
/// a half turn).
fn uv_of(face: Face, x: usize, y: usize, size: usize) -> (f32, f32) {
    let s = size as f32;
    let d = direction(face, x, y, size);
    let fx = d.0 as f32 / s;
    let fy = d.1 as f32 / s;
    let fz = d.2 as f32 / s;
    let r = (fx * fx + fy * fy + fz * fz).sqrt();
    let u = fy.atan2(fx) / (2.0 * PI) + 0.5;
    let v = (fz / r).acos() / PI;
    (u, v)
}

#[test]
fn projector_outputs_stay_in_unit_square() {
    let size = 16;
    for face in all_faces() {
        for y in 0..size {
            for x in 0..size {
                let d = direction(face, x, y, size);
                // The azimuth reaches exactly a half turn (u = 1.0) on the
                // cut where the horizontal pair points straight backwards.
                if d.1 == 0 && d.0 < 0 {
                    continue;
                }
                // The polar angle reaches exactly the downward pole
                // (v = 1.0) at the centre of the down face.
                if d.0 == 0 && d.1 == 0 && d.2 < 0 {
                    continue;
                }
                let (u, v) = uv_of(face, x, y, size);
                assert!(0.0 <= u && u < 1.0, "u={} at {:?} ({},{})", u, face, x, y);
                assert!(0.0 <= v && v < 1.0, "v={} at {:?} ({},{})", v, face, x, y);
            }
        }
    }
}

#[test]
fn seam_right_front_is_exact_transpose() {
    let size = 256;
    for y in (0..size).step_by(17) {
        for x in (0..size).step_by(17) {
            assert_eq!(direction(Face::Right, x, y, size), direction(Face::Front, y, x, size));
            let a = uv_of(Face::Right, x, y, size);
            let b = uv_of(Face::Front, y, x, size);
            assert_eq!(a, b);
        }
    }
}

#[test]
fn seam_down_front_shares_bottom_row_exactly() {
    let size = 256;
    for x in 0..size {
        assert_eq!(direction(Face::Down, x, 0, size), direction(Face::Front, x, 0, size));
        assert_eq!(uv_of(Face::Down, x, 0, size), uv_of(Face::Front, x, 0, size));
    }
}

#[test]
fn seam_left_back_is_exact_quarter_turn() {
    let size = 256;
    for y in 1..size {
        for x in (0..size).step_by(15) {
            assert_eq!(
                direction(Face::Left, x, y, size),
                direction(Face::Back, size - y, x, size)
            );
        }
    }
}

#[test]
fn seam_up_front_boundary_pixels_agree_closely() {
    let size = 256;
    let tol = 2.0 / size as f32;
    for x in 1..size {
        let (ua, va) = uv_of(Face::Up, x, size - 1, size);
        let (ub, vb) = uv_of(Face::Front, size - x, size - 1, size);
        assert!((ua - ub).abs() < tol, "u gap {} at x={}", (ua - ub).abs(), x);
        assert!((va - vb).abs() < tol, "v gap {} at x={}", (va - vb).abs(), x);
    }
}

#[test]
fn all_faces_come_in_render_order() {
    let v = all_faces();
    assert_eq!(
        v,
        vec![Face::Right, Face::Left, Face::Up, Face::Down, Face::Front, Face::Back]
    );
}
