use cubemap::raster::SourceImage;
use cubemap::sampler::sample;
use cubemap::RenderError;

fn solid(w: usize, h: usize, rgb: (u8, u8, u8)) -> SourceImage {
    let mut data: Vec<u8> = Vec::new();
    for _ in 0..w * h {
        data.push(rgb.0);
        data.push(rgb.1);
        data.push(rgb.2);
    }
    SourceImage::new(w, h, data).unwrap()
}

#[test]
fn sampler_constant_source_returns_exact_color() {
    let img = solid(7, 5, (12, 34, 56));
    let coords: [(i64, i64); 8] = [
        (0, 0),
        (40000, 20000),
        (65535, 65535),
        (65536, 65536),
        (123456, 7),
        (-262144, 262144),
        (262144, -262144),
        (-1, 1),
    ];
    for &(u_fp, v_fp) in coords.iter() {
        assert_eq!(sample(&img, u_fp, v_fp), (12, 34, 56));
    }
}

#[test]
fn sampler_wraps_last_column_to_first() {
    // Column 3 (the last) is bright, column 0 is dark, the middle columns
    // are a contrasting grey; both rows are identical. Sampling just below
    // u = 1 must blend columns 3 and 0 only.
    let w = 4;
    let h = 2;
    let mut data: Vec<u8> = Vec::new();
    for _y in 0..h {
        for x in 0..w {
            let red: u8 = match x {
                0 => 10,
                3 => 200,
                _ => 90,
            };
            data.push(red);
            data.push(0);
            data.push(0);
        }
    }
    let img = SourceImage::new(w, h, data).unwrap();
    let u_fp = (0.999999_f32 * 65536.0) as i64;
    let got = sample(&img, u_fp, 0);

    // The expected value, from the sampler's stated fixed-point formula,
    // blending texels 3 and 0 of the first row.
    let wrapped = (u_fp * w as i64).rem_euclid(w as i64 * 65536);
    let x0 = wrapped / 65536;
    assert_eq!(x0, 3);
    let fx = wrapped % 65536;
    let a = 200i64 * (65536 - fx) + 10i64 * fx;
    let expected = ((a * 65536) + 2147483648) / 4294967296;
    assert_eq!(got.0 as i64, expected);
    // It interpolated towards column 0, not towards the grey interior.
    assert!(got.0 >= 10 && got.0 <= 12, "red={}", got.0);
    assert_eq!((got.1, got.2), (0, 0));
}

#[test]
fn sampler_wraps_last_row_to_first_without_longitude_flip() {
    // The documented pole behaviour: the vertical axis wraps toroidally
    // too, so sampling just below v = 1 blends row H-1 with row 0 as they
    // stand, with no longitude flip.
    let w = 2;
    let h = 3;
    let mut data: Vec<u8> = Vec::new();
    for y in 0..h {
        let green: u8 = match y {
            0 => 20,
            2 => 220,
            _ => 128,
        };
        for _x in 0..w {
            data.push(0);
            data.push(green);
            data.push(0);
        }
    }
    let img = SourceImage::new(w, h, data).unwrap();
    let v_fp = (0.999999_f32 * 65536.0) as i64;
    let got = sample(&img, 0, v_fp);
    // The coordinate sits a hair past the last row's texel, so nearly all
    // the weight falls on the wrapped row 0, the rest on row 2. Had the
    // axis clamped instead of wrapping, the result would stay near 220.
    assert!(got.1 >= 20 && got.1 <= 25, "green={}", got.1);
}

#[test]
fn sampler_blends_midpoint_exactly() {
    // Two texels, one row: red 100 and 200. At u = 0.25 the texel
    // coordinate is 0.5, so the blend is the rounded midpoint, 150.
    let img = SourceImage::new(2, 1, vec![100, 0, 8, 200, 0, 9]).unwrap();
    let got = sample(&img, 16384, 0);
    assert_eq!(got, (150, 0, 9));
}

#[test]
fn source_image_rejects_bad_input() {
    assert_eq!(
        SourceImage::new(0, 5, Vec::new()).err().unwrap(),
        RenderError::BadSourceDimensions
    );
    assert_eq!(
        SourceImage::new(5, 0, Vec::new()).err().unwrap(),
        RenderError::BadSourceDimensions
    );
    assert_eq!(
        SourceImage::new(2, 2, vec![0, 0, 0]).err().unwrap(),
        RenderError::BadSourceData
    );
    assert!(SourceImage::new(1, 1, vec![1, 2, 3]).is_ok());
}
