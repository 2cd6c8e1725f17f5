use image_util::bridge::{build_matrix, flatten_matrix, to_image, to_matrix, DenseMatrix, Raster, ShapeError};
use image_util::codec::{FromRawPixel, Real, REAL_SCALE};
use num::complex::Complex;

#[test]
fn axis_consistency_two_by_three() {
    let samples: Vec<u8> = vec![0, 64, 128, 192, 255, 32];
    let m = build_matrix::<Real>(2, 3, &samples).unwrap();
    assert_eq!(m.nrows(), 2);
    assert_eq!(m.ncols(), 3);
    assert_eq!(flatten_matrix(&m), samples);
}

#[test]
fn column_major_element_order() {
    let samples: Vec<u8> = vec![0, 64, 128, 192, 255, 32];
    let m = build_matrix::<Real>(2, 3, &samples).unwrap();
    let e = m.as_slice();
    // element (r, c) is at r + 2 * c
    assert_eq!(e[1], Real::from_raw_pixel(64));
    assert_eq!(e[2], Real::from_raw_pixel(128));
    assert_eq!(e[5], Real::from_raw_pixel(32));
    assert_eq!(e[0].units, -REAL_SCALE);
    assert_eq!(e[4].units, REAL_SCALE);
}

#[test]
fn shape_preserved_for_every_sample() {
    let samples: Vec<u8> = (0..=255u8).collect();
    let m = build_matrix::<Real>(16, 16, &samples).unwrap();
    assert_eq!((m.nrows(), m.ncols()), (16, 16));
    assert_eq!(flatten_matrix(&m), samples);
    let wide = build_matrix::<Complex<Real>>(64, 4, &samples).unwrap();
    assert_eq!((wide.nrows(), wide.ncols()), (64, 4));
    assert_eq!(flatten_matrix(&wide), samples);
}

#[test]
fn real_and_complex_give_same_samples() {
    let samples: Vec<u8> = vec![0, 64, 128, 192, 255, 32, 1, 254, 127];
    let real = build_matrix::<Real>(3, 3, &samples).unwrap();
    let complex = build_matrix::<Complex<Real>>(3, 3, &samples).unwrap();
    assert_eq!(flatten_matrix(&real), flatten_matrix(&complex));
    assert!(complex.as_slice().iter().all(|c| c.im.units == 0));
}

#[test]
fn build_rejects_wrong_sample_count() {
    let r = build_matrix::<Real>(2, 3, &[1, 2, 3, 4, 5]);
    assert_eq!(
        r.unwrap_err(),
        ShapeError::LengthMismatch { expected_rows: 2, expected_cols: 3, actual_len: 5 }
    );
    let long = build_matrix::<Real>(2, 3, &[0; 7]);
    assert!(long.is_err());
}

#[test]
fn build_rejects_overflowing_shape() {
    let r = build_matrix::<Real>(usize::MAX, 2, &[]);
    assert_eq!(
        r.unwrap_err(),
        ShapeError::LengthMismatch { expected_rows: usize::MAX, expected_cols: 2, actual_len: 0 }
    );
}

#[test]
fn build_empty_matrix() {
    let m = build_matrix::<Real>(0, 5, &[]).unwrap();
    assert_eq!((m.nrows(), m.ncols()), (0, 5));
    assert!(flatten_matrix(&m).is_empty());
}

#[test]
fn flatten_saturates_processed_values() {
    let data = vec![Real::from_units(2 * REAL_SCALE), Real::from_units(-2 * REAL_SCALE), Real::from_units(0)];
    let m = DenseMatrix::from_column_major(3, 1, data).unwrap();
    assert_eq!(flatten_matrix(&m), vec![255, 0, 128]);
}

#[test]
fn from_column_major_checks_count() {
    let r = DenseMatrix::from_column_major(2, 2, vec![Real::from_units(0); 3]);
    assert_eq!(
        r.unwrap_err(),
        ShapeError::LengthMismatch { expected_rows: 2, expected_cols: 2, actual_len: 3 }
    );
    let m = DenseMatrix::from_column_major(1, 2, vec![Real::from_units(1), Real::from_units(2)]).unwrap();
    assert_eq!(m.into_vec(), vec![Real::from_units(1), Real::from_units(2)]);
}

#[test]
fn raster_matrix_raster_round_trip() {
    let image = Raster { width: 2, height: 3, samples: vec![0, 64, 128, 192, 255, 32] };
    let m = to_matrix::<Complex<Real>>(&image);
    assert_eq!((m.nrows(), m.ncols()), (2, 3));
    let back = to_image(&m);
    assert_eq!((back.width, back.height), (2, 3));
    assert_eq!(back.samples, image.samples);
}

#[test]
fn to_image_uses_rows_as_width() {
    let data = vec![Real::from_units(REAL_SCALE); 4];
    let m = DenseMatrix::from_column_major(4, 1, data).unwrap();
    let r = to_image(&m);
    assert_eq!((r.width, r.height), (4, 1));
    assert_eq!(r.samples, vec![255; 4]);
}
