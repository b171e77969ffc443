use fastcwt::batch_bounds;
use fastcwt::ceil_div;
use fastcwt::check_scale_count;
use fastcwt::check_signal_length;
use fastcwt::find2power;
use fastcwt::mirror_spectrum;
use fastcwt::next_pow2;
use fastcwt::pad_to;
use fastcwt::transform_rows;
use fastcwt::CwtError;
use fastcwt::ScaleTypes;
use rustfft::num_complex::Complex;

#[test]
fn find2power_small_values() {
    assert_eq!(find2power(0), 0);
    assert_eq!(find2power(1), 0);
    assert_eq!(find2power(2), 1);
    assert_eq!(find2power(3), 2);
    assert_eq!(find2power(4), 2);
    assert_eq!(find2power(5), 3);
    assert_eq!(find2power(8), 3);
    assert_eq!(find2power(9), 4);
}

#[test]
fn find2power_around_1024() {
    assert_eq!(find2power(1023), 10);
    assert_eq!(find2power(1024), 10);
    assert_eq!(find2power(1025), 11);
}

#[test]
fn next_pow2_matches_find2power() {
    for n in [0usize, 1, 2, 3, 5, 7, 8, 100, 1000, 1024, 4097] {
        assert_eq!(next_pow2(n), 1usize << find2power(n));
    }
}

#[test]
fn next_pow2_values() {
    assert_eq!(next_pow2(0), 1);
    assert_eq!(next_pow2(1), 1);
    assert_eq!(next_pow2(2), 2);
    assert_eq!(next_pow2(3), 4);
    assert_eq!(next_pow2(1000), 1024);
    assert_eq!(next_pow2(1024), 1024);
    assert_eq!(next_pow2(1025), 2048);
}

#[test]
fn ceil_div_values() {
    assert_eq!(ceil_div(0, 3), 0);
    assert_eq!(ceil_div(1, 3), 1);
    assert_eq!(ceil_div(3, 3), 1);
    assert_eq!(ceil_div(4, 3), 2);
    assert_eq!(ceil_div(10, 5), 2);
    assert_eq!(ceil_div(11, 5), 3);
    assert_eq!(ceil_div(1024, 4), 256);
}

#[test]
fn batch_bounds_values() {
    assert_eq!(batch_bounds(10, 4, 0), (0, 4));
    assert_eq!(batch_bounds(10, 4, 1), (4, 8));
    assert_eq!(batch_bounds(10, 4, 2), (8, 10));
    assert_eq!(batch_bounds(10, 4, 3), (10, 10));
}

#[test]
fn batches_cover_every_sample_once() {
    let total: usize = 10;
    let parts: usize = 3;
    let batchsize = ceil_div(total, parts);
    for k in 0..total {
        let mut owners: usize = 0;
        for m in 0..parts {
            let (start, end) = batch_bounds(total, batchsize, m);
            if start <= k && k < end {
                owners += 1;
            }
        }
        assert_eq!(owners, 1);
    }
}

#[test]
fn pad_to_keeps_prefix_and_fills_rest() {
    let mut buf: Vec<f64> = vec![1.5, -2.5];
    pad_to(&mut buf, 5, 0.0);
    assert_eq!(buf, vec![1.5, -2.5, 0.0, 0.0, 0.0]);
}

#[test]
fn pad_to_leaves_full_buffer_alone() {
    let mut buf: Vec<f64> = vec![1.0, 2.0];
    pad_to(&mut buf, 2, 9.0);
    assert_eq!(buf, vec![1.0, 2.0]);
}

#[test]
fn mirror_even_length() {
    let mut buf: Vec<f64> = vec![0.0, 1.0, 2.0, 3.0, 4.0, 5.0, 6.0, 7.0];
    mirror_spectrum(&mut buf);
    assert_eq!(buf, vec![0.0, 1.0, 2.0, 3.0, 4.0, 3.0, 2.0, 1.0]);
}

#[test]
fn mirror_odd_length() {
    let mut buf: Vec<f64> = vec![0.0, 1.0, 2.0, 3.0, 4.0, 5.0, 6.0];
    mirror_spectrum(&mut buf);
    assert_eq!(buf, vec![0.0, 1.0, 2.0, 3.0, 4.0, 2.0, 1.0]);
}

#[test]
fn mirror_tiny_buffers() {
    let mut empty: Vec<f64> = vec![];
    mirror_spectrum(&mut empty);
    assert_eq!(empty, Vec::<f64>::new());

    let mut one: Vec<f64> = vec![4.0];
    mirror_spectrum(&mut one);
    assert_eq!(one, vec![4.0]);

    let mut two: Vec<f64> = vec![4.0, 5.0];
    mirror_spectrum(&mut two);
    assert_eq!(two, vec![4.0, 5.0]);
}

#[test]
fn transform_rows_one_row_per_scale() {
    let spectrum: Vec<f64> = vec![3.0, 1.0, 4.0];
    let rows = transform_rows(&spectrum, 4, |_i: usize, v: Vec<f64>| v).0;
    assert_eq!(rows.len(), 4);
    for row in &rows {
        assert_eq!(row, &spectrum);
    }
}

#[test]
fn transform_rows_isolates_the_scales() {
    // a destructive kernel must never see another scale's changes
    let spectrum: Vec<f64> = vec![3.0, 1.0, 4.0];
    let rows = transform_rows(&spectrum, 3, |i: usize, mut v: Vec<f64>| {
        for x in v.iter_mut() {
            *x *= (i + 1) as f64;
        }
        v
    })
    .0;
    assert_eq!(rows.len(), 3);
    assert_eq!(rows[0], vec![3.0, 1.0, 4.0]);
    assert_eq!(rows[1], vec![6.0, 2.0, 8.0]);
    assert_eq!(rows[2], vec![9.0, 3.0, 12.0]);
}

#[test]
fn transform_rows_no_scales() {
    let spectrum: Vec<f64> = vec![3.0];
    let rows = transform_rows(&spectrum, 0, |_i: usize, v: Vec<f64>| v).0;
    assert!(rows.is_empty());
}

#[test]
fn complex_buffer_pipeline_steps() {
    let mut buf: Vec<Complex<f64>> = vec![Complex::new(1.0, 0.0), Complex::new(2.0, -1.0)];
    pad_to(&mut buf, 4, Complex::new(0.0, 0.0));
    assert_eq!(buf.len(), 4);
    assert_eq!(buf[3], Complex::new(0.0, 0.0));
    mirror_spectrum(&mut buf);
    assert_eq!(buf[3], Complex::new(2.0, -1.0));
    let rows = transform_rows(&buf, 2, |_i: usize, v: Vec<Complex<f64>>| v).0;
    assert_eq!(rows.len(), 2);
    assert_eq!(rows[0], buf);
    assert_eq!(rows[1], buf);
}

#[test]
fn zero_scale_count_is_refused() {
    assert_eq!(check_scale_count(0), Err(CwtError::InvalidCount));
    assert_eq!(check_scale_count(1), Ok(()));
    assert_eq!(check_scale_count(128), Ok(()));
}

#[test]
fn signal_length_must_match() {
    assert_eq!(check_signal_length(8, 8), Ok(()));
    assert_eq!(check_signal_length(8, 7), Err(CwtError::DimensionMismatch));
    assert_eq!(check_signal_length(0, 1), Err(CwtError::DimensionMismatch));
    assert_eq!(check_signal_length(0, 0), Ok(()));
}

#[test]
fn scale_types_compare_by_variant() {
    assert_eq!(ScaleTypes::Linear, ScaleTypes::Linear);
    assert_ne!(ScaleTypes::Linear, ScaleTypes::Log);
    assert_ne!(ScaleTypes::Log, ScaleTypes::LinFreq);
}
