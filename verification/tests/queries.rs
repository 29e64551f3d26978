use spectra::fast_frequency_sample::FastFrequencySample;
use spectra::float_bits::{
    add_bits, bits_to_usize, ceil_bits, clamp_bits, div_bits, floor_bits, lt_bits, mul_bits,
    round_bits, sub_bits, usize_to_bits, QNAN_BITS,
};
use spectra::interpolated_frequency_sample::{
    cosine_interpolate, cubic_interpolate, InterpolatedFrequencySample,
};
use spectra::sample::StereoMagnitude;

fn b(v: f32) -> u32 {
    v.to_bits()
}

fn m(l: f32, r: f32) -> StereoMagnitude {
    StereoMagnitude { re: b(l), im: b(r) }
}

#[test]
fn scalar_ops_match_hardware_floats() {
    assert_eq!(add_bits(b(1.5), b(2.25)), b(3.75));
    assert_eq!(sub_bits(b(1.0), b(0.25)), b(0.75));
    assert_eq!(mul_bits(b(3.0), b(0.5)), b(1.5));
    assert_eq!(div_bits(b(1.0), b(8.0)), b(0.125));
    assert_eq!(floor_bits(b(2.75)), b(2.0));
    assert_eq!(ceil_bits(b(2.25)), b(3.0));
    assert_eq!(round_bits(b(2.5)), b(3.0));
    assert_eq!(round_bits(b(2.4)), b(2.0));
    assert_eq!(bits_to_usize(b(6.9)), 6);
    assert_eq!(usize_to_bits(44100), b(44100.0));
    assert!(lt_bits(b(1.0), b(2.0)));
    assert!(!lt_bits(b(2.0), b(1.0)));
    assert_eq!(clamp_bits(b(5.0), b(0.0), b(3.0)), b(3.0));
    assert_eq!(clamp_bits(b(-1.0), b(0.0), b(3.0)), b(0.0));
    assert_eq!(clamp_bits(b(2.0), b(0.0), b(3.0)), b(2.0));
}

#[test]
fn nan_results_are_canonical() {
    let inf = b(f32::INFINITY);
    let neg_inf = b(f32::NEG_INFINITY);
    assert_eq!(add_bits(inf, neg_inf), QNAN_BITS);
    assert_eq!(div_bits(b(0.0), b(0.0)), QNAN_BITS);
    assert_eq!(mul_bits(inf, b(0.0)), QNAN_BITS);
}

#[test]
fn stereo_ops_match_hardware_floats() {
    let a = m(1.5, -2.0);
    let c = m(0.25, 4.0);
    assert_eq!(a.plus(c), m(1.75, 2.0));
    assert_eq!(a.minus(c), m(1.25, -6.0));
    assert_eq!(a.conj(), m(1.5, 2.0));
    assert_eq!(a.scale(b(2.0)), m(3.0, -4.0));
    assert_eq!(a.div(b(2.0)), m(0.75, -1.0));
}

#[test]
fn cubic_interpolation_is_exact_on_constant_data() {
    let data = vec![m(5.0, -3.0); 6];
    let r = cubic_interpolate(&data, b(2.4));
    assert_eq!(r, m(5.0, -3.0));
}

#[test]
fn cubic_interpolation_hits_grid_points() {
    let data = vec![m(1.0, 0.0), m(2.0, 0.0), m(7.0, 0.0), m(3.0, 0.0)];
    // At an integral index the offset is zero, so the kernel returns the
    // bin exactly.
    let r = cubic_interpolate(&data, b(2.0));
    assert_eq!(r, m(7.0, 0.0));
}

#[test]
fn period_and_frequencies_formulas() {
    let s = InterpolatedFrequencySample::new(vec![m(0.0, 0.0); 5], 10);
    assert_eq!(s.period(), b(1.0)); // 2 * 5 / 10
    let (lo, hi) = s.frequencies();
    assert_eq!(lo, b(0.0));
    assert_eq!(hi, b(5.0)); // Nyquist
    let s2 = InterpolatedFrequencySample::new(vec![m(0.0, 0.0); 2049], 44100);
    let (_, ny) = s2.frequencies();
    assert_eq!(ny, b(22050.0));
}

#[test]
fn magnitude_at_on_constant_spectrum() {
    let s = InterpolatedFrequencySample::new(vec![m(2.0, 4.0); 9], 16);
    // period = 2 * 9 / 16; any in-range query lands on constant data.
    assert_eq!(s.magnitude_at(b(1.0)), m(2.0, 4.0));
    assert_eq!(s.magnitude_at(b(7.9)), m(2.0, 4.0));
    // Out-of-range frequencies are clamped, not rejected.
    assert_eq!(s.magnitude_at(b(1.0e9)), m(2.0, 4.0));
    assert_eq!(s.magnitude_at(b(-5.0)), m(2.0, 4.0));
    // A NaN frequency flows through as the canonical quiet NaN.
    let nan_result = s.magnitude_at(f32::NAN.to_bits());
    assert_eq!(nan_result, StereoMagnitude { re: QNAN_BITS, im: QNAN_BITS });
}

#[test]
fn magnitude_in_on_constant_spectrum() {
    let s = InterpolatedFrequencySample::new(vec![m(2.0, 4.0); 9], 16);
    let r = s.magnitude_in(b(1.0), b(6.0));
    assert_eq!(r, m(2.0, 4.0));
}

#[test]
fn repeated_queries_are_bit_identical() {
    // Querying an immutable spectrum is idempotent: identical calls return
    // bit-identical results.
    let bins: Vec<StereoMagnitude> = (0..33)
        .map(|i| m((i as f32).sin().abs(), (i as f32).cos().abs()))
        .collect();
    let s = InterpolatedFrequencySample::new(bins, 64);
    let a1 = s.magnitude_at(b(13.7));
    let a2 = s.magnitude_at(b(13.7));
    assert_eq!(a1, a2);
    let r1 = s.magnitude_in(b(3.3), b(21.9));
    let r2 = s.magnitude_in(b(3.3), b(21.9));
    assert_eq!(r1, r2);
}

#[test]
fn range_query_points_match_linear_spacing() {
    // The range query samples points evenly spaced in frequency, exactly as
    // a linear space over the range: the mean of those point queries is the
    // result.
    let bins: Vec<StereoMagnitude> = (0..17).map(|i| m(i as f32, 0.0)).collect();
    let s = InterpolatedFrequencySample::new(bins, 34);
    let (lo, hi) = (2.0f32, 11.0f32);
    let got = s.magnitude_in(b(lo), b(hi));

    // Expected: reproduce the documented pipeline with host floats.
    let period = 2.0 * 17.0 / 34.0;
    let index = |f: f32| (f * period).clamp(0.0, 16.0);
    let num = ((index(hi) - index(lo)).floor() as usize).max(1);
    let points = iter_num_tools::lin_space(lo..hi, num);
    let mut sum_l = 0.0f32;
    for p in points {
        sum_l += f32::from_bits(s.magnitude_at(b(p)).re);
    }
    let expected = sum_l / num as f32;
    assert_eq!(f32::from_bits(got.re), expected);
}

#[test]
fn narrow_range_approaches_point_query() {
    let bins: Vec<StereoMagnitude> = (0..33).map(|i| m((i as f32 * 0.37).sin() + 1.5, 0.0)).collect();
    let s = InterpolatedFrequencySample::new(bins, 64);
    let f = 7.0f32;
    let w = 1.0e-3f32;
    let range = s.magnitude_in(b(f - w), b(f + w));
    let point = s.magnitude_at(b(f));
    let diff = (f32::from_bits(range.re) - f32::from_bits(point.re)).abs();
    assert!(diff < 1.0e-2, "range mean {} vs point {}", f32::from_bits(range.re), f32::from_bits(point.re));
}

#[test]
fn fast_sample_stores_prefix_sums() {
    let mags = vec![m(1.0, 4.0), m(2.0, 5.0), m(3.0, 6.0)];
    let f = FastFrequencySample::new(&mags, 6);
    let ps: Vec<(f32, f32)> = f
        .prefix_sum_of_magnitudes
        .iter()
        .map(|v| (f32::from_bits(v.re), f32::from_bits(v.im)))
        .collect();
    assert_eq!(ps, vec![(1.0, 4.0), (3.0, 9.0), (6.0, 15.0)]);
    assert_eq!(f.period(), b(1.0));
    let (lo, hi) = f.frequencies();
    assert_eq!(lo, b(0.0));
    assert_eq!(hi, b(3.0));
}

#[test]
fn fast_sample_net_query_is_monotone_in_width() {
    // With a non-negative spectrum the net magnitude across a range never
    // shrinks as the range widens.
    let mags: Vec<StereoMagnitude> = (0..33).map(|i| m((i % 7) as f32 + 0.5, 0.25)).collect();
    let f = FastFrequencySample::new(&mags, 66);
    let lo = 2.3f32;
    let mut last = f32::NEG_INFINITY;
    for w in [0.5f32, 1.0, 2.0, 4.0, 8.0, 12.0] {
        let r = f.net_magnitude_in(b(lo), b(lo + w));
        let v = f32::from_bits(r.re);
        assert!(v >= last, "width {} gave {} after {}", w, v, last);
        last = v;
    }
}

#[test]
fn cosine_interpolation_blends_bracketing_bins() {
    let data = vec![m(1.0, 0.0), m(2.0, 0.0), m(7.0, 0.0), m(3.0, 0.0)];
    // At an integral index the easing weight is zero: the bin is returned
    // exactly.
    assert_eq!(cosine_interpolate(&data, b(2.0)), m(7.0, 0.0));
    // Halfway between two bins the half-cosine easing weighs them equally.
    let mid = cosine_interpolate(&data, b(1.5));
    let v = f32::from_bits(mid.re);
    assert!((v - 4.5).abs() < 1.0e-5, "midpoint blend {}", v);
}
