use audio_pipeline::sample::{
    normalize, normalize_block_i16, normalize_block_i32, normalize_block_i8, Sample, AMP_ONE,
};

#[test]
fn exact_values_i8() {
    // An 8-bit reading v maps to v/128, i.e. numerator v * 2^24.
    assert_eq!(normalize(Sample::I8(0)), 0);
    assert_eq!(normalize(Sample::I8(1)), 1 << 24);
    assert_eq!(normalize(Sample::I8(-128)), -AMP_ONE);
    assert_eq!(normalize(Sample::I8(127)), 127 << 24);
}

#[test]
fn exact_values_i16() {
    // A 16-bit reading v maps to v/32768, i.e. numerator v * 2^16.
    assert_eq!(normalize(Sample::I16(0)), 0);
    assert_eq!(normalize(Sample::I16(1)), 1 << 16);
    assert_eq!(normalize(Sample::I16(-32768)), -AMP_ONE);
    assert_eq!(normalize(Sample::I16(32767)), 32767 << 16);
}

#[test]
fn exact_values_i32() {
    // A 32-bit reading v maps to v/2^31: the numerator is v itself.
    assert_eq!(normalize(Sample::I32(0)), 0);
    assert_eq!(normalize(Sample::I32(i32::MIN)), -AMP_ONE);
    assert_eq!(normalize(Sample::I32(i32::MAX)), AMP_ONE - 1);
}

#[test]
fn monotonic_within_each_encoding() {
    let i8_probes: Vec<i8> = vec![-128, -100, -1, 0, 1, 5, 100, 127];
    for w in i8_probes.windows(2) {
        assert!(normalize(Sample::I8(w[0])) <= normalize(Sample::I8(w[1])));
    }
    let i16_probes: Vec<i16> = vec![-32768, -12345, -1, 0, 1, 2, 9999, 32767];
    for w in i16_probes.windows(2) {
        assert!(normalize(Sample::I16(w[0])) <= normalize(Sample::I16(w[1])));
    }
    let i32_probes: Vec<i32> = vec![i32::MIN, -7_000_000, -1, 0, 1, 3, 7_000_000, i32::MAX];
    for w in i32_probes.windows(2) {
        assert!(normalize(Sample::I32(w[0])) <= normalize(Sample::I32(w[1])));
    }
}

#[test]
fn i16_full_scale_maps_to_about_one() {
    // The minimum 16-bit reading lands exactly on -1.0; the maximum lands
    // within one 16-bit step (2^-15) of +1.0.
    let lo = normalize(Sample::I16(i16::MIN));
    let hi = normalize(Sample::I16(i16::MAX));
    assert_eq!(lo, -AMP_ONE);
    let hi_amp = hi as f64 / AMP_ONE as f64;
    let lo_amp = lo as f64 / AMP_ONE as f64;
    assert!((1.0 - hi_amp).abs() <= 1.0 / 32768.0);
    assert!((-1.0 - lo_amp).abs() == 0.0);
}

#[test]
fn blocks_preserve_order_and_length() {
    let out = normalize_block_i8(&[3, -2, 0, 127]);
    assert_eq!(out, vec![3 << 24, -(2 << 24), 0, 127 << 24]);

    let out = normalize_block_i16(&[-32768, 32767, 2]);
    assert_eq!(out, vec![-AMP_ONE, 32767 << 16, 2 << 16]);

    let out = normalize_block_i32(&[5, -5, i32::MAX]);
    assert_eq!(out, vec![5, -5, (i32::MAX) as i64]);

    let empty: Vec<i64> = normalize_block_i16(&[]);
    assert!(empty.is_empty());
}
