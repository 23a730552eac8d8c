use keystone::sample::{convert_buffer, convert_sample, pack_level};

fn reference(a: f32) -> u32 {
    let x = if a >= 0.0 { a as f64 } else { 2.0 + a as f64 };
    let scaled = x * 32767.0;
    let rounded = (scaled + 0.5).floor();
    let level = if rounded.is_nan() || rounded <= 0.0 {
        0u32
    } else if rounded >= 4294967295.0 {
        u32::MAX
    } else {
        rounded as u32
    };
    (level & 0xffff) << 16
}

#[test]
fn half_scale_sample_rounds_up() {
    let word = convert_sample(0.5f32.to_bits());
    let expected = ((0.5f32 * 32767.0).round() as u32) & 0xFFFF;
    assert_eq!(expected, 16384);
    assert_eq!(word >> 16, expected);
    assert_eq!(word & 0xFFFF, 0);
}

#[test]
fn negative_half_scale_sample_is_biased_by_two() {
    let word = convert_sample((-0.5f32).to_bits());
    let expected = (((2.0f32 + (-0.5f32)) * 32767.0).round() as u32) & 0xFFFF;
    assert_eq!(expected, 49151);
    assert_eq!(word >> 16, expected);
    assert_eq!(word & 0xFFFF, 0);
}

#[test]
fn silence_and_full_scale() {
    assert_eq!(convert_sample(0.0f32.to_bits()), 0);
    assert_eq!(convert_sample((-0.0f32).to_bits()), 0);
    assert_eq!(convert_sample(1.0f32.to_bits()), 32767 << 16);
    assert_eq!(convert_sample((-1.0f32).to_bits()), 32767 << 16);
    assert_eq!(convert_sample((-2.0f32).to_bits()), 0);
    assert_eq!(convert_sample((-3.5f32).to_bits()), 0);
    assert_eq!(convert_sample(2.0f32.to_bits()), 65534 << 16);
}

#[test]
fn tiny_samples() {
    assert_eq!(convert_sample(f32::MIN_POSITIVE.to_bits()), 0);
    assert_eq!(convert_sample(1u32), 0);
    assert_eq!(convert_sample(0x8000_0001), 65534 << 16);
    assert_eq!(convert_sample((-f32::MIN_POSITIVE).to_bits()), 65534 << 16);
    assert_eq!(convert_sample((1.0f32 / 65000.0).to_bits()), 1 << 16);
    assert_eq!(convert_sample((1.0f32 / 65536.0).to_bits()), 0);
}

#[test]
fn numbers_that_are_no_samples() {
    assert_eq!(convert_sample(f32::NAN.to_bits()), 0);
    assert_eq!(convert_sample(0xFFC0_0001), 0);
    assert_eq!(convert_sample(f32::INFINITY.to_bits()), 0xFFFF_0000);
    assert_eq!(convert_sample(f32::NEG_INFINITY.to_bits()), 0);
    assert_eq!(convert_sample(f32::MAX.to_bits()), 0xFFFF_0000);
    assert_eq!(convert_sample(1.0e6f32.to_bits()), reference(1.0e6));
    assert_eq!(convert_sample(131073.0f32.to_bits()), reference(131073.0));
}

#[test]
fn conversion_agrees_with_exact_arithmetic_over_a_sweep() {
    let mut bits: u32 = 0x1234_5678;
    for _ in 0..200_000 {
        bits = bits.wrapping_mul(1664525).wrapping_add(1013904223);
        let a = f32::from_bits(bits);
        assert_eq!(convert_sample(bits), reference(a), "sample {:?} ({:#010x})", a, bits);
    }
    let mut a = -2.5f32;
    while a < 2.5 {
        assert_eq!(convert_sample(a.to_bits()), reference(a), "sample {:?}", a);
        a += 0.000_37;
    }
}

#[test]
fn pack_level_keeps_low_sixteen_bits_in_high_half() {
    assert_eq!(pack_level(0), 0);
    assert_eq!(pack_level(0x1234), 0x1234_0000);
    assert_eq!(pack_level(0xABCD_1234), 0x1234_0000);
    assert_eq!(pack_level(u32::MAX), 0xFFFF_0000);
}

#[test]
fn convert_buffer_converts_every_sample() {
    let mut buffer = vec![0.5f32.to_bits(), (-0.5f32).to_bits(), 0.0f32.to_bits(), 0.25f32.to_bits()];
    convert_buffer(&mut buffer);
    assert_eq!(buffer, vec![16384 << 16, 49151 << 16, 0, 8192 << 16]);
    let mut empty: Vec<u32> = Vec::new();
    convert_buffer(&mut empty);
    assert!(empty.is_empty());
}
