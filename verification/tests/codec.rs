use libdaisy::audio::codec::{decode, encode, quantize, sign_extend, FBIPMAX_BITS, Q23_MAX};
use libdaisy::audio::Sample;

const FBIPMAX: f32 = 0.999985;
const F32_TO_S24_SCALE: f32 = 8388608.0;
const S24_TO_F32_SCALE: f32 = 1.0 / F32_TO_S24_SCALE;

fn sample(x: f32) -> Sample {
    Sample::from_bits(x.to_bits())
}

fn number(s: Sample) -> f32 {
    f32::from_bits(s.to_bits())
}

/// The conversion done in floating point: clamp, scale, truncate.
fn float_quantize(x: f32) -> i32 {
    let x = if x <= -FBIPMAX {
        -FBIPMAX
    } else if x >= FBIPMAX {
        FBIPMAX
    } else {
        x
    };
    (x * F32_TO_S24_SCALE) as i32
}

/// The conversion done in floating point: sign-extend, scale.
fn float_decode(w: u32) -> f32 {
    let low = (w & 0xFF_FFFF) as i32;
    ((low ^ 0x80_0000) - 0x80_0000) as f32 * S24_TO_F32_SCALE
}

#[test]
fn clamp_bound_is_the_nearest_binary32_number() {
    assert_eq!(FBIPMAX.to_bits(), FBIPMAX_BITS);
    assert_eq!((FBIPMAX * F32_TO_S24_SCALE) as i32, Q23_MAX);
}

#[test]
fn quantize_agrees_with_floating_point_on_chosen_values() {
    let values = [
        0.0f32,
        -0.0,
        1.0,
        -1.0,
        0.5,
        -0.5,
        0.25,
        0.75,
        0.999985,
        -0.999985,
        0.99998,
        0.99999,
        2.0,
        -5.0,
        1.0e-7,
        -1.0e-7,
        1.1920929e-7,
        1.19e-7,
        1.2e-7,
        2.4e-7,
        3.0e-8,
        1.0e-38,
        1.0e-45,
        3.4e38,
        -3.4e38,
        f32::MAX,
        f32::MIN,
        f32::MIN_POSITIVE,
        f32::EPSILON,
        f32::INFINITY,
        f32::NEG_INFINITY,
        f32::NAN,
        0.1,
        0.2,
        0.3,
        -0.7,
        0.123456789,
        -0.987654321,
    ];
    for x in values {
        assert_eq!(quantize(sample(x)), float_quantize(x), "x = {:e}", x);
    }
}

#[test]
fn quantize_agrees_with_floating_point_on_a_sweep_of_bit_patterns() {
    let mut bits: u32 = 0;
    let mut count = 0u32;
    loop {
        let x = f32::from_bits(bits);
        assert_eq!(quantize(Sample::from_bits(bits)), float_quantize(x), "bits = {:#010x}", bits);
        count += 1;
        match bits.checked_add(48_611) {
            Some(next) => bits = next,
            None => break,
        }
    }
    assert!(count > 80_000);
}

#[test]
fn quantize_agrees_with_floating_point_around_every_exponent() {
    for exponent in 0u32..=255 {
        for fraction in [0u32, 1, 2, 0x3F_FFFF, 0x40_0000, 0x7F_FF03, 0x7F_FF04, 0x7F_FF05, 0x7F_FFFE, 0x7F_FFFF] {
            for sign in [0u32, 0x8000_0000] {
                let bits = sign | (exponent << 23) | fraction;
                let x = f32::from_bits(bits);
                assert_eq!(quantize(Sample::from_bits(bits)), float_quantize(x), "bits = {:#010x}", bits);
            }
        }
    }
}

#[test]
fn encode_clamps_out_of_range_samples() {
    assert_eq!(encode(sample(2.0)), encode(sample(0.999985)));
    assert_eq!(encode(sample(-5.0)), encode(sample(-0.999985)));
    assert_eq!(encode(sample(2.0)), 8_388_482);
    assert_eq!(encode(sample(-5.0)), (-8_388_482i32) as u32);
    assert_eq!(encode(sample(f32::INFINITY)), 8_388_482);
    assert_eq!(encode(sample(f32::NEG_INFINITY)), (-8_388_482i32) as u32);
}

#[test]
fn encode_of_not_a_number_is_zero() {
    assert_eq!(encode(sample(f32::NAN)), 0);
    assert_eq!(encode(Sample::from_bits(0x7FC0_0001)), 0);
    assert_eq!(encode(Sample::from_bits(0xFF80_0001)), 0);
}

#[test]
fn encode_stores_two_s_complement() {
    assert_eq!(encode(sample(0.0)), 0);
    assert_eq!(encode(sample(0.5)), 0x40_0000);
    assert_eq!(encode(sample(-0.5)), 0xFFC0_0000);
    assert_eq!(encode(sample(-1.0 / 8388608.0)), 0xFFFF_FFFF);
    assert_eq!(encode(sample(1.0 / 8388608.0)), 1);
    assert_eq!(encode(sample(0.25)) & 0xFF_FFFF, 0x20_0000);
    assert_eq!(encode(sample(-0.25)) & 0xFF_FFFF, 0xE0_0000);
}

#[test]
fn encode_truncates_toward_zero() {
    assert_eq!(quantize(sample(1.9 / 8388608.0)), 1);
    assert_eq!(quantize(sample(-1.9 / 8388608.0)), -1);
    assert_eq!(quantize(sample(0.9 / 8388608.0)), 0);
    assert_eq!(quantize(sample(-0.9 / 8388608.0)), 0);
}

#[test]
fn decode_sign_extends_at_the_extremes() {
    let top = number(decode(0x7F_FFFF));
    assert_eq!(top, 8_388_607.0 / 8_388_608.0);
    assert!((top - 0.999_999_9).abs() < 1.0e-6);
    assert_eq!(number(decode(0x80_0000)), -1.0);
    assert_eq!(sign_extend(0x7F_FFFF), 8_388_607);
    assert_eq!(sign_extend(0x80_0000), -8_388_608);
    assert_eq!(sign_extend(0xFF_FFFF), -1);
}

#[test]
fn decode_ignores_the_upper_byte() {
    for w in [0u32, 1, 0x7F_FFFF, 0x80_0000, 0xFF_FFFF, 0x12_3456, 0xAB_CDEF] {
        for upper in [0x0100_0000u32, 0x8000_0000, 0xFF00_0000, 0x5A00_0000] {
            assert_eq!(decode(w | upper), decode(w));
        }
    }
}

#[test]
fn decode_of_zero_is_positive_zero() {
    assert_eq!(decode(0).to_bits(), 0);
    assert_eq!(decode(0xFF00_0000).to_bits(), 0);
}

#[test]
fn decode_agrees_with_floating_point_near_zero_and_the_extremes() {
    for w in (0u32..0x2000).chain(0x7F_E000..0x80_2000).chain(0xFF_E000..0x100_0000) {
        assert_eq!(decode(w).to_bits(), float_decode(w).to_bits(), "w = {:#08x}", w);
    }
}

#[test]
fn decode_agrees_with_floating_point_on_a_sweep_of_words() {
    let mut w: u32 = 0;
    while w < 0x100_0000 {
        assert_eq!(decode(w).to_bits(), float_decode(w).to_bits(), "w = {:#08x}", w);
        w += 29;
    }
}

#[test]
fn decode_agrees_with_floating_point_on_every_power_of_two() {
    for bit in 0..24 {
        for w in [1u32 << bit, (1u32 << bit) - 1, (1u32 << bit) + 1] {
            let w = w & 0xFF_FFFF;
            assert_eq!(decode(w).to_bits(), float_decode(w).to_bits(), "w = {:#08x}", w);
            let negative = 0x100_0000 - w.max(1);
            assert_eq!(
                decode(negative).to_bits(),
                float_decode(negative).to_bits(),
                "w = {:#08x}",
                negative
            );
        }
    }
}

#[test]
fn round_trip_stays_within_one_step() {
    let step = 1.0f64 / 8_388_608.0;
    let mut bits: u32 = 0;
    loop {
        let x = f32::from_bits(bits);
        if x.is_finite() && x.abs() <= FBIPMAX {
            let y = number(decode(encode(Sample::from_bits(bits))));
            assert!(((y as f64) - (x as f64)).abs() < step, "bits = {:#010x}", bits);
            assert!(y.abs() <= x.abs());
        }
        match bits.checked_add(65_521) {
            Some(next) => bits = next,
            None => break,
        }
    }
}

#[test]
fn round_trip_is_exact_on_whole_steps() {
    for q in [-8_388_482i32, -8_388_481, -4_194_304, -2, -1, 0, 1, 2, 12_345, 4_194_304, 8_388_481, 8_388_482] {
        let x = q as f32 * S24_TO_F32_SCALE;
        assert_eq!(quantize(sample(x)), q);
        assert_eq!(number(decode(encode(sample(x)))), x);
    }
}

#[test]
fn sample_fields() {
    let one = sample(1.0);
    assert_eq!(one.exponent(), 127);
    assert_eq!(one.fraction(), 0);
    assert!(!one.sign());
    let x = sample(-0.75);
    assert_eq!(x.exponent(), 126);
    assert_eq!(x.fraction(), 0x40_0000);
    assert!(x.sign());
    let bound = Sample::from_bits(FBIPMAX_BITS);
    assert_eq!(bound.exponent(), 126);
    assert_eq!(bound.fraction(), 0x7F_FF04);
    assert_eq!(sample(f32::INFINITY).exponent(), 255);
    assert_eq!(sample(f32::INFINITY).fraction(), 0);
    assert_ne!(sample(f32::NAN).fraction(), 0);
    assert_eq!(sample(f32::MIN_POSITIVE / 2.0).exponent(), 0);
    assert!(sample(-0.0).sign());
    assert_eq!(Sample::from_bits(0xDEAD_BEEF).to_bits(), 0xDEAD_BEEF);
}
