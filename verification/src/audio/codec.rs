//! The sample codec: between binary32 samples and 24-bit fixed-point words.
//!
//! The serial audio interface carries each sample as a 24-bit two's complement
//! integer in the low bits of a 32-bit word, counting steps of `2^-23`.
//! Application code sees [`Sample`]s. Encoding clamps and truncates; decoding
//! is exact.

use vstd::prelude::*;
use vstd::arithmetic::power2::pow2;
use vstd::arithmetic::power2::lemma_pow2_adds;
use vstd::arithmetic::power2::lemma_pow2_pos;
use vstd::arithmetic::power2::lemma_pow2_strictly_increases;
use vstd::arithmetic::power2::lemma_pow2_unfold;
use vstd::arithmetic::power2::lemma2_to64;
use vstd::arithmetic::div_mod::lemma_div_multiples_vanish_quotient;
use vstd::arithmetic::div_mod::lemma_div_multiples_vanish;
use vstd::arithmetic::div_mod::lemma_div_is_ordered;
use vstd::arithmetic::div_mod::lemma_basic_div;
use vstd::arithmetic::div_mod::lemma_mod_bound;
use vstd::arithmetic::div_mod::lemma_fundamental_div_mod;
use vstd::arithmetic::mul::lemma_mul_is_commutative;
use vstd::bits::lemma_u32_shr_is_div;
use super::sample::Sample;
use super::sample::EXPONENT_BIAS;
use super::sample::EXPONENT_SPECIAL;
use super::sample::IMPLICIT_ONE;

verus! {

/// Bit pattern of the largest sample that is encoded as it is: the binary32
/// number nearest to 0.999985. Samples above it, or below its negative, are
/// clamped to it.
pub const FBIPMAX_BITS: u32 = 0x3F7F_FF04;

/// The clamp bound in steps of `2^-23`.
pub const Q23_MAX: i32 = 8_388_482;

/// The fractional bits of the fixed-point format: a step is `2^-23`.
pub const STEP_BITS: u32 = 23;

/// The bit that holds the sign of a 24-bit sample.
pub const S24_SIGN: u32 = 0x80_0000;

/// The bits of a word that hold the sample.
pub const S24_MASK: u32 = 0xFF_FFFF;

/// One step of the fixed-point format, `2^-23`, as a multiple of `2^-149`.
pub open spec fn step() -> nat {
    pow2(126)
}

/// The clamp bound as a multiple of `2^-149`.
pub open spec fn clamp_bound() -> nat {
    (Sample { bits: FBIPMAX_BITS }).magnitude()
}

/// A value, as a multiple of `2^-149`, brought into the range that is encoded.
pub open spec fn clamp(v: int) -> int {
    if v <= -(clamp_bound() as int) {
        -(clamp_bound() as int)
    } else if v >= clamp_bound() as int {
        clamp_bound() as int
    } else {
        v
    }
}

/// The whole number of steps in a value, rounded toward zero.
pub open spec fn truncate(v: int) -> int {
    if v >= 0 {
        v / (step() as int)
    } else {
        -((-v) / (step() as int))
    }
}

/// The fixed-point number that stands for a sample: the sample is clamped,
/// then counted in steps of `2^-23`, dropping what is left of a step. A
/// not-a-number gives zero.
pub open spec fn quantized(x: Sample) -> int {
    if x.is_nan() {
        0
    } else {
        truncate(clamp(x.value()))
    }
}

/// The clamp bound is a whole number of steps.
pub proof fn lemma_clamp_bound()
    ensures
        clamp_bound() == Q23_MAX * step(),
        step() > 0,
{
    let bound = Sample { bits: FBIPMAX_BITS };
    assert(bound.exponent_field() == 126);
    assert(bound.fraction_field() == 0x7F_FF04);
    assert(bound.significand() == 16_776_964);
    assert(bound.scale() == 125);
    lemma_pow2_unfold(126);
    lemma_pow2_pos(126);
    assert(16_776_964 * pow2(125) == 8_388_482 * (2 * pow2(125))) by (nonlinear_arith);
}

/// Scaling up by `2^s` and truncating to steps is dividing by `2^(126 - s)`.
proof fn lemma_truncate_scaled(m: nat, s: nat)
    requires
        s <= 126,
    ensures
        (m * pow2(s)) / step() == m / pow2((126 - s) as nat),
{
    let a = pow2(s) as int;
    let b = pow2((126 - s) as nat) as int;
    lemma_pow2_adds(s, (126 - s) as nat);
    lemma_pow2_pos(s);
    lemma_pow2_pos((126 - s) as nat);
    assert(step() as int == a * b);
    lemma_div_multiples_vanish_quotient(a, m as int, b);
    lemma_mul_is_commutative(m as int, a);
}

/// What clamping and truncation leave of a sample's magnitude, in steps.
spec fn quantized_magnitude(x: Sample) -> nat {
    (if x.magnitude() >= clamp_bound() {
        clamp_bound()
    } else {
        x.magnitude()
    }) / step()
}

/// The sign of a sample passes through clamping and truncation.
proof fn lemma_quantized_by_sign(x: Sample)
    requires
        !x.is_nan(),
    ensures
        quantized(x) == if x.is_negative() {
            -(quantized_magnitude(x) as int)
        } else {
            quantized_magnitude(x) as int
        },
{
    lemma_clamp_bound();
    lemma_basic_div(0, step() as int);
}

/// The steps in a clamped magnitude, by the sample's exponent field.
proof fn lemma_quantized_magnitude(x: Sample)
    ensures
        x.exponent_field() >= 127 ==> quantized_magnitude(x) == Q23_MAX,
        103 <= x.exponent_field() <= 126 ==> quantized_magnitude(x) == if x.significand() / pow2(
            (127 - x.exponent_field()) as nat,
        ) >= Q23_MAX {
            Q23_MAX as nat
        } else {
            x.significand() / pow2((127 - x.exponent_field()) as nat)
        },
        x.exponent_field() <= 102 ==> quantized_magnitude(x) == 0,
{
    lemma_clamp_bound();
    let e = x.exponent_field();
    let m = x.significand();
    let mag = x.magnitude();
    let d = step() as int;
    let bound = clamp_bound() as int;
    assert(bound / d == Q23_MAX) by {
        lemma_div_multiples_vanish(Q23_MAX as int, d);
        lemma_mul_is_commutative(Q23_MAX as int, d);
    }
    if e >= 127 {
        if e > 127 {
            lemma_pow2_strictly_increases(126, x.scale());
        }
        assert(mag >= bound) by (nonlinear_arith)
            requires
                mag == m * pow2(x.scale()),
                m >= 0x80_0000,
                pow2(x.scale()) >= d,
                bound == 8_388_482 * d,
                d > 0,
        ;
    } else {
        let q = if e == 0 {
            0int
        } else {
            m as int / pow2((127 - e) as nat) as int
        };
        assert(mag as int / d == q) by {
            if e == 0 {
                lemma2_to64();
                lemma_pow2_strictly_increases(32, 126);
                lemma_basic_div(mag as int, d);
            } else {
                lemma_truncate_scaled(m, x.scale());
            }
        }
        if e <= 102 && e != 0 {
            lemma2_to64();
            if e < 102 {
                lemma_pow2_strictly_increases(25, (127 - e) as nat);
            }
            lemma_basic_div(m as int, pow2((127 - e) as nat) as int);
        }
        if mag >= bound {
            lemma_div_is_ordered(bound, mag as int, d);
        } else {
            assert(mag as int / d <= Q23_MAX) by {
                lemma_div_is_ordered(mag as int, bound, d);
            }
        }
    }
}

/// The fixed-point number, in steps of `2^-23`, that stands for a sample.
///
/// The sample is clamped to the range between the negative and the positive
/// of the clamp bound, multiplied by `2^23` and truncated toward zero. A
/// not-a-number gives zero and an infinity gives the bound of its sign.
pub fn quantize(x: Sample) -> (q: i32)
    ensures
        q == quantized(x),
        -Q23_MAX <= q <= Q23_MAX,
{
    let exponent = x.exponent();
    let fraction = x.fraction();
    proof {
        lemma_quantized_magnitude(x);
        if !x.is_nan() {
            lemma_quantized_by_sign(x);
        }
    }
    if exponent == EXPONENT_SPECIAL && fraction != 0 {
        return 0;
    }
    let bound: u32 = Q23_MAX as u32;
    let magnitude: u32 = if exponent >= EXPONENT_BIAS {
        // One or more: beyond the bound.
        bound
    } else if exponent >= EXPONENT_BIAS - STEP_BITS - 1 {
        let shift: u32 = EXPONENT_BIAS - exponent;
        let significand: u32 = IMPLICIT_ONE | fraction;
        let steps: u32 = significand >> shift;
        proof {
            assert(significand == 0x80_0000 + fraction) by (bit_vector)
                requires
                    significand == 0x80_0000u32 | fraction,
                    fraction < 0x80_0000,
            ;
            lemma_u32_shr_is_div(significand, shift);
        }
        if steps > bound {
            bound
        } else {
            steps
        }
    } else {
        // Less than half a step, subnormal numbers among them.
        0
    };
    if x.sign() {
        -(magnitude as i32)
    } else {
        magnitude as i32
    }
}

/// The sample that a word carries: its low 24 bits read as a two's
/// complement number. The upper eight bits of the word do not count.
pub open spec fn q23_of_word(w: u32) -> int {
    let low = (w as int) % 0x100_0000;
    if low >= 0x80_0000 {
        low - 0x100_0000
    } else {
        low
    }
}

/// The word that carries a fixed-point number: its two's complement in 32
/// bits, so that a negative number fills the upper eight bits with ones.
pub open spec fn word_of_q23(q: int) -> u32 {
    (q % 0x1_0000_0000) as u32
}

/// Whether a sample is the binary32 number `q * 2^-23`, with positive zero
/// for zero.
pub open spec fn represents(x: Sample, q: int) -> bool {
    &&& x.is_finite()
    &&& x.value() == q * step()
    &&& (q == 0 ==> x.bits == 0)
}

/// The word that a sample is encoded as.
pub open spec fn encoded(x: Sample) -> u32 {
    word_of_q23(quantized(x))
}

/// The sample that a word decodes to: the binary32 number of its 24-bit
/// sample times `2^-23`. [`lemma_decoding_unique`] shows that there is one
/// only.
pub open spec fn decoded(w: u32) -> Sample {
    choose|x: Sample| represents(x, q23_of_word(w))
}

/// The fixed-point number that a word carries, sign-extended from 24 bits.
pub fn sign_extend(w: u32) -> (q: i32)
    ensures
        q == q23_of_word(w),
        -0x80_0000 <= q < 0x80_0000,
{
    let low: u32 = w & S24_MASK;
    let flipped: u32 = low ^ S24_SIGN;
    proof {
        assert(low == w % 0x100_0000) by (bit_vector)
            requires
                low == w & 0xFF_FFFF,
        ;
        assert(flipped == if low >= 0x80_0000 {
            (low - 0x80_0000) as u32
        } else {
            (low + 0x80_0000) as u32
        }) by (bit_vector)
            requires
                flipped == low ^ 0x80_0000,
                low < 0x100_0000,
        ;
    }
    (flipped as i32) - 0x80_0000
}

/// The word that carries a sample to the serial audio interface.
///
/// The sample is clamped, multiplied by `2^23` and truncated toward zero, and
/// the result is stored in two's complement.
pub fn encode(x: Sample) -> (w: u32)
    ensures
        w == encoded(x),
        q23_of_word(w) == quantized(x),
{
    let q: i32 = quantize(x);
    let w: u32 = q as u32;
    proof {
        assert(q >= 0 ==> w == q) by (bit_vector)
            requires
                w == q as u32,
        ;
        assert(q < 0 ==> w == q + 0x1_0000_0000) by (bit_vector)
            requires
                w == q as u32,
        ;
    }
    w
}

/// The sample that a word from the serial audio interface carries.
///
/// The low 24 bits are sign-extended and the result is multiplied by `2^-23`.
/// Nothing is rounded: every 24-bit number of steps is a binary32 number.
pub fn decode(w: u32) -> (x: Sample)
    ensures
        x == decoded(w),
        represents(x, q23_of_word(w)),
{
    let q: i32 = sign_extend(w);
    if q == 0 {
        let zero = Sample { bits: 0 };
        proof {
            lemma_zero_represents();
            lemma_decoding_unique(zero, decoded(w), 0);
        }
        return zero;
    }
    let negative = q < 0;
    let steps: u32 = if negative {
        (-q) as u32
    } else {
        q as u32
    };
    // The steps count `2^-23`, so the number is `steps * 2^(127 - 150)`.
    // Doubling the significand while halving the scale brings the leading
    // bit to where a normal number has its implicit one.
    let mut significand: u32 = steps;
    let mut exponent: u32 = EXPONENT_BIAS;
    proof {
        lemma2_to64();
        assert(steps == steps * pow2(0)) by (nonlinear_arith)
            requires
                pow2(0) == 1,
        ;
    }
    while significand < IMPLICIT_ONE
        invariant
            normalizing(steps as nat, significand as nat, exponent as nat),
        decreases exponent,
    {
        proof {
            lemma_normalize_step(steps as nat, significand as nat, exponent as nat);
        }
        significand = significand * 2;
        exponent = exponent - 1;
    }
    let sign: u32 = if negative {
        0x8000_0000
    } else {
        0
    };
    let x = Sample { bits: sign + exponent * IMPLICIT_ONE + (significand - IMPLICIT_ONE) };
    proof {
        lemma_assembled(negative, steps as nat, significand as nat, exponent as nat);
        lemma_decoding_unique(x, decoded(w), q as int);
    }
    x
}

/// Positive zero is zero.
proof fn lemma_zero_represents()
    ensures
        represents(Sample { bits: 0 }, 0),
{
    let zero = Sample { bits: 0 };
    assert(zero.exponent_field() == 0 && zero.fraction_field() == 0);
    assert(zero.magnitude() == 0) by (nonlinear_arith)
        requires
            zero.magnitude() == 0 * pow2(0),
    ;
}

/// Where the search for the leading bit of a number of steps stands: the
/// steps have been doubled `127 - exponent` times, and bit 24 is still clear.
spec fn normalizing(steps: nat, significand: nat, exponent: nat) -> bool {
    &&& 1 <= steps <= 0x80_0000
    &&& 104 <= exponent <= 127
    &&& significand == steps * pow2((127 - exponent) as nat)
    &&& significand < 0x100_0000
}

/// While bit 23 is clear the steps can be doubled once more.
proof fn lemma_normalize_step(steps: nat, significand: nat, exponent: nat)
    requires
        normalizing(steps, significand, exponent),
        significand < 0x80_0000,
    ensures
        normalizing(steps, significand * 2, (exponent - 1) as nat),
{
    let k = (127 - exponent) as nat;
    lemma2_to64();
    lemma_pow2_pos(k);
    if k >= 23 {
        if k > 23 {
            lemma_pow2_strictly_increases(23, k);
        }
        assert(significand >= 0x80_0000) by (nonlinear_arith)
            requires
                significand == steps * pow2(k),
                steps >= 1,
                pow2(k) >= 0x80_0000,
        ;
    }
    lemma_pow2_unfold(k + 1);
    assert(significand * 2 == steps * pow2(k + 1)) by (nonlinear_arith)
        requires
            significand == steps * pow2(k),
            pow2(k + 1) == 2 * pow2(k),
    ;
}

/// The pattern put together from a sign, an exponent field and a normalized
/// significand is the number of steps that the significand came from.
proof fn lemma_assembled(negative: bool, steps: nat, significand: nat, exponent: nat)
    requires
        normalizing(steps, significand, exponent),
        significand >= 0x80_0000,
    ensures
        ({
            let sign: nat = if negative {
                0x8000_0000
            } else {
                0
            };
            let x = Sample { bits: (sign + exponent * 0x80_0000 + (significand - 0x80_0000)) as u32 };
            represents(
                x,
                if negative {
                    -(steps as int)
                } else {
                    steps as int
                },
            )
        }),
{
    let sign: nat = if negative {
        0x8000_0000
    } else {
        0
    };
    let x = Sample { bits: (sign + exponent * 0x80_0000 + (significand - 0x80_0000)) as u32 };
    let q = if negative {
        -(steps as int)
    } else {
        steps as int
    };
    let k = (127 - exponent) as nat;
    assert(x.exponent_field() == exponent);
    assert(x.fraction_field() == significand - 0x80_0000);
    assert(x.is_negative() == negative);
    assert(x.scale() == exponent - 1);
    lemma_pow2_adds(k, (exponent - 1) as nat);
    assert(x.magnitude() == steps * step()) by (nonlinear_arith)
        requires
            x.magnitude() == significand * pow2((exponent - 1) as nat),
            significand == steps * pow2(k),
            step() == pow2(k) * pow2((exponent - 1) as nat),
    ;
    assert(x.value() == q * step()) by (nonlinear_arith)
        requires
            x.magnitude() == steps * step(),
            x.value() == if negative {
                -(x.magnitude() as int)
            } else {
                x.magnitude() as int
            },
            q == if negative {
                -(steps as int)
            } else {
                steps as int
            },
    ;
}

/// The leading bit of a number of steps is found after finitely many
/// doublings.
proof fn lemma_normalize(steps: nat, significand: nat, exponent: nat) -> (r: (nat, nat))
    requires
        normalizing(steps, significand, exponent),
    ensures
        normalizing(steps, r.0, r.1),
        r.0 >= 0x80_0000,
    decreases exponent,
{
    if significand >= 0x80_0000 {
        (significand, exponent)
    } else {
        lemma_normalize_step(steps, significand, exponent);
        lemma_normalize(steps, significand * 2, (exponent - 1) as nat)
    }
}

/// Every word decodes to a sample: the number of its 24-bit sample times
/// `2^-23` is a binary32 number.
pub proof fn lemma_decoded(w: u32)
    ensures
        represents(decoded(w), q23_of_word(w)),
{
    let q = q23_of_word(w);
    if q == 0 {
        lemma_zero_represents();
    } else {
        let negative = q < 0;
        let steps: nat = if negative {
            (-q) as nat
        } else {
            q as nat
        };
        lemma2_to64();
        assert(steps == steps * pow2(0)) by (nonlinear_arith)
            requires
                pow2(0) == 1,
        ;
        let r = lemma_normalize(steps, steps, 127);
        lemma_assembled(negative, steps, r.0, r.1);
        let sign: nat = if negative {
            0x8000_0000
        } else {
            0
        };
        let x = Sample { bits: (sign + r.1 * 0x80_0000 + (r.0 - 0x80_0000)) as u32 };
        assert(represents(x, q));
    }
}

/// Every fixed-point number of 24 bits comes back from the word that carries
/// it.
pub proof fn lemma_word_round_trip(q: int)
    requires
        -0x80_0000 <= q < 0x80_0000,
    ensures
        q23_of_word(word_of_q23(q)) == q,
{
    if q < 0 {
        assert(q % 0x1_0000_0000 == q + 0x1_0000_0000);
    }
}

/// Encoding clamps: a sample at or beyond the clamp bound is encoded as the
/// bound of its sign, and no sample is encoded beyond it.
pub proof fn lemma_encoding_clamps(x: Sample)
    requires
        !x.is_nan(),
    ensures
        -Q23_MAX <= quantized(x) <= Q23_MAX,
        x.value() >= clamp_bound() ==> quantized(x) == Q23_MAX,
        x.value() <= -clamp_bound() ==> quantized(x) == -Q23_MAX,
{
    lemma_clamp_bound();
    let d = step() as int;
    let bound = clamp_bound() as int;
    assert(bound / d == Q23_MAX) by {
        lemma_div_multiples_vanish(Q23_MAX as int, d);
        lemma_mul_is_commutative(Q23_MAX as int, d);
    }
    let c = clamp(x.value());
    if c >= 0 {
        lemma_div_is_ordered(c, bound, d);
        lemma_div_is_ordered(0, c, d);
        lemma_basic_div(0, d);
    } else {
        lemma_div_is_ordered(-c, bound, d);
        lemma_div_is_ordered(0, -c, d);
        lemma_basic_div(0, d);
    }
}

/// Encoding then decoding a sample inside the clamp range gives a sample
/// less than one step of `2^-23` away, on the side of zero.
pub proof fn lemma_round_trip(x: Sample)
    requires
        !x.is_nan(),
        -clamp_bound() <= x.value() <= clamp_bound(),
    ensures
        ({
            let y = decoded(encoded(x));
            &&& y.is_finite()
            &&& x.value() - step() < y.value() < x.value() + step()
            &&& x.value() >= 0 ==> 0 <= y.value() <= x.value()
            &&& x.value() <= 0 ==> x.value() <= y.value() <= 0
        }),
{
    let y = decoded(encoded(x));
    lemma_decoded(encoded(x));
    lemma_encoding_clamps(x);
    let q = quantized(x);
    lemma_word_round_trip(q);
    let d = step() as int;
    let v = x.value();
    lemma_clamp_bound();
    assert(clamp(v) == v);
    if v >= 0 {
        lemma_fundamental_div_mod(v, d);
        lemma_mod_bound(v, d);
        lemma_mul_is_commutative(d, v / d);
    } else {
        lemma_fundamental_div_mod(-v, d);
        lemma_mod_bound(-v, d);
        lemma_mul_is_commutative(d, (-v) / d);
        assert(q * d == -(((-v) / d) * d)) by (nonlinear_arith)
            requires
                q == -((-v) / d),
        ;
    }
}

/// Decoding then encoding gives back the sample that a word carries, as long
/// as it lies within the clamp bound: only words beyond it are changed by the
/// codec.
pub proof fn lemma_word_survives_codec(w: u32)
    requires
        -Q23_MAX <= q23_of_word(w) <= Q23_MAX,
    ensures
        quantized(decoded(w)) == q23_of_word(w),
        q23_of_word(encoded(decoded(w))) == q23_of_word(w),
{
    let q = q23_of_word(w);
    let x = decoded(w);
    let d = step() as int;
    lemma_decoded(w);
    lemma_clamp_bound();
    assert(-(clamp_bound() as int) <= q * d <= clamp_bound()) by (nonlinear_arith)
        requires
            -8_388_482 <= q <= 8_388_482,
            clamp_bound() == 8_388_482 * d,
            d > 0,
    ;
    assert(clamp(x.value()) == q * d);
    if q >= 0 {
        lemma_div_multiples_vanish(q, d);
        lemma_mul_is_commutative(q, d);
        assert(q * d >= 0) by (nonlinear_arith)
            requires
                q >= 0,
                d > 0,
        ;
    } else {
        lemma_div_multiples_vanish(-q, d);
        lemma_mul_is_commutative(-q, d);
        assert(-(q * d) == (-q) * d && q * d < 0) by (nonlinear_arith)
            requires
                q < 0,
                d > 0,
        ;
    }
    lemma_word_round_trip(q);
}

/// A finite number other than zero has one bit pattern only.
pub proof fn lemma_value_determines_bits(a: Sample, b: Sample)
    requires
        a.is_finite(),
        b.is_finite(),
        a.value() == b.value(),
        a.value() != 0,
    ensures
        a == b,
{
    lemma_pow2_pos(a.scale());
    lemma_pow2_pos(b.scale());
    assert(a.magnitude() == b.magnitude());
    assert(a.is_negative() == b.is_negative());
    if a.scale() < b.scale() {
        lemma_magnitude_below_next_scale(a, b);
    } else if b.scale() < a.scale() {
        lemma_magnitude_below_next_scale(b, a);
    }
    assert(a.significand() == b.significand()) by (nonlinear_arith)
        requires
            a.significand() * pow2(a.scale()) == b.significand() * pow2(a.scale()),
            pow2(a.scale()) > 0,
    ;
    assert(a.exponent_field() == b.exponent_field());
    assert(a.fraction_field() == b.fraction_field());
    assert(a.bits == b.bits);
}

/// A number scaled by a lower power of two than a normal number is smaller.
proof fn lemma_magnitude_below_next_scale(a: Sample, b: Sample)
    requires
        a.scale() < b.scale(),
    ensures
        a.magnitude() < b.magnitude(),
{
    let low = pow2(a.scale());
    lemma_pow2_pos(a.scale());
    lemma_pow2_unfold(a.scale() + 1);
    if a.scale() + 1 < b.scale() {
        lemma_pow2_strictly_increases(a.scale() + 1, b.scale());
    }
    assert(a.magnitude() < b.magnitude()) by (nonlinear_arith)
        requires
            a.magnitude() == a.significand() * low,
            b.magnitude() == b.significand() * pow2(b.scale()),
            a.significand() < 0x100_0000,
            b.significand() >= 0x80_0000,
            pow2(b.scale()) >= 2 * low,
            low > 0,
    ;
}

/// A word decodes to one sample only.
pub proof fn lemma_decoding_unique(x: Sample, y: Sample, q: int)
    requires
        represents(x, q),
        represents(y, q),
    ensures
        x == y,
{
    if q != 0 {
        lemma_pow2_pos(126);
        assert(q * step() != 0) by (nonlinear_arith)
            requires
                q != 0,
                step() > 0,
        ;
        lemma_value_determines_bits(x, y);
    }
}

} // verus!
