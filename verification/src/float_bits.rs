//! Double-precision numbers, handled through their IEEE 754 bit patterns.
//!
//! Scale factors and logical sizes travel through this crate as the `u64` that
//! `f64::to_bits` gives. What has to be known of such a number (whether it is
//! positive, whether it is finite, its whole part) is decided on the integer.
use vstd::arithmetic::power2::{lemma2_to64, lemma2_to64_rest, lemma_pow2_adds, lemma_pow2_pos, lemma_pow2_unfold, pow2};
use vstd::bits::lemma_u64_shr_is_div;
use vstd::prelude::*;

verus! {

/// The bit pattern of `1.0`.
pub const ONE: u64 = 0x3ff0_0000_0000_0000;

/// The bit pattern of positive infinity.
pub const INFINITY: u64 = 0x7ff0_0000_0000_0000;

/// The bit pattern of `-0.0`: the sign bit alone.
pub const SIGN: u64 = 0x8000_0000_0000_0000;

/// Two to the power of 52, the number of values of the fraction field.
pub const FRACTION_VALUES: u64 = 0x10_0000_0000_0000;

/// Whether the sign bit is set.
pub open spec fn is_negative(bits: u64) -> bool {
    bits >= SIGN
}

/// The eleven bits of the biased exponent.
pub open spec fn exponent_field(bits: u64) -> int {
    (bits as int / FRACTION_VALUES as int) % 2048
}

/// The 52 bits of the fraction.
pub open spec fn fraction_field(bits: u64) -> int {
    bits as int % FRACTION_VALUES as int
}

pub open spec fn is_nan(bits: u64) -> bool {
    exponent_field(bits) == 2047 && fraction_field(bits) != 0
}

pub open spec fn is_infinite(bits: u64) -> bool {
    exponent_field(bits) == 2047 && fraction_field(bits) == 0
}

pub open spec fn is_finite(bits: u64) -> bool {
    exponent_field(bits) < 2047
}

/// The magnitude of a finite number is `significand * 2^exponent`.
pub open spec fn significand(bits: u64) -> nat {
    if exponent_field(bits) == 0 {
        fraction_field(bits) as nat
    } else {
        (FRACTION_VALUES + fraction_field(bits)) as nat
    }
}

/// See [`significand`].
pub open spec fn exponent(bits: u64) -> int {
    if exponent_field(bits) == 0 {
        -1074
    } else {
        exponent_field(bits) - 1075
    }
}

/// Whether the number compares greater than zero.
pub open spec fn is_positive(bits: u64) -> bool {
    &&& !is_negative(bits)
    &&& !is_nan(bits)
    &&& is_infinite(bits) || significand(bits) > 0
}

/// The whole part of the magnitude of a finite number.
pub open spec fn whole_part(bits: u64) -> nat {
    if exponent(bits) >= 0 {
        significand(bits) * pow2(exponent(bits) as nat)
    } else {
        significand(bits) / pow2((-exponent(bits)) as nat)
    }
}

/// The number rounded towards zero and clamped to the range of `u32`; zero for
/// anything that is not a number.
pub open spec fn saturated_u32(bits: u64) -> u32 {
    if is_nan(bits) || is_negative(bits) {
        0
    } else if is_infinite(bits) || whole_part(bits) > u32::MAX {
        u32::MAX
    } else {
        whole_part(bits) as u32
    }
}

/// Whether the number is exactly the natural number `n`.
pub open spec fn denotes(bits: u64, n: nat) -> bool {
    &&& !is_negative(bits)
    &&& is_finite(bits)
    &&& if exponent(bits) >= 0 {
        significand(bits) * pow2(exponent(bits) as nat) == n
    } else {
        significand(bits) == n * pow2((-exponent(bits)) as nat)
    }
}

/// A pattern without the sign bit is its exponent field followed by its fraction field.
proof fn lemma_fields(bits: u64)
    requires
        bits < SIGN,
    ensures
        exponent_field(bits) == bits as int / FRACTION_VALUES as int,
        bits == exponent_field(bits) * FRACTION_VALUES + fraction_field(bits),
        0 <= exponent_field(bits) < 2048,
        0 <= fraction_field(bits) < FRACTION_VALUES,
{
}

/// Powers of two grow with their exponent.
proof fn lemma_pow2_grows(small: nat, large: nat)
    requires
        small <= large,
    ensures
        0 < pow2(small) <= pow2(large),
{
    let rest = (large - small) as nat;
    lemma_pow2_adds(small, rest);
    lemma_pow2_pos(small);
    lemma_pow2_pos(rest);
    assert(pow2(small) <= pow2(large)) by (nonlinear_arith)
        requires
            pow2(large) == pow2(small) * pow2(rest),
            pow2(small) > 0,
            pow2(rest) >= 1,
    ;
}

/// `1.0` is finite, positive and the natural number one.
pub proof fn lemma_one()
    ensures
        is_finite(ONE),
        is_positive(ONE),
        denotes(ONE, 1),
{
    lemma_fields(ONE);
    lemma2_to64_rest();
}

/// Whether the number with this bit pattern compares greater than zero.
pub fn greater_than_zero(bits: u64) -> (res: bool)
    ensures
        res == is_positive(bits),
{
    proof {
        if bits < SIGN {
            lemma_fields(bits);
        }
    }
    0 < bits && bits <= INFINITY
}

/// Whether the number with this bit pattern is finite and compares greater than zero.
pub fn finite_and_greater_than_zero(bits: u64) -> (res: bool)
    ensures
        res == (is_finite(bits) && is_positive(bits)),
{
    proof {
        if bits < SIGN {
            lemma_fields(bits);
        }
    }
    0 < bits && bits < INFINITY
}

/// The number with this bit pattern, rounded towards zero and clamped to the range of
/// `u32`: what the cast of an `f64` to `u32` gives.
pub fn to_u32(bits: u64) -> (res: u32)
    ensures
        res == saturated_u32(bits),
{
    if bits >= SIGN || bits > INFINITY {
        proof {
            if bits < SIGN {
                lemma_fields(bits);
            }
        }
        return 0;
    }
    let biased: u64 = bits / FRACTION_VALUES;
    proof {
        lemma_fields(bits);
        assert(biased == exponent_field(bits));
        assert(bits > INFINITY <==> is_nan(bits));
    }
    if biased < 1023 {
        proof {
            let down = (-exponent(bits)) as nat;
            assert(down >= 53);
            lemma_pow2_grows(53, down);
            lemma2_to64_rest();
            assert(significand(bits) < pow2(down));
            vstd::arithmetic::div_mod::lemma_basic_div(significand(bits) as int, pow2(down) as int);
        }
        return 0;
    }
    if biased >= 1055 {
        proof {
            lemma2_to64();
            let e = exponent(bits);
            if biased < 2047 {
                if e >= 0 {
                    lemma_pow2_pos(e as nat);
                    assert(significand(bits) * pow2(e as nat) >= significand(bits))
                        by (nonlinear_arith)
                        requires
                            pow2(e as nat) >= 1,
                    ;
                } else {
                    let down = (-e) as nat;
                    assert(down <= 20);
                    lemma_pow2_grows(down, 20);
                    vstd::arithmetic::div_mod::lemma_div_is_ordered_by_denominator(
                        significand(bits) as int,
                        pow2(down) as int,
                        pow2(20) as int,
                    );
                    assert(significand(bits) as int / pow2(20) as int >= 0x1_0000_0000);
                }
            }
        }
        return u32::MAX;
    }
    let full: u64 = FRACTION_VALUES + bits % FRACTION_VALUES;
    let down: u64 = 1075 - biased;
    let whole: u64 = full >> down;
    proof {
        lemma_u64_shr_is_div(full, down);
        assert(full == significand(bits));
        assert(whole == whole_part(bits));
        lemma2_to64();
        lemma_pow2_grows(21, down as nat);
        vstd::arithmetic::div_mod::lemma_div_is_ordered_by_denominator(
            full as int,
            pow2(21) as int,
            pow2(down as nat) as int,
        );
        assert(full as int / pow2(21) as int <= 0xffff_ffff);
    }
    whole as u32
}

/// The bit pattern of the double that is exactly `n`.
pub fn from_u32(n: u32) -> (bits: u64)
    ensures
        denotes(bits, n as nat),
{
    if n == 0 {
        proof {
            vstd::arithmetic::mul::lemma_mul_basics(pow2(1074) as int);
        }
        return 0;
    }
    let mut shifted: u64 = n as u64;
    let mut biased: u64 = 1075;
    proof {
        lemma2_to64();
        assert(n * pow2(0) == n);
    }
    while shifted < FRACTION_VALUES
        invariant
            0 < n <= u32::MAX,
            1 <= shifted < 2 * FRACTION_VALUES,
            1023 <= biased <= 1075,
            shifted == n * pow2((1075 - biased) as nat),
        decreases biased,
    {
        proof {
            let done = (1075 - biased) as nat;
            lemma_pow2_unfold(done + 1);
            assert(n * pow2(done + 1) == 2 * (n * pow2(done))) by (nonlinear_arith)
                requires
                    pow2(done + 1) == 2 * pow2(done),
            ;
            if biased == 1023 {
                lemma2_to64_rest();
                assert(n * pow2(52) >= pow2(52)) by (nonlinear_arith)
                    requires
                        n >= 1,
                ;
            }
        }
        shifted = 2 * shifted;
        biased = biased - 1;
    }
    let bits: u64 = (biased - 1) * FRACTION_VALUES + shifted;
    proof {
        assert(bits < SIGN);
        lemma_fields(bits);
        assert(bits as int == biased * FRACTION_VALUES + (shifted - FRACTION_VALUES));
        assert(exponent_field(bits) == biased);
        assert(significand(bits) == shifted);
        if biased == 1075 {
            lemma2_to64();
            assert(shifted * pow2(0) == shifted);
        }
    }
    bits
}

/// A double that is exactly `n` comes out of the cast to `u32` as `n`.
pub proof fn lemma_whole_number_is_kept(bits: u64, n: u32)
    requires
        denotes(bits, n as nat),
    ensures
        saturated_u32(bits) == n,
{
    if exponent(bits) < 0 {
        let down = (-exponent(bits)) as nat;
        lemma_pow2_pos(down);
        vstd::arithmetic::div_mod::lemma_div_by_multiple(n as int, pow2(down) as int);
    }
}

/// The positive numbers are those whose patterns lie above that of zero and not above that
/// of infinity; infinity is the only one among them that is not finite.
pub proof fn law_positive_patterns(bits: u64)
    ensures
        is_positive(bits) <==> 0 < bits <= 0x7ff0_0000_0000_0000u64,
        is_finite(bits) && is_positive(bits) <==> 0 < bits < 0x7ff0_0000_0000_0000u64,
{
    if bits < SIGN {
        lemma_fields(bits);
    }
}

/// A number of at least one and less than two to the power of 32 is cast to the whole number
/// below it: with `full` as the pattern's fraction and its leading one, of which `places` is
/// the unit, `res <= full / places < res + 1`. Smaller numbers, negative ones and what is no
/// number are cast to zero, larger ones to the largest `u32`.
pub proof fn law_cast_rounds_towards_zero(bits: u64)
    ensures
        ({
            let res = saturated_u32(bits);
            let biased = bits as int / 0x10_0000_0000_0000;
            let full = 0x10_0000_0000_0000 + bits as int % 0x10_0000_0000_0000;
            &&& biased < 1023 ==> res == 0
            &&& 1023 <= biased < 1055 ==> {
                let places = pow2((1075 - biased) as nat);
                res * places <= full < (res + 1) * places
            }
            &&& biased >= 1055 && bits <= 0x7ff0_0000_0000_0000u64 ==> res == 0xffff_ffffu32
            &&& bits > 0x7ff0_0000_0000_0000u64 ==> res == 0
        }),
{
    lemma2_to64();
    lemma2_to64_rest();
    if bits < SIGN {
        lemma_fields(bits);
        let biased = exponent_field(bits);
        let e = exponent(bits);
        if biased < 1023 {
            let down = (-e) as nat;
            lemma_pow2_grows(53, down);
            vstd::arithmetic::div_mod::lemma_basic_div(significand(bits) as int, pow2(down) as int);
        } else if biased < 1055 {
            let down = (-e) as nat;
            let full = significand(bits) as int;
            let places = pow2(down) as int;
            lemma_pow2_grows(21, down);
            vstd::arithmetic::div_mod::lemma_fundamental_div_mod(full, places);
            vstd::arithmetic::div_mod::lemma_mod_bound(full, places);
            vstd::arithmetic::div_mod::lemma_div_is_ordered_by_denominator(
                full,
                pow2(21) as int,
                places,
            );
            assert(full / pow2(21) as int <= 0xffff_ffff);
            let whole = full / places;
            assert(whole * places <= full < (whole + 1) * places) by (nonlinear_arith)
                requires
                    full == places * whole + full % places,
                    0 <= full % places < places,
            ;
        } else if biased < 2047 {
            if e >= 0 {
                lemma_pow2_pos(e as nat);
                assert(significand(bits) * pow2(e as nat) >= significand(bits)) by (nonlinear_arith)
                    requires
                        pow2(e as nat) >= 1,
                ;
            } else {
                let down = (-e) as nat;
                lemma_pow2_grows(down, 20);
                vstd::arithmetic::div_mod::lemma_div_is_ordered_by_denominator(
                    significand(bits) as int,
                    pow2(down) as int,
                    pow2(20) as int,
                );
                assert(significand(bits) as int / pow2(20) as int >= 0x1_0000_0000);
            }
        }
    }
}

/// The pattern of a positive whole number `n` is `n` shifted up until its leading one stands
/// at the place above the fraction, with the exponent lowered by as much. Zero is the
/// pattern of all zeros.
pub proof fn law_pattern_of_a_whole_number(bits: u64, n: u32) -> (up: nat)
    requires
        denotes(bits, n as nat),
    ensures
        n == 0 ==> bits == 0,
        n > 0 ==> {
            &&& up <= 52
            &&& 0x10_0000_0000_0000 <= n * pow2(up) < 0x20_0000_0000_0000
            &&& bits == (1074 - up) * 0x10_0000_0000_0000 + n * pow2(up)
        },
{
    lemma_fields(bits);
    lemma2_to64();
    lemma2_to64_rest();
    let e = exponent(bits);
    let sig = significand(bits);
    if e >= 0 {
        lemma_pow2_pos(e as nat);
        assert(sig * pow2(e as nat) >= sig) by (nonlinear_arith)
            requires
                pow2(e as nat) >= 1,
        ;
        0
    } else {
        let up = (-e) as nat;
        lemma_pow2_pos(up);
        if n == 0 {
            assert(sig == 0) by (nonlinear_arith)
                requires
                    sig == n * pow2(up),
                    n == 0,
            ;
        } else {
            assert(sig >= pow2(up)) by (nonlinear_arith)
                requires
                    sig == n * pow2(up),
                    n >= 1,
            ;
            if up > 52 {
                lemma_pow2_grows(53, up);
            }
        }
        up
    }
}

/// There is only one pattern for each whole number.
pub proof fn law_whole_number_has_one_pattern(first: u64, second: u64, n: u32)
    requires
        denotes(first, n as nat),
        denotes(second, n as nat),
    ensures
        first == second,
{
    let a = law_pattern_of_a_whole_number(first, n);
    let b = law_pattern_of_a_whole_number(second, n);
    if n > 0 {
        if a < b {
            lemma_shifted_apart(n as nat, a, b);
        } else if b < a {
            lemma_shifted_apart(n as nat, b, a);
        }
    }
}

/// A number shifted up by more places is at least twice as large.
proof fn lemma_shifted_apart(n: nat, small: nat, large: nat)
    requires
        small < large,
    ensures
        n * pow2(large) >= 2 * (n * pow2(small)),
{
    lemma_pow2_unfold(small + 1);
    lemma_pow2_grows(small + 1, large);
    assert(n * pow2(large) >= 2 * (n * pow2(small))) by (nonlinear_arith)
        requires
            pow2(large) >= 2 * pow2(small),
    ;
}

} // verus!
