//! AMF0 numbers are IEEE-754 binary64 values. This module reads whole numbers
//! out of their bit patterns and writes them, with integer arithmetic alone.

use vstd::arithmetic::div_mod::{lemma_div_denominator, lemma_fundamental_div_mod};
use vstd::arithmetic::power2::{lemma2_to64, lemma2_to64_rest, lemma_pow2_adds, lemma_pow2_pos};
use vstd::arithmetic::power2::{lemma_pow2_strictly_increases, lemma_pow2_unfold, pow2};
use vstd::prelude::*;

verus! {

/// 2^52: the weight of the implicit leading bit of the significand.
pub const HIDDEN_BIT: u64 = 0x10_0000_0000_0000;

/// The exponent field of the value 1.
pub const EXPONENT_BIAS: u64 = 1023;

/// The sign bit of a bit pattern.
pub open spec fn sign_of(bits: u64) -> int {
    bits as int / 0x8000_0000_0000_0000
}

/// The exponent field of a bit pattern.
pub open spec fn exponent_of(bits: u64) -> int {
    bits as int / 0x10_0000_0000_0000 % 0x800
}

/// The fraction field of a bit pattern.
pub open spec fn fraction_of(bits: u64) -> int {
    bits as int % 0x10_0000_0000_0000
}

/// The whole number that a bit pattern stands for, cut to 32 bits as a cast
/// does it: the fraction is dropped, a negative number and NaN give 0, and a
/// number of 2^32 or more gives the largest value.
pub open spec fn whole_u32(bits: u64) -> u32 {
    let exponent = exponent_of(bits);
    let fraction = fraction_of(bits);
    if sign_of(bits) == 1 || exponent < 1023 {
        0
    } else if exponent == 2047 && fraction != 0 {
        0
    } else if exponent >= 1055 {
        0xFFFF_FFFF
    } else {
        ((0x10_0000_0000_0000 + fraction) / (pow2((1075 - exponent) as nat) as int)) as u32
    }
}

/// The position of the highest bit of `n` that is set: the `k` with
/// `2^k <= n < 2^(k+1)`.
pub open spec fn top_bit(n: nat) -> nat
    decreases n,
{
    if n <= 1 {
        0
    } else {
        1 + top_bit(n / 2)
    }
}

/// The bit pattern of the binary64 value that equals `n`.
pub open spec fn bits_of_u32(n: u32) -> u64 {
    if n == 0 {
        0
    } else {
        let k = top_bit(n as nat);
        ((1023 + k) * 0x10_0000_0000_0000 + (n - pow2(k)) * pow2((52 - k) as nat)) as u64
    }
}

/// 2^k.
fn power_of_two(k: u32) -> (r: u64)
    requires
        k <= 62,
    ensures
        r == pow2(k as nat),
{
    let mut r: u64 = 1;
    let mut i: u32 = 0;
    proof {
        lemma2_to64();
    }
    while i < k
        invariant
            i <= k <= 62,
            r == pow2(i as nat),
        decreases k - i,
    {
        proof {
            lemma_pow2_unfold((i + 1) as nat);
            lemma_pow2_strictly_increases((i + 1) as nat, 63);
            lemma2_to64_rest();
        }
        r = r * 2;
        i += 1;
    }
    r
}

/// Reads a number as a `u32`.
pub fn number_to_u32(bits: u64) -> (r: u32)
    ensures
        r == whole_u32(bits),
{
    let sign = bits / 0x8000_0000_0000_0000;
    let exponent = bits / HIDDEN_BIT % 0x800;
    let fraction = bits % HIDDEN_BIT;
    if sign == 1 || exponent < EXPONENT_BIAS {
        return 0;
    }
    if exponent == 2047 && fraction != 0 {
        return 0;
    }
    if exponent >= 1055 {
        return 0xFFFF_FFFF;
    }
    let shift = (1075 - exponent) as u32;
    let divisor = power_of_two(shift);
    let numerator = HIDDEN_BIT + fraction;
    proof {
        lemma_pow2_pos(shift as nat);
    }
    let quotient = numerator / divisor;
    proof {
        lemma2_to64();
        if shift > 21 {
            lemma_pow2_strictly_increases(21, shift as nat);
        }
        lemma_fundamental_div_mod(numerator as int, divisor as int);
        assert(quotient < 0x1_0000_0000) by (nonlinear_arith)
            requires
                numerator == divisor * quotient + numerator % divisor,
                0 <= numerator % divisor,
                numerator < 0x20_0000_0000_0000,
                divisor >= 0x20_0000,
        ;
    }
    quotient as u32
}

/// Writes a `u32` as a number.
pub fn number_from_u32(n: u32) -> (bits: u64)
    ensures
        bits == bits_of_u32(n),
{
    if n == 0 {
        return 0;
    }
    let mut k: u32 = 0;
    let mut p: u64 = 1;
    proof {
        lemma2_to64();
    }
    while p * 2 <= n as u64
        invariant
            k <= 31,
            p == pow2(k as nat),
            1 <= p <= n,
            top_bit(n as nat) == k + top_bit(n as nat / p as nat),
        decreases n - p,
    {
        proof {
            lemma2_to64();
            lemma_pow2_unfold((k + 1) as nat);
            lemma_div_denominator(n as int, p as int, 2);
            assert(n as int / p as int >= 2) by (nonlinear_arith)
                requires
                    p * 2 <= n,
                    p >= 1,
            ;
            if k == 31 {
                assert(false);
            }
        }
        p = p * 2;
        k += 1;
    }
    proof {
        assert(n as int / p as int == 1) by (nonlinear_arith)
            requires
                p <= n < p * 2,
                p >= 1,
        ;
    }
    let scale = power_of_two(52 - k);
    proof {
        lemma_pow2_adds(k as nat, (52 - k) as nat);
        lemma2_to64_rest();
        assert((n - p) * scale < 0x10_0000_0000_0000) by (nonlinear_arith)
            requires
                n - p < p,
                p * scale == 0x10_0000_0000_0000,
                p >= 1,
                scale >= 1,
                n >= p,
        ;
    }
    (EXPONENT_BIAS + k as u64) * HIDDEN_BIT + (n as u64 - p) * scale
}

/// Reading back a whole number that was written gives the number.
pub proof fn lemma_whole_number_round_trip(n: u32)
    ensures
        whole_u32(bits_of_u32(n)) == n,
{
    lemma2_to64();
    lemma2_to64_rest();
    if n == 0 {
        assert(whole_u32(0) == 0);
    } else {
        let k = top_bit(n as nat);
        lemma_top_bit(n as nat);
        let p = pow2(k) as int;
        let scale = pow2((52 - k) as nat) as int;
        lemma_pow2_adds(k, (52 - k) as nat);
        lemma_pow2_pos((52 - k) as nat);
        let fraction = (n - p) * scale;
        assert(0 <= fraction < 0x10_0000_0000_0000) by (nonlinear_arith)
            requires
                fraction == (n - p) * scale,
                0 <= n - p < p,
                p * scale == 0x10_0000_0000_0000,
                scale >= 1,
        ;
        let bits = (1023 + k) * 0x10_0000_0000_0000 + fraction;
        assert(bits < 0x8000_0000_0000_0000);
        assert(bits / 0x10_0000_0000_0000 == 1023 + k && bits % 0x10_0000_0000_0000 == fraction)
            by {
            lemma_fundamental_div_mod(bits, 0x10_0000_0000_0000);
            vstd::arithmetic::div_mod::lemma_fundamental_div_mod_converse(
                bits,
                0x10_0000_0000_0000,
                (1023 + k) as int,
                fraction,
            );
        }
        assert((0x10_0000_0000_0000 + fraction) == n * scale) by (nonlinear_arith)
            requires
                fraction == (n - p) * scale,
                p * scale == 0x10_0000_0000_0000,
        ;
        assert((n * scale) / scale == n) by {
            vstd::arithmetic::div_mod::lemma_div_multiples_vanish(n as int, scale);
        }
    }
}

/// The highest bit of `n` brackets `n` between two powers of two.
pub proof fn lemma_top_bit(n: nat)
    requires
        n >= 1,
    ensures
        pow2(top_bit(n)) <= n < 2 * pow2(top_bit(n)),
        n < 0x1_0000_0000 ==> top_bit(n) <= 31,
    decreases n,
{
    lemma2_to64();
    if n > 1 {
        lemma_top_bit(n / 2);
        lemma_pow2_unfold(top_bit(n));
        if n < 0x1_0000_0000 && top_bit(n) > 31 {
            lemma_pow2_strictly_increases(31, top_bit(n / 2));
        }
    }
}

} // verus!
