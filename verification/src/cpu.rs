//! CPU utilization readings.
//!
//! The metrics source hands per-core utilization over as the raw bit pattern
//! of an IEEE-754 single-precision percentage, so that unreadable or odd
//! sensor output crosses the trusted boundary verbatim. This module decodes
//! such a bit pattern into a plain integer count of hundredths of a percent,
//! clamped to the range 0 ..= 100.00%, and averages the per-core values into
//! the one utilization figure a snapshot carries.

use vstd::prelude::*;
use vstd::arithmetic::div_mod::lemma_basic_div;
use vstd::arithmetic::power2::{lemma2_to64_rest, lemma_pow2_pos,
    lemma_pow2_strictly_increases, pow2};
use vstd::bits::lemma_u64_shr_is_div;

verus! {

/// Upper clamp for a utilization reading: 100.00%, in hundredths of a percent.
pub const CENTI_PERCENT_CAP: u32 = 10000;

/// The utilization, in hundredths of a percent, encoded by the bit pattern of
/// an IEEE-754 single-precision value.
///
/// A negative value, a zero or subnormal magnitude, an infinity or a NaN all
/// read as 0; anything at or above 100.00% clamps to `CENTI_PERCENT_CAP`.
/// For a normal positive value with biased exponent `e` and fraction `f`, the
/// magnitude is `(2^23 + f) * 2^(e - 150)`, so one hundred times it is
/// `(2^23 + f) * 100 / 2^(150 - e)` whenever `e < 150`.
pub open spec fn centi_percent_of_bits(bits: u32) -> int {
    let sign = bits >> 31;
    let biased_exp = (bits >> 23) & 0xff;
    let frac = bits & 0x7fffff;
    if sign == 1 || biased_exp == 0 || biased_exp == 255 {
        0
    } else if biased_exp >= 150 {
        CENTI_PERCENT_CAP as int
    } else {
        let scaled = (0x800000 + frac) * 100 / pow2((150 - biased_exp) as nat) as int;
        if scaled > CENTI_PERCENT_CAP as int {
            CENTI_PERCENT_CAP as int
        } else {
            scaled
        }
    }
}

/// Decode one raw per-core reading into clamped hundredths of a percent.
pub fn decode_centi_percent(bits: u32) -> (r: u32)
    ensures
        r as int == centi_percent_of_bits(bits),
        r <= CENTI_PERCENT_CAP,
{
    let sign: u32 = bits >> 31;
    let biased_exp: u32 = (bits >> 23) & 0xff;
    let frac: u32 = bits & 0x7fffff;
    if sign == 1 || biased_exp == 0 || biased_exp == 255 {
        return 0;
    }
    if biased_exp >= 150 {
        return CENTI_PERCENT_CAP;
    }
    let shift: u32 = 150 - biased_exp;
    let magnitude: u64 = (0x800000u64 + frac as u64) * 100;
    if shift >= 64 {
        proof {
            lemma2_to64_rest();
            lemma_pow2_pos(shift as nat);
            if shift > 64 {
                lemma_pow2_strictly_increases(64, shift as nat);
            }
            lemma_basic_div(magnitude as int, pow2(shift as nat) as int);
        }
        return 0;
    }
    let quotient: u64 = magnitude >> (shift as u64);
    proof {
        lemma_u64_shr_is_div(magnitude, shift as u64);
    }
    if quotient > 10000 {
        CENTI_PERCENT_CAP
    } else {
        quotient as u32
    }
}

/// The sum of a sequence of utilization readings.
pub open spec fn sum_centi(s: Seq<u32>) -> int
    decreases s.len(),
{
    if s.len() == 0 {
        0
    } else {
        sum_centi(s.drop_last()) + s.last()
    }
}

/// The arithmetic mean of a sequence of utilization readings, rounded down.
/// An empty sequence — a host that reports no logical cores — reads as zero
/// utilization rather than an error.
pub open spec fn mean_centi(s: Seq<u32>) -> int {
    if s.len() == 0 {
        0
    } else {
        sum_centi(s) / s.len() as int
    }
}

/// The sum of readings that each stay at or under `cap` stays at or under
/// `len * cap`.
pub proof fn lemma_sum_bounded(s: Seq<u32>, cap: u32)
    requires
        forall|i: int| 0 <= i < s.len() ==> s[i] <= cap,
    ensures
        0 <= sum_centi(s) <= s.len() * cap,
    decreases s.len(),
{
    if s.len() == 0 {
    } else {
        assert(forall|i: int| 0 <= i < s.drop_last().len() ==> s.drop_last()[i] <= cap);
        lemma_sum_bounded(s.drop_last(), cap);
        assert(s.last() <= cap);
        assert((s.len() - 1) * cap + cap == s.len() * cap) by (nonlinear_arith);
    }
}

/// Law: the mean utilization lies in the range of its inputs. If every
/// per-core reading stays at or under `cap`, the published average does too,
/// and it is never negative.
pub proof fn lemma_mean_bounded(s: Seq<u32>, cap: u32)
    requires
        forall|i: int| 0 <= i < s.len() ==> s[i] <= cap,
    ensures
        0 <= mean_centi(s) <= cap,
{
    if s.len() == 0 {
    } else {
        lemma_sum_bounded(s, cap);
        let total = sum_centi(s);
        let n = s.len() as int;
        assert(0 <= total / n <= cap) by (nonlinear_arith)
            requires
                0 <= total <= n * cap,
                n > 0,
        ;
    }
}

/// Average the per-core readings; zero when no core is reported.
pub fn mean_of_readings(readings: &Vec<u32>) -> (r: u32)
    ensures
        r as int == mean_centi(readings@),
{
    let n: usize = readings.len();
    if n == 0 {
        return 0;
    }
    let mut acc: u128 = 0;
    let mut i: usize = 0;
    while i < n
        invariant
            n == readings@.len(),
            i <= n,
            acc as int == sum_centi(readings@.take(i as int)),
            acc <= (i as u128) * 0xffff_ffffu128,
        decreases n - i,
    {
        let x: u32 = readings[i];
        proof {
            assert(readings@.take(i as int + 1).drop_last() =~= readings@.take(i as int));
            assert(readings@.take(i as int + 1).last() == readings@[i as int]);
        }
        acc = acc + x as u128;
        i = i + 1;
    }
    proof {
        assert(readings@.take(n as int) =~= readings@);
    }
    let quotient: u128 = acc / (n as u128);
    proof {
        assert(quotient <= 0xffff_ffffu128) by (nonlinear_arith)
            requires
                acc <= (n as u128) * 0xffff_ffffu128,
                n > 0,
                quotient == acc / (n as u128),
        ;
    }
    quotient as u32
}

} // verus!
