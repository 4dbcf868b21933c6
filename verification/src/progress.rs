//! The progress calculator: reduces a goal and a list of team amounts, all
//! in whole cents, to a single completion ratio.
//!
//! The ratio is carried in parts per million of the goal, so `1_000_000`
//! means the goal is fully reached.  It is the exact quotient
//! `sum / goal`, rounded to the nearest millionth and clamped to `[0, 1]`;
//! a goal of zero or less always yields zero.

use vstd::prelude::*;
use crate::geometry::lemma_round_div_exact;
use crate::geometry::lemma_round_div_ordered;
use crate::geometry::spec_round_div;

verus! {

/// One million: the completion ratio of a goal that is fully reached.
pub const COMPLETION_FULL: u32 = 1_000_000;

/// The sum of a sequence of amounts, as an unbounded integer.
pub open spec fn spec_sum_cents(amounts: Seq<i64>) -> int
    decreases amounts.len(),
{
    if amounts.len() == 0 {
        0
    } else {
        spec_sum_cents(amounts.drop_last()) + amounts.last()
    }
}

/// The completion ratio in parts per million: `sum / goal` rounded to the
/// nearest millionth, clamped to `[0, 1_000_000]`; zero when the goal is
/// not positive.
pub open spec fn spec_completion_ppm(goal_cents: int, sum_cents: int) -> int {
    if goal_cents <= 0 {
        0
    } else {
        let r = spec_round_div(sum_cents * 1_000_000, goal_cents);
        if r < 0 {
            0
        } else if r > 1_000_000 {
            1_000_000
        } else {
            r
        }
    }
}

/// Sums the team amounts.  The sum of any number of 64-bit amounts fits in
/// 128 bits, so no overflow is possible.
pub fn sum_cents(amounts: &Vec<i64>) -> (total: i128)
    ensures
        total == spec_sum_cents(amounts@),
        total > i128::MIN,
{
    let mut total: i128 = 0;
    let mut i: usize = 0;
    while i < amounts.len()
        invariant
            i <= amounts.len(),
            total == spec_sum_cents(amounts@.take(i as int)),
            -(i as int) * 0x8000_0000_0000_0000 <= total,
            total <= (i as int) * 0x8000_0000_0000_0000,
        decreases amounts.len() - i,
    {
        proof {
            assert(amounts@.take(i as int + 1).drop_last() =~= amounts@.take(i as int));
            assert(amounts@.take(i as int + 1).last() == amounts@[i as int]);
            assert((i as int + 1) * 0x8000_0000_0000_0000 == (i as int) * 0x8000_0000_0000_0000
                + 0x8000_0000_0000_0000);
        }
        total = total + amounts[i] as i128;
        i = i + 1;
    }
    proof {
        assert(amounts@.take(amounts@.len() as int) =~= amounts@);
        assert((amounts@.len() as int) * 0x8000_0000_0000_0000 <= 0xFFFF_FFFF_FFFF_FFFF
            * 0x8000_0000_0000_0000) by (nonlinear_arith)
            requires
                amounts@.len() <= 0xFFFF_FFFF_FFFF_FFFF,
        ;
    }
    total
}

/// Computes the completion ratio of a goal from the team amounts, in parts
/// per million, clamped to `[0, 1_000_000]`.
pub fn compute_completion(goal_cents: i64, amounts: &Vec<i64>) -> (ppm: u32)
    ensures
        ppm == spec_completion_ppm(goal_cents as int, spec_sum_cents(amounts@)),
        ppm <= COMPLETION_FULL,
{
    let sum = sum_cents(amounts);
    completion_from_sum(goal_cents, sum)
}

/// Computes the completion ratio from an already-summed total.
pub fn completion_from_sum(goal_cents: i64, sum_cents: i128) -> (ppm: u32)
    ensures
        ppm == spec_completion_ppm(goal_cents as int, sum_cents as int),
        ppm <= COMPLETION_FULL,
{
    if goal_cents <= 0 {
        0
    } else if sum_cents <= 0 {
        proof {
            lemma_round_div_le_zero(sum_cents as int * 1_000_000, goal_cents as int);
            assert(sum_cents as int * 1_000_000 <= 0) by (nonlinear_arith)
                requires
                    sum_cents as int <= 0,
            ;
        }
        0
    } else if sum_cents >= goal_cents as i128 {
        proof {
            lemma_round_div_ge_den_times(sum_cents as int * 1_000_000, goal_cents as int);
            assert(sum_cents as int * 1_000_000 >= goal_cents as int * 1_000_000)
                by (nonlinear_arith)
                requires
                    sum_cents as int >= goal_cents as int,
            ;
        }
        COMPLETION_FULL
    } else {
        let num: i128 = 2 * sum_cents * 1_000_000 + goal_cents as i128;
        let r: i128 = num / (2 * goal_cents as i128);
        proof {
            let s = sum_cents as int;
            let g = goal_cents as int;
            assert(0 < s * 1_000_000 < g * 1_000_000) by (nonlinear_arith)
                requires
                    0 < s < g,
            ;
            vstd::arithmetic::div_mod::lemma_div_pos_is_pos(2 * (s * 1_000_000) + g, 2 * g);
            assert(spec_round_div(s * 1_000_000, g) <= 1_000_000) by {
                lemma_round_div_ordered(s * 1_000_000, g * 1_000_000, g);
                lemma_round_div_exact(1_000_000, g);
            };
        }
        r as u32
    }
}

/// `0 <= completion <= 1` for every goal and every list of amounts, and a
/// sum that reaches a positive goal yields a completion of exactly `1`.
pub proof fn lemma_completion_bounds(goal_cents: int, sum_cents: int)
    ensures
        0 <= spec_completion_ppm(goal_cents, sum_cents) <= 1_000_000,
        goal_cents > 0 && sum_cents >= goal_cents ==> spec_completion_ppm(
            goal_cents,
            sum_cents,
        ) == 1_000_000,
{
    if goal_cents > 0 && sum_cents >= goal_cents {
        assert(sum_cents * 1_000_000 >= goal_cents * 1_000_000) by (nonlinear_arith)
            requires
                sum_cents >= goal_cents,
                goal_cents > 0,
        ;
        lemma_round_div_ge_den_times(sum_cents * 1_000_000, goal_cents);
    }
}

/// A goal of zero or less yields a completion of exactly zero, whatever the
/// amounts sum to.
pub proof fn lemma_completion_zero_goal(goal_cents: int, sum_cents: int)
    requires
        goal_cents <= 0,
    ensures
        spec_completion_ppm(goal_cents, sum_cents) == 0,
{
}

/// Rounding a quotient with a non-positive numerator never goes above zero.
proof fn lemma_round_div_le_zero(a: int, d: int)
    requires
        a <= 0,
        d >= 1,
    ensures
        spec_round_div(a, d) <= 0,
{
    if a < 0 {
        vstd::arithmetic::div_mod::lemma_div_pos_is_pos(2 * (-a) + d, 2 * d);
    } else {
        vstd::arithmetic::div_mod::lemma_basic_div(d, 2 * d);
    }
}

/// `round(a / d)` reaches one million whenever `a` reaches a million times
/// the divisor.
proof fn lemma_round_div_ge_den_times(a: int, d: int)
    requires
        d >= 1,
        a >= d * 1_000_000,
    ensures
        spec_round_div(a, d) >= 1_000_000,
{
    crate::geometry::lemma_round_div_close(a, d);
    let r = spec_round_div(a, d);
    assert(r >= 1_000_000) by (nonlinear_arith)
        requires
            d >= 1,
            a >= d * 1_000_000,
            2 * d * r - 2 * a >= -d,
    ;
}

} // verus!
