//! The fixed risk-score pipeline, stated over plain integers.
//!
//! The formula computed (homomorphically on the wire, in the clear here) is
//! `gambling + max(overspending, impulsive)
//!      - (deposited > reported ? 2 : 0) * months`.
//!
//! Because an encrypted operand can never be branched on, the conditional
//! penalty is expressed as a 0/1 selector, shifted left once (0 or 2) and
//! multiplied into the penalty term.  The six operations below mirror, step
//! for step and in the same order, the homomorphic sequence that the engine
//! runs on ciphertexts: each step consumes only its declared predecessors,
//! so the order is not a free choice.

use vstd::prelude::*;

verus! {

/// Magnitude bound on each clear input feature; generous enough for every
/// intermediate of the pipeline to fit an `i64` with room to spare.
pub const CLEAR_INPUT_BOUND: i64 = 0x1_0000_0000;

/// The larger of two integers.
pub open spec fn max2(a: int, b: int) -> int {
    if a >= b {
        a
    } else {
        b
    }
}

/// The risk-score formula itself, the single arithmetic contract of the
/// whole service.
pub open spec fn risk_score(
    gambling: int,
    overspending: int,
    impulsive: int,
    deposited: int,
    reported: int,
    months: int,
) -> int {
    gambling + max2(overspending, impulsive) - (if deposited > reported {
        2int
    } else {
        0int
    }) * months
}

/// The six features of one request, as plain integers: the test double of
/// the homomorphic engine operates on these plaintext-equivalent values.
#[derive(Clone, Copy, Debug, PartialEq, Eq, Structural)]
pub struct ClearRequest {
    pub gambling_percent: i64,
    pub overspending_score: i64,
    pub impulsive_buying_score: i64,
    pub mean_deposited_sum: i64,
    pub mean_reported_income: i64,
    pub no_months_deposited: i64,
}

impl ClearRequest {
    /// Every feature within the magnitude bound.
    pub open spec fn in_range(self) -> bool {
        &&& -CLEAR_INPUT_BOUND <= self.gambling_percent <= CLEAR_INPUT_BOUND
        &&& -CLEAR_INPUT_BOUND <= self.overspending_score <= CLEAR_INPUT_BOUND
        &&& -CLEAR_INPUT_BOUND <= self.impulsive_buying_score <= CLEAR_INPUT_BOUND
        &&& -CLEAR_INPUT_BOUND <= self.mean_deposited_sum <= CLEAR_INPUT_BOUND
        &&& -CLEAR_INPUT_BOUND <= self.mean_reported_income <= CLEAR_INPUT_BOUND
        &&& -CLEAR_INPUT_BOUND <= self.no_months_deposited <= CLEAR_INPUT_BOUND
    }

    /// What the pipeline owes this request.
    pub open spec fn spec_score(self) -> int {
        risk_score(
            self.gambling_percent as int,
            self.overspending_score as int,
            self.impulsive_buying_score as int,
            self.mean_deposited_sum as int,
            self.mean_reported_income as int,
            self.no_months_deposited as int,
        )
    }
}

/// Clear counterpart of the engine's homomorphic maximum.
pub fn clear_max(a: i64, b: i64) -> (r: i64)
    ensures
        r == max2(a as int, b as int),
{
    if a >= b {
        a
    } else {
        b
    }
}

/// Clear counterpart of the engine's homomorphic addition.
pub fn clear_add(a: i64, b: i64) -> (r: i64)
    requires
        i64::MIN <= a + b <= i64::MAX,
    ensures
        r == a + b,
{
    a + b
}

/// Clear counterpart of the engine's homomorphic greater-than: a 0/1
/// selector, never a branch on the data itself downstream.
pub fn clear_gt(a: i64, b: i64) -> (r: i64)
    ensures
        r == if a > b {
            1int
        } else {
            0int
        },
{
    if a > b {
        1
    } else {
        0
    }
}

/// Clear counterpart of the engine's scalar left shift by one: doubling.
pub fn clear_shift_left1(a: i64) -> (r: i64)
    requires
        i64::MIN <= 2 * a <= i64::MAX,
    ensures
        r == 2 * a,
{
    2 * a
}

/// Clear counterpart of the engine's homomorphic multiplication.
pub fn clear_mul(a: i64, b: i64) -> (r: i64)
    requires
        i64::MIN <= a * b <= i64::MAX,
    ensures
        r == a * b,
{
    a * b
}

/// Clear counterpart of the engine's homomorphic subtraction.
pub fn clear_sub(a: i64, b: i64) -> (r: i64)
    requires
        i64::MIN <= a - b <= i64::MAX,
    ensures
        r == a - b,
{
    a - b
}

/// The pipeline on the clear test double: exactly the six steps, in the
/// fixed order, that the engine runs on ciphertexts.  Proved to compute the
/// risk-score formula.
pub fn evaluate_clear(msg: &ClearRequest) -> (r: i64)
    requires
        msg.in_range(),
    ensures
        r == msg.spec_score(),
{
    let tmp_max = clear_max(msg.overspending_score, msg.impulsive_buying_score);
    let partial = clear_add(msg.gambling_percent, tmp_max);
    let condition = clear_gt(msg.mean_deposited_sum, msg.mean_reported_income);
    let penalty_rate = clear_shift_left1(condition);
    let penalty = clear_mul(penalty_rate, msg.no_months_deposited);
    proof {
        // The selector is 0 or 1, so the penalty is 0 or twice the month
        // count; multiplication by the pinned constant keeps it in range.
        if condition == 1 {
            assert(penalty == 2 * msg.no_months_deposited);
        } else {
            assert(penalty == 0) by (nonlinear_arith)
                requires
                    penalty == penalty_rate * msg.no_months_deposited,
                    penalty_rate == 0,
            ;
        }
    }
    let result = clear_sub(partial, penalty);
    result
}

} // verus!
