use cosmwasm_std::Uint128;
use vstd::prelude::*;

verus! {

/// `amount * numerator / denominator`, rounded down, as a mathematical integer.
pub open spec fn ratio_of(amount: u128, numerator: u128, denominator: u128) -> int {
    (amount * numerator) / (denominator as int)
}

/// Calls `cosmwasm_std::Uint128::checked_multiply_ratio`, which multiplies in
/// 256 bits and divides rounding down. Trusted: the result is the floored
/// quotient, or nothing where the denominator is zero or the quotient does
/// not fit in 128 bits.
#[verifier::external_body]
pub(crate) fn checked_multiply_ratio(amount: u128, numerator: u128, denominator: u128) -> (r:
    Option<u128>)
    ensures
        r == (if denominator == 0 || ratio_of(amount, numerator, denominator) > u128::MAX {
            None
        } else {
            Some(ratio_of(amount, numerator, denominator) as u128)
        }),
{
    Uint128::new(amount).checked_multiply_ratio(numerator, denominator).ok().map(|r| r.u128())
}

/// A share never exceeds the whole: scaling by `numerator / denominator`
/// with `numerator <= denominator` stays at or below `amount`.
pub proof fn lemma_ratio_bounded(amount: u128, numerator: u128, denominator: u128)
    requires
        denominator != 0,
        numerator <= denominator,
    ensures
        0 <= ratio_of(amount, numerator, denominator) <= amount,
{
    assert(0 <= (amount * numerator) / (denominator as int) <= amount) by (nonlinear_arith)
        requires
            denominator > 0,
            0 <= numerator <= denominator,
            0 <= amount,
    ;
}

/// Scaling is monotone in the numerator.
pub proof fn lemma_ratio_monotone(amount: u128, n1: u128, n2: u128, denominator: u128)
    requires
        denominator != 0,
        n1 <= n2,
    ensures
        ratio_of(amount, n1, denominator) <= ratio_of(amount, n2, denominator),
{
    assert((amount * n1) / (denominator as int) <= (amount * n2) / (denominator as int))
        by (nonlinear_arith)
        requires
            denominator > 0,
            0 <= n1 <= n2,
            0 <= amount,
    ;
}

} // verus!
