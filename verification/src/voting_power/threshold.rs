use crate::math::checked_multiply_ratio;
use crate::math::ratio_of;
use vstd::arithmetic::div_mod::lemma_div_denominator;
use vstd::arithmetic::div_mod::lemma_div_multiples_vanish_quotient;
use vstd::arithmetic::div_mod::lemma_fundamental_div_mod;
use vstd::arithmetic::div_mod::lemma_mod_breakdown;
use vstd::arithmetic::div_mod::lemma_mul_mod_noop_general;
use vstd::prelude::*;

verus! {

/// A non-negative number with eighteen decimal places, held as the count of
/// its smallest units: `atomics == 10^18` is one.
#[derive(Clone, Copy, Debug, PartialEq, Eq, Structural)]
pub struct Decimal {
    pub atomics: u128,
}

/// How many smallest units make one.
pub const DECIMAL_FRACTIONAL: u128 = 1_000_000_000_000_000_000;

/// The factor by which the supply is scaled up before a percentage of it is
/// taken, so that the percentage can be rounded up.
pub const PRECISION_FACTOR: u128 = 1_000_000_000;

/// When a module counts as active: once the voting power in use reaches a
/// fixed count, or a percentage of all the power there could be.
#[derive(Clone, Copy, Debug, PartialEq, Eq, Structural)]
pub enum ActiveThreshold {
    AbsoluteCount { count: u128 },
    Percentage { percent: Decimal },
}

impl Decimal {
    /// The number that is `percent` hundredths.
    pub fn percent(percent: u64) -> (decimal: Decimal)
        ensures
            decimal.atomics == percent * 10_000_000_000_000_000,
    {
        assert(percent * 10_000_000_000_000_000 <= u128::MAX) by (nonlinear_arith)
            requires
                percent <= u64::MAX,
        ;
        Decimal { atomics: (percent as u128) * 10_000_000_000_000_000 }
    }

    /// Whether the number can stand as a percentage threshold: above nothing
    /// and at most one.
    pub open spec fn is_valid_percentage(self) -> bool {
        0 < self.atomics <= 1_000_000_000_000_000_000
    }
}

/// The least power that counts as `percent` of `total_supply`: the supply,
/// scaled up by the precision factor, times the percentage, rounded down,
/// then scaled back, rounded up.
pub open spec fn percent_count(total_supply: u128, percent: Decimal) -> int {
    let applied = (total_supply * 1_000_000_000 * percent.atomics) / 1_000_000_000_000_000_000;
    (applied + 1_000_000_000 - 1) / 1_000_000_000
}

/// Whether `actual_power` reaches `percent` of `total_supply`.
pub fn reaches_percent(actual_power: u128, total_supply: u128, percent: Decimal) -> (active: bool)
    ensures
        active == (actual_power >= percent_count(total_supply, percent)),
{
    let whole = checked_multiply_ratio(total_supply, percent.atomics, DECIMAL_FRACTIONAL);
    let supply_part: u128 = total_supply % DECIMAL_FRACTIONAL;
    let percent_part: u128 = percent.atomics % DECIMAL_FRACTIONAL;
    assert(supply_part * percent_part < 1_000_000_000_000_000_000 * 1_000_000_000_000_000_000)
        by (nonlinear_arith)
        requires
            0 <= supply_part < 1_000_000_000_000_000_000,
            0 <= percent_part < 1_000_000_000_000_000_000,
    ;
    let rest: u128 = (supply_part * percent_part) % DECIMAL_FRACTIONAL;
    let rounds_up = rest >= PRECISION_FACTOR;
    proof {
        lemma_percent_count(total_supply, percent);
    }
    match whole {
        None => false,
        Some(whole) => if rounds_up {
            actual_power > whole
        } else {
            actual_power >= whole
        },
    }
}

/// The least power that counts as a percentage of the supply is the product
/// of the two divided by one, rounded up to the next multiple of the
/// precision factor's inverse: the floor of the quotient, plus one where the
/// remainder is at least one precision factor.
pub proof fn lemma_percent_count(total_supply: u128, percent: Decimal)
    ensures
        ({
            let one = 1_000_000_000_000_000_000int;
            let rest = ((total_supply % 1_000_000_000_000_000_000) * (percent.atomics
                % 1_000_000_000_000_000_000)) % one;
            percent_count(total_supply, percent) == ratio_of(
                total_supply,
                percent.atomics,
                1_000_000_000_000_000_000,
            ) + if rest >= 1_000_000_000 {
                1int
            } else {
                0int
            }
        }),
{
    let factor = 1_000_000_000int;
    let one = 1_000_000_000_000_000_000int;
    let product = total_supply as int * percent.atomics as int;
    assert(product >= 0) by (nonlinear_arith)
        requires
            product == total_supply as int * percent.atomics as int,
    ;
    assert(one == factor * factor);
    let applied = (total_supply * 1_000_000_000 * percent.atomics) / 1_000_000_000_000_000_000;
    assert(total_supply * 1_000_000_000 * percent.atomics == factor * product) by (nonlinear_arith)
        requires
            product == total_supply as int * percent.atomics as int,
            factor == 1_000_000_000,
    ;
    assert(applied == product / factor) by {
        lemma_div_multiples_vanish_quotient(factor, product, factor);
    }
    assert((product / factor) / factor == product / one) by {
        lemma_div_denominator(product, factor, factor);
    }
    let whole = applied / factor;
    let over = applied % factor;
    lemma_fundamental_div_mod(applied, factor);
    assert(product % one == factor * over + product % factor) by {
        lemma_mod_breakdown(product, factor, factor);
    }
    assert(((total_supply % 1_000_000_000_000_000_000) * (percent.atomics
        % 1_000_000_000_000_000_000)) % one == product % one) by {
        lemma_mul_mod_noop_general(total_supply as int, percent.atomics as int, one);
    }
    assert(0 <= product % factor < factor);
    assert(0 <= over < factor);
    assert((product % one >= factor) <==> over >= 1) by (nonlinear_arith)
        requires
            product % one == factor * over + product % factor,
            0 <= product % factor < factor,
            0 <= over,
            factor > 0,
    ;
    assert((applied + factor - 1) / factor == whole + if over >= 1 {
        1int
    } else {
        0int
    }) by (nonlinear_arith)
        requires
            applied == factor * whole + over,
            0 <= over < factor,
            factor > 0,
    ;
}

} // verus!
