use crate::context::BlockInfo;
use crate::custom_vesting::error::VestingError;
use crate::math::lemma_ratio_bounded;
use crate::math::lemma_ratio_monotone;
use crate::math::checked_multiply_ratio;
use crate::math::ratio_of;
use vstd::prelude::*;

verus! {

/// The numbers of one vesting account: what it is entitled to, what it has
/// claimed, and the three instants (in nanoseconds) that shape its accrual.
#[derive(Clone, Copy, Debug, PartialEq, Eq, Structural)]
pub struct VestingTerms {
    pub prevesting_amount: u128,
    pub vesting_amount: u128,
    pub claimed_amount: u128,
    pub registration_time: u64,
    pub start_time: u64,
    pub end_time: u64,
}

/// A beneficiary's vesting record: the address and its terms.
#[derive(Clone, Debug, PartialEq, Eq)]
pub struct Account {
    pub address: String,
    pub prevesting_amount: u128,
    pub vesting_amount: u128,
    pub claimed_amount: u128,
    pub registration_time: u64,
    pub start_time: u64,
    pub end_time: u64,
}

/// What an account looks like at one instant.
#[derive(Clone, Copy, Debug, PartialEq, Eq, Structural)]
pub struct VestingData {
    pub prevesting_amount: u128,
    pub prevested_amount: u128,
    pub vesting_amount: u128,
    pub vested_amount: u128,
    pub claimable_amount: u128,
    pub claimed_amount: u128,
    pub registration_time: u64,
    pub start_time: u64,
    pub end_time: u64,
}

/// The sums of the per-account figures over all live accounts.
#[derive(Clone, Copy, Debug, PartialEq, Eq, Structural)]
pub struct TotalVestingInfo {
    pub prevesting_amount: u128,
    pub prevested_amount: u128,
    pub vesting_amount: u128,
    pub vested_amount: u128,
    pub claimed_amount: u128,
}

impl VestingData {
    /// The all-zero projection, reported where no snapshot exists.
    pub open spec fn zero() -> VestingData {
        VestingData {
            prevesting_amount: 0,
            prevested_amount: 0,
            vesting_amount: 0,
            vested_amount: 0,
            claimable_amount: 0,
            claimed_amount: 0,
            registration_time: 0,
            start_time: 0,
            end_time: 0,
        }
    }
}

impl Default for VestingData {
    fn default() -> (d: VestingData)
        ensures
            d == VestingData::zero(),
    {
        VestingData {
            prevesting_amount: 0,
            prevested_amount: 0,
            vesting_amount: 0,
            vested_amount: 0,
            claimable_amount: 0,
            claimed_amount: 0,
            registration_time: 0,
            start_time: 0,
            end_time: 0,
        }
    }
}

impl TotalVestingInfo {
    /// The aggregate of no accounts.
    pub open spec fn zero() -> TotalVestingInfo {
        TotalVestingInfo {
            prevesting_amount: 0,
            prevested_amount: 0,
            vesting_amount: 0,
            vested_amount: 0,
            claimed_amount: 0,
        }
    }
}

impl Default for TotalVestingInfo {
    fn default() -> (t: TotalVestingInfo)
        ensures
            t == TotalVestingInfo::zero(),
    {
        TotalVestingInfo {
            prevesting_amount: 0,
            prevested_amount: 0,
            vesting_amount: 0,
            vested_amount: 0,
            claimed_amount: 0,
        }
    }
}

impl VestingTerms {
    /// The amount vested at `time`: nothing before the window opens, all of
    /// it from its end on, and in between the share of the window that has
    /// elapsed, rounded down.
    pub open spec fn vested_at(self, time: u64) -> int {
        if time < self.start_time {
            0
        } else if time >= self.end_time {
            self.vesting_amount as int
        } else {
            ratio_of(
                self.vesting_amount,
                (time - self.start_time) as u128,
                (self.end_time - self.start_time) as u128,
            )
        }
    }

    /// The early entitlement at `time`: nothing before registration, the whole
    /// amount from the start of the window on, and in between a ramp from
    /// registration to start that is never below `prevesting_amount` and never
    /// above `vesting_amount`.
    pub open spec fn prevested_at(self, time: u64) -> int {
        if time < self.registration_time {
            0
        } else if time >= self.start_time {
            self.vesting_amount as int
        } else {
            let ramp = ratio_of(
                self.vesting_amount,
                (time - self.registration_time) as u128,
                (self.start_time - self.registration_time) as u128,
            );
            let floored = if self.prevesting_amount > ramp {
                self.prevesting_amount as int
            } else {
                ramp
            };
            if floored > self.vesting_amount {
                self.vesting_amount as int
            } else {
                floored
            }
        }
    }

    /// What is owed and not yet paid out at `time`.
    pub open spec fn claimable_at(self, time: u64) -> int {
        self.vested_at(time) - self.claimed_amount
    }

    /// The first rule that the terms break at block time `block_time`, if any:
    /// both amounts are positive, the early amount is no more than the whole,
    /// registration is not before the block, the window does not open before
    /// registration, and it does not close before it opens.
    pub open spec fn validated(self, block_time: u64) -> Result<(), VestingError> {
        if self.prevesting_amount == 0 {
            Err(VestingError::ZeroPrevestingAmount)
        } else if self.vesting_amount == 0 {
            Err(VestingError::ZeroVestingAmount)
        } else if self.prevesting_amount > self.vesting_amount {
            Err(VestingError::PrevestingAboveVesting)
        } else if self.registration_time < block_time {
            Err(VestingError::RegistrationBeforeBlock)
        } else if self.start_time < self.registration_time {
            Err(VestingError::StartBeforeRegistration)
        } else if self.end_time < self.start_time {
            Err(VestingError::EndBeforeStart)
        } else {
            Ok(())
        }
    }

    /// The projection of the terms at `time`. Where more has been claimed than
    /// is vested, nothing is claimable.
    pub open spec fn projection(self, time: u64) -> VestingData {
        VestingData {
            prevesting_amount: self.prevesting_amount,
            prevested_amount: self.prevested_at(time) as u128,
            vesting_amount: self.vesting_amount,
            vested_amount: self.vested_at(time) as u128,
            claimable_amount: if self.claimable_at(time) < 0 {
                0
            } else {
                self.claimable_at(time) as u128
            },
            claimed_amount: self.claimed_amount,
            registration_time: self.registration_time,
            start_time: self.start_time,
            end_time: self.end_time,
        }
    }

    /// The projection of the terms at `time`, or the underflow that stands in
    /// its way when more has been claimed than is vested.
    pub open spec fn projected(self, time: u64) -> Result<VestingData, VestingError> {
        if self.claimed_amount > self.vested_at(time) {
            Err(VestingError::Underflow)
        } else {
            Ok(self.projection(time))
        }
    }

    /// Terms that pass have positive amounts, the early one no more than the
    /// whole, and their instants in order: the block, then registration, then
    /// the start of the window, then its end. So a window that opens before
    /// the block never passes.
    pub proof fn lemma_validated_orders_times(self, block_time: u64)
        ensures
            self.validated(block_time) is Ok <==> {
                &&& 0 < self.prevesting_amount <= self.vesting_amount
                &&& block_time <= self.registration_time <= self.start_time <= self.end_time
            },
            self.start_time < block_time ==> self.validated(block_time) is Err,
    {
    }

    /// The vested amount always lies between nothing and the whole.
    pub proof fn lemma_vested_bounded(self, time: u64)
        ensures
            0 <= self.vested_at(time) <= self.vesting_amount,
    {
        if self.start_time <= time < self.end_time {
            lemma_ratio_bounded(
                self.vesting_amount,
                (time - self.start_time) as u128,
                (self.end_time - self.start_time) as u128,
            );
        }
    }

    /// The early entitlement always lies between nothing and the whole.
    pub proof fn lemma_prevested_bounded(self, time: u64)
        ensures
            0 <= self.prevested_at(time) <= self.vesting_amount,
    {
        if self.registration_time <= time < self.start_time {
            lemma_ratio_bounded(
                self.vesting_amount,
                (time - self.registration_time) as u128,
                (self.start_time - self.registration_time) as u128,
            );
        }
    }

    /// Inside the window the vested amount is the linear share of the whole,
    /// rounded down: it times the length of the window is at most the amount
    /// times the elapsed time, and misses it by less than one window length.
    /// At the start it is nothing; at the end it is everything.
    pub proof fn lemma_linearity(self, time: u64)
        requires
            self.start_time <= time <= self.end_time,
            self.start_time < self.end_time,
        ensures
            self.vested_at(time) * (self.end_time - self.start_time) <= self.vesting_amount * (time
                - self.start_time),
            self.vesting_amount * (time - self.start_time) < (self.vested_at(time) + 1) * (
            self.end_time - self.start_time),
            time == self.start_time ==> self.vested_at(time) == 0,
            time == self.end_time ==> self.vested_at(time) == self.vesting_amount,
    {
        let span = (self.end_time - self.start_time) as int;
        let elapsed = (time - self.start_time) as int;
        let amount = self.vesting_amount as int;
        if time < self.end_time {
            assert(self.vested_at(time) == (amount * elapsed) / span);
            assert(((amount * elapsed) / span) * span <= amount * elapsed && amount * elapsed < ((
            amount * elapsed) / span + 1) * span) by (nonlinear_arith)
                requires
                    span > 0,
            ;
            if time == self.start_time {
                assert((amount * 0) / span == 0) by (nonlinear_arith)
                    requires
                        span > 0,
                ;
            }
        } else {
            assert(amount * span < (amount + 1) * span) by (nonlinear_arith)
                requires
                    span > 0,
            ;
        }
    }

    /// Inside the window the vested amount is the only number within the
    /// tolerance of rounding down: whatever times the length of the window is
    /// at most the amount times the elapsed time, and misses it by less than
    /// one window length, is the vested amount.
    pub proof fn lemma_vested_value(self, time: u64, value: int)
        requires
            self.start_time <= time < self.end_time,
            value * (self.end_time - self.start_time) <= self.vesting_amount * (time
                - self.start_time),
            self.vesting_amount * (time - self.start_time) < (value + 1) * (self.end_time
                - self.start_time),
        ensures
            self.vested_at(time) == value,
    {
        let span = (self.end_time - self.start_time) as int;
        let elapsed = (time - self.start_time) as int;
        let amount = self.vesting_amount as int;
        assert((amount * elapsed) / span == value) by (nonlinear_arith)
            requires
                span > 0,
                value * span <= amount * elapsed < (value + 1) * span,
        ;
    }

    /// The vested amount never goes down as time goes on.
    pub proof fn lemma_vested_monotone(self, earlier: u64, later: u64)
        requires
            earlier <= later,
        ensures
            self.vested_at(earlier) <= self.vested_at(later),
    {
        self.lemma_vested_bounded(earlier);
        self.lemma_vested_bounded(later);
        if self.start_time <= earlier && later < self.end_time {
            lemma_ratio_monotone(
                self.vesting_amount,
                (earlier - self.start_time) as u128,
                (later - self.start_time) as u128,
                (self.end_time - self.start_time) as u128,
            );
        }
    }
}

impl Account {
    /// The numbers of the account, without its address.
    pub open spec fn terms(&self) -> VestingTerms {
        VestingTerms {
            prevesting_amount: self.prevesting_amount,
            vesting_amount: self.vesting_amount,
            claimed_amount: self.claimed_amount,
            registration_time: self.registration_time,
            start_time: self.start_time,
            end_time: self.end_time,
        }
    }

    /// The account registered for `address` under `terms`.
    pub fn from_terms(address: String, terms: VestingTerms) -> (account: Account)
        ensures
            account.address@ == address@,
            account.terms() == terms,
    {
        Account {
            address,
            prevesting_amount: terms.prevesting_amount,
            vesting_amount: terms.vesting_amount,
            claimed_amount: terms.claimed_amount,
            registration_time: terms.registration_time,
            start_time: terms.start_time,
            end_time: terms.end_time,
        }
    }

    /// The numbers of the account, without its address.
    pub fn to_terms(&self) -> (terms: VestingTerms)
        ensures
            terms == self.terms(),
    {
        VestingTerms {
            prevesting_amount: self.prevesting_amount,
            vesting_amount: self.vesting_amount,
            claimed_amount: self.claimed_amount,
            registration_time: self.registration_time,
            start_time: self.start_time,
            end_time: self.end_time,
        }
    }

    /// Checks the rules of registration against the current block, in a fixed
    /// order, and reports the first one that is broken. A window that opens
    /// before the block is reported as opening before registration, or as a
    /// registration before the block.
    pub fn validate(&self, block_info: &BlockInfo) -> (r: Result<(), VestingError>)
        ensures
            r == self.terms().validated(block_info.time),
    {
        if self.prevesting_amount == 0 {
            return Err(VestingError::ZeroPrevestingAmount);
        }
        if self.vesting_amount == 0 {
            return Err(VestingError::ZeroVestingAmount);
        }
        if self.prevesting_amount > self.vesting_amount {
            return Err(VestingError::PrevestingAboveVesting);
        }
        if self.registration_time < block_info.time {
            return Err(VestingError::RegistrationBeforeBlock);
        }
        if self.start_time < self.registration_time {
            return Err(VestingError::StartBeforeRegistration);
        }
        if self.end_time < self.start_time {
            return Err(VestingError::EndBeforeStart);
        }
        Ok(())
    }

    /// The amount vested at the time of the block. Always succeeds: the
    /// product is taken in 256 bits, so no amount and no window overflow.
    pub fn vested_amount(&self, block_info: &BlockInfo) -> (r: Result<u128, VestingError>)
        ensures
            r is Ok,
            r->Ok_0 == self.terms().vested_at(block_info.time),
    {
        if block_info.time < self.start_time {
            return Ok(0);
        }
        if block_info.time >= self.end_time {
            return Ok(self.vesting_amount);
        }
        let elapsed: u64 = block_info.time - self.start_time;
        let span: u64 = self.end_time - self.start_time;
        proof {
            lemma_ratio_bounded(self.vesting_amount, elapsed as u128, span as u128);
        }
        match checked_multiply_ratio(self.vesting_amount, elapsed as u128, span as u128) {
            Some(vested) => Ok(vested),
            None => Err(VestingError::Overflow),
        }
    }

    /// The early entitlement at the time of the block. Always succeeds.
    pub fn prevested_amount(&self, block_info: &BlockInfo) -> (r: Result<u128, VestingError>)
        ensures
            r is Ok,
            r->Ok_0 == self.terms().prevested_at(block_info.time),
    {
        if block_info.time < self.registration_time {
            return Ok(0);
        }
        if block_info.time >= self.start_time {
            return Ok(self.vesting_amount);
        }
        let elapsed: u64 = block_info.time - self.registration_time;
        let span: u64 = self.start_time - self.registration_time;
        proof {
            lemma_ratio_bounded(self.vesting_amount, elapsed as u128, span as u128);
        }
        let ramp: u128 = match checked_multiply_ratio(
            self.vesting_amount,
            elapsed as u128,
            span as u128,
        ) {
            Some(ramp) => ramp,
            None => {
                return Err(VestingError::Overflow);
            },
        };
        let floored: u128 = if self.prevesting_amount > ramp {
            self.prevesting_amount
        } else {
            ramp
        };
        if floored > self.vesting_amount {
            Ok(self.vesting_amount)
        } else {
            Ok(floored)
        }
    }
}

/// Projects the account at the time of the block. Fails with `Underflow`
/// exactly when more has been claimed than is vested by then.
pub fn get_vesting_data_from_account(account: Account, block_info: &BlockInfo) -> (r: Result<
    VestingData,
    VestingError,
>)
    ensures
        r == account.terms().projected(block_info.time),
{
    let vested_amount: u128 = match account.vested_amount(block_info) {
        Ok(v) => v,
        Err(e) => { return Err(e); },
    };
    let prevested_amount: u128 = match account.prevested_amount(block_info) {
        Ok(v) => v,
        Err(e) => { return Err(e); },
    };
    let claimed_amount: u128 = account.claimed_amount;
    if claimed_amount > vested_amount {
        return Err(VestingError::Underflow);
    }
    let claimable_amount: u128 = vested_amount - claimed_amount;
    Ok(
        VestingData {
            prevesting_amount: account.prevesting_amount,
            prevested_amount,
            vesting_amount: account.vesting_amount,
            vested_amount,
            registration_time: account.registration_time,
            start_time: account.start_time,
            end_time: account.end_time,
            claimable_amount,
            claimed_amount: account.claimed_amount,
        },
    )
}

} // verus!
