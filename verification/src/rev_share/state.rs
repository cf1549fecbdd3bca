use crate::math::checked_multiply_ratio;
use crate::math::ratio_of;
use crate::schedule::Expiration;
use crate::rev_share::store::StageRow;
use crate::schedule::Scheduled;
use crate::text::copy_of;
use vstd::prelude::*;

verus! {

/// The settings of the contract.
#[derive(Clone, Debug, PartialEq)]
pub struct Config {
    /// The owner. Where there is none, the contract is frozen.
    pub owner: Option<String>,
    pub cw20_token_address: String,
    pub native_token: String,
    pub cw20_staking_address: String,
}

/// A `Config` with its strings as sequences of characters.
pub struct ConfigView {
    pub owner: Option<Seq<char>>,
    pub cw20_token_address: Seq<char>,
    pub native_token: Seq<char>,
    pub cw20_staking_address: Seq<char>,
}

impl View for Config {
    type V = ConfigView;

    open spec fn view(&self) -> ConfigView {
        ConfigView {
            owner: crate::text::text_of(self.owner),
            cw20_token_address: self.cw20_token_address@,
            native_token: self.native_token@,
            cw20_staking_address: self.cw20_staking_address@,
        }
    }
}

/// One round of revenue sharing: the block whose stakes count, until when and
/// from when it can be claimed, whether it is paused, what it hands out in
/// all and what was claimed of that so far.
#[derive(Clone, Copy, Debug, PartialEq, Eq, Structural)]
pub struct Stage {
    pub height: u64,
    pub expiration: Expiration,
    pub start: Option<Scheduled>,
    pub paused: bool,
    pub amount: u128,
    pub claimed: u128,
}

/// What the chain answers to the questions that a handler asks of it while
/// it runs; `None` where a question was not answered.
#[derive(Clone, Copy, Debug, PartialEq, Eq, Structural)]
pub struct ChainAnswers {
    /// How much was staked in all at the block of the stage.
    pub total_staked: Option<u128>,
    /// How much the sender had staked at the block of the stage.
    pub staked_balance: Option<u128>,
    /// How much of the native token the contract holds.
    pub balance: Option<u128>,
}

/// The point in time that a stored row names: a height where it has one, else
/// a time where it has one, else never.
pub open spec fn expiration_of(at_height: Option<u64>, at_time: Option<u64>) -> Expiration {
    match (at_height, at_time) {
        (Some(height), _) => Expiration::AtHeight(height),
        (None, Some(time)) => Expiration::AtTime(time),
        (None, None) => Expiration::Never {  },
    }
}

/// The start that a stored row names: a height where it has one, else a time
/// where it has one, else none.
pub open spec fn start_of(at_height: Option<u64>, at_time: Option<u64>) -> Option<Scheduled> {
    match (at_height, at_time) {
        (Some(height), _) => Some(Scheduled::AtHeight(height)),
        (None, Some(time)) => Some(Scheduled::AtTime(time)),
        (None, None) => None,
    }
}

/// The stage that a stored row stands for.
pub open spec fn stage_of(row: StageRow) -> Stage {
    Stage {
        height: row.0,
        expiration: expiration_of(row.1, row.2),
        start: start_of(row.3, row.4),
        paused: row.5,
        amount: row.6,
        claimed: row.7,
    }
}

impl Stage {
    /// The row under which the stage is stored.
    pub fn to_row(&self) -> (row: StageRow)
        ensures
            stage_of(row) == *self,
    {
        let (expires_at_height, expires_at_time) = match self.expiration {
            Expiration::AtHeight(height) => (Some(height), None),
            Expiration::AtTime(time) => (None, Some(time)),
            Expiration::Never {  } => (None, None),
        };
        let (starts_at_height, starts_at_time) = match self.start {
            Some(Scheduled::AtHeight(height)) => (Some(height), None),
            Some(Scheduled::AtTime(time)) => (None, Some(time)),
            None => (None, None),
        };
        (
            self.height,
            expires_at_height,
            expires_at_time,
            starts_at_height,
            starts_at_time,
            self.paused,
            self.amount,
            self.claimed,
        )
    }

    /// The stage that a stored row stands for.
    pub fn from_row(row: StageRow) -> (stage: Stage)
        ensures
            stage == stage_of(row),
    {
        let expiration = match (row.1, row.2) {
            (Some(height), _) => Expiration::AtHeight(height),
            (None, Some(time)) => Expiration::AtTime(time),
            (None, None) => Expiration::Never {  },
        };
        let start = match (row.3, row.4) {
            (Some(height), _) => Some(Scheduled::AtHeight(height)),
            (None, Some(time)) => Some(Scheduled::AtTime(time)),
            (None, None) => None,
        };
        Stage {
            height: row.0,
            expiration,
            start,
            paused: row.5,
            amount: row.6,
            claimed: row.7,
        }
    }
}

/// The share of `total_amount` that falls to a stake of `stake` out of
/// `total_staked`, rounded down; nothing where nothing is staked or the share
/// would not fit in 128 bits.
pub open spec fn allocation_of(total_amount: u128, total_staked: u128, stake: u128) -> u128 {
    if total_staked == 0 || ratio_of(stake, total_amount, total_staked) > u128::MAX {
        0
    } else {
        ratio_of(stake, total_amount, total_staked) as u128
    }
}

/// The sum of the stakes in a list of stakers.
pub open spec fn stakes_sum(stakers: Seq<(String, u128)>) -> int
    decreases stakers.len(),
{
    if stakers.len() == 0 {
        0
    } else {
        stakes_sum(stakers.drop_last()) + stakers.last().1
    }
}

/// The share of `total_amount` that falls to a stake of `stake` out of
/// `total_staked`.
pub fn compute_allocation(total_amount: u128, total_staked: u128, stake: u128) -> (allocation: u128)
    ensures
        allocation == allocation_of(total_amount, total_staked, stake),
{
    match checked_multiply_ratio(stake, total_amount, total_staked) {
        Some(allocation) => allocation,
        None => 0,
    }
}

/// Splits `total_amount` among the stakers in proportion to their stakes, in
/// the order in which they are listed. The stakes in all must fit in 128
/// bits.
pub fn compute_allocations(total_amount: u128, staker_snapshot: Vec<(String, u128)>) -> (allocations:
    Vec<(String, u128)>)
    requires
        stakes_sum(staker_snapshot@) <= u128::MAX,
    ensures
        allocations@.len() == staker_snapshot@.len(),
        forall|i: int|
            0 <= i < allocations@.len() ==> (#[trigger] allocations@[i]).0@ == staker_snapshot@[i].0@
                && allocations@[i].1 == allocation_of(
                total_amount,
                stakes_sum(staker_snapshot@) as u128,
                staker_snapshot@[i].1,
            ),
{
    let mut total_staked: u128 = 0;
    let mut i: usize = 0;
    proof {
        assert(staker_snapshot@.take(0) =~= Seq::empty());
    }
    while i < staker_snapshot.len()
        invariant
            i <= staker_snapshot.len(),
            stakes_sum(staker_snapshot@) <= u128::MAX,
            total_staked == stakes_sum(staker_snapshot@.take(i as int)),
        decreases staker_snapshot.len() - i,
    {
        proof {
            assert(staker_snapshot@.take(i + 1).drop_last() =~= staker_snapshot@.take(i as int));
            lemma_stakes_sum_grows(staker_snapshot@, i + 1);
        }
        total_staked = total_staked + staker_snapshot[i].1;
        i += 1;
    }
    proof {
        assert(staker_snapshot@.take(i as int) =~= staker_snapshot@);
    }
    let mut allocations: Vec<(String, u128)> = Vec::new();
    let mut k: usize = 0;
    while k < staker_snapshot.len()
        invariant
            k <= staker_snapshot.len(),
            allocations@.len() == k,
            total_staked == stakes_sum(staker_snapshot@),
            forall|j: int|
                0 <= j < k ==> (#[trigger] allocations@[j]).0@ == staker_snapshot@[j].0@
                    && allocations@[j].1 == allocation_of(
                    total_amount,
                    total_staked,
                    staker_snapshot@[j].1,
                ),
        decreases staker_snapshot.len() - k,
    {
        let allocation = compute_allocation(total_amount, total_staked, staker_snapshot[k].1);
        allocations.push((copy_of(&staker_snapshot[k].0), allocation));
        k += 1;
    }
    allocations
}

/// The stakes of a part of the list add up to no more than those of all.
pub proof fn lemma_stakes_sum_grows(stakers: Seq<(String, u128)>, count: int)
    requires
        0 <= count <= stakers.len(),
    ensures
        0 <= stakes_sum(stakers.take(count)) <= stakes_sum(stakers),
    decreases stakers.len() - count,
{
    if count == stakers.len() {
        assert(stakers.take(count) =~= stakers);
        lemma_stakes_sum_nonnegative(stakers);
    } else {
        lemma_stakes_sum_grows(stakers, count + 1);
        lemma_stakes_sum_nonnegative(stakers.take(count));
        assert(stakers.take(count + 1).drop_last() =~= stakers.take(count));
    }
}

/// A sum of stakes is not negative.
pub proof fn lemma_stakes_sum_nonnegative(stakers: Seq<(String, u128)>)
    ensures
        0 <= stakes_sum(stakers),
    decreases stakers.len(),
{
    if stakers.len() > 0 {
        lemma_stakes_sum_nonnegative(stakers.drop_last());
    }
}

} // verus!
