use crate::context::BlockInfo;
use crate::custom_vesting::error::VestingError;
use vstd::prelude::*;

verus! {

/// Where a scheduled payment stands. `Paid` and `Revoked` are final.
#[derive(Clone, Copy, Debug, PartialEq, Eq, Structural)]
pub enum PaymentStatus {
    Pending,
    Paid,
    Revoked,
}

/// One tick of a payment schedule: the slice of the entitlement that it
/// releases, the block height at which it does, and the time that goes with
/// that height.
#[derive(Clone, Copy, Debug, PartialEq, Eq, Structural)]
pub struct ScheduledPayment {
    pub amount: u128,
    pub height: u64,
    pub timestamp: u64,
    pub status: PaymentStatus,
}

/// How many ticks of `block_duration` fit between `start_time` and
/// `end_time`: none where the interval or the duration has no length.
pub open spec fn tick_count(block_duration: u64, start_time: u64, end_time: u64) -> int {
    if block_duration == 0 || end_time <= start_time {
        0
    } else {
        (end_time - start_time) / (block_duration as int)
    }
}

/// The time of the tick with the given index.
pub open spec fn tick_time(block_duration: u64, start_time: u64, index: int) -> int {
    start_time + index * block_duration
}

/// The height at which a tick at `time` falls: the height of the current
/// block plus the number of whole ticks from its time to `time`.
pub open spec fn tick_height(block_duration: u64, current_block: BlockInfo, time: int) -> int {
    if time <= current_block.time || block_duration == 0 {
        current_block.height as int
    } else {
        current_block.height + (time - current_block.time) / (block_duration as int)
    }
}

/// The tick with the given index of the schedule that spreads `total_amount`
/// evenly over the ticks between `start_time` and `end_time`; what does not
/// divide evenly is left out.
pub open spec fn tick_of(
    block_duration: u64,
    current_block: BlockInfo,
    start_time: u64,
    end_time: u64,
    total_amount: u128,
    index: int,
) -> ScheduledPayment {
    ScheduledPayment {
        amount: (total_amount as int / tick_count(block_duration, start_time, end_time)) as u128,
        height: tick_height(
            block_duration,
            current_block,
            tick_time(block_duration, start_time, index),
        ) as u64,
        timestamp: tick_time(block_duration, start_time, index) as u64,
        status: PaymentStatus::Pending,
    }
}

/// The schedule that spreads `total_amount` over the ticks between
/// `start_time` and `end_time`.
pub open spec fn schedule_of(
    block_duration: u64,
    current_block: BlockInfo,
    start_time: u64,
    end_time: u64,
    total_amount: u128,
) -> Seq<ScheduledPayment> {
    Seq::new(
        tick_count(block_duration, start_time, end_time) as nat,
        |index: int|
            tick_of(block_duration, current_block, start_time, end_time, total_amount, index),
    )
}

/// Whether the height of the last tick fits in 64 bits.
pub open spec fn heights_fit(
    block_duration: u64,
    current_block: BlockInfo,
    start_time: u64,
    end_time: u64,
) -> bool {
    let ticks = tick_count(block_duration, start_time, end_time);
    ticks == 0 || tick_height(
        block_duration,
        current_block,
        tick_time(block_duration, start_time, ticks - 1),
    ) <= u64::MAX
}

/// The time of every tick lies in the window, and ticks come in the order of
/// their times and heights.
pub proof fn lemma_ticks_in_order(
    block_duration: u64,
    current_block: BlockInfo,
    start_time: u64,
    end_time: u64,
    index: int,
    later: int,
)
    requires
        0 <= index <= later < tick_count(block_duration, start_time, end_time),
    ensures
        start_time <= tick_time(block_duration, start_time, index) <= tick_time(
            block_duration,
            start_time,
            later,
        ) < end_time,
        current_block.height <= tick_height(
            block_duration,
            current_block,
            tick_time(block_duration, start_time, index),
        ) <= tick_height(
            block_duration,
            current_block,
            tick_time(block_duration, start_time, later),
        ),
{
    let ticks = tick_count(block_duration, start_time, end_time);
    let span = (end_time - start_time) as int;
    let duration = block_duration as int;
    assert(ticks * duration <= span) by (nonlinear_arith)
        requires
            ticks == span / duration,
            duration > 0,
            span >= 0,
    ;
    assert(0 <= index * duration <= later * duration && later * duration + duration <= ticks
        * duration) by (nonlinear_arith)
        requires
            0 <= index <= later < ticks,
            duration > 0,
    ;
    let first = tick_time(block_duration, start_time, index);
    let second = tick_time(block_duration, start_time, later);
    let now = current_block.time as int;
    if first > now {
        assert(0 <= (first - now) / duration <= (second - now) / duration) by (nonlinear_arith)
            requires
                0 < first - now <= second - now,
                duration > 0,
        ;
    } else if second > now {
        assert(0 <= (second - now) / duration) by (nonlinear_arith)
            requires
                0 < second - now,
                duration > 0,
        ;
    }
}

/// A schedule never hands out more than the entitlement: its ticks add up to
/// the entitlement less what did not divide evenly.
pub proof fn lemma_schedule_total(
    block_duration: u64,
    start_time: u64,
    end_time: u64,
    total_amount: u128,
)
    requires
        tick_count(block_duration, start_time, end_time) > 0,
    ensures
        ({
            let ticks = tick_count(block_duration, start_time, end_time);
            let each = total_amount as int / ticks;
            0 <= each * ticks <= total_amount && total_amount - each * ticks < ticks
        }),
{
    let ticks = tick_count(block_duration, start_time, end_time);
    let total = total_amount as int;
    assert(0 <= (total / ticks) * ticks <= total && total - (total / ticks) * ticks < ticks)
        by (nonlinear_arith)
        requires
            ticks > 0,
            total >= 0,
    ;
}

/// Spreads `total_amount` evenly over the ticks of length `block_duration`
/// between `start_time` and `end_time`, all pending. An interval or a
/// duration of no length gives no ticks. Fails with `Overflow` exactly when
/// the height of the last tick does not fit in 64 bits.
pub fn generate_schedule(
    block_duration: u64,
    current_block: &BlockInfo,
    start_time: u64,
    end_time: u64,
    total_amount: u128,
) -> (result: Result<Vec<ScheduledPayment>, VestingError>)
    ensures
        heights_fit(block_duration, *current_block, start_time, end_time) ==> result is Ok
            && result->Ok_0@ == schedule_of(
            block_duration,
            *current_block,
            start_time,
            end_time,
            total_amount,
        ),
        !heights_fit(block_duration, *current_block, start_time, end_time) ==> result == Err::<
            Vec<ScheduledPayment>,
            VestingError,
        >(VestingError::Overflow),
{
    let mut payments: Vec<ScheduledPayment> = Vec::new();
    if block_duration == 0 || end_time <= start_time {
        assert(payments@ =~= schedule_of(
            block_duration,
            *current_block,
            start_time,
            end_time,
            total_amount,
        ));
        return Ok(payments);
    }
    let ticks: u64 = (end_time - start_time) / block_duration;
    if ticks == 0 {
        assert(payments@ =~= schedule_of(
            block_duration,
            *current_block,
            start_time,
            end_time,
            total_amount,
        ));
        return Ok(payments);
    }
    let amount: u128 = total_amount / (ticks as u128);
    let ghost wanted = schedule_of(block_duration, *current_block, start_time, end_time, total_amount);
    proof {
        lemma_ticks_in_order(
            block_duration,
            *current_block,
            start_time,
            end_time,
            ticks - 1,
            ticks - 1,
        );
    }
    let last_time: u64 = start_time + (ticks - 1) * block_duration;
    if last_time > current_block.time {
        let ahead: u64 = (last_time - current_block.time) / block_duration;
        if ahead > u64::MAX - current_block.height {
            return Err(VestingError::Overflow);
        }
    }
    let mut index: u64 = 0;
    while index < ticks
        invariant
            index <= ticks,
            block_duration > 0,
            start_time < end_time,
            ticks == tick_count(block_duration, start_time, end_time),
            amount == total_amount as int / (ticks as int),
            heights_fit(block_duration, *current_block, start_time, end_time),
            wanted == schedule_of(block_duration, *current_block, start_time, end_time, total_amount),
            payments@.len() == index,
            forall|i: int| 0 <= i < index ==> payments@[i] == wanted[i],
        decreases ticks - index,
    {
        proof {
            lemma_ticks_in_order(
                block_duration,
                *current_block,
                start_time,
                end_time,
                index as int,
                ticks - 1,
            );
        }
        let timestamp: u64 = start_time + index * block_duration;
        let height: u64 = if timestamp > current_block.time {
            current_block.height + (timestamp - current_block.time) / block_duration
        } else {
            current_block.height
        };
        payments.push(ScheduledPayment { amount, height, timestamp, status: PaymentStatus::Pending });
        index += 1;
    }
    assert(payments@ =~= wanted);
    Ok(payments)
}

/// Whether the payment has come due by `height`.
pub open spec fn is_due(payment: ScheduledPayment, height: u64) -> bool {
    payment.height <= height
}

/// The sum of the amounts of the payments that are due by `height` and whose
/// status `counts` accepts.
pub open spec fn due_total(
    payments: Seq<ScheduledPayment>,
    height: u64,
    counts: spec_fn(PaymentStatus) -> bool,
) -> int
    decreases payments.len(),
{
    if payments.len() == 0 {
        0
    } else {
        due_total(payments.drop_last(), height, counts) + if is_due(payments.last(), height)
            && counts(payments.last().status) {
            payments.last().amount as int
        } else {
            0
        }
    }
}

/// Which statuses count towards what is vested: all of them.
pub open spec fn any_status() -> spec_fn(PaymentStatus) -> bool {
    |status: PaymentStatus| true
}

/// Which statuses count towards what is claimed: `Paid`.
pub open spec fn paid_status() -> spec_fn(PaymentStatus) -> bool {
    |status: PaymentStatus| status == PaymentStatus::Paid
}

/// Which statuses count towards what is claimable: `Pending`.
pub open spec fn pending_status() -> spec_fn(PaymentStatus) -> bool {
    |status: PaymentStatus| status == PaymentStatus::Pending
}

/// Which statuses count towards what was revoked: `Revoked`.
pub open spec fn revoked_status() -> spec_fn(PaymentStatus) -> bool {
    |status: PaymentStatus| status == PaymentStatus::Revoked
}

/// What has vested by `height`: the sum of every payment due by then.
pub open spec fn vested_by(payments: Seq<ScheduledPayment>, height: u64) -> int {
    due_total(payments, height, any_status())
}

/// What was claimed by `height`: the sum of every paid payment due by then.
pub open spec fn claimed_by(payments: Seq<ScheduledPayment>, height: u64) -> int {
    due_total(payments, height, paid_status())
}

/// What can be claimed at `height`: the sum of every pending payment due by
/// then.
pub open spec fn claimable_by(payments: Seq<ScheduledPayment>, height: u64) -> int {
    due_total(payments, height, pending_status())
}

/// A due total is not negative.
pub proof fn lemma_due_total_nonnegative(
    payments: Seq<ScheduledPayment>,
    height: u64,
    counts: spec_fn(PaymentStatus) -> bool,
)
    ensures
        0 <= due_total(payments, height, counts),
    decreases payments.len(),
{
    if payments.len() > 0 {
        lemma_due_total_nonnegative(payments.drop_last(), height, counts);
    }
}

/// The due total of a part of a schedule is at most that of all of it.
pub proof fn lemma_due_total_grows(
    payments: Seq<ScheduledPayment>,
    height: u64,
    counts: spec_fn(PaymentStatus) -> bool,
    count: int,
)
    requires
        0 <= count <= payments.len(),
    ensures
        0 <= due_total(payments.take(count), height, counts) <= due_total(payments, height, counts),
    decreases payments.len() - count,
{
    if count == payments.len() {
        assert(payments.take(count) =~= payments);
        lemma_due_total_nonnegative(payments, height, counts);
    } else {
        lemma_due_total_grows(payments, height, counts, count + 1);
        lemma_due_total_nonnegative(payments.take(count), height, counts);
        assert(payments.take(count + 1).drop_last() =~= payments.take(count));
    }
}

/// What has vested never goes down as the height goes up.
pub proof fn lemma_vested_by_monotone(payments: Seq<ScheduledPayment>, earlier: u64, later: u64)
    requires
        earlier <= later,
    ensures
        vested_by(payments, earlier) <= vested_by(payments, later),
    decreases payments.len(),
{
    if payments.len() > 0 {
        lemma_vested_by_monotone(payments.drop_last(), earlier, later);
    }
}

/// What has vested is what was claimed, what can be claimed and what was
/// revoked, taken together.
pub proof fn lemma_vested_by_status(payments: Seq<ScheduledPayment>, height: u64)
    ensures
        vested_by(payments, height) == claimed_by(payments, height) + claimable_by(payments, height)
            + due_total(payments, height, revoked_status()),
    decreases payments.len(),
{
    if payments.len() > 0 {
        lemma_vested_by_status(payments.drop_last(), height);
    }
}

/// Adds up the payments that are due by `height` and whose status is
/// `status`, or all that are due where no status is named. Fails with
/// `Overflow` exactly when the sum does not fit in 128 bits.
fn sum_due(payments: &Vec<ScheduledPayment>, height: u64, status: Option<PaymentStatus>) -> (result:
    Result<u128, VestingError>)
    ensures
        ({
            let counts = match status {
                None => any_status(),
                Some(PaymentStatus::Paid) => paid_status(),
                Some(PaymentStatus::Pending) => pending_status(),
                Some(PaymentStatus::Revoked) => revoked_status(),
            };
            result == (if due_total(payments@, height, counts) <= u128::MAX {
                Ok(due_total(payments@, height, counts) as u128)
            } else {
                Err(VestingError::Overflow)
            })
        }),
{
    let ghost counts = match status {
        None => any_status(),
        Some(PaymentStatus::Paid) => paid_status(),
        Some(PaymentStatus::Pending) => pending_status(),
        Some(PaymentStatus::Revoked) => revoked_status(),
    };
    let mut total: u128 = 0;
    let mut i: usize = 0;
    proof {
        assert(payments@.take(0) =~= Seq::empty());
    }
    while i < payments.len()
        invariant
            i <= payments.len(),
            counts == (match status {
                None => any_status(),
                Some(PaymentStatus::Paid) => paid_status(),
                Some(PaymentStatus::Pending) => pending_status(),
                Some(PaymentStatus::Revoked) => revoked_status(),
            }),
            total == due_total(payments@.take(i as int), height, counts),
        decreases payments.len() - i,
    {
        proof {
            assert(payments@.take(i + 1).drop_last() =~= payments@.take(i as int));
            lemma_due_total_grows(payments@, height, counts, i + 1);
        }
        let payment = &payments[i];
        let counted = match status {
            None => true,
            Some(PaymentStatus::Paid) => payment.status == PaymentStatus::Paid,
            Some(PaymentStatus::Pending) => payment.status == PaymentStatus::Pending,
            Some(PaymentStatus::Revoked) => payment.status == PaymentStatus::Revoked,
        };
        if payment.height <= height && counted {
            if payment.amount > u128::MAX - total {
                return Err(VestingError::Overflow);
            }
            total = total + payment.amount;
        }
        i += 1;
    }
    proof {
        assert(payments@.take(i as int) =~= payments@);
        lemma_due_total_nonnegative(payments@, height, counts);
    }
    Ok(total)
}

/// What has vested by `height`. Fails with `Overflow` exactly when the sum
/// does not fit in 128 bits.
pub fn vested_at_height(payments: &Vec<ScheduledPayment>, height: u64) -> (result: Result<
    u128,
    VestingError,
>)
    ensures
        result == (if vested_by(payments@, height) <= u128::MAX {
            Ok(vested_by(payments@, height) as u128)
        } else {
            Err(VestingError::Overflow)
        }),
{
    sum_due(payments, height, None)
}

/// What was claimed by `height`. Fails with `Overflow` exactly when the sum
/// does not fit in 128 bits.
pub fn claimed_at_height(payments: &Vec<ScheduledPayment>, height: u64) -> (result: Result<
    u128,
    VestingError,
>)
    ensures
        result == (if claimed_by(payments@, height) <= u128::MAX {
            Ok(claimed_by(payments@, height) as u128)
        } else {
            Err(VestingError::Overflow)
        }),
{
    sum_due(payments, height, Some(PaymentStatus::Paid))
}

/// What can be claimed at `height`. Fails with `Overflow` exactly when the
/// sum does not fit in 128 bits.
pub fn claimable_at_height(payments: &Vec<ScheduledPayment>, height: u64) -> (result: Result<
    u128,
    VestingError,
>)
    ensures
        result == (if claimable_by(payments@, height) <= u128::MAX {
            Ok(claimable_by(payments@, height) as u128)
        } else {
            Err(VestingError::Overflow)
        }),
{
    sum_due(payments, height, Some(PaymentStatus::Pending))
}

/// The payment after a claim at `height`: paid where it was pending and due.
pub open spec fn settled(payment: ScheduledPayment, height: u64) -> ScheduledPayment {
    if payment.status == PaymentStatus::Pending && is_due(payment, height) {
        ScheduledPayment { status: PaymentStatus::Paid, ..payment }
    } else {
        payment
    }
}

/// The payment after a deregistration: revoked where it was pending.
pub open spec fn revoked(payment: ScheduledPayment) -> ScheduledPayment {
    if payment.status == PaymentStatus::Pending {
        ScheduledPayment { status: PaymentStatus::Revoked, ..payment }
    } else {
        payment
    }
}

/// Marks every pending payment that is due by `height` as paid; all else
/// stays as it is.
pub fn pay_due(payments: &mut Vec<ScheduledPayment>, height: u64)
    ensures
        final(payments)@ == old(payments)@.map_values(
            |payment: ScheduledPayment| settled(payment, height),
        ),
{
    let ghost before = payments@;
    let mut i: usize = 0;
    while i < payments.len()
        invariant
            i <= payments.len(),
            payments@.len() == before.len(),
            forall|j: int| 0 <= j < i ==> payments@[j] == settled(before[j], height),
            forall|j: int| i <= j < payments@.len() ==> payments@[j] == before[j],
        decreases payments.len() - i,
    {
        let payment = payments[i];
        if payment.status == PaymentStatus::Pending && payment.height <= height {
            payments[i] = ScheduledPayment { status: PaymentStatus::Paid, ..payment };
        }
        i += 1;
    }
    assert(payments@ =~= before.map_values(|payment: ScheduledPayment| settled(payment, height)));
}

/// Marks every pending payment as revoked; all else stays as it is.
pub fn revoke_pending(payments: &mut Vec<ScheduledPayment>)
    ensures
        final(payments)@ == old(payments)@.map_values(|payment: ScheduledPayment| revoked(payment)),
{
    let ghost before = payments@;
    let mut i: usize = 0;
    while i < payments.len()
        invariant
            i <= payments.len(),
            payments@.len() == before.len(),
            forall|j: int| 0 <= j < i ==> payments@[j] == revoked(before[j]),
            forall|j: int| i <= j < payments@.len() ==> payments@[j] == before[j],
        decreases payments.len() - i,
    {
        let payment = payments[i];
        if payment.status == PaymentStatus::Pending {
            payments[i] = ScheduledPayment { status: PaymentStatus::Revoked, ..payment };
        }
        i += 1;
    }
    assert(payments@ =~= before.map_values(|payment: ScheduledPayment| revoked(payment)));
}

/// A claim moves what was claimable to what is claimed and leaves what has
/// vested as it was, at the height of the claim: nothing is claimable right
/// after it, so a second claim at the same height pays nothing.
pub proof fn lemma_pay_due(payments: Seq<ScheduledPayment>, height: u64)
    ensures
        ({
            let after = payments.map_values(|payment: ScheduledPayment| settled(payment, height));
            &&& claimable_by(after, height) == 0
            &&& claimed_by(after, height) == claimed_by(payments, height) + claimable_by(
                payments,
                height,
            )
            &&& vested_by(after, height) == vested_by(payments, height)
            &&& after.map_values(|payment: ScheduledPayment| settled(payment, height)) == after
        }),
    decreases payments.len(),
{
    let settle = |payment: ScheduledPayment| settled(payment, height);
    let after = payments.map_values(settle);
    if payments.len() > 0 {
        lemma_pay_due(payments.drop_last(), height);
        assert(after.drop_last() =~= payments.drop_last().map_values(settle));
    }
    assert(after.map_values(settle) =~= after);
}

/// A deregistration leaves nothing pending, at any height, and what was
/// claimed as it was.
pub proof fn lemma_revoke_pending(payments: Seq<ScheduledPayment>, height: u64)
    ensures
        ({
            let after = payments.map_values(|payment: ScheduledPayment| revoked(payment));
            &&& claimable_by(after, height) == 0
            &&& claimed_by(after, height) == claimed_by(payments, height)
            &&& vested_by(after, height) == vested_by(payments, height)
        }),
    decreases payments.len(),
{
    let revoke = |payment: ScheduledPayment| revoked(payment);
    let after = payments.map_values(revoke);
    if payments.len() > 0 {
        lemma_revoke_pending(payments.drop_last(), height);
        assert(after.drop_last() =~= payments.drop_last().map_values(revoke));
    }
}

} // verus!
