use klmd_contracts::context::BlockInfo;
use klmd_contracts::custom_vesting::error::VestingError;
use klmd_contracts::custom_vesting::payments::claimable_at_height;
use klmd_contracts::custom_vesting::payments::claimed_at_height;
use klmd_contracts::custom_vesting::payments::generate_schedule;
use klmd_contracts::custom_vesting::payments::pay_due;
use klmd_contracts::custom_vesting::payments::revoke_pending;
use klmd_contracts::custom_vesting::payments::vested_at_height;
use klmd_contracts::custom_vesting::payments::PaymentStatus;
use klmd_contracts::custom_vesting::payments::ScheduledPayment;

fn block(height: u64, time: u64) -> BlockInfo {
    BlockInfo { height, time }
}

fn pending(amount: u128, height: u64, timestamp: u64) -> ScheduledPayment {
    ScheduledPayment { amount, height, timestamp, status: PaymentStatus::Pending }
}

#[test]
fn a_schedule_has_one_pending_payment_per_tick() {
    let schedule = generate_schedule(10, &block(1000, 0), 100, 200, 100).unwrap();
    assert_eq!(schedule.len(), 10);
    assert_eq!(schedule[0], pending(10, 1010, 100));
    assert_eq!(schedule[1], pending(10, 1011, 110));
    assert_eq!(schedule[9], pending(10, 1019, 190));
    for (index, payment) in schedule.iter().enumerate() {
        assert_eq!(payment.timestamp, 100 + 10 * index as u64);
        assert_eq!(payment.height, 1010 + index as u64);
        assert_eq!(payment.status, PaymentStatus::Pending);
    }
}

#[test]
fn what_does_not_divide_evenly_is_left_out() {
    let schedule = generate_schedule(10, &block(1000, 0), 100, 200, 105).unwrap();
    assert_eq!(schedule.len(), 10);
    assert!(schedule.iter().all(|payment| payment.amount == 10));
    assert_eq!(schedule.iter().map(|payment| payment.amount).sum::<u128>(), 100);

    // fewer tokens than ticks: every tick is empty
    let schedule = generate_schedule(10, &block(1000, 0), 100, 200, 9).unwrap();
    assert_eq!(schedule.len(), 10);
    assert!(schedule.iter().all(|payment| payment.amount == 0));

    // the interval is cut to whole ticks
    let schedule = generate_schedule(30, &block(1000, 0), 100, 200, 90).unwrap();
    assert_eq!(schedule, vec![pending(30, 1003, 100), pending(30, 1004, 130), pending(30, 1005, 160)]);
}

#[test]
fn no_length_gives_no_ticks() {
    assert_eq!(generate_schedule(0, &block(1000, 0), 100, 200, 100), Ok(vec![]));
    assert_eq!(generate_schedule(10, &block(1000, 0), 100, 100, 100), Ok(vec![]));
    assert_eq!(generate_schedule(10, &block(1000, 0), 200, 100, 100), Ok(vec![]));
    assert_eq!(generate_schedule(101, &block(1000, 0), 100, 200, 100), Ok(vec![]));
    assert_eq!(generate_schedule(0, &block(u64::MAX, 0), 100, 100, 100), Ok(vec![]));
}

#[test]
fn ticks_that_lie_in_the_past_fall_on_the_current_block() {
    let schedule = generate_schedule(10, &block(1000, 125), 100, 150, 50).unwrap();
    let heights: Vec<u64> = schedule.iter().map(|payment| payment.height).collect();
    assert_eq!(heights, vec![1000, 1000, 1000, 1000, 1001]);
}

#[test]
fn heights_that_do_not_fit_are_refused() {
    assert_eq!(
        generate_schedule(10, &block(u64::MAX, 0), 100, 200, 100),
        Err(VestingError::Overflow)
    );
    assert_eq!(
        generate_schedule(10, &block(u64::MAX - 18, 0), 100, 200, 100),
        Err(VestingError::Overflow)
    );
    let schedule = generate_schedule(10, &block(u64::MAX - 19, 0), 100, 200, 100).unwrap();
    assert_eq!(schedule[9].height, u64::MAX);
    // ticks in the past need no room
    assert!(generate_schedule(10, &block(u64::MAX, 500), 100, 200, 100).is_ok());
}

#[test]
fn vested_claimed_and_claimable_follow_the_statuses() {
    let mut schedule = generate_schedule(10, &block(1000, 0), 100, 200, 100).unwrap();
    assert_eq!(vested_at_height(&schedule, 1009), Ok(0));
    assert_eq!(vested_at_height(&schedule, 1010), Ok(10));
    assert_eq!(vested_at_height(&schedule, 1014), Ok(50));
    assert_eq!(vested_at_height(&schedule, 5000), Ok(100));
    assert_eq!(claimable_at_height(&schedule, 1014), Ok(50));
    assert_eq!(claimed_at_height(&schedule, 1014), Ok(0));

    // a claim at 1012 pays the first three ticks
    pay_due(&mut schedule, 1012);
    let paid = schedule.iter().filter(|payment| payment.status == PaymentStatus::Paid).count();
    assert_eq!(paid, 3);
    assert_eq!(claimed_at_height(&schedule, 1012), Ok(30));
    assert_eq!(claimable_at_height(&schedule, 1012), Ok(0));
    assert_eq!(vested_at_height(&schedule, 1012), Ok(30));

    // a second claim at the same height changes nothing
    let before = schedule.clone();
    pay_due(&mut schedule, 1012);
    assert_eq!(schedule, before);

    // time goes on
    assert_eq!(claimable_at_height(&schedule, 1014), Ok(20));
    assert_eq!(claimed_at_height(&schedule, 1014), Ok(30));
    assert_eq!(vested_at_height(&schedule, 1014), Ok(50));
    // and what was claimed by an earlier height stays what it was
    assert_eq!(claimed_at_height(&schedule, 1011), Ok(20));

    // deregistration revokes what is pending, due or not
    revoke_pending(&mut schedule);
    assert!(schedule.iter().all(|payment| payment.status != PaymentStatus::Pending));
    assert_eq!(
        schedule.iter().filter(|payment| payment.status == PaymentStatus::Revoked).count(),
        7
    );
    assert_eq!(claimable_at_height(&schedule, 5000), Ok(0));
    assert_eq!(claimed_at_height(&schedule, 5000), Ok(30));
    assert_eq!(vested_at_height(&schedule, 5000), Ok(100));
    // paid and revoked are final
    let before = schedule.clone();
    pay_due(&mut schedule, 5000);
    revoke_pending(&mut schedule);
    assert_eq!(schedule, before);
}

#[test]
fn sums_that_do_not_fit_are_refused() {
    let schedule = vec![pending(u128::MAX, 1, 0), pending(1, 2, 0)];
    assert_eq!(vested_at_height(&schedule, 1), Ok(u128::MAX));
    assert_eq!(vested_at_height(&schedule, 2), Err(VestingError::Overflow));
    assert_eq!(claimable_at_height(&schedule, 2), Err(VestingError::Overflow));
    assert_eq!(claimed_at_height(&schedule, 2), Ok(0));
    assert_eq!(vested_at_height(&vec![], 2), Ok(0));
}
