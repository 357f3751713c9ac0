//! The fee-decay schedule on concrete receipts.

use stake_deposit_interceptor::pubkey::Pubkey;
use stake_deposit_interceptor::state::DepositReceipt;

fn pk(tag: u8) -> Pubkey {
    Pubkey::new([tag; 32])
}

fn receipt(lst_amount: u64) -> DepositReceipt {
    DepositReceipt {
        base: pk(1),
        owner: pk(2),
        stake_pool: pk(3),
        stake_pool_deposit_stake_authority: pk(4),
        deposit_time: 1_000,
        lst_amount,
        cool_down_seconds: 1_000,
        initial_fee_bps: 100,
        bump_seed: 0,
    }
}

#[test]
fn state_test_calculate_fee_amount() {
    let mut deposit_receipt = receipt(1_000_000);

    // fee rate is initial rate of 100bps = 10_000
    assert_eq!(deposit_receipt.calculate_fee_amount(1_000), 10_000);
    // fee rate is half of initial rate 50bps = 5_000
    assert_eq!(deposit_receipt.calculate_fee_amount(1_500), 5_000);
    // fee rate is 25% of initial rate 25bps = 2_500
    assert_eq!(deposit_receipt.calculate_fee_amount(1_750), 2_500);
    // fee rate is 0 of initial rate 0bps = 0
    assert_eq!(deposit_receipt.calculate_fee_amount(2_000), 0);
    assert_eq!(deposit_receipt.calculate_fee_amount(2_001), 0);

    // Fee should be round up to 1
    deposit_receipt.lst_amount = 1;
    assert_eq!(deposit_receipt.calculate_fee_amount(1_000), 1);
}

#[test]
fn fee_schedule_matches_linear_decay() {
    let r = receipt(1_000_000);
    assert_eq!(r.calculate_fee_amount(1_000), 10_000);
    assert_eq!(r.calculate_fee_amount(1_500), 5_000);
    assert_eq!(r.calculate_fee_amount(1_750), 2_500);
    assert_eq!(r.calculate_fee_amount(2_000), 0);
}

#[test]
fn fee_of_one_token_unit_rounds_up_to_one() {
    let r = receipt(1);
    assert_eq!(r.calculate_fee_amount(1_000), 1);
    // Deep into the cool-down the pre-division interpolation reaches zero
    // before the rounded-up basis-point division can act on it.
    assert_eq!(r.calculate_fee_amount(1_999), 0);
    assert_eq!(r.calculate_fee_amount(2_000), 0);
}

#[test]
fn fee_is_monotonic_on_samples() {
    let r = receipt(777_777);
    let mut previous = u64::MAX;
    let mut t: i64 = 1_000;
    while t <= 2_100 {
        let fee = r.calculate_fee_amount(t);
        assert!(fee <= previous);
        previous = fee;
        t += 7;
    }
}

#[test]
fn fee_at_full_rate_takes_whole_amount() {
    let r = DepositReceipt {
        initial_fee_bps: 10_000,
        ..receipt(123_456)
    };
    assert_eq!(r.calculate_fee_amount(1_000), 123_456);
    assert_eq!(r.calculate_fee_amount(2_000), 0);
}

#[test]
fn fee_checked_matches_plain_and_fails_closed() {
    let r = receipt(1_000_000);
    assert_eq!(r.calculate_fee_amount_checked(1_500), Some(5_000));
    assert_eq!(r.calculate_fee_amount_checked(2_001), Some(0));

    // A timestamp far before the deposit blows up the wide product; the
    // checked computation refuses instead of panicking.
    let extreme = DepositReceipt {
        deposit_time: u64::MAX - 1,
        cool_down_seconds: 1,
        lst_amount: u64::MAX,
        initial_fee_bps: 10_000,
        ..receipt(0)
    };
    assert_eq!(extreme.calculate_fee_amount_checked(0), None);

    // Timing fields whose sum leaves 64 bits fail closed as well.
    let overflowing = DepositReceipt {
        deposit_time: u64::MAX,
        cool_down_seconds: 2,
        ..receipt(5)
    };
    assert_eq!(overflowing.calculate_fee_amount_checked(1_000), None);
}

#[test]
fn fee_zero_amount_owes_nothing() {
    let r = receipt(0);
    assert_eq!(r.calculate_fee_amount(1_000), 0);
    assert_eq!(r.calculate_fee_amount(1_500), 0);
}
