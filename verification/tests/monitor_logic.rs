//! The cranker's decision core: classification, crank tallies, receipt
//! summaries, and the planned claim instruction.

use stake_deposit_interceptor::monitor::{
    calculate_receipt_info, classify_receipt, plan_claim_pool_tokens, plan_crank, ReceiptStatus,
};
use stake_deposit_interceptor::pda::derive_stake_deposit_receipt;
use stake_deposit_interceptor::pubkey::Pubkey;
use stake_deposit_interceptor::state::{DepositReceipt, StakePoolDepositStakeAuthority};

fn pk(tag: u8) -> Pubkey {
    Pubkey::new([tag; 32])
}

fn sol(p: &Pubkey) -> solana_program::pubkey::Pubkey {
    solana_program::pubkey::Pubkey::from(p.to_bytes())
}

fn receipt(deposit_time: u64, cool_down_seconds: u64) -> DepositReceipt {
    DepositReceipt {
        base: pk(1),
        owner: pk(2),
        stake_pool: pk(3),
        stake_pool_deposit_stake_authority: pk(4),
        deposit_time,
        lst_amount: 1_000_000,
        cool_down_seconds,
        initial_fee_bps: 100,
        bump_seed: 0,
    }
}

#[test]
fn classification_follows_timing() {
    assert_eq!(classify_receipt(&receipt(2_000, 10), 1_999), ReceiptStatus::FutureDeposit);
    assert_eq!(classify_receipt(&receipt(1_000, 10), 1_005), ReceiptStatus::NotYetExpired);
    assert_eq!(classify_receipt(&receipt(1_000, 10), 1_010), ReceiptStatus::NotYetExpired);
    assert_eq!(classify_receipt(&receipt(1_000, 10), 1_011), ReceiptStatus::Expired);
    assert_eq!(
        classify_receipt(&receipt(u64::MAX, 2), u64::MAX),
        ReceiptStatus::InvalidTiming
    );
}

#[test]
fn crank_plan_tallies_and_collects_expired() {
    let receipts = vec![
        receipt(2_000, 10),      // future
        receipt(1_000, 10),      // expired at 1_500
        receipt(1_499, 10),      // not yet expired at 1_500
        receipt(1_400, u64::MAX), // invalid timing
        receipt(100, 10),        // expired
    ];
    let (summary, expired) = plan_crank(&receipts, 1_500);
    assert_eq!(summary.total_receipts, 5);
    assert_eq!(summary.future_deposits, 1);
    assert_eq!(summary.not_yet_expired, 1);
    assert_eq!(summary.invalid_timing, 1);
    assert_eq!(summary.expired, 2);
    assert_eq!(expired.len(), 2);
    assert_eq!(expired[0].deposit_time, 1_000);
    assert_eq!(expired[1].deposit_time, 100);
}

#[test]
fn receipt_scan_keeps_only_receipt_records() {
    let good = receipt(1_000, 10);
    let mut wrong_discriminator = good.pack();
    wrong_discriminator[0] = 1;
    let accounts = vec![
        (pk(20), good.pack()),
        (pk(21), vec![1, 2, 3]),
        (pk(22), wrong_discriminator),
        (pk(23), receipt(2_000, 20).pack()),
    ];
    let parsed = stake_deposit_interceptor::monitor::parse_deposit_receipt_accounts(&accounts);
    assert_eq!(parsed.len(), 2);
    assert_eq!(parsed[0].0.to_bytes(), [20u8; 32]);
    assert_eq!(parsed[0].1, good);
    assert_eq!(parsed[1].0.to_bytes(), [23u8; 32]);
    assert_eq!(parsed[1].1.deposit_time, 2_000);
}

#[test]
fn receipt_info_reports_fee_and_expiry() {
    let r = receipt(1_000, 1_000);
    let info = calculate_receipt_info(pk(30), &r, 1_500);
    assert_eq!(info.expiry_time, 2_000);
    assert!(!info.is_expired);
    assert_eq!(info.current_fee_amount, 5_000);
    assert_eq!(info.lst_amount, 1_000_000);

    let later = calculate_receipt_info(pk(30), &r, 2_001);
    assert!(later.is_expired);
    assert_eq!(later.current_fee_amount, 0);
}

#[test]
fn metrics_tally_claims_and_rounds() {
    let mut metrics = stake_deposit_interceptor::monitor::Metrics::default();
    assert_eq!(metrics.processed_receipts, 0);
    metrics.record_round(5);
    metrics.record_claim(true);
    metrics.record_claim(true);
    metrics.record_claim(false);
    assert_eq!(metrics.processed_receipts, 5);
    assert_eq!(metrics.successful_claims, 2);
    assert_eq!(metrics.failed_claims, 1);

    metrics.successful_claims = u64::MAX;
    metrics.record_claim(true);
    assert_eq!(metrics.successful_claims, u64::MAX);
    metrics.record_round(u64::MAX);
    assert_eq!(metrics.processed_receipts, u64::MAX);
}

#[test]
fn claim_plan_builds_permissionless_instruction() {
    let program_id = pk(90);
    let r = receipt(1_000, 1_000);
    let authority = StakePoolDepositStakeAuthority {
        base: pk(5),
        stake_pool: pk(3),
        pool_mint: pk(6),
        authority: pk(7),
        vault: pk(8),
        stake_pool_program_id: pk(10),
        cool_down_seconds: 1_000,
        initial_fee_bps: 100,
        fee_wallet: pk(11),
        bump_seed: 0,
    };
    let plan = plan_claim_pool_tokens(&program_id, &r, &authority).unwrap();

    let (expected_receipt, _) =
        derive_stake_deposit_receipt(&program_id, &r.stake_pool, &r.base).unwrap();
    assert_eq!(plan.receipt_address.to_bytes(), expected_receipt.to_bytes());

    let expected_owner_ata = spl_associated_token_account::get_associated_token_address(
        &sol(&r.owner),
        &sol(&authority.pool_mint),
    );
    assert_eq!(plan.owner_token_account.to_bytes(), expected_owner_ata.to_bytes());

    let expected_fee_ata = spl_associated_token_account::get_associated_token_address(
        &sol(&authority.fee_wallet),
        &sol(&authority.pool_mint),
    );
    assert_eq!(
        plan.fee_wallet_token_account.to_bytes(),
        expected_fee_ata.to_bytes()
    );

    let ix = &plan.instruction;
    assert_eq!(ix.program_id.to_bytes(), program_id.to_bytes());
    assert_eq!(ix.accounts.len(), 9);
    assert_eq!(ix.accounts[0].pubkey.to_bytes(), expected_receipt.to_bytes());
    // Permissionless: the owner slot does not sign.
    assert!(!ix.accounts[1].is_signer);
    assert_eq!(ix.accounts[7].pubkey.to_bytes(), spl_token::ID.to_bytes());
    assert_eq!(ix.data, vec![5]);
}
