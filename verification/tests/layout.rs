//! Golden byte fixtures for the account layout and its round trip.

use stake_deposit_interceptor::codec::{DEPOSIT_RECEIPT_LEN, STAKE_POOL_DEPOSIT_STAKE_AUTHORITY_LEN};
use stake_deposit_interceptor::pubkey::Pubkey;
use stake_deposit_interceptor::state::{
    DepositReceipt, StakeDepositInterceptorDiscriminators, StakePoolDepositStakeAuthority,
};

fn pk(tag: u8) -> Pubkey {
    Pubkey::new([tag; 32])
}

fn sample_authority() -> StakePoolDepositStakeAuthority {
    StakePoolDepositStakeAuthority {
        base: pk(0x11),
        stake_pool: pk(0x22),
        pool_mint: pk(0x33),
        authority: pk(0x44),
        vault: pk(0x55),
        stake_pool_program_id: pk(0x66),
        cool_down_seconds: 0x0102030405060708,
        initial_fee_bps: 0x0A0B0C0D,
        fee_wallet: pk(0x77),
        bump_seed: 0xFE,
    }
}

fn sample_receipt() -> DepositReceipt {
    DepositReceipt {
        base: pk(0x11),
        owner: pk(0x22),
        stake_pool: pk(0x33),
        stake_pool_deposit_stake_authority: pk(0x44),
        deposit_time: 0x0102030405060708,
        lst_amount: 0x1112131415161718,
        cool_down_seconds: 0x2122232425262728,
        initial_fee_bps: 0x0A0B0C0D,
        bump_seed: 0xFD,
    }
}

#[test]
fn discriminator_values() {
    assert_eq!(StakeDepositInterceptorDiscriminators::DepositStakeAuthority.value(), 1);
    assert_eq!(StakeDepositInterceptorDiscriminators::DepositReceipt.value(), 2);
}

#[test]
fn authority_golden_bytes() {
    let bytes = sample_authority().pack();
    let mut expected: Vec<u8> = Vec::new();
    expected.push(1);
    expected.extend_from_slice(&[0u8; 7]);
    expected.extend_from_slice(&[0x11; 32]);
    expected.extend_from_slice(&[0x22; 32]);
    expected.extend_from_slice(&[0x33; 32]);
    expected.extend_from_slice(&[0x44; 32]);
    expected.extend_from_slice(&[0x55; 32]);
    expected.extend_from_slice(&[0x66; 32]);
    expected.extend_from_slice(&[0x08, 0x07, 0x06, 0x05, 0x04, 0x03, 0x02, 0x01]);
    expected.extend_from_slice(&[0x0D, 0x0C, 0x0B, 0x0A]);
    expected.extend_from_slice(&[0x77; 32]);
    expected.push(0xFE);
    expected.extend_from_slice(&[0u8; 256]);
    assert_eq!(bytes.len(), STAKE_POOL_DEPOSIT_STAKE_AUTHORITY_LEN);
    assert_eq!(bytes, expected);
}

#[test]
fn receipt_golden_bytes() {
    let bytes = sample_receipt().pack();
    let mut expected: Vec<u8> = Vec::new();
    expected.push(2);
    expected.extend_from_slice(&[0u8; 7]);
    expected.extend_from_slice(&[0x11; 32]);
    expected.extend_from_slice(&[0x22; 32]);
    expected.extend_from_slice(&[0x33; 32]);
    expected.extend_from_slice(&[0x44; 32]);
    expected.extend_from_slice(&[0x08, 0x07, 0x06, 0x05, 0x04, 0x03, 0x02, 0x01]);
    expected.extend_from_slice(&[0x18, 0x17, 0x16, 0x15, 0x14, 0x13, 0x12, 0x11]);
    expected.extend_from_slice(&[0x28, 0x27, 0x26, 0x25, 0x24, 0x23, 0x22, 0x21]);
    expected.extend_from_slice(&[0x0D, 0x0C, 0x0B, 0x0A]);
    expected.push(0xFD);
    expected.extend_from_slice(&[0u8; 256]);
    assert_eq!(bytes.len(), DEPOSIT_RECEIPT_LEN);
    assert_eq!(bytes, expected);
}

#[test]
fn authority_roundtrip() {
    let original = sample_authority();
    let decoded = StakePoolDepositStakeAuthority::unpack(&original.pack()).unwrap();
    assert_eq!(decoded, original);
}

#[test]
fn receipt_roundtrip() {
    let original = sample_receipt();
    let decoded = DepositReceipt::unpack(&original.pack()).unwrap();
    assert_eq!(decoded, original);
}

#[test]
fn unpack_rejects_wrong_discriminator_and_length() {
    let mut authority_bytes = sample_authority().pack();
    authority_bytes[0] = 2;
    assert!(StakePoolDepositStakeAuthority::unpack(&authority_bytes).is_none());

    let mut receipt_bytes = sample_receipt().pack();
    receipt_bytes[0] = 1;
    assert!(DepositReceipt::unpack(&receipt_bytes).is_none());

    let truncated = &sample_receipt().pack()[..DEPOSIT_RECEIPT_LEN - 1];
    assert!(DepositReceipt::unpack(truncated).is_none());

    let mut extended = sample_authority().pack();
    extended.push(0);
    assert!(StakePoolDepositStakeAuthority::unpack(&extended).is_none());
}

#[test]
fn is_initialized_reads_authority_key() {
    let record = sample_authority();
    assert!(record.is_initialized());
    let blank = StakePoolDepositStakeAuthority {
        authority: Pubkey::new([0; 32]),
        ..record
    };
    assert!(!blank.is_initialized());
}
