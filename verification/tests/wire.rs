//! The instruction wire format against an independent borsh encoding, and
//! the instruction builders against the crates they must interoperate with.

use stake_deposit_interceptor::instruction::{
    create_change_deposit_receipt_owner, create_claim_pool_tokens_instruction,
    create_deposit_stake_instruction, create_init_deposit_stake_authority_instruction,
    create_update_deposit_stake_authority_instruction, DepositStakeArgs,
    DepositStakeWithSlippageArgs, InitStakePoolDepositStakeAuthorityArgs,
    StakeDepositInterceptorInstruction, UpdateStakePoolDepositStakeAuthorityArgs,
};
use stake_deposit_interceptor::pubkey::Pubkey;

fn pk(tag: u8) -> Pubkey {
    Pubkey::new([tag; 32])
}

fn sol(p: &Pubkey) -> solana_program::pubkey::Pubkey {
    solana_program::pubkey::Pubkey::from(p.to_bytes())
}

#[test]
fn init_payload_matches_borsh() {
    let ix = StakeDepositInterceptorInstruction::InitStakePoolDepositStakeAuthority(
        InitStakePoolDepositStakeAuthorityArgs {
            fee_wallet: pk(0xAB),
            cool_down_seconds: 86_400,
            initial_fee_bps: 250,
        },
    );
    let expected = borsh::to_vec(&(0u8, [0xABu8; 32], 86_400u64, 250u32)).unwrap();
    assert_eq!(ix.pack(), expected);
}

#[test]
fn update_payload_matches_borsh() {
    let ix = StakeDepositInterceptorInstruction::UpdateStakePoolDepositStakeAuthority(
        UpdateStakePoolDepositStakeAuthorityArgs {
            fee_wallet: Some(pk(0xCD)),
            cool_down_seconds: None,
            initial_fee_bps: Some(42),
        },
    );
    let expected = borsh::to_vec(
        &(1u8, Some([0xCDu8; 32]), None::<u64>, Some(42u32)),
    )
    .unwrap();
    assert_eq!(ix.pack(), expected);
}

#[test]
fn deposit_payloads_match_borsh() {
    let plain = StakeDepositInterceptorInstruction::DepositStake(DepositStakeArgs {
        owner: pk(0x0F),
    });
    assert_eq!(plain.pack(), borsh::to_vec(&(2u8, [0x0Fu8; 32])).unwrap());

    let bounded = StakeDepositInterceptorInstruction::DepositStakeWithSlippage(
        DepositStakeWithSlippageArgs {
            owner: pk(0x0F),
            minimum_pool_tokens_out: 12_345,
        },
    );
    assert_eq!(
        bounded.pack(),
        borsh::to_vec(&(3u8, [0x0Fu8; 32], 12_345u64)).unwrap()
    );
}

#[test]
fn unit_payloads() {
    assert_eq!(StakeDepositInterceptorInstruction::ChangeDepositReceiptOwner.pack(), vec![4]);
    assert_eq!(StakeDepositInterceptorInstruction::ClaimPoolTokens.pack(), vec![5]);
}

#[test]
fn wire_roundtrip_every_variant() {
    let variants = vec![
        StakeDepositInterceptorInstruction::InitStakePoolDepositStakeAuthority(
            InitStakePoolDepositStakeAuthorityArgs {
                fee_wallet: pk(1),
                cool_down_seconds: 7,
                initial_fee_bps: 9_999,
            },
        ),
        StakeDepositInterceptorInstruction::UpdateStakePoolDepositStakeAuthority(
            UpdateStakePoolDepositStakeAuthorityArgs {
                fee_wallet: None,
                cool_down_seconds: Some(0),
                initial_fee_bps: None,
            },
        ),
        StakeDepositInterceptorInstruction::DepositStake(DepositStakeArgs { owner: pk(2) }),
        StakeDepositInterceptorInstruction::DepositStakeWithSlippage(
            DepositStakeWithSlippageArgs {
                owner: pk(3),
                minimum_pool_tokens_out: u64::MAX,
            },
        ),
        StakeDepositInterceptorInstruction::ChangeDepositReceiptOwner,
        StakeDepositInterceptorInstruction::ClaimPoolTokens,
    ];
    for original in variants {
        let bytes = original.pack();
        let reparsed = StakeDepositInterceptorInstruction::unpack(&bytes).unwrap();
        assert_eq!(reparsed.pack(), bytes);
    }
}

#[test]
fn unpack_rejects_malformed_payloads() {
    assert!(StakeDepositInterceptorInstruction::unpack(&[]).is_none());
    assert!(StakeDepositInterceptorInstruction::unpack(&[6]).is_none());
    assert!(StakeDepositInterceptorInstruction::unpack(&[4, 0]).is_none());
    assert!(StakeDepositInterceptorInstruction::unpack(&[0; 44]).is_none());
    // An update whose option tag is neither 0 nor 1.
    assert!(StakeDepositInterceptorInstruction::unpack(&[1, 2, 0, 0]).is_none());
    // An update with trailing bytes.
    assert!(StakeDepositInterceptorInstruction::unpack(&[1, 0, 0, 0, 9]).is_none());
}

#[test]
fn init_builder_account_list() {
    let program_id = pk(10);
    let stake_pool = pk(11);
    let base = pk(12);
    let mint = pk(13);
    let ix = create_init_deposit_stake_authority_instruction(
        &program_id,
        &pk(20),
        &stake_pool,
        &mint,
        &pk(14),
        &pk(15),
        &pk(16),
        3_600,
        100,
        &pk(17),
        &base,
    )
    .unwrap();

    let (expected_pda, _bump) = solana_program::pubkey::Pubkey::find_program_address(
        &[b"deposit_stake_authority", &[0x0B; 32], &[0x0C; 32]],
        &sol(&program_id),
    );
    let expected_vault = spl_associated_token_account::get_associated_token_address(
        &expected_pda,
        &sol(&mint),
    );

    assert_eq!(ix.program_id.to_bytes(), program_id.to_bytes());
    assert_eq!(ix.accounts.len(), 11);
    assert_eq!(ix.accounts[0].pubkey.to_bytes(), [0x14; 32]);
    assert!(ix.accounts[0].is_signer && ix.accounts[0].is_writable);
    assert_eq!(ix.accounts[1].pubkey.to_bytes(), expected_pda.to_bytes());
    assert_eq!(ix.accounts[2].pubkey.to_bytes(), expected_vault.to_bytes());
    assert!(ix.accounts[3].is_signer && !ix.accounts[3].is_writable);
    assert!(ix.accounts[4].is_signer);
    assert_eq!(
        ix.accounts[9].pubkey.to_bytes(),
        spl_associated_token_account::ID.to_bytes()
    );
    assert_eq!(ix.accounts[10].pubkey.to_bytes(), [0u8; 32]);
    assert_eq!(
        ix.data,
        borsh::to_vec(&(0u8, [0x10u8; 32], 3_600u64, 100u32)).unwrap()
    );
}

#[test]
fn update_builder_optional_new_authority() {
    let without = create_update_deposit_stake_authority_instruction(
        &pk(10),
        &pk(11),
        &pk(17),
        &pk(12),
        None,
        None,
        Some(60),
        None,
    )
    .unwrap();
    assert_eq!(without.accounts.len(), 2);
    assert!(without.accounts[1].is_signer);

    let with = create_update_deposit_stake_authority_instruction(
        &pk(10),
        &pk(11),
        &pk(17),
        &pk(12),
        Some(pk(18)),
        None,
        None,
        None,
    )
    .unwrap();
    assert_eq!(with.accounts.len(), 3);
    assert_eq!(with.accounts[2].pubkey.to_bytes(), [18u8; 32]);
    assert!(with.accounts[2].is_signer);
}

#[test]
fn deposit_builder_matches_stake_program_authorizations() {
    let program_id = pk(10);
    let stake_pool = pk(11);
    let receipt_base = pk(12);
    let authority_base = pk(13);
    let stake_account = pk(30);
    let withdrawer = pk(31);
    let instructions = create_deposit_stake_instruction(
        &program_id,
        &pk(20),
        &pk(21),
        &stake_pool,
        &pk(22),
        &pk(23),
        &stake_account,
        &withdrawer,
        &pk(24),
        &pk(25),
        &pk(26),
        &pk(27),
        &pk(28),
        &pk(29),
        &pk(32),
        &receipt_base,
        &authority_base,
    )
    .unwrap();
    assert_eq!(instructions.len(), 3);

    let (authority_pda, _bump) = solana_program::pubkey::Pubkey::find_program_address(
        &[b"deposit_stake_authority", &[0x0B; 32], &[0x0D; 32]],
        &sol(&program_id),
    );
    let expected_staker = solana_stake_interface::instruction::authorize(
        &sol(&stake_account),
        &sol(&withdrawer),
        &authority_pda,
        solana_stake_interface::state::StakeAuthorize::Staker,
        None,
    );
    assert_eq!(
        instructions[0].program_id.to_bytes(),
        expected_staker.program_id.to_bytes()
    );
    assert_eq!(instructions[0].data, expected_staker.data);
    assert_eq!(instructions[0].accounts.len(), expected_staker.accounts.len());
    for (ours, theirs) in instructions[0].accounts.iter().zip(expected_staker.accounts.iter()) {
        assert_eq!(ours.pubkey.to_bytes(), theirs.pubkey.to_bytes());
        assert_eq!(ours.is_signer, theirs.is_signer);
        assert_eq!(ours.is_writable, theirs.is_writable);
    }

    let expected_withdrawer = solana_stake_interface::instruction::authorize(
        &sol(&stake_account),
        &sol(&withdrawer),
        &authority_pda,
        solana_stake_interface::state::StakeAuthorize::Withdrawer,
        None,
    );
    assert_eq!(instructions[1].data, expected_withdrawer.data);

    let (receipt_pda, _bump) = solana_program::pubkey::Pubkey::find_program_address(
        &[b"deposit_receipt", &[0x0B; 32], &[0x0C; 32]],
        &sol(&program_id),
    );
    let deposit = &instructions[2];
    assert_eq!(deposit.program_id.to_bytes(), program_id.to_bytes());
    assert_eq!(deposit.accounts.len(), 20);
    assert_eq!(deposit.accounts[2].pubkey.to_bytes(), receipt_pda.to_bytes());
    assert_eq!(deposit.accounts[5].pubkey.to_bytes(), authority_pda.to_bytes());
    assert!(deposit.accounts[6].is_signer);
    assert_eq!(
        deposit.data,
        borsh::to_vec(&(2u8, [0x1Fu8; 32])).unwrap()
    );
}

#[test]
fn claim_builder_signature_follows_cool_down_flag() {
    let during = create_claim_pool_tokens_instruction(
        &pk(1),
        &pk(2),
        &pk(3),
        &pk(4),
        &pk(5),
        &pk(6),
        &pk(7),
        &pk(8),
        &pk(9),
        false,
    );
    assert_eq!(during.accounts.len(), 9);
    assert!(during.accounts[1].is_signer);
    assert_eq!(during.data, vec![5]);

    let after = create_claim_pool_tokens_instruction(
        &pk(1),
        &pk(2),
        &pk(3),
        &pk(4),
        &pk(5),
        &pk(6),
        &pk(7),
        &pk(8),
        &pk(9),
        true,
    );
    assert!(!after.accounts[1].is_signer);
    assert_eq!(after.accounts[8].pubkey.to_bytes(), [0u8; 32]);
}

#[test]
fn change_owner_builder_accounts() {
    let ix = create_change_deposit_receipt_owner(&pk(1), &pk(2), &pk(3), &pk(4));
    assert_eq!(ix.accounts.len(), 3);
    assert!(!ix.accounts[0].is_signer && ix.accounts[0].is_writable);
    assert!(ix.accounts[1].is_signer && !ix.accounts[1].is_writable);
    assert!(!ix.accounts[2].is_signer);
    assert_eq!(ix.data, vec![4]);
}
