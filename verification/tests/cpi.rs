//! The invocations the processors hand to the runner, against the foreign
//! crates' own builders.

use stake_deposit_interceptor::processor::{deposit_stake_cpi_instruction, transfer_tokens_cpi};
use stake_deposit_interceptor::pubkey::Pubkey;
use stake_deposit_interceptor::state::StakePoolDepositStakeAuthority;

fn pk(tag: u8) -> Pubkey {
    Pubkey::new([tag; 32])
}

fn sol(p: &Pubkey) -> solana_program::pubkey::Pubkey {
    solana_program::pubkey::Pubkey::from(p.to_bytes())
}

fn authority() -> StakePoolDepositStakeAuthority {
    StakePoolDepositStakeAuthority {
        base: pk(1),
        stake_pool: pk(2),
        pool_mint: pk(3),
        authority: pk(4),
        vault: pk(5),
        stake_pool_program_id: pk(6),
        cool_down_seconds: 100,
        initial_fee_bps: 100,
        fee_wallet: pk(7),
        bump_seed: 42,
    }
}

#[test]
fn transfer_matches_token_program_builder() {
    let token_program = Pubkey::new(spl_token::ID.to_bytes());
    let (ix, seeds) = transfer_tokens_cpi(
        &token_program,
        &pk(10),
        &pk(11),
        &pk(12),
        &pk(13),
        12_345,
        9,
        &authority(),
    )
    .unwrap();

    let expected = spl_token_2022::instruction::transfer_checked(
        &spl_token::ID,
        &sol(&pk(10)),
        &sol(&pk(11)),
        &sol(&pk(12)),
        &sol(&pk(13)),
        &[],
        12_345,
        9,
    )
    .unwrap();
    assert_eq!(ix.program_id.to_bytes(), expected.program_id.to_bytes());
    assert_eq!(ix.data, expected.data);
    assert_eq!(ix.accounts.len(), expected.accounts.len());
    for (ours, theirs) in ix.accounts.iter().zip(expected.accounts.iter()) {
        assert_eq!(ours.pubkey.to_bytes(), theirs.pubkey.to_bytes());
        assert_eq!(ours.is_signer, theirs.is_signer);
        assert_eq!(ours.is_writable, theirs.is_writable);
    }

    assert_eq!(seeds.len(), 4);
    assert_eq!(seeds[0], b"deposit_stake_authority".to_vec());
    assert_eq!(seeds[1], vec![2u8; 32]);
    assert_eq!(seeds[2], vec![1u8; 32]);
    assert_eq!(seeds[3], vec![42]);
}

#[test]
fn transfer_refuses_foreign_token_program() {
    assert!(transfer_tokens_cpi(
        &pk(66),
        &pk(10),
        &pk(11),
        &pk(12),
        &pk(13),
        1,
        0,
        &authority(),
    )
    .is_err());
}

#[test]
fn pda_creation_invocations_match_system_program_builders() {
    let payer = pk(1);
    let fresh = stake_deposit_interceptor::processor::AccountInfo {
        key: pk(2),
        owner: Pubkey::new([0; 32]),
        is_signer: false,
        is_writable: true,
        lamports: 0,
        data: Vec::new(),
    };
    let plan = stake_deposit_interceptor::processor::create_pda_account(
        &payer,
        2_039_280,
        501,
        &pk(3),
        &fresh,
    );
    assert_eq!(plan.len(), 1);
    let expected = solana_system_interface::instruction::create_account(
        &sol(&payer),
        &sol(&pk(2)),
        2_039_280,
        501,
        &sol(&pk(3)),
    );
    assert_eq!(plan[0].program_id.to_bytes(), expected.program_id.to_bytes());
    assert_eq!(plan[0].data, expected.data);
    assert_eq!(plan[0].accounts.len(), expected.accounts.len());
    for (ours, theirs) in plan[0].accounts.iter().zip(expected.accounts.iter()) {
        assert_eq!(ours.pubkey.to_bytes(), theirs.pubkey.to_bytes());
        assert_eq!(ours.is_signer, theirs.is_signer);
        assert_eq!(ours.is_writable, theirs.is_writable);
    }

    // An address that already carries lamports is topped up, allocated and
    // assigned instead.
    let funded = stake_deposit_interceptor::processor::AccountInfo {
        lamports: 1_000,
        ..fresh
    };
    let plan = stake_deposit_interceptor::processor::create_pda_account(
        &payer,
        2_039_280,
        501,
        &pk(3),
        &funded,
    );
    assert_eq!(plan.len(), 3);
    assert_eq!(
        plan[0].data,
        solana_system_interface::instruction::transfer(&sol(&payer), &sol(&pk(2)), 2_038_280).data
    );
    assert_eq!(
        plan[1].data,
        solana_system_interface::instruction::allocate(&sol(&pk(2)), 501).data
    );
    assert_eq!(
        plan[2].data,
        solana_system_interface::instruction::assign(&sol(&pk(2)), &sol(&pk(3))).data
    );

    // Already rent-exempt: no transfer rides along.
    let rich = stake_deposit_interceptor::processor::AccountInfo {
        lamports: 3_000_000,
        ..funded
    };
    let plan = stake_deposit_interceptor::processor::create_pda_account(
        &payer,
        2_039_280,
        501,
        &pk(3),
        &rich,
    );
    assert_eq!(plan.len(), 2);
}

#[test]
fn pool_deposit_invocation_payloads_match_borsh() {
    let plain = deposit_stake_cpi_instruction(
        &pk(6),
        &pk(2),
        &pk(20),
        &pk(21),
        &pk(22),
        &pk(23),
        &pk(24),
        &pk(25),
        &pk(5),
        &pk(26),
        &pk(27),
        &pk(3),
        &pk(28),
        None,
    );
    assert_eq!(plain.program_id.to_bytes(), [6u8; 32]);
    assert_eq!(plain.accounts.len(), 15);
    assert!(plain.accounts[2].is_signer);
    assert_eq!(
        plain.data,
        borsh::to_vec(&spl_stake_pool::instruction::StakePoolInstruction::DepositStake).unwrap()
    );

    let bounded = deposit_stake_cpi_instruction(
        &pk(6),
        &pk(2),
        &pk(20),
        &pk(21),
        &pk(22),
        &pk(23),
        &pk(24),
        &pk(25),
        &pk(5),
        &pk(26),
        &pk(27),
        &pk(3),
        &pk(28),
        Some(777),
    );
    assert_eq!(
        bounded.data,
        borsh::to_vec(
            &spl_stake_pool::instruction::StakePoolInstruction::DepositStakeWithSlippage {
                minimum_pool_tokens_out: 777,
            }
        )
        .unwrap()
    );
}
