//! End-to-end scenarios over the instruction processors.

use solana_program::program_option::COption;
use solana_program::program_pack::Pack;
use stake_deposit_interceptor::error::{ProgramError, StakeDepositInterceptorError};
use stake_deposit_interceptor::instruction::{
    DepositStakeArgs, InitStakePoolDepositStakeAuthorityArgs,
    UpdateStakePoolDepositStakeAuthorityArgs,
};
use stake_deposit_interceptor::pda::{
    derive_stake_deposit_receipt, derive_stake_pool_deposit_stake_authority,
};
use stake_deposit_interceptor::processor::{close_account, AccountInfo, Processor};
use stake_deposit_interceptor::pubkey::Pubkey;
use stake_deposit_interceptor::state::{DepositReceipt, StakePoolDepositStakeAuthority};

fn pk(tag: u8) -> Pubkey {
    Pubkey::new([tag; 32])
}

fn sol(p: &Pubkey) -> solana_program::pubkey::Pubkey {
    solana_program::pubkey::Pubkey::from(p.to_bytes())
}

fn plain_account(key: Pubkey, owner: Pubkey) -> AccountInfo {
    AccountInfo {
        key,
        owner,
        is_signer: false,
        is_writable: false,
        lamports: 0,
        data: Vec::new(),
    }
}

fn signer_account(key: Pubkey) -> AccountInfo {
    AccountInfo {
        is_signer: true,
        ..plain_account(key, Pubkey::new([0; 32]))
    }
}

fn token_account_data(owner: &Pubkey, mint: &Pubkey, amount: u64) -> Vec<u8> {
    let account = spl_token_2022::state::Account {
        mint: sol(mint),
        owner: sol(owner),
        amount,
        delegate: COption::None,
        state: spl_token_2022::state::AccountState::Initialized,
        is_native: COption::None,
        delegated_amount: 0,
        close_authority: COption::None,
    };
    let mut data = vec![0u8; spl_token_2022::state::Account::LEN];
    spl_token_2022::state::Account::pack(account, &mut data).unwrap();
    data
}

fn mint_data(decimals: u8) -> Vec<u8> {
    let mint = spl_token_2022::state::Mint {
        mint_authority: COption::None,
        supply: 1_000_000_000,
        decimals,
        is_initialized: true,
        freeze_authority: COption::None,
    };
    let mut data = vec![0u8; spl_token_2022::state::Mint::LEN];
    spl_token_2022::state::Mint::pack(mint, &mut data).unwrap();
    data
}

fn stake_pool_data(pool_mint: &Pubkey) -> Vec<u8> {
    let mut pool = spl_stake_pool::state::StakePool::default();
    pool.pool_mint = sol(pool_mint);
    borsh::to_vec(&pool).unwrap()
}

struct Fixture {
    program_id: Pubkey,
    stake_pool: Pubkey,
    pool_mint: Pubkey,
    authority_base: Pubkey,
    authority_address: Pubkey,
    authority_record: StakePoolDepositStakeAuthority,
    receipt_base: Pubkey,
    receipt_address: Pubkey,
    receipt_record: DepositReceipt,
}

/// A consistent authority plus one receipt deposited at time 1_000 with
/// 1_000_000 pool tokens, a 1_000 second cool-down and a 100 bps fee.
fn fixture() -> Fixture {
    let program_id = pk(90);
    let stake_pool = pk(2);
    let pool_mint = pk(3);
    let authority_base = pk(4);
    let (authority_address, authority_bump) =
        derive_stake_pool_deposit_stake_authority(&program_id, &stake_pool, &authority_base)
            .unwrap();
    let vault = Pubkey::new(
        spl_associated_token_account::get_associated_token_address(
            &sol(&authority_address),
            &sol(&pool_mint),
        )
        .to_bytes(),
    );
    let authority_record = StakePoolDepositStakeAuthority {
        base: authority_base,
        stake_pool,
        pool_mint,
        authority: pk(5),
        vault,
        stake_pool_program_id: pk(6),
        cool_down_seconds: 1_000,
        initial_fee_bps: 100,
        fee_wallet: pk(7),
        bump_seed: authority_bump,
    };
    let receipt_base = pk(8);
    let (receipt_address, receipt_bump) =
        derive_stake_deposit_receipt(&program_id, &stake_pool, &receipt_base).unwrap();
    let receipt_record = DepositReceipt {
        base: receipt_base,
        owner: pk(9),
        stake_pool,
        stake_pool_deposit_stake_authority: authority_address,
        deposit_time: 1_000,
        lst_amount: 1_000_000,
        cool_down_seconds: 1_000,
        initial_fee_bps: 100,
        bump_seed: receipt_bump,
    };
    Fixture {
        program_id,
        stake_pool,
        pool_mint,
        authority_base,
        authority_address,
        authority_record,
        receipt_base,
        receipt_address,
        receipt_record,
    }
}

fn authority_account(f: &Fixture) -> AccountInfo {
    AccountInfo {
        data: f.authority_record.pack(),
        lamports: 1_000_000,
        ..plain_account(f.authority_address, f.program_id)
    }
}

fn receipt_account(f: &Fixture) -> AccountInfo {
    AccountInfo {
        data: f.receipt_record.pack(),
        lamports: 2_039_280,
        ..plain_account(f.receipt_address, f.program_id)
    }
}

fn claim(
    f: &Fixture,
    receipt: &AccountInfo,
    owner: &AccountInfo,
    timestamp: i64,
) -> Result<stake_deposit_interceptor::processor::ClaimOutcome, ProgramError> {
    let vault_acct = plain_account(f.authority_record.vault, pk(40));
    let destination = AccountInfo {
        data: token_account_data(&f.receipt_record.owner, &f.pool_mint, 0),
        ..plain_account(pk(41), pk(40))
    };
    let fee_token_account = AccountInfo {
        data: token_account_data(&f.authority_record.fee_wallet, &f.pool_mint, 0),
        ..plain_account(pk(42), pk(40))
    };
    let mint = AccountInfo {
        data: mint_data(9),
        ..plain_account(f.pool_mint, pk(40))
    };
    let system_program = plain_account(Pubkey::new([0; 32]), Pubkey::new([0; 32]));
    Processor::process_claim_pool_tokens(
        &f.program_id,
        receipt,
        owner,
        &vault_acct,
        &destination,
        &fee_token_account,
        &authority_account(f),
        &mint,
        &system_program,
        timestamp,
    )
}

#[test]
fn init_creates_snapshot_record() {
    let f = fixture();
    let stake_pool_program = pk(6);
    let token_program = pk(20);
    let dsa = AccountInfo {
        is_writable: true,
        ..plain_account(f.authority_address, Pubkey::new([0; 32]))
    };
    let vault_ata = plain_account(f.authority_record.vault, Pubkey::new([0; 32]));
    let stake_pool_acct = AccountInfo {
        data: stake_pool_data(&f.pool_mint),
        ..plain_account(f.stake_pool, stake_pool_program)
    };
    let mint_acct = plain_account(f.pool_mint, token_program);
    let record = Processor::process_init_stake_pool_deposit_stake_authority(
        &f.program_id,
        &dsa,
        &vault_ata,
        &signer_account(pk(5)),
        &signer_account(f.authority_base),
        &stake_pool_acct,
        &mint_acct,
        &plain_account(stake_pool_program, pk(30)),
        &plain_account(token_program, pk(30)),
        &plain_account(Pubkey::new([0; 32]), Pubkey::new([0; 32])),
        &InitStakePoolDepositStakeAuthorityArgs {
            fee_wallet: pk(7),
            cool_down_seconds: 1_000,
            initial_fee_bps: 100,
        },
    )
    .unwrap();
    assert_eq!(record, f.authority_record);
}

#[test]
fn init_rejects_excessive_fee_and_zero_cool_down() {
    let f = fixture();
    let dsa = AccountInfo {
        is_writable: true,
        ..plain_account(f.authority_address, Pubkey::new([0; 32]))
    };
    let run = |cool_down_seconds: u64, initial_fee_bps: u32| {
        Processor::process_init_stake_pool_deposit_stake_authority(
            &f.program_id,
            &dsa,
            &plain_account(f.authority_record.vault, Pubkey::new([0; 32])),
            &signer_account(pk(5)),
            &signer_account(f.authority_base),
            &AccountInfo {
                data: stake_pool_data(&f.pool_mint),
                ..plain_account(f.stake_pool, pk(6))
            },
            &plain_account(f.pool_mint, pk(20)),
            &plain_account(pk(6), pk(30)),
            &plain_account(pk(20), pk(30)),
            &plain_account(Pubkey::new([0; 32]), Pubkey::new([0; 32])),
            &InitStakePoolDepositStakeAuthorityArgs {
                fee_wallet: pk(7),
                cool_down_seconds,
                initial_fee_bps,
            },
        )
    };
    assert_eq!(
        run(1_000, 10_001),
        Err(ProgramError::Interceptor(
            StakeDepositInterceptorError::InitialFeeRateMaxExceeded
        ))
    );
    assert_eq!(run(0, 100), Err(ProgramError::InvalidArgument));
    assert!(run(1_000, 10_000).is_ok());
}

#[test]
fn init_rejects_unsigned_and_taken_accounts() {
    let f = fixture();
    let fresh_dsa = AccountInfo {
        is_writable: true,
        ..plain_account(f.authority_address, Pubkey::new([0; 32]))
    };
    let args = InitStakePoolDepositStakeAuthorityArgs {
        fee_wallet: pk(7),
        cool_down_seconds: 1_000,
        initial_fee_bps: 100,
    };
    let run = |dsa: &AccountInfo, authority: &AccountInfo, system_key: Pubkey| {
        Processor::process_init_stake_pool_deposit_stake_authority(
            &f.program_id,
            dsa,
            &plain_account(f.authority_record.vault, Pubkey::new([0; 32])),
            authority,
            &signer_account(f.authority_base),
            &AccountInfo {
                data: stake_pool_data(&f.pool_mint),
                ..plain_account(f.stake_pool, pk(6))
            },
            &plain_account(f.pool_mint, pk(20)),
            &plain_account(pk(6), pk(30)),
            &plain_account(pk(20), pk(30)),
            &plain_account(system_key, Pubkey::new([0; 32])),
            &args,
        )
    };
    assert_eq!(
        run(&fresh_dsa, &plain_account(pk(5), pk(0)), Pubkey::new([0; 32])),
        Err(ProgramError::Interceptor(
            StakeDepositInterceptorError::SignatureMissing
        ))
    );
    assert_eq!(
        run(&fresh_dsa, &signer_account(pk(5)), pk(33)),
        Err(ProgramError::IncorrectProgramId)
    );
    let taken = AccountInfo {
        data: vec![1, 2, 3],
        is_writable: true,
        ..plain_account(f.authority_address, Pubkey::new([0; 32]))
    };
    assert_eq!(
        run(&taken, &signer_account(pk(5)), Pubkey::new([0; 32])),
        Err(ProgramError::AccountAlreadyInitialized)
    );
}

#[test]
fn update_applies_only_present_fields() {
    let f = fixture();
    let updated = Processor::process_update_deposit_stake_authority(
        &f.program_id,
        &authority_account(&f),
        &signer_account(pk(5)),
        None,
        &UpdateStakePoolDepositStakeAuthorityArgs {
            fee_wallet: Some(pk(17)),
            cool_down_seconds: Some(50),
            initial_fee_bps: None,
        },
    )
    .unwrap();
    assert_eq!(updated.fee_wallet, pk(17));
    assert_eq!(updated.cool_down_seconds, 50);
    assert_eq!(updated.initial_fee_bps, 100);
    assert_eq!(updated.authority, pk(5));
}

#[test]
fn update_with_no_fields_changes_nothing() {
    let f = fixture();
    let updated = Processor::process_update_deposit_stake_authority(
        &f.program_id,
        &authority_account(&f),
        &signer_account(pk(5)),
        None,
        &UpdateStakePoolDepositStakeAuthorityArgs {
            fee_wallet: None,
            cool_down_seconds: None,
            initial_fee_bps: None,
        },
    )
    .unwrap();
    assert_eq!(updated, f.authority_record);
}

#[test]
fn update_authority_rotation_requires_both_signatures() {
    let f = fixture();
    let args = UpdateStakePoolDepositStakeAuthorityArgs {
        fee_wallet: None,
        cool_down_seconds: None,
        initial_fee_bps: None,
    };
    let unsigned_new = plain_account(pk(18), pk(0));
    assert_eq!(
        Processor::process_update_deposit_stake_authority(
            &f.program_id,
            &authority_account(&f),
            &signer_account(pk(5)),
            Some(&unsigned_new),
            &args,
        ),
        Err(ProgramError::Interceptor(
            StakeDepositInterceptorError::SignatureMissing
        ))
    );
    let signed_new = signer_account(pk(18));
    let updated = Processor::process_update_deposit_stake_authority(
        &f.program_id,
        &authority_account(&f),
        &signer_account(pk(5)),
        Some(&signed_new),
        &args,
    )
    .unwrap();
    assert_eq!(updated.authority, pk(18));
}

#[test]
fn update_rejects_wrong_authority_and_owner() {
    let f = fixture();
    let args = UpdateStakePoolDepositStakeAuthorityArgs {
        fee_wallet: None,
        cool_down_seconds: None,
        initial_fee_bps: Some(10_001),
    };
    assert_eq!(
        Processor::process_update_deposit_stake_authority(
            &f.program_id,
            &authority_account(&f),
            &signer_account(pk(99)),
            None,
            &args,
        ),
        Err(ProgramError::Interceptor(
            StakeDepositInterceptorError::InvalidAuthority
        ))
    );
    assert_eq!(
        Processor::process_update_deposit_stake_authority(
            &f.program_id,
            &authority_account(&f),
            &signer_account(pk(5)),
            None,
            &args,
        ),
        Err(ProgramError::Interceptor(
            StakeDepositInterceptorError::InitialFeeRateMaxExceeded
        ))
    );
    let foreign = AccountInfo {
        owner: pk(66),
        ..authority_account(&f)
    };
    assert_eq!(
        Processor::process_update_deposit_stake_authority(
            &f.program_id,
            &foreign,
            &signer_account(pk(5)),
            None,
            &UpdateStakePoolDepositStakeAuthorityArgs {
                fee_wallet: None,
                cool_down_seconds: None,
                initial_fee_bps: None,
            },
        ),
        Err(ProgramError::IncorrectProgramId)
    );
}

#[test]
fn change_owner_overwrites_owner_only() {
    let f = fixture();
    let updated = Processor::process_change_deposit_receipt_owner(
        &f.program_id,
        &receipt_account(&f),
        &signer_account(pk(9)),
        &plain_account(pk(19), pk(0)),
    )
    .unwrap();
    assert_eq!(updated.owner, pk(19));
    assert_eq!(
        DepositReceipt {
            owner: pk(9),
            ..updated
        },
        f.receipt_record
    );
}

#[test]
fn change_owner_requires_current_owner_signature() {
    let f = fixture();
    assert_eq!(
        Processor::process_change_deposit_receipt_owner(
            &f.program_id,
            &receipt_account(&f),
            &plain_account(pk(9), pk(0)),
            &plain_account(pk(19), pk(0)),
        ),
        Err(ProgramError::Interceptor(
            StakeDepositInterceptorError::SignatureMissing
        ))
    );
    assert_eq!(
        Processor::process_change_deposit_receipt_owner(
            &f.program_id,
            &receipt_account(&f),
            &signer_account(pk(55)),
            &plain_account(pk(19), pk(0)),
        ),
        Err(ProgramError::Interceptor(
            StakeDepositInterceptorError::InvalidDepositReceiptOwner
        ))
    );
}

#[test]
fn deposit_snapshots_authority_and_balance_difference() {
    let f = fixture();
    let fresh_receipt = AccountInfo {
        is_writable: true,
        ..plain_account(f.receipt_address, Pubkey::new([0; 32]))
    };
    let record = Processor::process_deposit_stake(
        &f.program_id,
        &fresh_receipt,
        &plain_account(f.stake_pool, pk(6)),
        &authority_account(&f),
        &plain_account(f.authority_record.vault, pk(40)),
        &plain_account(Pubkey::new([0; 32]), Pubkey::new([0; 32])),
        &plain_account(f.receipt_base, pk(0)),
        &DepositStakeArgs { owner: pk(9) },
        500,
        1_000_500,
        1_000,
    )
    .unwrap();
    assert_eq!(record, f.receipt_record);
}

#[test]
fn deposit_rejects_wrong_vault_and_used_receipt() {
    let f = fixture();
    let fresh_receipt = AccountInfo {
        is_writable: true,
        ..plain_account(f.receipt_address, Pubkey::new([0; 32]))
    };
    assert_eq!(
        Processor::process_deposit_stake(
            &f.program_id,
            &fresh_receipt,
            &plain_account(f.stake_pool, pk(6)),
            &authority_account(&f),
            &plain_account(pk(77), pk(40)),
            &plain_account(Pubkey::new([0; 32]), Pubkey::new([0; 32])),
            &plain_account(f.receipt_base, pk(0)),
            &DepositStakeArgs { owner: pk(9) },
            0,
            100,
            1_000,
        ),
        Err(ProgramError::Interceptor(
            StakeDepositInterceptorError::InvalidVault
        ))
    );
    assert_eq!(
        Processor::process_deposit_stake(
            &f.program_id,
            &receipt_account(&f),
            &plain_account(f.stake_pool, pk(6)),
            &authority_account(&f),
            &plain_account(f.authority_record.vault, pk(40)),
            &plain_account(Pubkey::new([0; 32]), Pubkey::new([0; 32])),
            &plain_account(f.receipt_base, pk(0)),
            &DepositStakeArgs { owner: pk(9) },
            0,
            100,
            1_000,
        ),
        Err(ProgramError::InvalidAccountOwner)
    );
}

#[test]
fn claim_during_cool_down_pays_fee_to_fee_wallet() {
    let f = fixture();
    let outcome = claim(&f, &receipt_account(&f), &signer_account(pk(9)), 1_500).unwrap();
    assert_eq!(outcome.fee_amount, 5_000);
    assert_eq!(outcome.destination_amount, 995_000);
    assert_eq!(outcome.pool_mint_decimals, 9);
}

#[test]
fn claim_permission_boundary() {
    let f = fixture();
    // During the cool-down an unsigned claim fails, even by the right owner.
    let unsigned_owner = plain_account(pk(9), pk(0));
    assert_eq!(
        claim(&f, &receipt_account(&f), &unsigned_owner, 1_500),
        Err(ProgramError::Interceptor(
            StakeDepositInterceptorError::ActiveCooldown
        ))
    );
    // Once the cool-down elapsed the same unsigned claim succeeds, fee-free.
    let outcome = claim(&f, &receipt_account(&f), &unsigned_owner, 2_001).unwrap();
    assert_eq!(outcome.fee_amount, 0);
    assert_eq!(outcome.destination_amount, 1_000_000);
}

#[test]
fn claim_closes_receipt_exactly_once() {
    let f = fixture();
    let mut receipt = receipt_account(&f);
    let mut owner = signer_account(pk(9));
    let outcome = claim(&f, &receipt, &owner, 2_001).unwrap();
    assert_eq!(outcome.destination_amount, 1_000_000);

    let rent_before = owner.lamports;
    let receipt_rent = receipt.lamports;
    close_account(&mut receipt, &mut owner);
    assert_eq!(receipt.lamports, 0);
    assert_eq!(receipt.data.len(), 0);
    assert_eq!(receipt.owner.to_bytes(), [0u8; 32]);
    assert_eq!(owner.lamports, rent_before + receipt_rent);

    // A second claim against the closed account fails.
    assert_eq!(
        claim(&f, &receipt, &owner, 2_002),
        Err(ProgramError::IncorrectProgramId)
    );
}

#[test]
fn claim_validates_cross_references() {
    let f = fixture();
    let owner = signer_account(pk(9));
    // Receipt owned by another program.
    let foreign_receipt = AccountInfo {
        owner: pk(66),
        ..receipt_account(&f)
    };
    assert_eq!(
        claim(&f, &foreign_receipt, &owner, 2_001),
        Err(ProgramError::IncorrectProgramId)
    );
    // Signer who is not the stored owner.
    assert_eq!(
        claim(&f, &receipt_account(&f), &signer_account(pk(50)), 2_001),
        Err(ProgramError::Interceptor(
            StakeDepositInterceptorError::InvalidDepositReceiptOwner
        ))
    );
    // A receipt whose stored authority reference points elsewhere.
    let mut stray = f.receipt_record;
    stray.stake_pool_deposit_stake_authority = pk(51);
    let stray_account = AccountInfo {
        data: stray.pack(),
        ..receipt_account(&f)
    };
    assert_eq!(
        claim(&f, &stray_account, &owner, 2_001),
        Err(ProgramError::Interceptor(
            StakeDepositInterceptorError::InvalidStakePoolDepositStakeAuthority
        ))
    );
}

#[test]
fn init_rejects_mismatched_cross_references() {
    let f = fixture();
    let args = InitStakePoolDepositStakeAuthorityArgs {
        fee_wallet: pk(7),
        cool_down_seconds: 1_000,
        initial_fee_bps: 100,
    };
    let run = |dsa_key: Pubkey,
               vault_key: Pubkey,
               pool_owner: Pubkey,
               mint_key: Pubkey,
               mint_owner: Pubkey| {
        Processor::process_init_stake_pool_deposit_stake_authority(
            &f.program_id,
            &AccountInfo {
                is_writable: true,
                ..plain_account(dsa_key, Pubkey::new([0; 32]))
            },
            &plain_account(vault_key, Pubkey::new([0; 32])),
            &signer_account(pk(5)),
            &signer_account(f.authority_base),
            &AccountInfo {
                data: stake_pool_data(&f.pool_mint),
                ..plain_account(f.stake_pool, pool_owner)
            },
            &plain_account(mint_key, mint_owner),
            &plain_account(pk(6), pk(30)),
            &plain_account(pk(20), pk(30)),
            &plain_account(Pubkey::new([0; 32]), Pubkey::new([0; 32])),
            &args,
        )
    };
    let good = f.authority_record.vault;
    // The stake pool is not owned by the declared stake pool program.
    assert_eq!(
        run(f.authority_address, good, pk(77), f.pool_mint, pk(20)),
        Err(ProgramError::Interceptor(StakeDepositInterceptorError::InvalidStakePool))
    );
    // The given mint is not the pool's mint.
    assert_eq!(
        run(f.authority_address, good, pk(6), pk(78), pk(20)),
        Err(ProgramError::Interceptor(StakeDepositInterceptorError::InvalidStakePool))
    );
    // The mint is not owned by the declared token program.
    assert_eq!(
        run(f.authority_address, good, pk(6), f.pool_mint, pk(79)),
        Err(ProgramError::Interceptor(StakeDepositInterceptorError::InvalidTokenProgram))
    );
    // The authority account is not at its derived address.
    assert_eq!(
        run(pk(80), good, pk(6), f.pool_mint, pk(20)),
        Err(ProgramError::Interceptor(StakeDepositInterceptorError::InvalidSeeds))
    );
    // The vault is not the authority's associated token account.
    assert_eq!(
        run(f.authority_address, pk(81), pk(6), f.pool_mint, pk(20)),
        Err(ProgramError::Interceptor(StakeDepositInterceptorError::InvalidVault))
    );
    // And the untouched inputs pass.
    assert!(run(f.authority_address, good, pk(6), f.pool_mint, pk(20)).is_ok());
}

#[test]
fn claim_rejects_bad_token_accounts_and_records() {
    let f = fixture();
    let owner = signer_account(pk(9));
    let system_program = plain_account(Pubkey::new([0; 32]), Pubkey::new([0; 32]));
    let vault_acct = plain_account(f.authority_record.vault, pk(40));
    let mint = AccountInfo {
        data: mint_data(9),
        ..plain_account(f.pool_mint, pk(40))
    };
    let good_destination = AccountInfo {
        data: token_account_data(&f.receipt_record.owner, &f.pool_mint, 0),
        ..plain_account(pk(41), pk(40))
    };
    let good_fee = AccountInfo {
        data: token_account_data(&f.authority_record.fee_wallet, &f.pool_mint, 0),
        ..plain_account(pk(42), pk(40))
    };
    let run = |receipt: &AccountInfo, destination: &AccountInfo, fee: &AccountInfo| {
        Processor::process_claim_pool_tokens(
            &f.program_id,
            receipt,
            &owner,
            &vault_acct,
            destination,
            fee,
            &authority_account(&f),
            &mint,
            &system_program,
            2_001,
        )
    };
    // A fee token account owned by someone other than the fee wallet.
    let stray_fee = AccountInfo {
        data: token_account_data(&pk(60), &f.pool_mint, 0),
        ..plain_account(pk(42), pk(40))
    };
    assert_eq!(
        run(&receipt_account(&f), &good_destination, &stray_fee),
        Err(ProgramError::Interceptor(StakeDepositInterceptorError::InvalidFeeTokenAccount))
    );
    // A destination not owned by the receipt's owner.
    let stray_destination = AccountInfo {
        data: token_account_data(&pk(61), &f.pool_mint, 0),
        ..plain_account(pk(41), pk(40))
    };
    assert_eq!(
        run(&receipt_account(&f), &stray_destination, &good_fee),
        Err(ProgramError::Interceptor(
            StakeDepositInterceptorError::InvalidDestinationTokenAccount
        ))
    );
    // A receipt account at an address its own seeds do not re-derive.
    let misplaced_receipt = AccountInfo {
        key: pk(62),
        ..receipt_account(&f)
    };
    assert_eq!(
        run(&misplaced_receipt, &good_destination, &good_fee),
        Err(ProgramError::Interceptor(StakeDepositInterceptorError::InvalidDepositReceipt))
    );
    // Garbage where a receipt record should be.
    let garbage_receipt = AccountInfo {
        data: vec![9, 9, 9],
        ..receipt_account(&f)
    };
    assert_eq!(
        run(&garbage_receipt, &good_destination, &good_fee),
        Err(ProgramError::InvalidAccountData)
    );
    // Timing fields whose sum leaves 64 bits fail closed.
    let mut overflow_record = f.receipt_record;
    overflow_record.deposit_time = u64::MAX;
    overflow_record.cool_down_seconds = 2;
    let overflow_receipt = AccountInfo {
        data: overflow_record.pack(),
        ..receipt_account(&f)
    };
    assert_eq!(
        run(&overflow_receipt, &good_destination, &good_fee),
        Err(ProgramError::ArithmeticOverflow)
    );
}

#[test]
fn deposit_rejects_misplaced_receipt_address() {
    let f = fixture();
    let misplaced = AccountInfo {
        is_writable: true,
        ..plain_account(pk(63), Pubkey::new([0; 32]))
    };
    assert_eq!(
        Processor::process_deposit_stake(
            &f.program_id,
            &misplaced,
            &plain_account(f.stake_pool, pk(6)),
            &authority_account(&f),
            &plain_account(f.authority_record.vault, pk(40)),
            &plain_account(Pubkey::new([0; 32]), Pubkey::new([0; 32])),
            &plain_account(f.receipt_base, pk(0)),
            &DepositStakeArgs { owner: pk(9) },
            0,
            100,
            1_000,
        ),
        Err(ProgramError::Interceptor(StakeDepositInterceptorError::InvalidSeeds))
    );
}

#[test]
fn receipt_snapshot_survives_authority_update() {
    let f = fixture();
    // The receipt exists; now the authority halves the cool-down and raises
    // the fee for future deposits.
    let updated = Processor::process_update_deposit_stake_authority(
        &f.program_id,
        &authority_account(&f),
        &signer_account(pk(5)),
        None,
        &UpdateStakePoolDepositStakeAuthorityArgs {
            fee_wallet: None,
            cool_down_seconds: Some(10),
            initial_fee_bps: Some(5_000),
        },
    )
    .unwrap();
    let updated_account = AccountInfo {
        data: updated.pack(),
        ..authority_account(&f)
    };
    assert_eq!(updated.cool_down_seconds, 10);
    assert_eq!(updated.initial_fee_bps, 5_000);

    // The existing receipt still owes the fee its own snapshot dictates.
    let vault_acct = plain_account(f.authority_record.vault, pk(40));
    let destination = AccountInfo {
        data: token_account_data(&f.receipt_record.owner, &f.pool_mint, 0),
        ..plain_account(pk(41), pk(40))
    };
    let fee_token_account = AccountInfo {
        data: token_account_data(&f.authority_record.fee_wallet, &f.pool_mint, 0),
        ..plain_account(pk(42), pk(40))
    };
    let mint = AccountInfo {
        data: mint_data(9),
        ..plain_account(f.pool_mint, pk(40))
    };
    let outcome = Processor::process_claim_pool_tokens(
        &f.program_id,
        &receipt_account(&f),
        &signer_account(pk(9)),
        &vault_acct,
        &destination,
        &fee_token_account,
        &updated_account,
        &mint,
        &plain_account(Pubkey::new([0; 32]), Pubkey::new([0; 32])),
        1_500,
    )
    .unwrap();
    assert_eq!(outcome.fee_amount, 5_000);
    assert_eq!(outcome.destination_amount, 995_000);

    // And the receipt's own fee calculation is untouched by the update.
    assert_eq!(f.receipt_record.calculate_fee_amount(1_500), 5_000);
}
