//! Interfaces of the foreign programs the interceptor works with: the SPL
//! stake pool program, the SPL token programs, the associated token account
//! program, and the native stake program. Each call into their crates stands
//! behind a small trusted function whose contract states what the crate's
//! source shows.

use solana_program::program_pack::Pack;
use vstd::prelude::*;

use crate::instruction::{meta, AccountMeta, Instruction};
use crate::pubkey::{
    clock_sysvar_id_bytes, spl_token_program_id_bytes, stake_program_id_bytes,
    token_2022_program_id_bytes, Pubkey,
};

verus! {

/// The associated token account of a wallet and a mint under the SPL token
/// program; a pure function of the two addresses.
pub uninterp spec fn associated_token_address(wallet: Seq<u8>, mint: Seq<u8>) -> Seq<u8>;

/// Relies on spl_associated_token_account::get_associated_token_address:
/// the derived associated token account depends on the wallet and mint
/// addresses alone.
#[verifier::external_body]
pub(crate) fn get_associated_token_address(wallet: &Pubkey, mint: &Pubkey) -> (r: Pubkey)
    ensures
        r@ == associated_token_address(wallet@, mint@),
{
    let w = solana_program::pubkey::Pubkey::from(wallet.to_bytes());
    let m = solana_program::pubkey::Pubkey::from(mint.to_bytes());
    Pubkey::new(spl_associated_token_account::get_associated_token_address(&w, &m).to_bytes())
}

/// The `pool_mint` field of a stake pool record parsed from account data,
/// or nothing where the bytes do not parse; a pure function of the bytes.
pub uninterp spec fn stake_pool_mint_of(data: Seq<u8>) -> Option<Seq<u8>>;

/// Relies on the borsh deserialization of spl_stake_pool::state::StakePool:
/// whether the bytes parse, and the parsed `pool_mint` field, depend on the
/// bytes alone. Trailing bytes beyond the record are tolerated, as the
/// on-chain account is larger than the record.
#[verifier::external_body]
pub(crate) fn parse_stake_pool_mint(data: &[u8]) -> (r: Option<Pubkey>)
    ensures
        match r {
            Some(p) => stake_pool_mint_of(data@) == Some(p@),
            None => stake_pool_mint_of(data@) is None,
        },
{
    let mut slice: &[u8] = data;
    <spl_stake_pool::state::StakePool as borsh::BorshDeserialize>::deserialize(&mut slice)
        .ok()
        .map(|pool| Pubkey::new(pool.pool_mint.to_bytes()))
}

/// The owner and amount of an SPL token account parsed from account data, or
/// nothing where the bytes are no initialized token account; a pure function
/// of the bytes.
pub uninterp spec fn token_account_of(data: Seq<u8>) -> Option<(Seq<u8>, u64)>;

/// Relies on spl_token_2022::state::Account::unpack: whether the bytes are a
/// token account record, and its owner and amount, depend on the bytes alone.
#[verifier::external_body]
pub(crate) fn unpack_token_account(data: &[u8]) -> (r: Option<(Pubkey, u64)>)
    ensures
        match r {
            Some(t) => token_account_of(data@) == Some((t.0@, t.1)),
            None => token_account_of(data@) is None,
        },
{
    spl_token_2022::state::Account::unpack(data)
        .ok()
        .map(|account| (Pubkey::new(account.owner.to_bytes()), account.amount))
}

/// The decimals of an SPL token mint parsed from account data; a pure
/// function of the bytes.
pub uninterp spec fn mint_decimals_of(data: Seq<u8>) -> Option<u8>;

/// Relies on spl_token_2022::state::Mint::unpack: whether the bytes are an
/// initialized mint record, and its decimals, depend on the bytes alone.
#[verifier::external_body]
pub(crate) fn unpack_mint_decimals(data: &[u8]) -> (r: Option<u8>)
    ensures
        r == mint_decimals_of(data@),
{
    spl_token_2022::state::Mint::unpack(data).ok().map(|mint| mint.decimals)
}

/// The serialized payload of the stake pool program's deposit instruction:
/// plain deposit when no slippage bound is given, the slippage variant
/// otherwise; a pure function of the bound.
pub uninterp spec fn stake_pool_deposit_data(minimum_pool_tokens_out: Option<u64>) -> Seq<u8>;

/// Relies on the borsh serialization of
/// spl_stake_pool::instruction::StakePoolInstruction: the payload of the
/// DepositStake and DepositStakeWithSlippage variants depends on the
/// slippage bound alone.
#[verifier::external_body]
pub(crate) fn stake_pool_deposit_instruction_data(minimum_pool_tokens_out: Option<u64>) -> (r: Vec<
    u8,
>)
    ensures
        r@ == stake_pool_deposit_data(minimum_pool_tokens_out),
{
    let instruction = match minimum_pool_tokens_out {
        Some(minimum_pool_tokens_out) =>
            spl_stake_pool::instruction::StakePoolInstruction::DepositStakeWithSlippage {
            minimum_pool_tokens_out,
        },
        None => spl_stake_pool::instruction::StakePoolInstruction::DepositStake,
    };
    borsh::to_vec(&instruction).unwrap()
}

/// The serialized payload of a checked token transfer of an amount with a
/// mint's decimals; a pure function of the two.
pub uninterp spec fn transfer_checked_data(amount: u64, decimals: u8) -> Seq<u8>;

/// Relies on spl_token_2022::instruction::transfer_checked: with no extra
/// signers it succeeds exactly for the two SPL token program ids, builds the
/// slots source (writable), mint, destination (writable) and the signing
/// authority, and a payload that depends on the amount and decimals alone.
#[verifier::external_body]
pub(crate) fn transfer_checked_instruction(
    token_program: &Pubkey,
    source: &Pubkey,
    mint: &Pubkey,
    destination: &Pubkey,
    authority: &Pubkey,
    amount: u64,
    decimals: u8,
) -> (r: Option<Instruction>)
    ensures
        r is Some <==> (token_program@ == spl_token_program_id_bytes() || token_program@
            == token_2022_program_id_bytes()),
        r matches Some(ix) ==> {
            &&& ix@.program_id == token_program@
            &&& ix@.accounts == seq![
                meta(source@, false, true),
                meta(mint@, false, false),
                meta(destination@, false, true),
                meta(authority@, true, false),
            ]
            &&& ix@.data == transfer_checked_data(amount, decimals)
        },
{
    let ix = spl_token_2022::instruction::transfer_checked(
        &token_program.to_bytes().into(), &source.to_bytes().into(), &mint.to_bytes().into(),
        &destination.to_bytes().into(), &authority.to_bytes().into(), &[], amount, decimals,
    ).ok()?;
    let accounts = ix.accounts.iter().map(
        |m| AccountMeta { pubkey: Pubkey::new(m.pubkey.to_bytes()), is_signer: m.is_signer, is_writable: m.is_writable },
    ).collect();
    Some(Instruction { program_id: Pubkey::new(ix.program_id.to_bytes()), accounts, data: ix.data })
}

/// The serialized payload of a system-program transfer; a pure function of
/// the amount.
pub uninterp spec fn system_transfer_data(lamports: u64) -> Seq<u8>;

/// Relies on solana_system_interface::instruction::transfer: an instruction
/// for the system program with the signing source (writable) and the
/// destination (writable), and a payload that depends on the amount alone.
#[verifier::external_body]
pub(crate) fn system_transfer(from: &Pubkey, to: &Pubkey, lamports: u64) -> (r: Instruction)
    ensures
        r@.program_id == crate::pubkey::zero_pubkey_bytes(),
        r@.accounts == seq![meta(from@, true, true), meta(to@, false, true)],
        r@.data == system_transfer_data(lamports),
{
    let ix = solana_system_interface::instruction::transfer(
        &from.to_bytes().into(), &to.to_bytes().into(), lamports,
    );
    let accounts = ix.accounts.iter().map(
        |m| AccountMeta { pubkey: Pubkey::new(m.pubkey.to_bytes()), is_signer: m.is_signer, is_writable: m.is_writable },
    ).collect();
    Instruction { program_id: Pubkey::new(ix.program_id.to_bytes()), accounts, data: ix.data }
}

/// The serialized payload of a system-program allocation; a pure function of
/// the space.
pub uninterp spec fn system_allocate_data(space: u64) -> Seq<u8>;

/// Relies on solana_system_interface::instruction::allocate: an instruction
/// for the system program with the signing account (writable), and a payload
/// that depends on the space alone.
#[verifier::external_body]
pub(crate) fn system_allocate(address: &Pubkey, space: u64) -> (r: Instruction)
    ensures
        r@.program_id == crate::pubkey::zero_pubkey_bytes(),
        r@.accounts == seq![meta(address@, true, true)],
        r@.data == system_allocate_data(space),
{
    let ix = solana_system_interface::instruction::allocate(&address.to_bytes().into(), space);
    let accounts = ix.accounts.iter().map(
        |m| AccountMeta { pubkey: Pubkey::new(m.pubkey.to_bytes()), is_signer: m.is_signer, is_writable: m.is_writable },
    ).collect();
    Instruction { program_id: Pubkey::new(ix.program_id.to_bytes()), accounts, data: ix.data }
}

/// The serialized payload of a system-program ownership assignment; a pure
/// function of the new owner.
pub uninterp spec fn system_assign_data(owner: Seq<u8>) -> Seq<u8>;

/// Relies on solana_system_interface::instruction::assign: an instruction
/// for the system program with the signing account (writable), and a payload
/// that depends on the new owner alone.
#[verifier::external_body]
pub(crate) fn system_assign(address: &Pubkey, owner: &Pubkey) -> (r: Instruction)
    ensures
        r@.program_id == crate::pubkey::zero_pubkey_bytes(),
        r@.accounts == seq![meta(address@, true, true)],
        r@.data == system_assign_data(owner@),
{
    let ix = solana_system_interface::instruction::assign(
        &address.to_bytes().into(), &owner.to_bytes().into(),
    );
    let accounts = ix.accounts.iter().map(
        |m| AccountMeta { pubkey: Pubkey::new(m.pubkey.to_bytes()), is_signer: m.is_signer, is_writable: m.is_writable },
    ).collect();
    Instruction { program_id: Pubkey::new(ix.program_id.to_bytes()), accounts, data: ix.data }
}

/// The serialized payload of a system-program account creation; a pure
/// function of the lamports, space and owner.
pub uninterp spec fn system_create_account_data(lamports: u64, space: u64, owner: Seq<u8>) -> Seq<
    u8,
>;

/// Relies on solana_system_interface::instruction::create_account: an
/// instruction for the system program with the signing funder (writable) and
/// the signing new account (writable), and a payload that depends on the
/// lamports, space and owner alone.
#[verifier::external_body]
pub(crate) fn system_create_account(
    from: &Pubkey,
    to: &Pubkey,
    lamports: u64,
    space: u64,
    owner: &Pubkey,
) -> (r: Instruction)
    ensures
        r@.program_id == crate::pubkey::zero_pubkey_bytes(),
        r@.accounts == seq![meta(from@, true, true), meta(to@, true, true)],
        r@.data == system_create_account_data(lamports, space, owner@),
{
    let ix = solana_system_interface::instruction::create_account(
        &from.to_bytes().into(), &to.to_bytes().into(), lamports, space, &owner.to_bytes().into(),
    );
    let accounts = ix.accounts.iter().map(
        |m| AccountMeta { pubkey: Pubkey::new(m.pubkey.to_bytes()), is_signer: m.is_signer, is_writable: m.is_writable },
    ).collect();
    Instruction { program_id: Pubkey::new(ix.program_id.to_bytes()), accounts, data: ix.data }
}

/// The serialized payload of the stake program's authorize instruction for a
/// new authority and a role (staker or withdrawer); a pure function of both.
pub uninterp spec fn stake_authorize_data(new_authorized: Seq<u8>, staker: bool) -> Seq<u8>;

/// Relies on solana_stake_interface::instruction::authorize: without a
/// custodian it builds an instruction for the stake program with exactly the
/// stake account (writable), the clock sysvar, and the signing current
/// authority, and a bincode payload that depends on the new authority and
/// the role alone.
#[verifier::external_body]
pub(crate) fn stake_authorize(
    stake: &Pubkey,
    authorized: &Pubkey,
    new_authorized: &Pubkey,
    staker: bool,
) -> (r: Instruction)
    ensures
        r@.program_id == stake_program_id_bytes(),
        r@.accounts == seq![
            meta(stake@, false, true),
            meta(clock_sysvar_id_bytes(), false, false),
            meta(authorized@, true, false),
        ],
        r@.data == stake_authorize_data(new_authorized@, staker),
{
    let role = if staker {
        solana_stake_interface::state::StakeAuthorize::Staker
    } else {
        solana_stake_interface::state::StakeAuthorize::Withdrawer
    };
    let ix = solana_stake_interface::instruction::authorize(
        &stake.to_bytes().into(), &authorized.to_bytes().into(), &new_authorized.to_bytes().into(), role, None,
    );
    let accounts = ix.accounts.iter().map(
        |m| AccountMeta { pubkey: Pubkey::new(m.pubkey.to_bytes()), is_signer: m.is_signer, is_writable: m.is_writable },
    ).collect();
    Instruction { program_id: Pubkey::new(ix.program_id.to_bytes()), accounts, data: ix.data }
}

} // verus!
