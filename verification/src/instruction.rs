//! The wire-level instruction set of the interceptor program.
//!
//! An instruction's data is a one-byte variant tag followed by the variant's
//! arguments in field order, integers little-endian, options as a `0` byte or
//! a `1` byte followed by the payload — the borsh positional encoding, so
//! existing callers interoperate byte for byte.
//!
//! Variant tags: `0` InitStakePoolDepositStakeAuthority,
//! `1` UpdateStakePoolDepositStakeAuthority, `2` DepositStake,
//! `3` DepositStakeWithSlippage, `4` ChangeDepositReceiptOwner,
//! `5` ClaimPoolTokens.

use vstd::prelude::*;

use crate::codec::{
    le_u32_bytes, le_u64_bytes, push_u32_le, push_u64_le, read_pubkey, read_u32_le, read_u64_le,
    u32_from_le, u64_from_le,
};
use crate::pda::{
    authority_seeds, derive_stake_deposit_receipt, derive_stake_pool_deposit_stake_authority,
    find_pda, receipt_seeds,
};
use crate::programs::{
    associated_token_address, get_associated_token_address, stake_authorize,
    stake_authorize_data, stake_pool_deposit_data,
};
use crate::pubkey::{
    associated_token_program_id, associated_token_program_id_bytes, clock_sysvar_id,
    clock_sysvar_id_bytes, stake_history_sysvar_id, stake_history_sysvar_id_bytes,
    stake_program_id, stake_program_id_bytes, system_program_id, zero_pubkey_bytes, Pubkey,
};

verus! {

/// One account slot of an instruction: the address plus its read/write and
/// signer flags, position-significant at the wire level.
#[derive(Clone, Copy, Debug)]
pub struct AccountMeta {
    /// The account's address.
    pub pubkey: Pubkey,
    /// Whether the account must sign the transaction.
    pub is_signer: bool,
    /// Whether the instruction may write the account.
    pub is_writable: bool,
}

/// The mathematical content of an account slot.
pub ghost struct AccountMetaView {
    pub pubkey: Seq<u8>,
    pub is_signer: bool,
    pub is_writable: bool,
}

impl View for AccountMeta {
    type V = AccountMetaView;

    open spec fn view(&self) -> AccountMetaView {
        AccountMetaView { pubkey: self.pubkey@, is_signer: self.is_signer, is_writable: self.is_writable }
    }
}

impl DeepView for AccountMeta {
    type V = AccountMetaView;

    open spec fn deep_view(&self) -> AccountMetaView {
        self@
    }
}

/// An account slot, in contracts.
pub open spec fn meta(pubkey: Seq<u8>, is_signer: bool, is_writable: bool) -> AccountMetaView {
    AccountMetaView { pubkey, is_signer, is_writable }
}

impl AccountMeta {
    /// A writable account slot.
    pub fn new(pubkey: Pubkey, is_signer: bool) -> (r: AccountMeta)
        ensures
            r@ == meta(pubkey@, is_signer, true),
    {
        AccountMeta { pubkey, is_signer, is_writable: true }
    }

    /// A read-only account slot.
    pub fn new_readonly(pubkey: Pubkey, is_signer: bool) -> (r: AccountMeta)
        ensures
            r@ == meta(pubkey@, is_signer, false),
    {
        AccountMeta { pubkey, is_signer, is_writable: false }
    }
}

/// A full instruction: the program to run, its account slots in wire order,
/// and its serialized payload.
#[derive(Clone, Debug)]
pub struct Instruction {
    /// The program that executes this instruction.
    pub program_id: Pubkey,
    /// The account slots, in the order the program expects them.
    pub accounts: Vec<AccountMeta>,
    /// The serialized instruction payload.
    pub data: Vec<u8>,
}

/// The mathematical content of an instruction to submit.
pub ghost struct InstructionContentView {
    pub program_id: Seq<u8>,
    pub accounts: Seq<AccountMetaView>,
    pub data: Seq<u8>,
}

impl View for Instruction {
    type V = InstructionContentView;

    open spec fn view(&self) -> InstructionContentView {
        InstructionContentView {
            program_id: self.program_id@,
            accounts: self.accounts.deep_view(),
            data: self.data@,
        }
    }
}

impl DeepView for Instruction {
    type V = InstructionContentView;

    open spec fn deep_view(&self) -> InstructionContentView {
        self@
    }
}

/// Arguments to create an interceptor authority.
#[derive(Clone, Copy, Debug)]
pub struct InitStakePoolDepositStakeAuthorityArgs {
    /// Owner of the token account that receives fees.
    pub fee_wallet: Pubkey,
    /// The duration after a deposit in which the depositor owes fees.
    pub cool_down_seconds: u64,
    /// The fee rate in basis points right after a deposit.
    pub initial_fee_bps: u32,
}

/// The mathematical content of the init arguments.
pub ghost struct InitArgsView {
    pub fee_wallet: Seq<u8>,
    pub cool_down_seconds: u64,
    pub initial_fee_bps: u32,
}

impl View for InitStakePoolDepositStakeAuthorityArgs {
    type V = InitArgsView;

    open spec fn view(&self) -> InitArgsView {
        InitArgsView {
            fee_wallet: self.fee_wallet@,
            cool_down_seconds: self.cool_down_seconds,
            initial_fee_bps: self.initial_fee_bps,
        }
    }
}

/// Arguments to update an interceptor authority: only fields that are
/// present change.
#[derive(Clone, Copy, Debug)]
pub struct UpdateStakePoolDepositStakeAuthorityArgs {
    /// New owner of the fee token account, if any.
    pub fee_wallet: Option<Pubkey>,
    /// New cool-down, if any.
    pub cool_down_seconds: Option<u64>,
    /// New fee rate, if any.
    pub initial_fee_bps: Option<u32>,
}

/// The mathematical content of the update arguments.
pub ghost struct UpdateArgsView {
    pub fee_wallet: Option<Seq<u8>>,
    pub cool_down_seconds: Option<u64>,
    pub initial_fee_bps: Option<u32>,
}

impl View for UpdateStakePoolDepositStakeAuthorityArgs {
    type V = UpdateArgsView;

    open spec fn view(&self) -> UpdateArgsView {
        UpdateArgsView {
            fee_wallet: match self.fee_wallet {
                Some(k) => Some(k@),
                None => None,
            },
            cool_down_seconds: self.cool_down_seconds,
            initial_fee_bps: self.initial_fee_bps,
        }
    }
}

/// Arguments to deposit a stake account. The receipt owner travels as an
/// argument because, by the time the instruction runs, the stake account's
/// authorities have already been handed to the interceptor authority.
#[derive(Clone, Copy, Debug)]
pub struct DepositStakeArgs {
    /// The address that will own the new deposit receipt.
    pub owner: Pubkey,
}

/// Arguments to deposit a stake account under a slippage bound.
#[derive(Clone, Copy, Debug)]
pub struct DepositStakeWithSlippageArgs {
    /// The address that will own the new deposit receipt.
    pub owner: Pubkey,
    /// Minimum pool tokens that the wrapped pool must mint.
    pub minimum_pool_tokens_out: u64,
}

/// Instructions understood by the interceptor program.
#[derive(Clone, Copy, Debug)]
pub enum StakeDepositInterceptorInstruction {
    /// Create an interceptor authority for a stake pool.
    InitStakePoolDepositStakeAuthority(InitStakePoolDepositStakeAuthorityArgs),
    /// Update fee parameters, fee wallet or the controlling authority.
    UpdateStakePoolDepositStakeAuthority(UpdateStakePoolDepositStakeAuthorityArgs),
    /// Deposit a stake account into the wrapped pool, minting pool tokens
    /// into the vault and creating a deposit receipt.
    DepositStake(DepositStakeArgs),
    /// Deposit with a slippage bound.
    DepositStakeWithSlippage(DepositStakeWithSlippageArgs),
    /// Hand a deposit receipt to a new owner.
    ChangeDepositReceiptOwner,
    /// Pay out a receipt: fee to the fee wallet, the rest to the owner's
    /// destination account, then close the receipt.
    ClaimPoolTokens,
}

/// The mathematical content of an instruction.
pub ghost enum InstructionView {
    Init { fee_wallet: Seq<u8>, cool_down_seconds: u64, initial_fee_bps: u32 },
    Update {
        fee_wallet: Option<Seq<u8>>,
        cool_down_seconds: Option<u64>,
        initial_fee_bps: Option<u32>,
    },
    DepositStake { owner: Seq<u8> },
    DepositStakeWithSlippage { owner: Seq<u8>, minimum_pool_tokens_out: u64 },
    ChangeDepositReceiptOwner,
    ClaimPoolTokens,
}

impl View for StakeDepositInterceptorInstruction {
    type V = InstructionView;

    open spec fn view(&self) -> InstructionView {
        match self {
            StakeDepositInterceptorInstruction::InitStakePoolDepositStakeAuthority(a) =>
                InstructionView::Init {
                fee_wallet: a.fee_wallet@,
                cool_down_seconds: a.cool_down_seconds,
                initial_fee_bps: a.initial_fee_bps,
            },
            StakeDepositInterceptorInstruction::UpdateStakePoolDepositStakeAuthority(a) =>
                InstructionView::Update {
                fee_wallet: match a.fee_wallet {
                    Some(k) => Some(k@),
                    None => None,
                },
                cool_down_seconds: a.cool_down_seconds,
                initial_fee_bps: a.initial_fee_bps,
            },
            StakeDepositInterceptorInstruction::DepositStake(a) => InstructionView::DepositStake {
                owner: a.owner@,
            },
            StakeDepositInterceptorInstruction::DepositStakeWithSlippage(a) =>
                InstructionView::DepositStakeWithSlippage {
                owner: a.owner@,
                minimum_pool_tokens_out: a.minimum_pool_tokens_out,
            },
            StakeDepositInterceptorInstruction::ChangeDepositReceiptOwner =>
                InstructionView::ChangeDepositReceiptOwner,
            StakeDepositInterceptorInstruction::ClaimPoolTokens => InstructionView::ClaimPoolTokens,
        }
    }
}

/// An optional 32-byte key on the wire: `0`, or `1` followed by the key.
pub open spec fn opt_pubkey_bytes(v: Option<Seq<u8>>) -> Seq<u8> {
    match v {
        None => seq![0u8],
        Some(k) => seq![1u8] + k,
    }
}

/// An optional 64-bit integer on the wire.
pub open spec fn opt_u64_bytes(v: Option<u64>) -> Seq<u8> {
    match v {
        None => seq![0u8],
        Some(x) => seq![1u8] + le_u64_bytes(x),
    }
}

/// An optional 32-bit integer on the wire.
pub open spec fn opt_u32_bytes(v: Option<u32>) -> Seq<u8> {
    match v {
        None => seq![0u8],
        Some(x) => seq![1u8] + le_u32_bytes(x),
    }
}

/// The exact wire bytes of an instruction.
pub open spec fn instruction_bytes(i: InstructionView) -> Seq<u8> {
    match i {
        InstructionView::Init { fee_wallet, cool_down_seconds, initial_fee_bps } => seq![0u8]
            + fee_wallet + le_u64_bytes(cool_down_seconds) + le_u32_bytes(initial_fee_bps),
        InstructionView::Update { fee_wallet, cool_down_seconds, initial_fee_bps } => seq![1u8]
            + opt_pubkey_bytes(fee_wallet) + opt_u64_bytes(cool_down_seconds) + opt_u32_bytes(
            initial_fee_bps,
        ),
        InstructionView::DepositStake { owner } => seq![2u8] + owner,
        InstructionView::DepositStakeWithSlippage { owner, minimum_pool_tokens_out } => seq![3u8]
            + owner + le_u64_bytes(minimum_pool_tokens_out),
        InstructionView::ChangeDepositReceiptOwner => seq![4u8],
        InstructionView::ClaimPoolTokens => seq![5u8],
    }
}

/// Parse an optional 32-byte key at `pos`; the new position on success.
pub open spec fn parse_opt_pubkey(data: Seq<u8>, pos: int) -> Option<(Option<Seq<u8>>, int)> {
    if pos < data.len() && data[pos] == 0u8 {
        Some((None, pos + 1))
    } else if pos < data.len() && data[pos] == 1u8 && pos + 33 <= data.len() {
        Some((Some(data.subrange(pos + 1, pos + 33)), pos + 33))
    } else {
        None
    }
}

/// Parse an optional 64-bit integer at `pos`.
pub open spec fn parse_opt_u64(data: Seq<u8>, pos: int) -> Option<(Option<u64>, int)> {
    if pos < data.len() && data[pos] == 0u8 {
        Some((None, pos + 1))
    } else if pos < data.len() && data[pos] == 1u8 && pos + 9 <= data.len() {
        Some((Some(u64_from_le(data.subrange(pos + 1, pos + 9))), pos + 9))
    } else {
        None
    }
}

/// Parse an optional 32-bit integer at `pos`.
pub open spec fn parse_opt_u32(data: Seq<u8>, pos: int) -> Option<(Option<u32>, int)> {
    if pos < data.len() && data[pos] == 0u8 {
        Some((None, pos + 1))
    } else if pos < data.len() && data[pos] == 1u8 && pos + 5 <= data.len() {
        Some((Some(u32_from_le(data.subrange(pos + 1, pos + 5))), pos + 5))
    } else {
        None
    }
}

/// The instruction encoded in `data`, if `data` is exactly one instruction's
/// wire bytes.
pub open spec fn parse_instruction(data: Seq<u8>) -> Option<InstructionView> {
    if data.len() < 1 {
        None
    } else if data[0] == 0u8 {
        if data.len() == 45 {
            Some(
                InstructionView::Init {
                    fee_wallet: data.subrange(1, 33),
                    cool_down_seconds: u64_from_le(data.subrange(33, 41)),
                    initial_fee_bps: u32_from_le(data.subrange(41, 45)),
                },
            )
        } else {
            None
        }
    } else if data[0] == 1u8 {
        match parse_opt_pubkey(data, 1) {
            Some((fee_wallet, p1)) => match parse_opt_u64(data, p1) {
                Some((cool_down_seconds, p2)) => match parse_opt_u32(data, p2) {
                    Some((initial_fee_bps, p3)) => if p3 == data.len() {
                        Some(
                            InstructionView::Update {
                                fee_wallet,
                                cool_down_seconds,
                                initial_fee_bps,
                            },
                        )
                    } else {
                        None
                    },
                    None => None,
                },
                None => None,
            },
            None => None,
        }
    } else if data[0] == 2u8 {
        if data.len() == 33 {
            Some(InstructionView::DepositStake { owner: data.subrange(1, 33) })
        } else {
            None
        }
    } else if data[0] == 3u8 {
        if data.len() == 41 {
            Some(
                InstructionView::DepositStakeWithSlippage {
                    owner: data.subrange(1, 33),
                    minimum_pool_tokens_out: u64_from_le(data.subrange(33, 41)),
                },
            )
        } else {
            None
        }
    } else if data[0] == 4u8 {
        if data.len() == 1 {
            Some(InstructionView::ChangeDepositReceiptOwner)
        } else {
            None
        }
    } else if data[0] == 5u8 {
        if data.len() == 1 {
            Some(InstructionView::ClaimPoolTokens)
        } else {
            None
        }
    } else {
        None
    }
}

impl StakeDepositInterceptorInstruction {
    /// Serialize the instruction into its wire bytes.
    pub fn pack(&self) -> (out: Vec<u8>)
        ensures
            out@ == instruction_bytes(self@),
    {
        let mut out: Vec<u8> = Vec::new();
        match self {
            StakeDepositInterceptorInstruction::InitStakePoolDepositStakeAuthority(a) => {
                out.push(0);
                a.fee_wallet.append_to(&mut out);
                push_u64_le(&mut out, a.cool_down_seconds);
                push_u32_le(&mut out, a.initial_fee_bps);
            },
            StakeDepositInterceptorInstruction::UpdateStakePoolDepositStakeAuthority(a) => {
                out.push(1);
                match &a.fee_wallet {
                    Some(k) => {
                        out.push(1);
                        k.append_to(&mut out);
                    },
                    None => {
                        out.push(0);
                    },
                }
                match &a.cool_down_seconds {
                    Some(x) => {
                        out.push(1);
                        push_u64_le(&mut out, *x);
                    },
                    None => {
                        out.push(0);
                    },
                }
                match &a.initial_fee_bps {
                    Some(x) => {
                        out.push(1);
                        push_u32_le(&mut out, *x);
                    },
                    None => {
                        out.push(0);
                    },
                }
            },
            StakeDepositInterceptorInstruction::DepositStake(a) => {
                out.push(2);
                a.owner.append_to(&mut out);
            },
            StakeDepositInterceptorInstruction::DepositStakeWithSlippage(a) => {
                out.push(3);
                a.owner.append_to(&mut out);
                push_u64_le(&mut out, a.minimum_pool_tokens_out);
            },
            StakeDepositInterceptorInstruction::ChangeDepositReceiptOwner => {
                out.push(4);
            },
            StakeDepositInterceptorInstruction::ClaimPoolTokens => {
                out.push(5);
            },
        }
        proof {
            assert(out@ =~= instruction_bytes(self@));
        }
        out
    }

    /// Deserialize an instruction from wire bytes; the exact inverse of
    /// `pack` — trailing or malformed bytes are rejected.
    pub fn unpack(data: &[u8]) -> (r: Option<StakeDepositInterceptorInstruction>)
        ensures
            match r {
                Some(i) => parse_instruction(data@) == Some(i@),
                None => parse_instruction(data@) is None,
            },
    {
        let n = data.len();
        if n < 1 {
            return None;
        }
        let tag = data[0];
        if tag == 0 {
            if n != 45 {
                return None;
            }
            Some(
                StakeDepositInterceptorInstruction::InitStakePoolDepositStakeAuthority(
                    InitStakePoolDepositStakeAuthorityArgs {
                        fee_wallet: read_pubkey(data, 1),
                        cool_down_seconds: read_u64_le(data, 33),
                        initial_fee_bps: read_u32_le(data, 41),
                    },
                ),
            )
        } else if tag == 1 {
            let mut pos: usize = 1;
            let fee_wallet: Option<Pubkey>;
            if pos < n && data[pos] == 0 {
                fee_wallet = None;
                pos = pos + 1;
            } else if pos < n && data[pos] == 1 && pos + 33 <= n {
                fee_wallet = Some(read_pubkey(data, pos + 1));
                pos = pos + 33;
            } else {
                return None;
            }
            let cool_down_seconds: Option<u64>;
            if pos < n && data[pos] == 0 {
                cool_down_seconds = None;
                pos = pos + 1;
            } else if pos < n && data[pos] == 1 && pos + 9 <= n {
                cool_down_seconds = Some(read_u64_le(data, pos + 1));
                pos = pos + 9;
            } else {
                return None;
            }
            let initial_fee_bps: Option<u32>;
            if pos < n && data[pos] == 0 {
                initial_fee_bps = None;
                pos = pos + 1;
            } else if pos < n && data[pos] == 1 && pos + 5 <= n {
                initial_fee_bps = Some(read_u32_le(data, pos + 1));
                pos = pos + 5;
            } else {
                return None;
            }
            if pos != n {
                return None;
            }
            Some(
                StakeDepositInterceptorInstruction::UpdateStakePoolDepositStakeAuthority(
                    UpdateStakePoolDepositStakeAuthorityArgs {
                        fee_wallet,
                        cool_down_seconds,
                        initial_fee_bps,
                    },
                ),
            )
        } else if tag == 2 {
            if n != 33 {
                return None;
            }
            Some(
                StakeDepositInterceptorInstruction::DepositStake(
                    DepositStakeArgs { owner: read_pubkey(data, 1) },
                ),
            )
        } else if tag == 3 {
            if n != 41 {
                return None;
            }
            Some(
                StakeDepositInterceptorInstruction::DepositStakeWithSlippage(
                    DepositStakeWithSlippageArgs {
                        owner: read_pubkey(data, 1),
                        minimum_pool_tokens_out: read_u64_le(data, 33),
                    },
                ),
            )
        } else if tag == 4 {
            if n != 1 {
                return None;
            }
            Some(StakeDepositInterceptorInstruction::ChangeDepositReceiptOwner)
        } else if tag == 5 {
            if n != 1 {
                return None;
            }
            Some(StakeDepositInterceptorInstruction::ClaimPoolTokens)
        } else {
            None
        }
    }
}

/// The view of an optional key argument.
pub open spec fn opt_key_view(v: Option<Pubkey>) -> Option<Seq<u8>> {
    match v {
        Some(k) => Some(k@),
        None => None,
    }
}

/// The account slots of the init instruction.
pub open spec fn init_authority_metas(
    payer: Seq<u8>,
    deposit_stake_authority: Seq<u8>,
    vault_ata: Seq<u8>,
    authority: Seq<u8>,
    base: Seq<u8>,
    stake_pool: Seq<u8>,
    stake_pool_mint: Seq<u8>,
    stake_pool_program: Seq<u8>,
    token_program: Seq<u8>,
) -> Seq<AccountMetaView> {
    seq![
        meta(payer, true, true),
        meta(deposit_stake_authority, false, true),
        meta(vault_ata, false, true),
        meta(authority, true, false),
        meta(base, true, false),
        meta(stake_pool, false, false),
        meta(stake_pool_mint, false, false),
        meta(stake_pool_program, false, false),
        meta(token_program, false, false),
        meta(associated_token_program_id_bytes(), false, false),
        meta(zero_pubkey_bytes(), false, false),
    ]
}

/// Build the instruction that creates an interceptor authority for a stake
/// pool, deriving the authority address and its vault. Fails only where no
/// bump seed derives an authority address.
pub fn create_init_deposit_stake_authority_instruction(
    program_id: &Pubkey,
    payer: &Pubkey,
    stake_pool: &Pubkey,
    stake_pool_mint: &Pubkey,
    stake_pool_program_id: &Pubkey,
    token_program_id: &Pubkey,
    fee_wallet: &Pubkey,
    cool_down_seconds: u64,
    initial_fee_bps: u32,
    authority: &Pubkey,
    base: &Pubkey,
) -> (r: Option<Instruction>)
    ensures
        match r {
            Some(ix) => match find_pda(authority_seeds(stake_pool@, base@), program_id@) {
                Some(pda) => ix@.program_id == program_id@ && ix@.accounts == init_authority_metas(
                    payer@,
                    pda.0,
                    associated_token_address(pda.0, stake_pool_mint@),
                    authority@,
                    base@,
                    stake_pool@,
                    stake_pool_mint@,
                    stake_pool_program_id@,
                    token_program_id@,
                ) && ix@.data == instruction_bytes(
                    InstructionView::Init {
                        fee_wallet: fee_wallet@,
                        cool_down_seconds,
                        initial_fee_bps,
                    },
                ),
                None => false,
            },
            None => find_pda(authority_seeds(stake_pool@, base@), program_id@) is None,
        },
{
    let derived = derive_stake_pool_deposit_stake_authority(program_id, stake_pool, base);
    let (deposit_stake_authority_pubkey, _bump_seed) = match derived {
        Some(d) => d,
        None => {
            return None;
        },
    };
    let vault_ata = get_associated_token_address(&deposit_stake_authority_pubkey, stake_pool_mint);
    let args = InitStakePoolDepositStakeAuthorityArgs {
        fee_wallet: *fee_wallet,
        cool_down_seconds,
        initial_fee_bps,
    };
    let mut accounts: Vec<AccountMeta> = Vec::new();
    accounts.push(AccountMeta::new(*payer, true));
    accounts.push(AccountMeta::new(deposit_stake_authority_pubkey, false));
    accounts.push(AccountMeta::new(vault_ata, false));
    accounts.push(AccountMeta::new_readonly(*authority, true));
    accounts.push(AccountMeta::new_readonly(*base, true));
    accounts.push(AccountMeta::new_readonly(*stake_pool, false));
    accounts.push(AccountMeta::new_readonly(*stake_pool_mint, false));
    accounts.push(AccountMeta::new_readonly(*stake_pool_program_id, false));
    accounts.push(AccountMeta::new_readonly(*token_program_id, false));
    accounts.push(AccountMeta::new_readonly(associated_token_program_id(), false));
    accounts.push(AccountMeta::new_readonly(system_program_id(), false));
    let data = StakeDepositInterceptorInstruction::InitStakePoolDepositStakeAuthority(
        args,
    ).pack();
    let ix = Instruction { program_id: *program_id, accounts, data };
    proof {
        assert(ix@.accounts =~~= init_authority_metas(
            payer@,
            deposit_stake_authority_pubkey@,
            vault_ata@,
            authority@,
            base@,
            stake_pool@,
            stake_pool_mint@,
            stake_pool_program_id@,
            token_program_id@,
        ));
    }
    Some(ix)
}

/// The account slots of the update instruction.
pub open spec fn update_authority_metas(
    deposit_stake_authority: Seq<u8>,
    authority: Seq<u8>,
    new_authority: Option<Seq<u8>>,
) -> Seq<AccountMetaView> {
    let base_metas = seq![
        meta(deposit_stake_authority, false, true),
        meta(authority, true, false),
    ];
    match new_authority {
        Some(k) => base_metas.push(meta(k, true, false)),
        None => base_metas,
    }
}

/// Build the instruction that updates an interceptor authority's fee
/// parameters, fee wallet, or controlling authority. A new authority rides
/// along as a third, signing account. Fails only where no bump seed derives
/// the authority address.
pub fn create_update_deposit_stake_authority_instruction(
    program_id: &Pubkey,
    stake_pool: &Pubkey,
    authority: &Pubkey,
    base: &Pubkey,
    new_authority: Option<Pubkey>,
    fee_wallet: Option<Pubkey>,
    cool_down_seconds: Option<u64>,
    initial_fee_bps: Option<u32>,
) -> (r: Option<Instruction>)
    ensures
        match r {
            Some(ix) => match find_pda(authority_seeds(stake_pool@, base@), program_id@) {
                Some(pda) => ix@.program_id == program_id@ && ix@.accounts
                    == update_authority_metas(pda.0, authority@, opt_key_view(new_authority))
                    && ix@.data == instruction_bytes(
                    InstructionView::Update {
                        fee_wallet: opt_key_view(fee_wallet),
                        cool_down_seconds,
                        initial_fee_bps,
                    },
                ),
                None => false,
            },
            None => find_pda(authority_seeds(stake_pool@, base@), program_id@) is None,
        },
{
    let derived = derive_stake_pool_deposit_stake_authority(program_id, stake_pool, base);
    let (deposit_stake_authority_pubkey, _bump_seed) = match derived {
        Some(d) => d,
        None => {
            return None;
        },
    };
    let args = UpdateStakePoolDepositStakeAuthorityArgs {
        fee_wallet,
        cool_down_seconds,
        initial_fee_bps,
    };
    let mut accounts: Vec<AccountMeta> = Vec::new();
    accounts.push(AccountMeta::new(deposit_stake_authority_pubkey, false));
    accounts.push(AccountMeta::new_readonly(*authority, true));
    match new_authority {
        Some(k) => {
            accounts.push(AccountMeta::new_readonly(k, true));
        },
        None => {},
    }
    let data = StakeDepositInterceptorInstruction::UpdateStakePoolDepositStakeAuthority(
        args,
    ).pack();
    let ix = Instruction { program_id: *program_id, accounts, data };
    proof {
        assert(ix@.accounts =~~= update_authority_metas(
            deposit_stake_authority_pubkey@,
            authority@,
            opt_key_view(new_authority),
        ));
    }
    Some(ix)
}

/// The account slots of the deposit instruction.
pub open spec fn deposit_stake_metas(
    payer: Seq<u8>,
    stake_pool_program: Seq<u8>,
    deposit_receipt: Seq<u8>,
    stake_pool: Seq<u8>,
    validator_list: Seq<u8>,
    deposit_stake_authority: Seq<u8>,
    base: Seq<u8>,
    withdraw_authority: Seq<u8>,
    stake: Seq<u8>,
    validator_stake: Seq<u8>,
    reserve_stake: Seq<u8>,
    pool_tokens_to: Seq<u8>,
    manager_fee: Seq<u8>,
    referrer_fee: Seq<u8>,
    pool_mint: Seq<u8>,
    token_program: Seq<u8>,
) -> Seq<AccountMetaView> {
    seq![
        meta(payer, true, true),
        meta(stake_pool_program, false, false),
        meta(deposit_receipt, false, true),
        meta(stake_pool, false, true),
        meta(validator_list, false, true),
        meta(deposit_stake_authority, false, false),
        meta(base, true, false),
        meta(withdraw_authority, false, false),
        meta(stake, false, true),
        meta(validator_stake, false, true),
        meta(reserve_stake, false, true),
        meta(pool_tokens_to, false, true),
        meta(manager_fee, false, true),
        meta(referrer_fee, false, true),
        meta(pool_mint, false, true),
        meta(clock_sysvar_id_bytes(), false, false),
        meta(stake_history_sysvar_id_bytes(), false, false),
        meta(token_program, false, false),
        meta(stake_program_id_bytes(), false, false),
        meta(zero_pubkey_bytes(), false, false),
    ]
}

/// What the deposit builders hand back on success: two stake-authorize
/// instructions that pass the stake account's staker and withdrawer roles to
/// the interceptor authority, then the interceptor's own deposit
/// instruction.
pub open spec fn deposit_stake_instructions_ok(
    instructions: Seq<crate::instruction::InstructionContentView>,
    program_id: Seq<u8>,
    payer: Seq<u8>,
    stake_pool_program_id: Seq<u8>,
    stake_pool: Seq<u8>,
    validator_list_storage: Seq<u8>,
    deposit_stake_authority: Seq<u8>,
    stake_pool_withdraw_authority: Seq<u8>,
    deposit_stake_address: Seq<u8>,
    deposit_stake_withdraw_authority: Seq<u8>,
    validator_stake_account: Seq<u8>,
    reserve_stake_account: Seq<u8>,
    pool_tokens_to: Seq<u8>,
    manager_fee_account: Seq<u8>,
    referrer_pool_tokens_account: Seq<u8>,
    pool_mint: Seq<u8>,
    token_program_id: Seq<u8>,
    base: Seq<u8>,
    deposit_receipt: Seq<u8>,
    minimum_pool_tokens_out: Option<u64>,
) -> bool {
    &&& instructions.len() == 3
    &&& instructions[0].program_id == stake_program_id_bytes()
    &&& instructions[0].accounts == seq![
        meta(deposit_stake_address, false, true),
        meta(clock_sysvar_id_bytes(), false, false),
        meta(deposit_stake_withdraw_authority, true, false),
    ]
    &&& instructions[0].data == stake_authorize_data(deposit_stake_authority, true)
    &&& instructions[1].program_id == stake_program_id_bytes()
    &&& instructions[1].accounts == seq![
        meta(deposit_stake_address, false, true),
        meta(clock_sysvar_id_bytes(), false, false),
        meta(deposit_stake_withdraw_authority, true, false),
    ]
    &&& instructions[1].data == stake_authorize_data(deposit_stake_authority, false)
    &&& instructions[2].program_id == program_id
    &&& instructions[2].accounts == deposit_stake_metas(
        payer,
        stake_pool_program_id,
        deposit_receipt,
        stake_pool,
        validator_list_storage,
        deposit_stake_authority,
        base,
        stake_pool_withdraw_authority,
        deposit_stake_address,
        validator_stake_account,
        reserve_stake_account,
        pool_tokens_to,
        manager_fee_account,
        referrer_pool_tokens_account,
        pool_mint,
        token_program_id,
    )
    &&& instructions[2].data == (match minimum_pool_tokens_out {
        Some(minimum) => instruction_bytes(
            InstructionView::DepositStakeWithSlippage {
                owner: deposit_stake_withdraw_authority,
                minimum_pool_tokens_out: minimum,
            },
        ),
        None => instruction_bytes(
            InstructionView::DepositStake { owner: deposit_stake_withdraw_authority },
        ),
    })
}

fn deposit_stake_internal(
    program_id: &Pubkey,
    payer: &Pubkey,
    stake_pool_program_id: &Pubkey,
    stake_pool: &Pubkey,
    validator_list_storage: &Pubkey,
    stake_pool_deposit_authority: &Pubkey,
    stake_pool_withdraw_authority: &Pubkey,
    deposit_stake_address: &Pubkey,
    deposit_stake_withdraw_authority: &Pubkey,
    validator_stake_account: &Pubkey,
    reserve_stake_account: &Pubkey,
    pool_tokens_to: &Pubkey,
    manager_fee_account: &Pubkey,
    referrer_pool_tokens_account: &Pubkey,
    pool_mint: &Pubkey,
    token_program_id: &Pubkey,
    base: &Pubkey,
    minimum_pool_tokens_out: Option<u64>,
) -> (r: Option<Vec<Instruction>>)
    ensures
        match r {
            Some(instructions) => match find_pda(receipt_seeds(stake_pool@, base@), program_id@) {
                Some(receipt) => deposit_stake_instructions_ok(
                    instructions.deep_view(),
                    program_id@,
                    payer@,
                    stake_pool_program_id@,
                    stake_pool@,
                    validator_list_storage@,
                    stake_pool_deposit_authority@,
                    stake_pool_withdraw_authority@,
                    deposit_stake_address@,
                    deposit_stake_withdraw_authority@,
                    validator_stake_account@,
                    reserve_stake_account@,
                    pool_tokens_to@,
                    manager_fee_account@,
                    referrer_pool_tokens_account@,
                    pool_mint@,
                    token_program_id@,
                    base@,
                    receipt.0,
                    minimum_pool_tokens_out,
                ),
                None => false,
            },
            None => find_pda(receipt_seeds(stake_pool@, base@), program_id@) is None,
        },
{
    let derived = derive_stake_deposit_receipt(program_id, stake_pool, base);
    let (deposit_receipt_pubkey, _bump_seed) = match derived {
        Some(d) => d,
        None => {
            return None;
        },
    };
    let mut instructions: Vec<Instruction> = Vec::new();
    instructions.push(
        stake_authorize(
            deposit_stake_address,
            deposit_stake_withdraw_authority,
            stake_pool_deposit_authority,
            true,
        ),
    );
    instructions.push(
        stake_authorize(
            deposit_stake_address,
            deposit_stake_withdraw_authority,
            stake_pool_deposit_authority,
            false,
        ),
    );
    let mut accounts: Vec<AccountMeta> = Vec::new();
    accounts.push(AccountMeta::new(*payer, true));
    accounts.push(AccountMeta::new_readonly(*stake_pool_program_id, false));
    accounts.push(AccountMeta::new(deposit_receipt_pubkey, false));
    accounts.push(AccountMeta::new(*stake_pool, false));
    accounts.push(AccountMeta::new(*validator_list_storage, false));
    accounts.push(AccountMeta::new_readonly(*stake_pool_deposit_authority, false));
    accounts.push(AccountMeta::new_readonly(*base, true));
    accounts.push(AccountMeta::new_readonly(*stake_pool_withdraw_authority, false));
    accounts.push(AccountMeta::new(*deposit_stake_address, false));
    accounts.push(AccountMeta::new(*validator_stake_account, false));
    accounts.push(AccountMeta::new(*reserve_stake_account, false));
    accounts.push(AccountMeta::new(*pool_tokens_to, false));
    accounts.push(AccountMeta::new(*manager_fee_account, false));
    accounts.push(AccountMeta::new(*referrer_pool_tokens_account, false));
    accounts.push(AccountMeta::new(*pool_mint, false));
    accounts.push(AccountMeta::new_readonly(clock_sysvar_id(), false));
    accounts.push(AccountMeta::new_readonly(stake_history_sysvar_id(), false));
    accounts.push(AccountMeta::new_readonly(*token_program_id, false));
    accounts.push(AccountMeta::new_readonly(stake_program_id(), false));
    accounts.push(AccountMeta::new_readonly(system_program_id(), false));
    let data = match minimum_pool_tokens_out {
        Some(minimum_pool_tokens_out) => StakeDepositInterceptorInstruction::DepositStakeWithSlippage(
            DepositStakeWithSlippageArgs {
                owner: *deposit_stake_withdraw_authority,
                minimum_pool_tokens_out,
            },
        ).pack(),
        None => StakeDepositInterceptorInstruction::DepositStake(
            DepositStakeArgs { owner: *deposit_stake_withdraw_authority },
        ).pack(),
    };
    instructions.push(Instruction { program_id: *program_id, accounts, data });
    proof {
        assert(instructions.deep_view().len() == 3);
        assert(instructions.deep_view()[0] == instructions@[0]@);
        assert(instructions.deep_view()[1] == instructions@[1]@);
        assert(instructions.deep_view()[2] == instructions@[2]@);
        assert(instructions@[2]@.accounts =~~= deposit_stake_metas(
            payer@,
            stake_pool_program_id@,
            deposit_receipt_pubkey@,
            stake_pool@,
            validator_list_storage@,
            stake_pool_deposit_authority@,
            base@,
            stake_pool_withdraw_authority@,
            deposit_stake_address@,
            validator_stake_account@,
            reserve_stake_account@,
            pool_tokens_to@,
            manager_fee_account@,
            referrer_pool_tokens_account@,
            pool_mint@,
            token_program_id@,
        ));
    }
    Some(instructions)
}

/// Build the instruction sequence that deposits a stake account through the
/// interceptor: hand the stake account's staker and withdrawer roles to the
/// interceptor authority, then invoke the interceptor's deposit. Fails only
/// where a needed address derivation finds no bump seed.
pub fn create_deposit_stake_instruction(
    program_id: &Pubkey,
    payer: &Pubkey,
    stake_pool_program_id: &Pubkey,
    stake_pool: &Pubkey,
    validator_list_storage: &Pubkey,
    stake_pool_withdraw_authority: &Pubkey,
    deposit_stake_address: &Pubkey,
    deposit_stake_withdraw_authority: &Pubkey,
    validator_stake_account: &Pubkey,
    reserve_stake_account: &Pubkey,
    pool_tokens_to: &Pubkey,
    manager_fee_account: &Pubkey,
    referrer_pool_tokens_account: &Pubkey,
    pool_mint: &Pubkey,
    token_program_id: &Pubkey,
    deposit_receipt_base: &Pubkey,
    deposit_authority_base: &Pubkey,
) -> (r: Option<Vec<Instruction>>)
    ensures
        match r {
            Some(instructions) => match (
                find_pda(authority_seeds(stake_pool@, deposit_authority_base@), program_id@),
                find_pda(receipt_seeds(stake_pool@, deposit_receipt_base@), program_id@),
            ) {
                (Some(authority), Some(receipt)) => deposit_stake_instructions_ok(
                    instructions.deep_view(),
                    program_id@,
                    payer@,
                    stake_pool_program_id@,
                    stake_pool@,
                    validator_list_storage@,
                    authority.0,
                    stake_pool_withdraw_authority@,
                    deposit_stake_address@,
                    deposit_stake_withdraw_authority@,
                    validator_stake_account@,
                    reserve_stake_account@,
                    pool_tokens_to@,
                    manager_fee_account@,
                    referrer_pool_tokens_account@,
                    pool_mint@,
                    token_program_id@,
                    deposit_receipt_base@,
                    receipt.0,
                    None,
                ),
                _ => false,
            },
            None => find_pda(authority_seeds(stake_pool@, deposit_authority_base@), program_id@)
                is None || find_pda(receipt_seeds(stake_pool@, deposit_receipt_base@), program_id@)
                is None,
        },
{
    let derived = derive_stake_pool_deposit_stake_authority(
        program_id,
        stake_pool,
        deposit_authority_base,
    );
    let (deposit_stake_authority_pubkey, _bump_seed) = match derived {
        Some(d) => d,
        None => {
            return None;
        },
    };
    deposit_stake_internal(
        program_id,
        payer,
        stake_pool_program_id,
        stake_pool,
        validator_list_storage,
        &deposit_stake_authority_pubkey,
        stake_pool_withdraw_authority,
        deposit_stake_address,
        deposit_stake_withdraw_authority,
        validator_stake_account,
        reserve_stake_account,
        pool_tokens_to,
        manager_fee_account,
        referrer_pool_tokens_account,
        pool_mint,
        token_program_id,
        deposit_receipt_base,
        None,
    )
}

/// Build the deposit instruction sequence with a slippage bound: the wrapped
/// pool must mint at least `minimum_pool_tokens_out` pool tokens.
pub fn create_deposit_stake_with_slippage_instruction(
    program_id: &Pubkey,
    payer: &Pubkey,
    stake_pool_program_id: &Pubkey,
    stake_pool: &Pubkey,
    validator_list_storage: &Pubkey,
    stake_pool_withdraw_authority: &Pubkey,
    deposit_stake_address: &Pubkey,
    deposit_stake_withdraw_authority: &Pubkey,
    validator_stake_account: &Pubkey,
    reserve_stake_account: &Pubkey,
    pool_tokens_to: &Pubkey,
    manager_fee_account: &Pubkey,
    referrer_pool_tokens_account: &Pubkey,
    pool_mint: &Pubkey,
    token_program_id: &Pubkey,
    deposit_receipt_base: &Pubkey,
    deposit_authority_base: &Pubkey,
    minimum_pool_tokens_out: u64,
) -> (r: Option<Vec<Instruction>>)
    ensures
        match r {
            Some(instructions) => match (
                find_pda(authority_seeds(stake_pool@, deposit_authority_base@), program_id@),
                find_pda(receipt_seeds(stake_pool@, deposit_receipt_base@), program_id@),
            ) {
                (Some(authority), Some(receipt)) => deposit_stake_instructions_ok(
                    instructions.deep_view(),
                    program_id@,
                    payer@,
                    stake_pool_program_id@,
                    stake_pool@,
                    validator_list_storage@,
                    authority.0,
                    stake_pool_withdraw_authority@,
                    deposit_stake_address@,
                    deposit_stake_withdraw_authority@,
                    validator_stake_account@,
                    reserve_stake_account@,
                    pool_tokens_to@,
                    manager_fee_account@,
                    referrer_pool_tokens_account@,
                    pool_mint@,
                    token_program_id@,
                    deposit_receipt_base@,
                    receipt.0,
                    Some(minimum_pool_tokens_out),
                ),
                _ => false,
            },
            None => find_pda(authority_seeds(stake_pool@, deposit_authority_base@), program_id@)
                is None || find_pda(receipt_seeds(stake_pool@, deposit_receipt_base@), program_id@)
                is None,
        },
{
    let derived = derive_stake_pool_deposit_stake_authority(
        program_id,
        stake_pool,
        deposit_authority_base,
    );
    let (deposit_stake_authority_pubkey, _bump_seed) = match derived {
        Some(d) => d,
        None => {
            return None;
        },
    };
    deposit_stake_internal(
        program_id,
        payer,
        stake_pool_program_id,
        stake_pool,
        validator_list_storage,
        &deposit_stake_authority_pubkey,
        stake_pool_withdraw_authority,
        deposit_stake_address,
        deposit_stake_withdraw_authority,
        validator_stake_account,
        reserve_stake_account,
        pool_tokens_to,
        manager_fee_account,
        referrer_pool_tokens_account,
        pool_mint,
        token_program_id,
        deposit_receipt_base,
        Some(minimum_pool_tokens_out),
    )
}

/// The account slots of the change-owner instruction.
pub open spec fn change_owner_metas(
    deposit_receipt: Seq<u8>,
    owner: Seq<u8>,
    new_owner: Seq<u8>,
) -> Seq<AccountMetaView> {
    seq![meta(deposit_receipt, false, true), meta(owner, true, false), meta(new_owner, false, false)]
}

/// Build the instruction that hands a deposit receipt to a new owner. The
/// incoming owner does not sign: no consent is needed to receive a receipt.
pub fn create_change_deposit_receipt_owner(
    program_id: &Pubkey,
    deposit_receipt_address: &Pubkey,
    owner: &Pubkey,
    new_owner: &Pubkey,
) -> (r: Instruction)
    ensures
        r@.program_id == program_id@,
        r@.accounts == change_owner_metas(deposit_receipt_address@, owner@, new_owner@),
        r@.data == instruction_bytes(InstructionView::ChangeDepositReceiptOwner),
{
    let mut accounts: Vec<AccountMeta> = Vec::new();
    accounts.push(AccountMeta::new(*deposit_receipt_address, false));
    accounts.push(AccountMeta::new_readonly(*owner, true));
    accounts.push(AccountMeta::new_readonly(*new_owner, false));
    let data = StakeDepositInterceptorInstruction::ChangeDepositReceiptOwner.pack();
    let ix = Instruction { program_id: *program_id, accounts, data };
    proof {
        assert(ix@.accounts =~~= change_owner_metas(deposit_receipt_address@, owner@, new_owner@));
    }
    ix
}

/// The account slots of the claim instruction.
pub open spec fn claim_pool_tokens_metas(
    deposit_receipt: Seq<u8>,
    owner: Seq<u8>,
    vault: Seq<u8>,
    destination: Seq<u8>,
    fee_token_account: Seq<u8>,
    deposit_stake_authority: Seq<u8>,
    pool_mint: Seq<u8>,
    token_program: Seq<u8>,
    after_cool_down: bool,
) -> Seq<AccountMetaView> {
    seq![
        meta(deposit_receipt, false, true),
        meta(owner, !after_cool_down, true),
        meta(vault, false, true),
        meta(destination, false, true),
        meta(fee_token_account, false, true),
        meta(deposit_stake_authority, false, false),
        meta(pool_mint, false, false),
        meta(token_program, false, false),
        meta(zero_pubkey_bytes(), false, false),
    ]
}

/// Build the instruction that claims a receipt's pool tokens. During the
/// cool-down the owner must sign; afterwards `after_cool_down` drops the
/// signature and anyone may submit the claim on the owner's behalf.
pub fn create_claim_pool_tokens_instruction(
    program_id: &Pubkey,
    deposit_receipt_address: &Pubkey,
    owner: &Pubkey,
    vault_token_account: &Pubkey,
    destination_token_account: &Pubkey,
    fee_token_account: &Pubkey,
    deposit_stake_authority: &Pubkey,
    pool_mint: &Pubkey,
    token_program: &Pubkey,
    after_cool_down: bool,
) -> (r: Instruction)
    ensures
        r@.program_id == program_id@,
        r@.accounts == claim_pool_tokens_metas(
            deposit_receipt_address@,
            owner@,
            vault_token_account@,
            destination_token_account@,
            fee_token_account@,
            deposit_stake_authority@,
            pool_mint@,
            token_program@,
            after_cool_down,
        ),
        r@.data == instruction_bytes(InstructionView::ClaimPoolTokens),
{
    let mut accounts: Vec<AccountMeta> = Vec::new();
    accounts.push(AccountMeta::new(*deposit_receipt_address, false));
    accounts.push(AccountMeta::new(*owner, !after_cool_down));
    accounts.push(AccountMeta::new(*vault_token_account, false));
    accounts.push(AccountMeta::new(*destination_token_account, false));
    accounts.push(AccountMeta::new(*fee_token_account, false));
    accounts.push(AccountMeta::new_readonly(*deposit_stake_authority, false));
    accounts.push(AccountMeta::new_readonly(*pool_mint, false));
    accounts.push(AccountMeta::new_readonly(*token_program, false));
    accounts.push(AccountMeta::new_readonly(system_program_id(), false));
    let data = StakeDepositInterceptorInstruction::ClaimPoolTokens.pack();
    let ix = Instruction { program_id: *program_id, accounts, data };
    proof {
        assert(ix@.accounts =~~= claim_pool_tokens_metas(
            deposit_receipt_address@,
            owner@,
            vault_token_account@,
            destination_token_account@,
            fee_token_account@,
            deposit_stake_authority@,
            pool_mint@,
            token_program@,
            after_cool_down,
        ));
    }
    ix
}

/// Whether an instruction's key fields all have key length.
pub open spec fn instruction_view_wf(i: InstructionView) -> bool {
    match i {
        InstructionView::Init { fee_wallet, .. } => fee_wallet.len() == 32,
        InstructionView::Update { fee_wallet, .. } => match fee_wallet {
            Some(k) => k.len() == 32,
            None => true,
        },
        InstructionView::DepositStake { owner } => owner.len() == 32,
        InstructionView::DepositStakeWithSlippage { owner, .. } => owner.len() == 32,
        InstructionView::ChangeDepositReceiptOwner => true,
        InstructionView::ClaimPoolTokens => true,
    }
}

/// Law: the wire format loses nothing — parsing an instruction's encoded
/// bytes yields the instruction back.
pub proof fn lemma_instruction_roundtrip(i: InstructionView)
    requires
        instruction_view_wf(i),
    ensures
        parse_instruction(instruction_bytes(i)) == Some(i),
{
    let data = instruction_bytes(i);
    match i {
        InstructionView::Init { fee_wallet, cool_down_seconds, initial_fee_bps } => {
            assert(data.subrange(1, 33) =~= fee_wallet);
            assert(data.subrange(33, 41) =~= le_u64_bytes(cool_down_seconds));
            assert(data.subrange(41, 45) =~= le_u32_bytes(initial_fee_bps));
            crate::codec::lemma_u64_le_roundtrip(cool_down_seconds);
            crate::codec::lemma_u32_le_roundtrip(initial_fee_bps);
        },
        InstructionView::Update { fee_wallet, cool_down_seconds, initial_fee_bps } => {
            let p1 = 1 + opt_pubkey_bytes(fee_wallet).len() as int;
            let p2 = p1 + opt_u64_bytes(cool_down_seconds).len() as int;
            let p3 = p2 + opt_u32_bytes(initial_fee_bps).len() as int;
            match fee_wallet {
                Some(k) => {
                    assert(data[1] == 1u8);
                    assert(data.subrange(2, 34) =~= k);
                    assert(parse_opt_pubkey(data, 1) == Some((Some(k), p1)));
                },
                None => {
                    assert(data[1] == 0u8);
                    assert(parse_opt_pubkey(data, 1) == Some((None::<Seq<u8>>, p1)));
                },
            }
            match cool_down_seconds {
                Some(x) => {
                    assert(data[p1] == 1u8);
                    assert(data.subrange(p1 + 1, p1 + 9) =~= le_u64_bytes(x));
                    crate::codec::lemma_u64_le_roundtrip(x);
                    assert(parse_opt_u64(data, p1) == Some((Some(x), p2)));
                },
                None => {
                    assert(data[p1] == 0u8);
                    assert(parse_opt_u64(data, p1) == Some((None::<u64>, p2)));
                },
            }
            match initial_fee_bps {
                Some(x) => {
                    assert(data[p2] == 1u8);
                    assert(data.subrange(p2 + 1, p2 + 5) =~= le_u32_bytes(x));
                    crate::codec::lemma_u32_le_roundtrip(x);
                    assert(parse_opt_u32(data, p2) == Some((Some(x), p3)));
                },
                None => {
                    assert(data[p2] == 0u8);
                    assert(parse_opt_u32(data, p2) == Some((None::<u32>, p3)));
                },
            }
            assert(p3 == data.len());
        },
        InstructionView::DepositStake { owner } => {
            assert(data.subrange(1, 33) =~= owner);
        },
        InstructionView::DepositStakeWithSlippage { owner, minimum_pool_tokens_out } => {
            assert(data.subrange(1, 33) =~= owner);
            assert(data.subrange(33, 41) =~= le_u64_bytes(minimum_pool_tokens_out));
            crate::codec::lemma_u64_le_roundtrip(minimum_pool_tokens_out);
        },
        InstructionView::ChangeDepositReceiptOwner => {},
        InstructionView::ClaimPoolTokens => {},
    }
}

} // verus!
