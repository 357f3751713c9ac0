//! The instruction processors: the validation chains and state transitions
//! of the interceptor program, stated over a plain model of the runtime's
//! accounts.
//!
//! Each processor is a pure function from the accounts it reads (and, where
//! a cross-program invocation sits in the middle of the flow, from that
//! call's observable outcome) to the record it writes or the error it ends
//! with. The runner performs the invocations and account writes the results
//! describe.

use vstd::prelude::*;

use crate::codec::{decoded_authority_record, decoded_receipt_record};
use crate::codec::{DEPOSIT_RECEIPT_LEN, STAKE_POOL_DEPOSIT_STAKE_AUTHORITY_LEN};
use crate::error::{ProgramError, StakeDepositInterceptorError};
use crate::instruction::{
    meta, AccountMeta, AccountMetaView, DepositStakeArgs, InitStakePoolDepositStakeAuthorityArgs,
    Instruction, UpdateStakePoolDepositStakeAuthorityArgs,
};
use crate::pda::{
    authority_seeds, created_pda, derive_stake_deposit_receipt, find_pda, receipt_seeds,
    recreate_authority_address, recreate_receipt_address,
};
use crate::programs::{
    associated_token_address, get_associated_token_address, mint_decimals_of,
    parse_stake_pool_mint, stake_pool_deposit_data, stake_pool_deposit_instruction_data,
    stake_pool_mint_of, token_account_of, unpack_mint_decimals, unpack_token_account,
};
use crate::pubkey::{
    clock_sysvar_id, clock_sysvar_id_bytes, stake_history_sysvar_id,
    stake_history_sysvar_id_bytes, stake_program_id_bytes, system_program_id, zero_pubkey_bytes,
    Pubkey,
};
use crate::state::{
    authority_params_wf, fee_amount, fee_arith_ok, unsigned_abs_i64, DepositReceipt,
    DepositReceiptView,
    StakePoolDepositStakeAuthority, StakePoolDepositStakeAuthorityView, FEE_BPS_DENOMINATOR,
};

verus! {

/// What the runtime hands a program for one account: its address, the
/// program that owns it, its lamports and data, and this transaction's
/// signer and writability flags for it.
#[derive(Clone, Debug)]
pub struct AccountInfo {
    /// The account's address.
    pub key: Pubkey,
    /// The program that owns the account.
    pub owner: Pubkey,
    /// Whether the account signed the transaction.
    pub is_signer: bool,
    /// Whether the instruction may write the account.
    pub is_writable: bool,
    /// The account's balance.
    pub lamports: u64,
    /// The account's data.
    pub data: Vec<u8>,
}

/// The mathematical content of an account.
pub ghost struct AccountInfoView {
    pub key: Seq<u8>,
    pub owner: Seq<u8>,
    pub is_signer: bool,
    pub is_writable: bool,
    pub lamports: u64,
    pub data: Seq<u8>,
}

impl View for AccountInfo {
    type V = AccountInfoView;

    open spec fn view(&self) -> AccountInfoView {
        AccountInfoView {
            key: self.key@,
            owner: self.owner@,
            is_signer: self.is_signer,
            is_writable: self.is_writable,
            lamports: self.lamports,
            data: self.data@,
        }
    }
}

/// Whether an account's data holds an authority record.
pub open spec fn holds_authority_record(a: AccountInfoView) -> bool {
    a.data.len() == STAKE_POOL_DEPOSIT_STAKE_AUTHORITY_LEN && a.data[0] == 1u8
}

/// Whether an account's data holds a receipt record.
pub open spec fn holds_receipt_record(a: AccountInfoView) -> bool {
    a.data.len() == DEPOSIT_RECEIPT_LEN && a.data[0] == 2u8
}

/// Whether an account has been closed: no lamports, no data, returned to the
/// system program.
pub open spec fn account_closed(a: AccountInfoView) -> bool {
    &&& a.lamports == 0
    &&& a.owner == zero_pubkey_bytes()
    &&& a.data.len() == 0
}

/// Whether an account is owned by the given program.
pub open spec fn check_account_owner_spec(a: AccountInfoView, program_id: Seq<u8>) -> Result<
    (),
    ProgramError,
> {
    if a.owner == program_id {
        Ok(())
    } else {
        Err(ProgramError::IncorrectProgramId)
    }
}

/// Check that the given program owns the account.
pub fn check_account_owner(account_info: &AccountInfo, program_id: &Pubkey) -> (r: Result<
    (),
    ProgramError,
>)
    ensures
        r == check_account_owner_spec(account_info@, program_id@),
{
    if account_info.owner == *program_id {
        Ok(())
    } else {
        Err(ProgramError::IncorrectProgramId)
    }
}

/// Whether the given address is the real system program.
pub open spec fn check_system_program_spec(program_id: Seq<u8>) -> Result<(), ProgramError> {
    if program_id == zero_pubkey_bytes() {
        Ok(())
    } else {
        Err(ProgramError::IncorrectProgramId)
    }
}

/// Check that the given address is the native system program.
pub fn check_system_program(program_id: &Pubkey) -> (r: Result<(), ProgramError>)
    ensures
        r == check_system_program_spec(program_id@),
{
    if *program_id == system_program_id() {
        Ok(())
    } else {
        Err(ProgramError::IncorrectProgramId)
    }
}

/// Whether the account is a fresh system account: system-owned, empty, and
/// (where required) writable.
pub open spec fn check_system_account_spec(a: AccountInfoView, is_writable: bool) -> Result<
    (),
    ProgramError,
> {
    if a.owner != zero_pubkey_bytes() {
        Err(ProgramError::InvalidAccountOwner)
    } else if a.data.len() != 0 {
        Err(ProgramError::AccountAlreadyInitialized)
    } else if is_writable && !a.is_writable {
        Err(ProgramError::InvalidAccountData)
    } else {
        Ok(())
    }
}

/// Check that the account is owned by the system program, holds no data, and
/// is writable where the caller will write it.
pub fn check_system_account(account_info: &AccountInfo, is_writable: bool) -> (r: Result<
    (),
    ProgramError,
>)
    ensures
        r == check_system_account_spec(account_info@, is_writable),
{
    if !(account_info.owner == system_program_id()) {
        return Err(ProgramError::InvalidAccountOwner);
    }
    if account_info.data.len() != 0 {
        return Err(ProgramError::AccountAlreadyInitialized);
    }
    if is_writable && !account_info.is_writable {
        return Err(ProgramError::InvalidAccountData);
    }
    Ok(())
}

/// Whether an authority record's own stored seeds re-derive the address the
/// record lives at — the defence against an attacker substituting another
/// account of the right shape.
pub open spec fn check_deposit_stake_authority_address_spec(
    program_id: Seq<u8>,
    address: Seq<u8>,
    authority: StakePoolDepositStakeAuthorityView,
) -> Result<(), ProgramError> {
    match created_pda(
        authority_seeds(authority.stake_pool, authority.base).push(seq![authority.bump_seed]),
        program_id,
    ) {
        Some(derived) => if derived == address {
            Ok(())
        } else {
            Err(
                ProgramError::Interceptor(
                    StakeDepositInterceptorError::InvalidStakePoolDepositStakeAuthority,
                ),
            )
        },
        None => Err(ProgramError::InvalidSeeds),
    }
}

/// Check the supplied authority account address against the record's own
/// seeds and stored bump.
pub fn check_deposit_stake_authority_address(
    program_id: &Pubkey,
    deposit_stake_authority_address: &Pubkey,
    deposit_stake_authority: &StakePoolDepositStakeAuthority,
) -> (r: Result<(), ProgramError>)
    ensures
        r == check_deposit_stake_authority_address_spec(
            program_id@,
            deposit_stake_authority_address@,
            deposit_stake_authority@,
        ),
{
    match recreate_authority_address(program_id, deposit_stake_authority) {
        Some(address) => {
            if address == *deposit_stake_authority_address {
                Ok(())
            } else {
                Err(
                    ProgramError::Interceptor(
                        StakeDepositInterceptorError::InvalidStakePoolDepositStakeAuthority,
                    ),
                )
            }
        },
        None => Err(ProgramError::InvalidSeeds),
    }
}

/// Whether a receipt record's own stored seeds re-derive the address the
/// record lives at.
pub open spec fn check_deposit_receipt_address_spec(
    program_id: Seq<u8>,
    address: Seq<u8>,
    receipt: DepositReceiptView,
) -> Result<(), ProgramError> {
    match created_pda(
        receipt_seeds(receipt.stake_pool, receipt.base).push(seq![receipt.bump_seed]),
        program_id,
    ) {
        Some(derived) => if derived == address {
            Ok(())
        } else {
            Err(ProgramError::Interceptor(StakeDepositInterceptorError::InvalidDepositReceipt))
        },
        None => Err(ProgramError::InvalidSeeds),
    }
}

/// Check the supplied receipt account address against the record's own seeds
/// and stored bump.
pub fn check_deposit_receipt_address(
    program_id: &Pubkey,
    deposit_receipt_address: &Pubkey,
    deposit_receipt: &DepositReceipt,
) -> (r: Result<(), ProgramError>)
    ensures
        r == check_deposit_receipt_address_spec(
            program_id@,
            deposit_receipt_address@,
            deposit_receipt@,
        ),
{
    match recreate_receipt_address(program_id, deposit_receipt) {
        Some(address) => {
            if address == *deposit_receipt_address {
                Ok(())
            } else {
                Err(ProgramError::Interceptor(StakeDepositInterceptorError::InvalidDepositReceipt))
            }
        },
        None => Err(ProgramError::InvalidSeeds),
    }
}

/// Close an account: move all its lamports to the destination, clear its
/// data, and hand it back to the system program.
pub fn close_account(source: &mut AccountInfo, destination: &mut AccountInfo)
    requires
        old(destination).lamports + old(source).lamports <= u64::MAX,
    ensures
        account_closed(final(source)@),
        final(source)@.key == old(source)@.key,
        final(source)@.is_signer == old(source)@.is_signer,
        final(source)@.is_writable == old(source)@.is_writable,
        final(destination)@.lamports == old(destination)@.lamports + old(source)@.lamports,
        final(destination)@.key == old(destination)@.key,
        final(destination)@.owner == old(destination)@.owner,
        final(destination)@.is_signer == old(destination)@.is_signer,
        final(destination)@.is_writable == old(destination)@.is_writable,
        final(destination)@.data == old(destination)@.data,
{
    destination.lamports = destination.lamports + source.lamports;
    source.lamports = 0;
    source.owner = system_program_id();
    source.data = Vec::new();
    proof {
        assert(source@.data.len() == 0);
    }
}

/// The namespace of the instruction processors.
pub struct Processor;

/// What a successful init writes: the new authority record, a snapshot of
/// the validated inputs.
pub open spec fn process_init_spec(
    program_id: Seq<u8>,
    deposit_stake_authority: AccountInfoView,
    vault_ata: AccountInfoView,
    authority: AccountInfoView,
    base: AccountInfoView,
    stake_pool: AccountInfoView,
    stake_pool_mint: AccountInfoView,
    stake_pool_program: AccountInfoView,
    token_program: AccountInfoView,
    system_program: AccountInfoView,
    args: crate::instruction::InitArgsView,
) -> Result<StakePoolDepositStakeAuthorityView, ProgramError> {
    if system_program.key != zero_pubkey_bytes() {
        Err(ProgramError::IncorrectProgramId)
    } else if deposit_stake_authority.owner != zero_pubkey_bytes() {
        Err(ProgramError::InvalidAccountOwner)
    } else if deposit_stake_authority.data.len() != 0 {
        Err(ProgramError::AccountAlreadyInitialized)
    } else if !deposit_stake_authority.is_writable {
        Err(ProgramError::InvalidAccountData)
    } else if !authority.is_signer {
        Err(ProgramError::Interceptor(StakeDepositInterceptorError::SignatureMissing))
    } else if !base.is_signer {
        Err(ProgramError::Interceptor(StakeDepositInterceptorError::SignatureMissing))
    } else if args.initial_fee_bps > FEE_BPS_DENOMINATOR {
        Err(ProgramError::Interceptor(StakeDepositInterceptorError::InitialFeeRateMaxExceeded))
    } else if args.cool_down_seconds == 0 {
        Err(ProgramError::InvalidArgument)
    } else if stake_pool.owner != stake_pool_program.key {
        Err(ProgramError::Interceptor(StakeDepositInterceptorError::InvalidStakePool))
    } else {
        match stake_pool_mint_of(stake_pool.data) {
            None => Err(ProgramError::InvalidAccountData),
            Some(pool_mint) => if pool_mint != stake_pool_mint.key {
                Err(ProgramError::Interceptor(StakeDepositInterceptorError::InvalidStakePool))
            } else if stake_pool_mint.owner != token_program.key {
                Err(ProgramError::Interceptor(StakeDepositInterceptorError::InvalidTokenProgram))
            } else {
                match find_pda(authority_seeds(stake_pool.key, base.key), program_id) {
                    None => Err(
                        ProgramError::Interceptor(StakeDepositInterceptorError::InvalidSeeds),
                    ),
                    Some(pda) => if pda.0 != deposit_stake_authority.key {
                        Err(ProgramError::Interceptor(StakeDepositInterceptorError::InvalidSeeds))
                    } else if associated_token_address(pda.0, pool_mint) != vault_ata.key {
                        Err(ProgramError::Interceptor(StakeDepositInterceptorError::InvalidVault))
                    } else {
                        Ok(
                            StakePoolDepositStakeAuthorityView {
                                base: base.key,
                                stake_pool: stake_pool.key,
                                pool_mint,
                                authority: authority.key,
                                vault: vault_ata.key,
                                stake_pool_program_id: stake_pool_program.key,
                                cool_down_seconds: args.cool_down_seconds,
                                initial_fee_bps: args.initial_fee_bps,
                                fee_wallet: args.fee_wallet,
                                bump_seed: pda.1,
                            },
                        )
                    },
                }
            },
        }
    }
}

impl Processor {
    /// Validate the inputs of the init instruction and produce the authority
    /// record to be written. The runner creates the account and the vault
    /// associated token account by system and token program invocations that
    /// the payer funds; the record returned here is what the new account
    /// must hold.
    pub fn process_init_stake_pool_deposit_stake_authority(
        program_id: &Pubkey,
        deposit_stake_authority: &AccountInfo,
        vault_ata: &AccountInfo,
        authority: &AccountInfo,
        base: &AccountInfo,
        stake_pool: &AccountInfo,
        stake_pool_mint: &AccountInfo,
        stake_pool_program: &AccountInfo,
        token_program: &AccountInfo,
        system_program: &AccountInfo,
        init_deposit_stake_authority_args: &InitStakePoolDepositStakeAuthorityArgs,
    ) -> (r: Result<StakePoolDepositStakeAuthority, ProgramError>)
        ensures
            ({
                let s = process_init_spec(
                    program_id@,
                    deposit_stake_authority@,
                    vault_ata@,
                    authority@,
                    base@,
                    stake_pool@,
                    stake_pool_mint@,
                    stake_pool_program@,
                    token_program@,
                    system_program@,
                    init_deposit_stake_authority_args@,
                );
                match r {
                    Ok(record) => s == Ok::<_, ProgramError>(record@),
                    Err(e) => s == Err::<StakePoolDepositStakeAuthorityView, _>(e),
                }
            }),
    {
        check_system_program(&system_program.key)?;
        check_system_account(deposit_stake_authority, true)?;
        if !authority.is_signer {
            return Err(ProgramError::Interceptor(StakeDepositInterceptorError::SignatureMissing));
        }
        if !base.is_signer {
            return Err(ProgramError::Interceptor(StakeDepositInterceptorError::SignatureMissing));
        }
        if init_deposit_stake_authority_args.initial_fee_bps > FEE_BPS_DENOMINATOR {
            return Err(
                ProgramError::Interceptor(
                    StakeDepositInterceptorError::InitialFeeRateMaxExceeded,
                ),
            );
        }
        if init_deposit_stake_authority_args.cool_down_seconds == 0 {
            return Err(ProgramError::InvalidArgument);
        }
        if !(stake_pool.owner == stake_pool_program.key) {
            return Err(ProgramError::Interceptor(StakeDepositInterceptorError::InvalidStakePool));
        }
        let pool_mint = match parse_stake_pool_mint(stake_pool.data.as_slice()) {
            Some(pool_mint) => pool_mint,
            None => {
                return Err(ProgramError::InvalidAccountData);
            },
        };
        if !(pool_mint == stake_pool_mint.key) {
            return Err(ProgramError::Interceptor(StakeDepositInterceptorError::InvalidStakePool));
        }
        if !(stake_pool_mint.owner == token_program.key) {
            return Err(
                ProgramError::Interceptor(StakeDepositInterceptorError::InvalidTokenProgram),
            );
        }
        let (deposit_stake_authority_pda, bump_seed) =
            match crate::pda::derive_stake_pool_deposit_stake_authority(
            program_id,
            &stake_pool.key,
            &base.key,
        ) {
            Some(d) => d,
            None => {
                return Err(ProgramError::Interceptor(StakeDepositInterceptorError::InvalidSeeds));
            },
        };
        if !(deposit_stake_authority_pda == deposit_stake_authority.key) {
            return Err(ProgramError::Interceptor(StakeDepositInterceptorError::InvalidSeeds));
        }
        let vault = get_associated_token_address(&deposit_stake_authority_pda, &pool_mint);
        if !(vault == vault_ata.key) {
            return Err(ProgramError::Interceptor(StakeDepositInterceptorError::InvalidVault));
        }
        Ok(
            StakePoolDepositStakeAuthority {
                base: base.key,
                stake_pool: stake_pool.key,
                pool_mint,
                authority: authority.key,
                vault: vault_ata.key,
                stake_pool_program_id: stake_pool_program.key,
                cool_down_seconds: init_deposit_stake_authority_args.cool_down_seconds,
                initial_fee_bps: init_deposit_stake_authority_args.initial_fee_bps,
                fee_wallet: init_deposit_stake_authority_args.fee_wallet,
                bump_seed,
            },
        )
    }
}

/// The record an update writes: present fields replace stored ones, absent
/// fields keep them; a present new authority replaces the controller.
pub open spec fn apply_authority_update(
    a: StakePoolDepositStakeAuthorityView,
    args: crate::instruction::UpdateArgsView,
    new_authority: Option<Seq<u8>>,
) -> StakePoolDepositStakeAuthorityView {
    StakePoolDepositStakeAuthorityView {
        authority: match new_authority {
            Some(k) => k,
            None => a.authority,
        },
        cool_down_seconds: match args.cool_down_seconds {
            Some(c) => c,
            None => a.cool_down_seconds,
        },
        initial_fee_bps: match args.initial_fee_bps {
            Some(b) => b,
            None => a.initial_fee_bps,
        },
        fee_wallet: match args.fee_wallet {
            Some(w) => w,
            None => a.fee_wallet,
        },
        ..a
    }
}

/// What an update does: the full validation chain, then the field-wise
/// update of the stored record.
pub open spec fn process_update_spec(
    program_id: Seq<u8>,
    deposit_stake_authority: AccountInfoView,
    authority: AccountInfoView,
    new_authority: Option<AccountInfoView>,
    args: crate::instruction::UpdateArgsView,
) -> Result<StakePoolDepositStakeAuthorityView, ProgramError> {
    if deposit_stake_authority.owner != program_id {
        Err(ProgramError::IncorrectProgramId)
    } else if !authority.is_signer {
        Err(ProgramError::Interceptor(StakeDepositInterceptorError::SignatureMissing))
    } else if !holds_authority_record(deposit_stake_authority) {
        Err(ProgramError::InvalidAccountData)
    } else {
        let a = decoded_authority_record(deposit_stake_authority.data);
        match check_deposit_stake_authority_address_spec(
            program_id,
            deposit_stake_authority.key,
            a,
        ) {
            Err(e) => Err(e),
            Ok(()) => if a.authority != authority.key {
                Err(ProgramError::Interceptor(StakeDepositInterceptorError::InvalidAuthority))
            } else if new_authority is Some && !new_authority->Some_0.is_signer {
                Err(ProgramError::Interceptor(StakeDepositInterceptorError::SignatureMissing))
            } else if args.initial_fee_bps is Some && args.initial_fee_bps->Some_0
                > FEE_BPS_DENOMINATOR {
                Err(
                    ProgramError::Interceptor(
                        StakeDepositInterceptorError::InitialFeeRateMaxExceeded,
                    ),
                )
            } else if args.cool_down_seconds is Some && args.cool_down_seconds->Some_0 == 0 {
                Err(ProgramError::InvalidArgument)
            } else {
                Ok(
                    apply_authority_update(
                        a,
                        args,
                        match new_authority {
                            Some(na) => Some(na.key),
                            None => None,
                        },
                    ),
                )
            },
        }
    }
}

/// The view of an optional account argument.
pub open spec fn opt_account_view(a: Option<&AccountInfo>) -> Option<AccountInfoView> {
    match a {
        Some(info) => Some(info@),
        None => None,
    }
}

impl Processor {
    /// Update an authority record: only the current authority may, a new
    /// authority must co-sign its own appointment, and the fee parameters
    /// must stay within the invariants enforced at creation. Returns the
    /// updated record to be written back.
    pub fn process_update_deposit_stake_authority(
        program_id: &Pubkey,
        deposit_stake_authority: &AccountInfo,
        authority: &AccountInfo,
        new_authority: Option<&AccountInfo>,
        update_deposit_stake_authority_args: &UpdateStakePoolDepositStakeAuthorityArgs,
    ) -> (r: Result<StakePoolDepositStakeAuthority, ProgramError>)
        ensures
            ({
                let s = process_update_spec(
                    program_id@,
                    deposit_stake_authority@,
                    authority@,
                    opt_account_view(new_authority),
                    update_deposit_stake_authority_args@,
                );
                match r {
                    Ok(record) => s == Ok::<_, ProgramError>(record@),
                    Err(e) => s == Err::<StakePoolDepositStakeAuthorityView, _>(e),
                }
            }),
    {
        check_account_owner(deposit_stake_authority, program_id)?;
        if !authority.is_signer {
            return Err(ProgramError::Interceptor(StakeDepositInterceptorError::SignatureMissing));
        }
        let mut record = match StakePoolDepositStakeAuthority::unpack(
            deposit_stake_authority.data.as_slice(),
        ) {
            Some(record) => record,
            None => {
                return Err(ProgramError::InvalidAccountData);
            },
        };
        check_deposit_stake_authority_address(
            program_id,
            &deposit_stake_authority.key,
            &record,
        )?;
        if !(record.authority == authority.key) {
            return Err(ProgramError::Interceptor(StakeDepositInterceptorError::InvalidAuthority));
        }
        match new_authority {
            Some(new_authority_info) => {
                if !new_authority_info.is_signer {
                    return Err(
                        ProgramError::Interceptor(StakeDepositInterceptorError::SignatureMissing),
                    );
                }
                record.authority = new_authority_info.key;
            },
            None => {},
        }
        match update_deposit_stake_authority_args.initial_fee_bps {
            Some(initial_fee_bps) => {
                if initial_fee_bps > FEE_BPS_DENOMINATOR {
                    return Err(
                        ProgramError::Interceptor(
                            StakeDepositInterceptorError::InitialFeeRateMaxExceeded,
                        ),
                    );
                }
            },
            None => {},
        }
        match update_deposit_stake_authority_args.cool_down_seconds {
            Some(cool_down_seconds) => {
                if cool_down_seconds == 0 {
                    return Err(ProgramError::InvalidArgument);
                }
                record.cool_down_seconds = cool_down_seconds;
            },
            None => {},
        }
        match update_deposit_stake_authority_args.initial_fee_bps {
            Some(initial_fee_bps) => {
                record.initial_fee_bps = initial_fee_bps;
            },
            None => {},
        }
        match update_deposit_stake_authority_args.fee_wallet {
            Some(fee_wallet) => {
                record.fee_wallet = fee_wallet;
            },
            None => {},
        }
        Ok(record)
    }

    /// Reassign a deposit receipt to a new owner. Only the current owner may;
    /// the incoming owner's consent is not required. Returns the updated
    /// record to be written back.
    pub fn process_change_deposit_receipt_owner(
        program_id: &Pubkey,
        deposit_receipt: &AccountInfo,
        owner: &AccountInfo,
        new_owner: &AccountInfo,
    ) -> (r: Result<DepositReceipt, ProgramError>)
        ensures
            ({
                let s = process_change_owner_spec(program_id@, deposit_receipt@, owner@, new_owner@);
                match r {
                    Ok(record) => s == Ok::<_, ProgramError>(record@),
                    Err(e) => s == Err::<DepositReceiptView, _>(e),
                }
            }),
    {
        check_account_owner(deposit_receipt, program_id)?;
        if !owner.is_signer {
            return Err(ProgramError::Interceptor(StakeDepositInterceptorError::SignatureMissing));
        }
        let mut record = match DepositReceipt::unpack(deposit_receipt.data.as_slice()) {
            Some(record) => record,
            None => {
                return Err(ProgramError::InvalidAccountData);
            },
        };
        check_deposit_receipt_address(program_id, &deposit_receipt.key, &record)?;
        if !(owner.key == record.owner) {
            return Err(
                ProgramError::Interceptor(StakeDepositInterceptorError::InvalidDepositReceiptOwner),
            );
        }
        record.owner = new_owner.key;
        Ok(record)
    }
}

/// What a change of receipt owner does: the validation chain, then the
/// overwritten owner field.
pub open spec fn process_change_owner_spec(
    program_id: Seq<u8>,
    deposit_receipt: AccountInfoView,
    owner: AccountInfoView,
    new_owner: AccountInfoView,
) -> Result<DepositReceiptView, ProgramError> {
    if deposit_receipt.owner != program_id {
        Err(ProgramError::IncorrectProgramId)
    } else if !owner.is_signer {
        Err(ProgramError::Interceptor(StakeDepositInterceptorError::SignatureMissing))
    } else if !holds_receipt_record(deposit_receipt) {
        Err(ProgramError::InvalidAccountData)
    } else {
        let rec = decoded_receipt_record(deposit_receipt.data);
        match check_deposit_receipt_address_spec(program_id, deposit_receipt.key, rec) {
            Err(e) => Err(e),
            Ok(()) => if owner.key != rec.owner {
                Err(
                    ProgramError::Interceptor(
                        StakeDepositInterceptorError::InvalidDepositReceiptOwner,
                    ),
                )
            } else {
                Ok(DepositReceiptView { owner: new_owner.key, ..rec })
            },
        }
    }
}

/// The pre-invocation validations of a deposit: on success, the decoded
/// authority record the deposit runs under.
pub open spec fn process_deposit_checks_spec(
    program_id: Seq<u8>,
    deposit_receipt: AccountInfoView,
    deposit_stake_authority: AccountInfoView,
    pool_tokens_vault: AccountInfoView,
    system_program: AccountInfoView,
) -> Result<StakePoolDepositStakeAuthorityView, ProgramError> {
    if system_program.key != zero_pubkey_bytes() {
        Err(ProgramError::IncorrectProgramId)
    } else if deposit_stake_authority.owner != program_id {
        Err(ProgramError::IncorrectProgramId)
    } else if deposit_receipt.owner != zero_pubkey_bytes() {
        Err(ProgramError::InvalidAccountOwner)
    } else if deposit_receipt.data.len() != 0 {
        Err(ProgramError::AccountAlreadyInitialized)
    } else if !deposit_receipt.is_writable {
        Err(ProgramError::InvalidAccountData)
    } else if !holds_authority_record(deposit_stake_authority) {
        Err(ProgramError::InvalidAccountData)
    } else {
        let a = decoded_authority_record(deposit_stake_authority.data);
        match check_deposit_stake_authority_address_spec(
            program_id,
            deposit_stake_authority.key,
            a,
        ) {
            Err(e) => Err(e),
            Ok(()) => if pool_tokens_vault.key != a.vault {
                Err(ProgramError::Interceptor(StakeDepositInterceptorError::InvalidVault))
            } else {
                Ok(a)
            },
        }
    }
}

/// What a deposit writes: the pre-invocation validations, then — given the
/// vault balance observed before and after the wrapped pool's deposit
/// invocation and the clock — the new receipt, snapshotting the authority's
/// current fee parameters and taking the balance difference (never the
/// pool's own report) as the minted amount.
pub open spec fn process_deposit_spec(
    program_id: Seq<u8>,
    deposit_receipt: AccountInfoView,
    stake_pool: AccountInfoView,
    deposit_stake_authority: AccountInfoView,
    pool_tokens_vault: AccountInfoView,
    system_program: AccountInfoView,
    base: AccountInfoView,
    owner: Seq<u8>,
    vault_balance_before: u64,
    vault_balance_after: u64,
    clock_timestamp: i64,
) -> Result<DepositReceiptView, ProgramError> {
    match process_deposit_checks_spec(
        program_id,
        deposit_receipt,
        deposit_stake_authority,
        pool_tokens_vault,
        system_program,
    ) {
        Err(e) => Err(e),
        Ok(a) => if vault_balance_after < vault_balance_before {
            Err(ProgramError::ArithmeticOverflow)
        } else {
            match find_pda(receipt_seeds(stake_pool.key, base.key), program_id) {
                None => Err(ProgramError::Interceptor(StakeDepositInterceptorError::InvalidSeeds)),
                Some(pda) => if pda.0 != deposit_receipt.key {
                    Err(ProgramError::Interceptor(StakeDepositInterceptorError::InvalidSeeds))
                } else {
                    Ok(
                        DepositReceiptView {
                            base: base.key,
                            owner,
                            stake_pool: stake_pool.key,
                            stake_pool_deposit_stake_authority: deposit_stake_authority.key,
                            deposit_time: crate::state::abs_timestamp(clock_timestamp) as u64,
                            lst_amount: (vault_balance_after - vault_balance_before) as u64,
                            cool_down_seconds: a.cool_down_seconds,
                            initial_fee_bps: a.initial_fee_bps,
                            bump_seed: pda.1,
                        },
                    )
                },
            }
        },
    }
}

impl Processor {
    /// The validations a deposit performs before it lets the wrapped pool
    /// run: the receipt account must be fresh, the authority record genuine,
    /// and the vault the authority's own. Returns the authority record the
    /// deposit will snapshot.
    pub fn process_deposit_stake_checks(
        program_id: &Pubkey,
        deposit_receipt: &AccountInfo,
        deposit_stake_authority: &AccountInfo,
        pool_tokens_vault: &AccountInfo,
        system_program: &AccountInfo,
    ) -> (r: Result<StakePoolDepositStakeAuthority, ProgramError>)
        ensures
            ({
                let s = process_deposit_checks_spec(
                    program_id@,
                    deposit_receipt@,
                    deposit_stake_authority@,
                    pool_tokens_vault@,
                    system_program@,
                );
                match r {
                    Ok(record) => s == Ok::<_, ProgramError>(record@),
                    Err(e) => s == Err::<StakePoolDepositStakeAuthorityView, _>(e),
                }
            }),
    {
        check_system_program(&system_program.key)?;
        check_account_owner(deposit_stake_authority, program_id)?;
        check_system_account(deposit_receipt, true)?;
        let record = match StakePoolDepositStakeAuthority::unpack(
            deposit_stake_authority.data.as_slice(),
        ) {
            Some(record) => record,
            None => {
                return Err(ProgramError::InvalidAccountData);
            },
        };
        check_deposit_stake_authority_address(
            program_id,
            &deposit_stake_authority.key,
            &record,
        )?;
        if !(pool_tokens_vault.key == record.vault) {
            return Err(ProgramError::Interceptor(StakeDepositInterceptorError::InvalidVault));
        }
        Ok(record)
    }

    /// Complete a deposit, given the vault balance observed before and after
    /// the wrapped pool's deposit invocation and the clock's timestamp.
    /// Validates everything the pre-invocation checks validate, takes the
    /// balance difference as the exact minted amount, and returns the new
    /// receipt record, its address checked against the canonical derivation.
    pub fn process_deposit_stake(
        program_id: &Pubkey,
        deposit_receipt: &AccountInfo,
        stake_pool: &AccountInfo,
        deposit_stake_authority: &AccountInfo,
        pool_tokens_vault: &AccountInfo,
        system_program: &AccountInfo,
        base: &AccountInfo,
        deposit_stake_args: &DepositStakeArgs,
        vault_balance_before: u64,
        vault_balance_after: u64,
        clock_timestamp: i64,
    ) -> (r: Result<DepositReceipt, ProgramError>)
        ensures
            ({
                let s = process_deposit_spec(
                    program_id@,
                    deposit_receipt@,
                    stake_pool@,
                    deposit_stake_authority@,
                    pool_tokens_vault@,
                    system_program@,
                    base@,
                    deposit_stake_args.owner@,
                    vault_balance_before,
                    vault_balance_after,
                    clock_timestamp,
                );
                match r {
                    Ok(record) => s == Ok::<_, ProgramError>(record@),
                    Err(e) => s == Err::<DepositReceiptView, _>(e),
                }
            }),
    {
        let authority_record = Self::process_deposit_stake_checks(
            program_id,
            deposit_receipt,
            deposit_stake_authority,
            pool_tokens_vault,
            system_program,
        )?;
        if vault_balance_after < vault_balance_before {
            return Err(ProgramError::ArithmeticOverflow);
        }
        let pool_tokens_minted = vault_balance_after - vault_balance_before;
        let (deposit_receipt_pda, bump_seed) = match derive_stake_deposit_receipt(
            program_id,
            &stake_pool.key,
            &base.key,
        ) {
            Some(d) => d,
            None => {
                return Err(ProgramError::Interceptor(StakeDepositInterceptorError::InvalidSeeds));
            },
        };
        if !(deposit_receipt_pda == deposit_receipt.key) {
            return Err(ProgramError::Interceptor(StakeDepositInterceptorError::InvalidSeeds));
        }
        Ok(
            DepositReceipt {
                base: base.key,
                owner: deposit_stake_args.owner,
                stake_pool: stake_pool.key,
                stake_pool_deposit_stake_authority: deposit_stake_authority.key,
                deposit_time: unsigned_abs_i64(clock_timestamp),
                lst_amount: pool_tokens_minted,
                cool_down_seconds: authority_record.cool_down_seconds,
                initial_fee_bps: authority_record.initial_fee_bps,
                bump_seed,
            },
        )
    }
}

/// The account slots of the wrapped stake pool program's deposit invocation,
/// with the interceptor authority as the signing deposit authority.
pub open spec fn stake_pool_deposit_cpi_metas(
    stake_pool: Seq<u8>,
    validator_list: Seq<u8>,
    deposit_stake_authority: Seq<u8>,
    withdraw_authority: Seq<u8>,
    stake: Seq<u8>,
    validator_stake_account: Seq<u8>,
    reserve_stake_account: Seq<u8>,
    pool_tokens_vault: Seq<u8>,
    manager_fee_account: Seq<u8>,
    referrer_fee_account: Seq<u8>,
    pool_mint: Seq<u8>,
    token_program: Seq<u8>,
) -> Seq<AccountMetaView> {
    seq![
        meta(stake_pool, false, true),
        meta(validator_list, false, true),
        meta(deposit_stake_authority, true, false),
        meta(withdraw_authority, false, false),
        meta(stake, false, true),
        meta(validator_stake_account, false, true),
        meta(reserve_stake_account, false, true),
        meta(pool_tokens_vault, false, true),
        meta(manager_fee_account, false, true),
        meta(referrer_fee_account, false, true),
        meta(pool_mint, false, true),
        meta(clock_sysvar_id_bytes(), false, false),
        meta(stake_history_sysvar_id_bytes(), false, false),
        meta(token_program, false, false),
        meta(stake_program_id_bytes(), false, false),
    ]
}

/// Build the wrapped stake pool program's deposit instruction that the
/// deposit flow invokes, signed by the interceptor authority's derived
/// seeds; with a slippage bound where one is given.
pub fn deposit_stake_cpi_instruction(
    stake_pool_program: &Pubkey,
    stake_pool: &Pubkey,
    validator_list: &Pubkey,
    deposit_stake_authority: &Pubkey,
    withdraw_authority: &Pubkey,
    stake: &Pubkey,
    validator_stake_account: &Pubkey,
    reserve_stake_account: &Pubkey,
    pool_tokens_vault: &Pubkey,
    manager_fee_account: &Pubkey,
    referrer_fee_account: &Pubkey,
    pool_mint: &Pubkey,
    token_program: &Pubkey,
    minimum_pool_tokens_out: Option<u64>,
) -> (r: Instruction)
    ensures
        r@.program_id == stake_pool_program@,
        r@.accounts == stake_pool_deposit_cpi_metas(
            stake_pool@,
            validator_list@,
            deposit_stake_authority@,
            withdraw_authority@,
            stake@,
            validator_stake_account@,
            reserve_stake_account@,
            pool_tokens_vault@,
            manager_fee_account@,
            referrer_fee_account@,
            pool_mint@,
            token_program@,
        ),
        r@.data == stake_pool_deposit_data(minimum_pool_tokens_out),
{
    let mut accounts: Vec<AccountMeta> = Vec::new();
    accounts.push(AccountMeta::new(*stake_pool, false));
    accounts.push(AccountMeta::new(*validator_list, false));
    accounts.push(AccountMeta::new_readonly(*deposit_stake_authority, true));
    accounts.push(AccountMeta::new_readonly(*withdraw_authority, false));
    accounts.push(AccountMeta::new(*stake, false));
    accounts.push(AccountMeta::new(*validator_stake_account, false));
    accounts.push(AccountMeta::new(*reserve_stake_account, false));
    accounts.push(AccountMeta::new(*pool_tokens_vault, false));
    accounts.push(AccountMeta::new(*manager_fee_account, false));
    accounts.push(AccountMeta::new(*referrer_fee_account, false));
    accounts.push(AccountMeta::new(*pool_mint, false));
    accounts.push(AccountMeta::new_readonly(clock_sysvar_id(), false));
    accounts.push(AccountMeta::new_readonly(stake_history_sysvar_id(), false));
    accounts.push(AccountMeta::new_readonly(*token_program, false));
    accounts.push(AccountMeta::new_readonly(crate::pubkey::stake_program_id(), false));
    let data = stake_pool_deposit_instruction_data(minimum_pool_tokens_out);
    let ix = Instruction { program_id: *stake_pool_program, accounts, data };
    proof {
        assert(ix@.accounts =~~= stake_pool_deposit_cpi_metas(
            stake_pool@,
            validator_list@,
            deposit_stake_authority@,
            withdraw_authority@,
            stake@,
            validator_stake_account@,
            reserve_stake_account@,
            pool_tokens_vault@,
            manager_fee_account@,
            referrer_fee_account@,
            pool_mint@,
            token_program@,
        ));
    }
    ix
}

/// Build a checked token transfer out of the vault together with the signer
/// seeds of the interceptor authority that must sign it.
pub fn transfer_tokens_cpi(
    token_program: &Pubkey,
    source: &Pubkey,
    mint: &Pubkey,
    destination: &Pubkey,
    authority_address: &Pubkey,
    amount: u64,
    decimals: u8,
    deposit_stake_authority: &StakePoolDepositStakeAuthority,
) -> (r: Result<(Instruction, Vec<Vec<u8>>), ProgramError>)
    ensures
        r is Ok <==> (token_program@ == crate::pubkey::spl_token_program_id_bytes()
            || token_program@ == crate::pubkey::token_2022_program_id_bytes()),
        r matches Ok(p) ==> {
            &&& p.0@.program_id == token_program@
            &&& p.0@.accounts == seq![
                meta(source@, false, true),
                meta(mint@, false, false),
                meta(destination@, false, true),
                meta(authority_address@, true, false),
            ]
            &&& p.0@.data == crate::programs::transfer_checked_data(amount, decimals)
            &&& p.1.deep_view() == authority_seeds(
                deposit_stake_authority@.stake_pool,
                deposit_stake_authority@.base,
            ).push(seq![deposit_stake_authority@.bump_seed])
        },
{
    let ix = match crate::programs::transfer_checked_instruction(
        token_program,
        source,
        mint,
        destination,
        authority_address,
        amount,
        decimals,
    ) {
        Some(ix) => ix,
        None => {
            return Err(ProgramError::IncorrectProgramId);
        },
    };
    let seeds = crate::pda::stake_pool_deposit_stake_authority_signer_seeds(
        deposit_stake_authority,
    );
    Ok((ix, seeds))
}

/// The system-program invocations that create a program-derived account,
/// given the rent-exempt minimum the runner computed for the space. A fresh
/// account is created outright; one that already carries lamports (anyone
/// can send lamports to an address before it is initialized) is instead
/// topped up to the minimum where short, allocated, and assigned.
pub open spec fn create_pda_account_plan(
    payer: Seq<u8>,
    rent_minimum_balance: u64,
    space: u64,
    owner: Seq<u8>,
    pda_key: Seq<u8>,
    pda_lamports: u64,
) -> Seq<crate::instruction::InstructionContentView> {
    let required: u64 = if rent_minimum_balance >= 1 {
        rent_minimum_balance
    } else {
        1u64
    };
    if pda_lamports > 0 {
        let tail = seq![
            crate::instruction::InstructionContentView {
                program_id: zero_pubkey_bytes(),
                accounts: seq![meta(pda_key, true, true)],
                data: crate::programs::system_allocate_data(space),
            },
            crate::instruction::InstructionContentView {
                program_id: zero_pubkey_bytes(),
                accounts: seq![meta(pda_key, true, true)],
                data: crate::programs::system_assign_data(owner),
            },
        ];
        if required > pda_lamports {
            seq![
                crate::instruction::InstructionContentView {
                    program_id: zero_pubkey_bytes(),
                    accounts: seq![meta(payer, true, true), meta(pda_key, false, true)],
                    data: crate::programs::system_transfer_data((required - pda_lamports) as u64),
                },
            ] + tail
        } else {
            tail
        }
    } else {
        seq![
            crate::instruction::InstructionContentView {
                program_id: zero_pubkey_bytes(),
                accounts: seq![meta(payer, true, true), meta(pda_key, true, true)],
                data: crate::programs::system_create_account_data(required, space, owner),
            },
        ]
    }
}

/// Build the system-program invocations that create a program-derived
/// account, all but the payer-funded transfer to be signed with the new
/// account's derivation seeds.
pub fn create_pda_account(
    payer: &Pubkey,
    rent_minimum_balance: u64,
    space: u64,
    owner: &Pubkey,
    new_pda_account: &AccountInfo,
) -> (r: Vec<Instruction>)
    ensures
        r.deep_view() == create_pda_account_plan(
            payer@,
            rent_minimum_balance,
            space,
            owner@,
            new_pda_account@.key,
            new_pda_account@.lamports,
        ),
{
    let required: u64 = if rent_minimum_balance >= 1 {
        rent_minimum_balance
    } else {
        1
    };
    let mut instructions: Vec<Instruction> = Vec::new();
    if new_pda_account.lamports > 0 {
        if required > new_pda_account.lamports {
            instructions.push(
                crate::programs::system_transfer(
                    payer,
                    &new_pda_account.key,
                    required - new_pda_account.lamports,
                ),
            );
        }
        instructions.push(crate::programs::system_allocate(&new_pda_account.key, space));
        instructions.push(crate::programs::system_assign(&new_pda_account.key, owner));
    } else {
        instructions.push(
            crate::programs::system_create_account(
                payer,
                &new_pda_account.key,
                required,
                space,
                owner,
            ),
        );
    }
    proof {
        assert(instructions.deep_view() =~~= create_pda_account_plan(
            payer@,
            rent_minimum_balance,
            space,
            owner@,
            new_pda_account@.key,
            new_pda_account@.lamports,
        ));
    }
    instructions
}

/// What a successful claim pays and destroys: the fee owed now, the
/// remainder for the destination, and the mint decimals both transfers use.
/// The receipt account is closed afterwards, its rent returned to the owner.
#[derive(Clone, Copy, Debug, PartialEq, Eq, Structural)]
pub struct ClaimOutcome {
    /// Pool tokens sent to the fee wallet's token account.
    pub fee_amount: u64,
    /// Pool tokens sent to the owner's destination token account.
    pub destination_amount: u64,
    /// Decimals of the pool mint, as both checked transfers state them.
    pub pool_mint_decimals: u8,
}

/// What a claim does: the validation chain over the receipt, the authority,
/// the vault and the two destination token accounts; then the fee owed at
/// the clock's time, computed from the receipt's frozen snapshot alone, the
/// remainder for the owner's destination, and the receipt's destruction.
/// During the cool-down the owner must sign; afterwards anyone may claim,
/// and the fee is zero.
pub open spec fn process_claim_spec(
    program_id: Seq<u8>,
    deposit_receipt: AccountInfoView,
    owner: AccountInfoView,
    vault: AccountInfoView,
    destination: AccountInfoView,
    fee_token_account: AccountInfoView,
    deposit_stake_authority: AccountInfoView,
    pool_mint: AccountInfoView,
    system_program: AccountInfoView,
    clock_timestamp: i64,
) -> Result<ClaimOutcome, ProgramError> {
    let ts = crate::state::abs_timestamp(clock_timestamp);
    if system_program.key != zero_pubkey_bytes() {
        Err(ProgramError::IncorrectProgramId)
    } else if deposit_stake_authority.owner != program_id {
        Err(ProgramError::IncorrectProgramId)
    } else if deposit_receipt.owner != program_id {
        Err(ProgramError::IncorrectProgramId)
    } else if !holds_receipt_record(deposit_receipt) {
        Err(ProgramError::InvalidAccountData)
    } else {
        let rec = decoded_receipt_record(deposit_receipt.data);
        if rec.deposit_time + rec.cool_down_seconds > u64::MAX {
            Err(ProgramError::ArithmeticOverflow)
        } else if rec.deposit_time + rec.cool_down_seconds > ts && !owner.is_signer {
            Err(ProgramError::Interceptor(StakeDepositInterceptorError::ActiveCooldown))
        } else if owner.key != rec.owner {
            Err(
                ProgramError::Interceptor(
                    StakeDepositInterceptorError::InvalidDepositReceiptOwner,
                ),
            )
        } else if !holds_authority_record(deposit_stake_authority) {
            Err(ProgramError::InvalidAccountData)
        } else {
            let a = decoded_authority_record(deposit_stake_authority.data);
            match check_deposit_stake_authority_address_spec(
                program_id,
                deposit_stake_authority.key,
                a,
            ) {
                Err(e) => Err(e),
                Ok(()) => match check_deposit_receipt_address_spec(
                    program_id,
                    deposit_receipt.key,
                    rec,
                ) {
                    Err(e) => Err(e),
                    Ok(()) => if deposit_stake_authority.key
                        != rec.stake_pool_deposit_stake_authority {
                        Err(
                            ProgramError::Interceptor(
                                StakeDepositInterceptorError::InvalidStakePoolDepositStakeAuthority,
                            ),
                        )
                    } else if a.vault != vault.key {
                        Err(ProgramError::Interceptor(StakeDepositInterceptorError::InvalidVault))
                    } else {
                        match token_account_of(fee_token_account.data) {
                            None => Err(ProgramError::InvalidAccountData),
                            Some(fee_acct) => if fee_acct.0 != a.fee_wallet {
                                Err(
                                    ProgramError::Interceptor(
                                        StakeDepositInterceptorError::InvalidFeeTokenAccount,
                                    ),
                                )
                            } else {
                                match token_account_of(destination.data) {
                                    None => Err(ProgramError::InvalidAccountData),
                                    Some(dest_acct) => if dest_acct.0 != rec.owner {
                                        Err(
                                            ProgramError::Interceptor(
                                                StakeDepositInterceptorError::InvalidDestinationTokenAccount,
                                            ),
                                        )
                                    } else {
                                        match mint_decimals_of(pool_mint.data) {
                                            None => Err(ProgramError::InvalidAccountData),
                                            Some(decimals) => if !fee_arith_ok(rec, ts) {
                                                Err(ProgramError::ArithmeticOverflow)
                                            } else {
                                                let fee = fee_amount(rec, ts);
                                                Ok(
                                                    ClaimOutcome {
                                                        fee_amount: fee as u64,
                                                        destination_amount: if fee
                                                            <= rec.lst_amount {
                                                            (rec.lst_amount - fee) as u64
                                                        } else {
                                                            0u64
                                                        },
                                                        pool_mint_decimals: decimals,
                                                    },
                                                )
                                            },
                                        }
                                    },
                                }
                            },
                        }
                    },
                },
            }
        }
    }
}

impl Processor {
    /// Claim a receipt's pool tokens at the clock's time: validate every
    /// cross-reference, compute the fee from the receipt's frozen snapshot,
    /// and return what to pay out. The runner performs the two vault
    /// transfers this describes and then closes the receipt account toward
    /// the owner.
    pub fn process_claim_pool_tokens(
        program_id: &Pubkey,
        deposit_receipt: &AccountInfo,
        owner: &AccountInfo,
        vault: &AccountInfo,
        destination: &AccountInfo,
        fee_token_account: &AccountInfo,
        deposit_stake_authority: &AccountInfo,
        pool_mint: &AccountInfo,
        system_program: &AccountInfo,
        clock_timestamp: i64,
    ) -> (r: Result<ClaimOutcome, ProgramError>)
        ensures
            ({
                let s = process_claim_spec(
                    program_id@,
                    deposit_receipt@,
                    owner@,
                    vault@,
                    destination@,
                    fee_token_account@,
                    deposit_stake_authority@,
                    pool_mint@,
                    system_program@,
                    clock_timestamp,
                );
                match r {
                    Ok(outcome) => s == Ok::<_, ProgramError>(outcome),
                    Err(e) => s == Err::<ClaimOutcome, _>(e),
                }
            }),
    {
        check_system_program(&system_program.key)?;
        check_account_owner(deposit_stake_authority, program_id)?;
        check_account_owner(deposit_receipt, program_id)?;
        let receipt_record = match DepositReceipt::unpack(deposit_receipt.data.as_slice()) {
            Some(record) => record,
            None => {
                return Err(ProgramError::InvalidAccountData);
            },
        };
        let ts = unsigned_abs_i64(clock_timestamp);
        if receipt_record.deposit_time > u64::MAX - receipt_record.cool_down_seconds {
            return Err(ProgramError::ArithmeticOverflow);
        }
        let cool_down_end_time = receipt_record.deposit_time + receipt_record.cool_down_seconds;
        if cool_down_end_time > ts && !owner.is_signer {
            return Err(ProgramError::Interceptor(StakeDepositInterceptorError::ActiveCooldown));
        }
        if !(owner.key == receipt_record.owner) {
            return Err(
                ProgramError::Interceptor(StakeDepositInterceptorError::InvalidDepositReceiptOwner),
            );
        }
        let authority_record = match StakePoolDepositStakeAuthority::unpack(
            deposit_stake_authority.data.as_slice(),
        ) {
            Some(record) => record,
            None => {
                return Err(ProgramError::InvalidAccountData);
            },
        };
        check_deposit_stake_authority_address(
            program_id,
            &deposit_stake_authority.key,
            &authority_record,
        )?;
        check_deposit_receipt_address(program_id, &deposit_receipt.key, &receipt_record)?;
        if !(deposit_stake_authority.key == receipt_record.stake_pool_deposit_stake_authority) {
            return Err(
                ProgramError::Interceptor(
                    StakeDepositInterceptorError::InvalidStakePoolDepositStakeAuthority,
                ),
            );
        }
        if !(authority_record.vault == vault.key) {
            return Err(ProgramError::Interceptor(StakeDepositInterceptorError::InvalidVault));
        }
        let fee_account_owner = match unpack_token_account(fee_token_account.data.as_slice()) {
            Some(t) => t.0,
            None => {
                return Err(ProgramError::InvalidAccountData);
            },
        };
        if !(fee_account_owner == authority_record.fee_wallet) {
            return Err(
                ProgramError::Interceptor(StakeDepositInterceptorError::InvalidFeeTokenAccount),
            );
        }
        let destination_owner = match unpack_token_account(destination.data.as_slice()) {
            Some(t) => t.0,
            None => {
                return Err(ProgramError::InvalidAccountData);
            },
        };
        if !(destination_owner == receipt_record.owner) {
            return Err(
                ProgramError::Interceptor(
                    StakeDepositInterceptorError::InvalidDestinationTokenAccount,
                ),
            );
        }
        let pool_mint_decimals = match unpack_mint_decimals(pool_mint.data.as_slice()) {
            Some(decimals) => decimals,
            None => {
                return Err(ProgramError::InvalidAccountData);
            },
        };
        let fee_amount = match receipt_record.calculate_fee_amount_checked(clock_timestamp) {
            Some(fee_amount) => fee_amount,
            None => {
                return Err(ProgramError::ArithmeticOverflow);
            },
        };
        let destination_amount = if fee_amount <= receipt_record.lst_amount {
            receipt_record.lst_amount - fee_amount
        } else {
            0
        };
        Ok(ClaimOutcome { fee_amount, destination_amount, pool_mint_decimals })
    }
}

/// Creation establishes the authority invariants: a record a successful init
/// writes has a fee rate of at most 100% and a non-zero cool-down.
pub proof fn lemma_init_establishes_params_invariant(
    program_id: Seq<u8>,
    deposit_stake_authority: AccountInfoView,
    vault_ata: AccountInfoView,
    authority: AccountInfoView,
    base: AccountInfoView,
    stake_pool: AccountInfoView,
    stake_pool_mint: AccountInfoView,
    stake_pool_program: AccountInfoView,
    token_program: AccountInfoView,
    system_program: AccountInfoView,
    args: crate::instruction::InitArgsView,
)
    ensures
        (process_init_spec(
            program_id,
            deposit_stake_authority,
            vault_ata,
            authority,
            base,
            stake_pool,
            stake_pool_mint,
            stake_pool_program,
            token_program,
            system_program,
            args,
        ) matches Ok(a) ==> authority_params_wf(a.cool_down_seconds, a.initial_fee_bps)),
{
}

/// Updates preserve the authority invariants: whatever fields a successful
/// update replaces, the written record still has a fee rate of at most 100%
/// and a non-zero cool-down.
pub proof fn lemma_update_preserves_params_invariant(
    program_id: Seq<u8>,
    deposit_stake_authority: AccountInfoView,
    authority: AccountInfoView,
    new_authority: Option<AccountInfoView>,
    args: crate::instruction::UpdateArgsView,
)
    requires
        ({
            let a = decoded_authority_record(deposit_stake_authority.data);
            authority_params_wf(a.cool_down_seconds, a.initial_fee_bps)
        }),
    ensures
        (process_update_spec(program_id, deposit_stake_authority, authority, new_authority, args)
            matches Ok(a2) ==> authority_params_wf(a2.cool_down_seconds, a2.initial_fee_bps)),
{
}

/// A deposit under an authority that satisfies the invariants, at a clock
/// whose sum with the cool-down stays in 64 bits, writes a well-formed
/// receipt — one whose fee computation is division-safe at every later time.
pub proof fn lemma_deposit_writes_wf_receipt(
    program_id: Seq<u8>,
    deposit_receipt: AccountInfoView,
    stake_pool: AccountInfoView,
    deposit_stake_authority: AccountInfoView,
    pool_tokens_vault: AccountInfoView,
    system_program: AccountInfoView,
    base: AccountInfoView,
    owner: Seq<u8>,
    vault_balance_before: u64,
    vault_balance_after: u64,
    clock_timestamp: i64,
)
    requires
        ({
            let a = decoded_authority_record(deposit_stake_authority.data);
            &&& authority_params_wf(a.cool_down_seconds, a.initial_fee_bps)
            &&& crate::state::abs_timestamp(clock_timestamp) + a.cool_down_seconds <= u64::MAX
        }),
    ensures
        (process_deposit_spec(
            program_id,
            deposit_receipt,
            stake_pool,
            deposit_stake_authority,
            pool_tokens_vault,
            system_program,
            base,
            owner,
            vault_balance_before,
            vault_balance_after,
            clock_timestamp,
        ) matches Ok(rec) ==> crate::state::deposit_receipt_wf(rec)),
{
}

/// Law: an update that supplies no field and no new authority changes
/// nothing — whenever it succeeds, the record it writes back is exactly the
/// record stored in the account.
pub proof fn lemma_update_authority_noop(
    program_id: Seq<u8>,
    deposit_stake_authority: AccountInfoView,
    authority: AccountInfoView,
    args: crate::instruction::UpdateArgsView,
)
    requires
        args.fee_wallet is None,
        args.cool_down_seconds is None,
        args.initial_fee_bps is None,
        process_update_spec(program_id, deposit_stake_authority, authority, None, args) is Ok,
    ensures
        process_update_spec(program_id, deposit_stake_authority, authority, None, args) == Ok::<
            _,
            ProgramError,
        >(decoded_authority_record(deposit_stake_authority.data)),
{
}

/// Law: a claim can succeed at most once per receipt. Once the receipt
/// account has been closed — its lamports refunded, its data cleared, its
/// ownership returned to the system program — any further claim against the
/// same address fails (this program's id is never the system program's).
pub proof fn lemma_claim_fails_after_close(
    program_id: Seq<u8>,
    deposit_receipt: AccountInfoView,
    owner: AccountInfoView,
    vault: AccountInfoView,
    destination: AccountInfoView,
    fee_token_account: AccountInfoView,
    deposit_stake_authority: AccountInfoView,
    pool_mint: AccountInfoView,
    system_program: AccountInfoView,
    clock_timestamp: i64,
)
    requires
        account_closed(deposit_receipt),
        program_id != zero_pubkey_bytes(),
    ensures
        process_claim_spec(
            program_id,
            deposit_receipt,
            owner,
            vault,
            destination,
            fee_token_account,
            deposit_stake_authority,
            pool_mint,
            system_program,
            clock_timestamp,
        ) is Err,
{
}

/// Law, first half of the permission boundary: while the cool-down is still
/// running, a claim without the owner's signature fails with ActiveCooldown,
/// whatever the other accounts hold.
pub proof fn lemma_claim_requires_owner_during_cool_down(
    program_id: Seq<u8>,
    deposit_receipt: AccountInfoView,
    owner: AccountInfoView,
    vault: AccountInfoView,
    destination: AccountInfoView,
    fee_token_account: AccountInfoView,
    deposit_stake_authority: AccountInfoView,
    pool_mint: AccountInfoView,
    system_program: AccountInfoView,
    clock_timestamp: i64,
)
    requires
        system_program.key == zero_pubkey_bytes(),
        deposit_stake_authority.owner == program_id,
        deposit_receipt.owner == program_id,
        holds_receipt_record(deposit_receipt),
        ({
            let rec = decoded_receipt_record(deposit_receipt.data);
            &&& rec.deposit_time + rec.cool_down_seconds <= u64::MAX
            &&& rec.deposit_time + rec.cool_down_seconds > crate::state::abs_timestamp(
                clock_timestamp,
            )
        }),
        !owner.is_signer,
    ensures
        process_claim_spec(
            program_id,
            deposit_receipt,
            owner,
            vault,
            destination,
            fee_token_account,
            deposit_stake_authority,
            pool_mint,
            system_program,
            clock_timestamp,
        ) == Err::<ClaimOutcome, _>(
            ProgramError::Interceptor(StakeDepositInterceptorError::ActiveCooldown),
        ),
{
}

/// Law, second half of the permission boundary: once the cool-down has
/// elapsed, a claim succeeds with no signature at all, the fee is zero, and
/// the destination receives the full deposited amount.
pub proof fn lemma_claim_permissionless_after_cool_down(
    program_id: Seq<u8>,
    deposit_receipt: AccountInfoView,
    owner: AccountInfoView,
    vault: AccountInfoView,
    destination: AccountInfoView,
    fee_token_account: AccountInfoView,
    deposit_stake_authority: AccountInfoView,
    pool_mint: AccountInfoView,
    system_program: AccountInfoView,
    clock_timestamp: i64,
)
    requires
        system_program.key == zero_pubkey_bytes(),
        deposit_stake_authority.owner == program_id,
        deposit_receipt.owner == program_id,
        holds_receipt_record(deposit_receipt),
        holds_authority_record(deposit_stake_authority),
        ({
            let rec = decoded_receipt_record(deposit_receipt.data);
            let a = decoded_authority_record(deposit_stake_authority.data);
            &&& rec.deposit_time + rec.cool_down_seconds <= u64::MAX
            &&& crate::state::abs_timestamp(clock_timestamp) >= rec.deposit_time
                + rec.cool_down_seconds
            &&& owner.key == rec.owner
            &&& check_deposit_stake_authority_address_spec(
                program_id,
                deposit_stake_authority.key,
                a,
            ) is Ok
            &&& check_deposit_receipt_address_spec(program_id, deposit_receipt.key, rec) is Ok
            &&& deposit_stake_authority.key == rec.stake_pool_deposit_stake_authority
            &&& a.vault == vault.key
            &&& (token_account_of(fee_token_account.data) matches Some(fee_acct) && fee_acct.0
                == a.fee_wallet)
            &&& (token_account_of(destination.data) matches Some(dest_acct) && dest_acct.0
                == rec.owner)
            &&& mint_decimals_of(pool_mint.data) is Some
        }),
    ensures
        ({
            let rec = decoded_receipt_record(deposit_receipt.data);
            let r = process_claim_spec(
                program_id,
                deposit_receipt,
                owner,
                vault,
                destination,
                fee_token_account,
                deposit_stake_authority,
                pool_mint,
                system_program,
                clock_timestamp,
            );
            r matches Ok(outcome) && outcome.fee_amount == 0 && outcome.destination_amount
                == rec.lst_amount
        }),
{
    let rec = decoded_receipt_record(deposit_receipt.data);
    let ts = crate::state::abs_timestamp(clock_timestamp);
    crate::state::lemma_fee_after_cool_down(rec, ts);
}

/// Law, snapshot isolation: the fee a receipt owes is a function of the
/// receipt's own frozen snapshot alone. However an authority update changes
/// the stored parameters afterwards, a receipt minted under the old
/// parameters still owes exactly the fee those old parameters dictate.
pub proof fn lemma_receipt_snapshot_isolation(
    program_id: Seq<u8>,
    deposit_stake_authority: AccountInfoView,
    authority: AccountInfoView,
    new_authority: Option<AccountInfoView>,
    args: crate::instruction::UpdateArgsView,
    rec: DepositReceiptView,
    t: int,
)
    requires
        ({
            let a = decoded_authority_record(deposit_stake_authority.data);
            &&& rec.cool_down_seconds == a.cool_down_seconds
            &&& rec.initial_fee_bps == a.initial_fee_bps
        }),
        process_update_spec(program_id, deposit_stake_authority, authority, new_authority, args)
            is Ok,
    ensures
        ({
            let a = decoded_authority_record(deposit_stake_authority.data);
            fee_amount(rec, t) == crate::state::fee_with_params(
                a.initial_fee_bps,
                a.cool_down_seconds,
                rec.deposit_time,
                rec.lst_amount,
                t,
            )
        }),
{
}


} // verus!
