//! The pure decision core of the off-chain claim cranker and the receipt
//! listing tools: which receipts are claimable at a given time, the crank
//! round's tally, and the ready-to-submit claim instruction for one receipt.

use vstd::prelude::*;

use crate::instruction::{
    claim_pool_tokens_metas, create_claim_pool_tokens_instruction, instruction_bytes, Instruction,
    InstructionView,
};
use crate::pda::{derive_stake_deposit_receipt, find_pda, receipt_seeds};
use crate::programs::{associated_token_address, get_associated_token_address};
use crate::pubkey::{spl_token_program_id, spl_token_program_id_bytes, Pubkey};
use crate::state::{fee_amount, fee_arith_ok, DepositReceipt, StakePoolDepositStakeAuthority};

verus! {

/// What one receipt means to a crank round at time `now`.
#[derive(Clone, Copy, Debug, PartialEq, Eq, Structural)]
pub enum ReceiptStatus {
    /// The deposit time lies in the future; leave the receipt alone.
    FutureDeposit,
    /// Deposit time plus cool-down leaves the 64-bit range; never claimable.
    InvalidTiming,
    /// The cool-down still runs; wait.
    NotYetExpired,
    /// The cool-down has elapsed; claim it.
    Expired,
}

/// The status of a receipt at time `now`.
pub open spec fn receipt_status(deposit_time: u64, cool_down_seconds: u64, now: u64) -> ReceiptStatus {
    if deposit_time > now {
        ReceiptStatus::FutureDeposit
    } else if deposit_time + cool_down_seconds > u64::MAX {
        ReceiptStatus::InvalidTiming
    } else if now > deposit_time + cool_down_seconds {
        ReceiptStatus::Expired
    } else {
        ReceiptStatus::NotYetExpired
    }
}

/// Classify one receipt at time `now`.
pub fn classify_receipt(receipt: &DepositReceipt, now: u64) -> (r: ReceiptStatus)
    ensures
        r == receipt_status(receipt@.deposit_time, receipt@.cool_down_seconds, now),
{
    if receipt.deposit_time > now {
        return ReceiptStatus::FutureDeposit;
    }
    if receipt.deposit_time > u64::MAX - receipt.cool_down_seconds {
        return ReceiptStatus::InvalidTiming;
    }
    if now > receipt.deposit_time + receipt.cool_down_seconds {
        return ReceiptStatus::Expired;
    }
    ReceiptStatus::NotYetExpired
}

/// How many of the receipts have the given status at time `now`.
pub open spec fn count_with_status(
    receipts: Seq<DepositReceipt>,
    now: u64,
    status: ReceiptStatus,
) -> int
    decreases receipts.len(),
{
    if receipts.len() == 0 {
        0
    } else {
        count_with_status(receipts.drop_last(), now, status) + if receipt_status(
            receipts.last()@.deposit_time,
            receipts.last()@.cool_down_seconds,
            now,
        ) == status {
            1int
        } else {
            0int
        }
    }
}

/// The receipts with the given status at time `now`, in order.
pub open spec fn receipts_with_status(
    receipts: Seq<DepositReceipt>,
    now: u64,
    status: ReceiptStatus,
) -> Seq<DepositReceipt>
    decreases receipts.len(),
{
    if receipts.len() == 0 {
        Seq::empty()
    } else if receipt_status(
        receipts.last()@.deposit_time,
        receipts.last()@.cool_down_seconds,
        now,
    ) == status {
        receipts_with_status(receipts.drop_last(), now, status).push(receipts.last())
    } else {
        receipts_with_status(receipts.drop_last(), now, status)
    }
}

/// The tally of one crank round.
#[derive(Clone, Copy, Debug, PartialEq, Eq, Structural)]
pub struct CrankSummary {
    /// Receipts examined.
    pub total_receipts: u64,
    /// Receipts whose deposit time lies in the future.
    pub future_deposits: u64,
    /// Receipts still inside their cool-down.
    pub not_yet_expired: u64,
    /// Receipts whose timing fields overflow; never claimable.
    pub invalid_timing: u64,
    /// Receipts whose cool-down elapsed, queued for claiming.
    pub expired: u64,
}

/// One crank round's decisions: tally every receipt and collect the expired
/// ones, in their incoming order, for claiming.
pub fn plan_crank(receipts: &Vec<DepositReceipt>, now: u64) -> (r: (
    CrankSummary,
    Vec<DepositReceipt>,
))
    requires
        receipts@.len() <= u64::MAX,
    ensures
        r.0.total_receipts == receipts@.len(),
        r.0.future_deposits == count_with_status(receipts@, now, ReceiptStatus::FutureDeposit),
        r.0.not_yet_expired == count_with_status(receipts@, now, ReceiptStatus::NotYetExpired),
        r.0.invalid_timing == count_with_status(receipts@, now, ReceiptStatus::InvalidTiming),
        r.0.expired == count_with_status(receipts@, now, ReceiptStatus::Expired),
        r.1@ == receipts_with_status(receipts@, now, ReceiptStatus::Expired),
{
    let mut future_deposits: u64 = 0;
    let mut not_yet_expired: u64 = 0;
    let mut invalid_timing: u64 = 0;
    let mut expired: Vec<DepositReceipt> = Vec::new();
    let n = receipts.len();
    let mut i: usize = 0;
    while i < n
        invariant
            0 <= i <= n,
            n == receipts@.len(),
            n <= u64::MAX,
            future_deposits == count_with_status(
                receipts@.take(i as int),
                now,
                ReceiptStatus::FutureDeposit,
            ),
            not_yet_expired == count_with_status(
                receipts@.take(i as int),
                now,
                ReceiptStatus::NotYetExpired,
            ),
            invalid_timing == count_with_status(
                receipts@.take(i as int),
                now,
                ReceiptStatus::InvalidTiming,
            ),
            expired@.len() == count_with_status(
                receipts@.take(i as int),
                now,
                ReceiptStatus::Expired,
            ),
            expired@ == receipts_with_status(receipts@.take(i as int), now, ReceiptStatus::Expired),
            future_deposits + not_yet_expired + invalid_timing + expired@.len() == i,
        decreases n - i,
    {
        proof {
            lemma_count_nonnegative(receipts@.take(i as int), now, ReceiptStatus::FutureDeposit);
            assert(receipts@.take(i + 1).drop_last() =~= receipts@.take(i as int));
            assert(receipts@.take(i + 1).last() == receipts@[i as int]);
        }
        match classify_receipt(&receipts[i], now) {
            ReceiptStatus::FutureDeposit => {
                future_deposits = future_deposits + 1;
            },
            ReceiptStatus::InvalidTiming => {
                invalid_timing = invalid_timing + 1;
            },
            ReceiptStatus::NotYetExpired => {
                not_yet_expired = not_yet_expired + 1;
            },
            ReceiptStatus::Expired => {
                expired.push(receipts[i].clone());
            },
        }
        i = i + 1;
    }
    proof {
        assert(receipts@.take(n as int) =~= receipts@);
    }
    let summary = CrankSummary {
        total_receipts: n as u64,
        future_deposits,
        not_yet_expired,
        invalid_timing,
        expired: expired.len() as u64,
    };
    (summary, expired)
}

/// Counts never go negative.
proof fn lemma_count_nonnegative(receipts: Seq<DepositReceipt>, now: u64, status: ReceiptStatus)
    ensures
        count_with_status(receipts, now, status) >= 0,
    decreases receipts.len(),
{
    if receipts.len() > 0 {
        lemma_count_nonnegative(receipts.drop_last(), now, status);
    }
}

/// The receipt records among raw program accounts: each account whose data
/// holds a receipt record, decoded, in the incoming order; the rest dropped.
pub open spec fn parsed_receipt_accounts(accounts: Seq<(Pubkey, Vec<u8>)>) -> Seq<
    (Seq<u8>, crate::state::DepositReceiptView),
>
    decreases accounts.len(),
{
    if accounts.len() == 0 {
        Seq::empty()
    } else {
        let rest = parsed_receipt_accounts(accounts.drop_last());
        let last = accounts.last();
        if last.1@.len() == crate::codec::DEPOSIT_RECEIPT_LEN && last.1@[0] == 2u8 {
            rest.push((last.0@, crate::codec::decoded_receipt_record(last.1@)))
        } else {
            rest
        }
    }
}

/// Decode the receipt records among raw program accounts, as the receipt
/// scan does after fetching every account that carries the receipt
/// discriminator: accounts whose data does not hold a receipt record are
/// dropped.
pub fn parse_deposit_receipt_accounts(accounts: &Vec<(Pubkey, Vec<u8>)>) -> (r: Vec<
    (Pubkey, DepositReceipt),
>)
    ensures
        r@.map_values(|p: (Pubkey, DepositReceipt)| (p.0@, p.1@)) == parsed_receipt_accounts(
            accounts@,
        ),
{
    let mut out: Vec<(Pubkey, DepositReceipt)> = Vec::new();
    let n = accounts.len();
    let mut i: usize = 0;
    while i < n
        invariant
            0 <= i <= n,
            n == accounts@.len(),
            out@.map_values(|p: (Pubkey, DepositReceipt)| (p.0@, p.1@)) == parsed_receipt_accounts(
                accounts@.take(i as int),
            ),
        decreases n - i,
    {
        proof {
            assert(accounts@.take(i + 1).drop_last() =~= accounts@.take(i as int));
            assert(accounts@.take(i + 1).last() == accounts@[i as int]);
        }
        let ghost before = out@;
        match DepositReceipt::unpack(accounts[i].1.as_slice()) {
            Some(record) => {
                out.push((accounts[i].0, record));
                proof {
                    assert(out@.map_values(|p: (Pubkey, DepositReceipt)| (p.0@, p.1@)) =~= before
                        .map_values(|p: (Pubkey, DepositReceipt)| (p.0@, p.1@)).push(
                        (accounts@[i as int].0@, record@),
                    ));
                }
            },
            None => {},
        }
        i = i + 1;
    }
    proof {
        assert(accounts@.take(n as int) =~= accounts@);
    }
    out
}

/// Running totals a cranker keeps across rounds.
#[derive(Clone, Copy, Debug, PartialEq, Eq, Structural)]
pub struct Metrics {
    /// Receipts examined over all rounds.
    pub processed_receipts: u64,
    /// Claims that landed.
    pub successful_claims: u64,
    /// Claims that failed and will be retried in a later round.
    pub failed_claims: u64,
}

impl Default for Metrics {
    /// A fresh tally.
    fn default() -> (r: Metrics)
        ensures
            r.processed_receipts == 0,
            r.successful_claims == 0,
            r.failed_claims == 0,
    {
        Metrics { processed_receipts: 0, successful_claims: 0, failed_claims: 0 }
    }
}

impl Metrics {
    /// Count one attempted claim, by outcome. The totals saturate rather
    /// than wrap on a cranker that outlives the counters.
    pub fn record_claim(&mut self, success: bool)
        ensures
            final(self).processed_receipts == old(self).processed_receipts,
            success ==> final(self).successful_claims == (
            if old(self).successful_claims < u64::MAX {
                old(self).successful_claims + 1
            } else {
                old(self).successful_claims as int
            }) && final(self).failed_claims == old(self).failed_claims,
            !success ==> final(self).failed_claims == (
            if old(self).failed_claims < u64::MAX {
                old(self).failed_claims + 1
            } else {
                old(self).failed_claims as int
            }) && final(self).successful_claims == old(self).successful_claims,
    {
        if success {
            if self.successful_claims < u64::MAX {
                self.successful_claims = self.successful_claims + 1;
            }
        } else {
            if self.failed_claims < u64::MAX {
                self.failed_claims = self.failed_claims + 1;
            }
        }
    }

    /// Count one round's examined receipts.
    pub fn record_round(&mut self, receipts_examined: u64)
        ensures
            final(self).processed_receipts == (
            if old(self).processed_receipts + receipts_examined <= u64::MAX {
                old(self).processed_receipts + receipts_examined
            } else {
                u64::MAX as int
            }),
            final(self).successful_claims == old(self).successful_claims,
            final(self).failed_claims == old(self).failed_claims,
    {
        if self.processed_receipts <= u64::MAX - receipts_examined {
            self.processed_receipts = self.processed_receipts + receipts_examined;
        } else {
            self.processed_receipts = u64::MAX;
        }
    }
}

/// The timing and fee summary of one receipt, as the listing tools show it.
#[derive(Clone, Copy, Debug)]
pub struct ReceiptInfo {
    /// The receipt account's address.
    pub receipt_address: Pubkey,
    /// The receipt's base seed.
    pub base: Pubkey,
    /// The receipt's current owner.
    pub owner: Pubkey,
    /// The stake pool the deposit went into.
    pub stake_pool: Pubkey,
    /// Unix time of the deposit.
    pub deposit_time: u64,
    /// The receipt's frozen cool-down.
    pub cool_down_seconds: u64,
    /// When the cool-down ends (saturating).
    pub expiry_time: u64,
    /// Whether the cool-down has elapsed at the reference time.
    pub is_expired: bool,
    /// Pool tokens the receipt is worth.
    pub lst_amount: u64,
    /// The fee a claim at the reference time would owe.
    pub current_fee_amount: u64,
}

/// The saturating cool-down end of a receipt.
pub open spec fn expiry_time_of(deposit_time: u64, cool_down_seconds: u64) -> u64 {
    if deposit_time + cool_down_seconds > u64::MAX {
        u64::MAX
    } else {
        (deposit_time + cool_down_seconds) as u64
    }
}

/// Summarize one receipt's timing and current fee at time `now`.
pub fn calculate_receipt_info(receipt_address: Pubkey, receipt: &DepositReceipt, now: u64) -> (r:
    ReceiptInfo)
    requires
        now <= i64::MAX,
        now <= expiry_time_of(receipt@.deposit_time, receipt@.cool_down_seconds) ==> fee_arith_ok(
            receipt@,
            now as int,
        ),
    ensures
        r.receipt_address@ == receipt_address@,
        r.base@ == receipt@.base,
        r.owner@ == receipt@.owner,
        r.stake_pool@ == receipt@.stake_pool,
        r.deposit_time == receipt@.deposit_time,
        r.cool_down_seconds == receipt@.cool_down_seconds,
        r.expiry_time == expiry_time_of(receipt@.deposit_time, receipt@.cool_down_seconds),
        r.is_expired == (now > r.expiry_time),
        r.current_fee_amount == if r.is_expired {
            0int
        } else {
            fee_amount(receipt@, now as int)
        },
        r.lst_amount == receipt@.lst_amount,
{
    let expiry_time = if receipt.deposit_time > u64::MAX - receipt.cool_down_seconds {
        u64::MAX
    } else {
        receipt.deposit_time + receipt.cool_down_seconds
    };
    let is_expired = now > expiry_time;
    let current_fee_amount = if is_expired {
        0
    } else {
        match receipt.calculate_fee_amount_checked(now as i64) {
            Some(fee) => fee,
            None => 0,
        }
    };
    ReceiptInfo {
        receipt_address,
        base: receipt.base,
        owner: receipt.owner,
        stake_pool: receipt.stake_pool,
        deposit_time: receipt.deposit_time,
        cool_down_seconds: receipt.cool_down_seconds,
        expiry_time,
        is_expired,
        lst_amount: receipt.lst_amount,
        current_fee_amount,
    }
}

/// Everything a cranker needs to submit one claim: the derived receipt
/// address, the owner's and the fee wallet's associated token accounts, and
/// the permissionless claim instruction itself.
pub struct ClaimPlan {
    /// The receipt account, re-derived from the receipt's own seeds.
    pub receipt_address: Pubkey,
    /// The owner's associated token account for the pool mint.
    pub owner_token_account: Pubkey,
    /// The fee wallet's associated token account for the pool mint.
    pub fee_wallet_token_account: Pubkey,
    /// The claim instruction, ready to submit.
    pub instruction: Instruction,
}

/// Plan the permissionless claim of one expired receipt: derive the receipt
/// address and both associated token accounts, and build the claim
/// instruction under the SPL token program. Fails only where no bump seed
/// derives the receipt address.
pub fn plan_claim_pool_tokens(
    program_id: &Pubkey,
    receipt: &DepositReceipt,
    deposit_stake_authority: &StakePoolDepositStakeAuthority,
) -> (r: Option<ClaimPlan>)
    ensures
        match r {
            Some(plan) => match find_pda(
                receipt_seeds(receipt@.stake_pool, receipt@.base),
                program_id@,
            ) {
                Some(pda) => {
                    &&& plan.receipt_address@ == pda.0
                    &&& plan.owner_token_account@ == associated_token_address(
                        receipt@.owner,
                        deposit_stake_authority@.pool_mint,
                    )
                    &&& plan.fee_wallet_token_account@ == associated_token_address(
                        deposit_stake_authority@.fee_wallet,
                        deposit_stake_authority@.pool_mint,
                    )
                    &&& plan.instruction@.program_id == program_id@
                    &&& plan.instruction@.accounts == claim_pool_tokens_metas(
                        pda.0,
                        receipt@.owner,
                        deposit_stake_authority@.vault,
                        associated_token_address(
                            receipt@.owner,
                            deposit_stake_authority@.pool_mint,
                        ),
                        associated_token_address(
                            deposit_stake_authority@.fee_wallet,
                            deposit_stake_authority@.pool_mint,
                        ),
                        receipt@.stake_pool_deposit_stake_authority,
                        deposit_stake_authority@.pool_mint,
                        spl_token_program_id_bytes(),
                        true,
                    )
                    &&& plan.instruction@.data == instruction_bytes(
                        InstructionView::ClaimPoolTokens,
                    )
                },
                None => false,
            },
            None => find_pda(receipt_seeds(receipt@.stake_pool, receipt@.base), program_id@)
                is None,
        },
{
    let (receipt_address, _bump) = match derive_stake_deposit_receipt(
        program_id,
        &receipt.stake_pool,
        &receipt.base,
    ) {
        Some(d) => d,
        None => {
            return None;
        },
    };
    let owner_token_account = get_associated_token_address(
        &receipt.owner,
        &deposit_stake_authority.pool_mint,
    );
    let fee_wallet_token_account = get_associated_token_address(
        &deposit_stake_authority.fee_wallet,
        &deposit_stake_authority.pool_mint,
    );
    let instruction = create_claim_pool_tokens_instruction(
        program_id,
        &receipt_address,
        &receipt.owner,
        &deposit_stake_authority.vault,
        &owner_token_account,
        &fee_wallet_token_account,
        &receipt.stake_pool_deposit_stake_authority,
        &deposit_stake_authority.pool_mint,
        &spl_token_program_id(),
        true,
    );
    Some(
        ClaimPlan { receipt_address, owner_token_account, fee_wallet_token_account, instruction },
    )
}

} // verus!
