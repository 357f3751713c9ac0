//! The two account records of the interceptor program and the
//! time-decaying exit-fee calculation.

use vstd::arithmetic::div_mod::{
    lemma_div_is_ordered, lemma_div_pos_is_pos, lemma_fundamental_div_mod,
};
use vstd::arithmetic::mul::{lemma_mul_inequality, lemma_mul_nonnegative};
use vstd::prelude::*;

use crate::pubkey::{zero_pubkey_bytes, Pubkey};

verus! {

/// Denominator for fee basis points; also the largest fee rate (100%) that
/// an authority may configure.
pub const FEE_BPS_DENOMINATOR: u32 = 10_000;

/// The discriminator byte stored as the first byte of each account kind.
#[derive(Clone, Copy, Debug, PartialEq, Eq, Structural)]
pub enum StakeDepositInterceptorDiscriminators {
    DepositStakeAuthority,
    DepositReceipt,
}

impl StakeDepositInterceptorDiscriminators {
    /// The byte value written into account data.
    pub fn value(&self) -> (r: u8)
        ensures
            r == self.spec_value(),
    {
        match self {
            StakeDepositInterceptorDiscriminators::DepositStakeAuthority => 1,
            StakeDepositInterceptorDiscriminators::DepositReceipt => 2,
        }
    }

    /// The byte value, for contracts.
    pub open spec fn spec_value(&self) -> u8 {
        match self {
            StakeDepositInterceptorDiscriminators::DepositStakeAuthority => 1u8,
            StakeDepositInterceptorDiscriminators::DepositReceipt => 2u8,
        }
    }
}

/// Parameters of one interceptor authority: the program-derived address that
/// acts as a stake pool's deposit-stake authority and custodies minted pool
/// tokens until they are claimed.
#[derive(Clone, Copy, Debug)]
pub struct StakePoolDepositStakeAuthority {
    /// The random seed used in this account's own address derivation.
    pub base: Pubkey,
    /// Corresponding stake pool where this PDA is the deposit-stake authority.
    pub stake_pool: Pubkey,
    /// Mint of the pool token of the stake pool.
    pub pool_mint: Pubkey,
    /// Address with control over the fee parameters below.
    pub authority: Pubkey,
    /// Token account that temporarily holds pool tokens minted on deposit.
    pub vault: Pubkey,
    /// Program id of the wrapped stake pool program.
    pub stake_pool_program_id: Pubkey,
    /// The duration after a deposit in which a depositor owes fees.
    pub cool_down_seconds: u64,
    /// The fee rate in basis points at the moment of a deposit.
    pub initial_fee_bps: u32,
    /// Owner of the token account that receives fees.
    pub fee_wallet: Pubkey,
    /// Bump seed of this account's own address derivation.
    pub bump_seed: u8,
}

/// The mathematical content of an authority record.
pub ghost struct StakePoolDepositStakeAuthorityView {
    pub base: Seq<u8>,
    pub stake_pool: Seq<u8>,
    pub pool_mint: Seq<u8>,
    pub authority: Seq<u8>,
    pub vault: Seq<u8>,
    pub stake_pool_program_id: Seq<u8>,
    pub cool_down_seconds: u64,
    pub initial_fee_bps: u32,
    pub fee_wallet: Seq<u8>,
    pub bump_seed: u8,
}

impl View for StakePoolDepositStakeAuthority {
    type V = StakePoolDepositStakeAuthorityView;

    open spec fn view(&self) -> StakePoolDepositStakeAuthorityView {
        StakePoolDepositStakeAuthorityView {
            base: self.base@,
            stake_pool: self.stake_pool@,
            pool_mint: self.pool_mint@,
            authority: self.authority@,
            vault: self.vault@,
            stake_pool_program_id: self.stake_pool_program_id@,
            cool_down_seconds: self.cool_down_seconds,
            initial_fee_bps: self.initial_fee_bps,
            fee_wallet: self.fee_wallet@,
            bump_seed: self.bump_seed,
        }
    }
}

impl StakePoolDepositStakeAuthority {
    /// Whether the record has been initialized: an all-zero authority key
    /// only occurs in untouched account data.
    pub fn is_initialized(&self) -> (r: bool)
        ensures
            r == (self@.authority != zero_pubkey_bytes()),
    {
        !(self.authority == Pubkey::default())
    }
}

impl PartialEq for StakePoolDepositStakeAuthority {
    fn eq(&self, other: &StakePoolDepositStakeAuthority) -> (r: bool) {
        self.base == other.base && self.stake_pool == other.stake_pool && self.pool_mint
            == other.pool_mint && self.authority == other.authority && self.vault == other.vault
            && self.stake_pool_program_id == other.stake_pool_program_id
            && self.cool_down_seconds == other.cool_down_seconds && self.initial_fee_bps
            == other.initial_fee_bps && self.fee_wallet == other.fee_wallet && self.bump_seed
            == other.bump_seed
    }
}

impl vstd::std_specs::cmp::PartialEqSpecImpl for StakePoolDepositStakeAuthority {
    open spec fn obeys_eq_spec() -> bool {
        true
    }

    open spec fn eq_spec(&self, other: &StakePoolDepositStakeAuthority) -> bool {
        self@ == other@
    }
}

/// Fee parameters an authority may hold.
pub open spec fn authority_params_wf(cool_down_seconds: u64, initial_fee_bps: u32) -> bool {
    &&& initial_fee_bps <= FEE_BPS_DENOMINATOR
    &&& cool_down_seconds >= 1
}

/// One deposit: the pool tokens minted, frozen fee parameters, and the owner
/// allowed to claim.
#[derive(Clone, Copy, Debug)]
pub struct DepositReceipt {
    /// The random seed used in this account's own address derivation.
    pub base: Pubkey,
    /// Owner of the receipt, who must sign to claim during the cool-down.
    pub owner: Pubkey,
    /// Stake pool the deposit went into.
    pub stake_pool: Pubkey,
    /// The interceptor authority the deposit went through.
    pub stake_pool_deposit_stake_authority: Pubkey,
    /// Unix time of the deposit.
    pub deposit_time: u64,
    /// Exact amount of pool tokens minted by the deposit.
    pub lst_amount: u64,
    /// Snapshot of the authority's cool-down at deposit time.
    pub cool_down_seconds: u64,
    /// Snapshot of the authority's fee rate at deposit time.
    pub initial_fee_bps: u32,
    /// Bump seed of this account's own address derivation.
    pub bump_seed: u8,
}

/// The mathematical content of a receipt record.
pub ghost struct DepositReceiptView {
    pub base: Seq<u8>,
    pub owner: Seq<u8>,
    pub stake_pool: Seq<u8>,
    pub stake_pool_deposit_stake_authority: Seq<u8>,
    pub deposit_time: u64,
    pub lst_amount: u64,
    pub cool_down_seconds: u64,
    pub initial_fee_bps: u32,
    pub bump_seed: u8,
}

impl View for DepositReceipt {
    type V = DepositReceiptView;

    open spec fn view(&self) -> DepositReceiptView {
        DepositReceiptView {
            base: self.base@,
            owner: self.owner@,
            stake_pool: self.stake_pool@,
            stake_pool_deposit_stake_authority: self.stake_pool_deposit_stake_authority@,
            deposit_time: self.deposit_time,
            lst_amount: self.lst_amount,
            cool_down_seconds: self.cool_down_seconds,
            initial_fee_bps: self.initial_fee_bps,
            bump_seed: self.bump_seed,
        }
    }
}

impl PartialEq for DepositReceipt {
    fn eq(&self, other: &DepositReceipt) -> (r: bool) {
        self.base == other.base && self.owner == other.owner && self.stake_pool
            == other.stake_pool && self.stake_pool_deposit_stake_authority
            == other.stake_pool_deposit_stake_authority && self.deposit_time == other.deposit_time
            && self.lst_amount == other.lst_amount && self.cool_down_seconds
            == other.cool_down_seconds && self.initial_fee_bps == other.initial_fee_bps
            && self.bump_seed == other.bump_seed
    }
}

impl vstd::std_specs::cmp::PartialEqSpecImpl for DepositReceipt {
    open spec fn obeys_eq_spec() -> bool {
        true
    }

    open spec fn eq_spec(&self, other: &DepositReceipt) -> bool {
        self@ == other@
    }
}

/// What every receipt written by this program satisfies: the fee snapshot
/// respects the authority invariants, and the cool-down end time fits in
/// 64 bits.
pub open spec fn deposit_receipt_wf(r: DepositReceiptView) -> bool {
    &&& authority_params_wf(r.cool_down_seconds, r.initial_fee_bps)
    &&& r.deposit_time + r.cool_down_seconds <= u64::MAX
}

/// The magnitude of a unix timestamp, as the fee calculation reads it.
pub open spec fn abs_timestamp(t: i64) -> int {
    if t >= 0 {
        t as int
    } else {
        -(t as int)
    }
}

/// Division rounding up, for a non-negative dividend and positive divisor.
pub open spec fn ceil_div(a: int, d: int) -> int
    recommends
        a >= 0,
        d >= 1,
{
    a / d + if a % d == 0 {
        0int
    } else {
        1int
    }
}

/// The unix time at which a receipt's cool-down ends.
pub open spec fn cool_down_end(r: DepositReceiptView) -> int {
    r.deposit_time + r.cool_down_seconds
}

/// Seconds of cool-down left at time `t` (zero once the cool-down elapsed).
pub open spec fn fee_time_left(r: DepositReceiptView, t: int) -> int {
    if cool_down_end(r) > t {
        cool_down_end(r) - t
    } else {
        0
    }
}

/// The fee owed at time `t` under the given frozen parameters: zero after
/// the cool-down; otherwise the linear interpolation
/// `initial_fee_bps * time_left / cool_down_seconds` of the fee rate,
/// applied to the minted amount, with the basis-point division rounded up so
/// the protocol never under-charges by truncation.
pub open spec fn fee_with_params(
    initial_fee_bps: u32,
    cool_down_seconds: u64,
    deposit_time: u64,
    lst_amount: u64,
    t: int,
) -> int {
    let end = deposit_time + cool_down_seconds;
    let left: int = if end > t {
        end - t
    } else {
        0
    };
    if left == 0 {
        0
    } else {
        ceil_div(
            (initial_fee_bps * left * lst_amount) / (cool_down_seconds as int),
            FEE_BPS_DENOMINATOR as int,
        )
    }
}

/// The fee a receipt owes at time `t`: a function of the receipt's own
/// frozen snapshot alone.
pub open spec fn fee_amount(r: DepositReceiptView, t: int) -> int {
    fee_with_params(r.initial_fee_bps, r.cool_down_seconds, r.deposit_time, r.lst_amount, t)
}

impl DepositReceipt {
    /// Given the current timestamp, the amount of pool tokens owed to the
    /// fee wallet's token account if the receipt is claimed now.
    ///
    /// The preconditions exclude exactly the inputs on which the arithmetic
    /// leaves the machine range: receipts written by this program always
    /// satisfy the first two, and the remaining bounds hold whenever the
    /// claim happens at or after the deposit time.
    pub fn calculate_fee_amount(&self, current_timestamp: i64) -> (fee: u64)
        requires
            self@.cool_down_seconds >= 1,
            self@.deposit_time + self@.cool_down_seconds <= u64::MAX,
            self@.initial_fee_bps * fee_time_left(self@, abs_timestamp(current_timestamp))
                * self@.lst_amount <= u128::MAX,
            fee_amount(self@, abs_timestamp(current_timestamp)) <= u64::MAX,
        ensures
            fee == fee_amount(self@, abs_timestamp(current_timestamp)),
    {
        let cool_down_seconds = self.cool_down_seconds;
        let end_cool_down_time = self.deposit_time + cool_down_seconds;
        let ts = unsigned_abs_i64(current_timestamp);
        let cool_down_time_left = if end_cool_down_time > ts {
            end_cool_down_time - ts
        } else {
            0
        };
        if cool_down_time_left == 0 {
            return 0;
        }
        proof {
            vstd::arithmetic::mul::lemma_mul_upper_bound(
                self.initial_fee_bps as int,
                u32::MAX as int,
                cool_down_time_left as int,
                u64::MAX as int,
            );
        }
        let p = (self.initial_fee_bps as u128) * (cool_down_time_left as u128);
        proof {
            lemma_mul_nonnegative(self.initial_fee_bps as int, cool_down_time_left as int);
            if self.lst_amount >= 1 {
                lemma_mul_inequality(
                    1,
                    self.lst_amount as int,
                    self.initial_fee_bps as int * cool_down_time_left as int,
                );
            }
        }
        let p = p * (self.lst_amount as u128);
        let q = p / (cool_down_seconds as u128);
        let d = FEE_BPS_DENOMINATOR as u128;
        let fee_wide = q / d + if q % d != 0 {
            1u128
        } else {
            0u128
        };
        proof {
            lemma_div_pos_is_pos(p as int, cool_down_seconds as int);
            lemma_div_pos_is_pos(q as int, d as int);
        }
        fee_wide as u64
    }
}

/// Whether the fee arithmetic stays inside the machine range at time `t`.
/// Receipts written by this program keep it true for every time at or after
/// the deposit; on other inputs the fee fails closed.
pub open spec fn fee_arith_ok(r: DepositReceiptView, t: int) -> bool {
    &&& r.deposit_time + r.cool_down_seconds <= u64::MAX
    &&& (fee_time_left(r, t) == 0 || {
        &&& r.cool_down_seconds >= 1
        &&& r.initial_fee_bps * fee_time_left(r, t) * r.lst_amount <= u128::MAX
        &&& fee_amount(r, t) <= u64::MAX
    })
}

impl DepositReceipt {
    /// The fee owed at the given timestamp, or nothing exactly where the
    /// computation would leave the machine range (it fails closed rather
    /// than under- or over-charge).
    pub fn calculate_fee_amount_checked(&self, current_timestamp: i64) -> (r: Option<u64>)
        ensures
            r is Some <==> fee_arith_ok(self@, abs_timestamp(current_timestamp)),
            r matches Some(f) ==> f == fee_amount(self@, abs_timestamp(current_timestamp)),
    {
        let ts = unsigned_abs_i64(current_timestamp);
        if self.deposit_time > u64::MAX - self.cool_down_seconds {
            return None;
        }
        let end_cool_down_time = self.deposit_time + self.cool_down_seconds;
        let cool_down_time_left = if end_cool_down_time > ts {
            end_cool_down_time - ts
        } else {
            0
        };
        if cool_down_time_left == 0 {
            return Some(0);
        }
        if self.cool_down_seconds == 0 {
            return None;
        }
        proof {
            vstd::arithmetic::mul::lemma_mul_upper_bound(
                self.initial_fee_bps as int,
                u32::MAX as int,
                cool_down_time_left as int,
                u64::MAX as int,
            );
            lemma_mul_nonnegative(self.initial_fee_bps as int, cool_down_time_left as int);
        }
        let p1 = (self.initial_fee_bps as u128) * (cool_down_time_left as u128);
        let amount = self.lst_amount as u128;
        if amount != 0 && p1 > u128::MAX / amount {
            proof {
                lemma_product_exceeds_max(p1 as int, amount as int, u128::MAX as int);
            }
            return None;
        }
        proof {
            if amount != 0 {
                lemma_product_within_max(p1 as int, amount as int, u128::MAX as int);
            }
        }
        let p = p1 * amount;
        let q = p / (self.cool_down_seconds as u128);
        let d = FEE_BPS_DENOMINATOR as u128;
        let fee_wide = q / d + if q % d != 0 {
            1u128
        } else {
            0u128
        };
        proof {
            lemma_div_pos_is_pos(p as int, self.cool_down_seconds as int);
            lemma_div_pos_is_pos(q as int, d as int);
        }
        if fee_wide > u64::MAX as u128 {
            return None;
        }
        Some(fee_wide as u64)
    }
}

/// A factor at most `max` divided by the other factor keeps the product
/// within `max`.
proof fn lemma_product_within_max(a: int, b: int, max: int)
    requires
        0 <= a,
        1 <= b,
        0 <= max,
        a <= max / b,
    ensures
        a * b <= max,
{
    lemma_fundamental_div_mod(max, b);
    vstd::arithmetic::div_mod::lemma_mod_bound(max, b);
    lemma_mul_inequality(a, max / b, b);
    assert((max / b) * b <= max) by (nonlinear_arith)
        requires
            max == b * (max / b) + max % b,
            max % b >= 0,
    ;
}

/// A factor beyond `max` divided by the other factor pushes the product
/// beyond `max`.
proof fn lemma_product_exceeds_max(a: int, b: int, max: int)
    requires
        1 <= b,
        0 <= max,
        a > max / b,
    ensures
        a * b > max,
{
    lemma_fundamental_div_mod(max, b);
    vstd::arithmetic::div_mod::lemma_mod_bound(max, b);
    lemma_mul_inequality(max / b + 1, a, b);
    assert((max / b + 1) * b > max) by (nonlinear_arith)
        requires
            max == b * (max / b) + max % b,
            max % b < b,
    ;
}

/// The magnitude of a signed 64-bit timestamp.
pub fn unsigned_abs_i64(t: i64) -> (r: u64)
    ensures
        r == abs_timestamp(t),
{
    if t >= 0 {
        t as u64
    } else {
        let wide: i128 = t as i128;
        (-wide) as u64
    }
}

/// Fees never increase over time: for any two instants `t1 <= t2`, the fee
/// owed at `t1` is at least the fee owed at `t2`.
pub proof fn lemma_fee_monotonic(r: DepositReceiptView, t1: int, t2: int)
    requires
        r.cool_down_seconds >= 1,
        t1 <= t2,
    ensures
        fee_amount(r, t1) >= fee_amount(r, t2),
{
    let left1 = fee_time_left(r, t1);
    let left2 = fee_time_left(r, t2);
    let bps = r.initial_fee_bps as int;
    let amt = r.lst_amount as int;
    let cool = r.cool_down_seconds as int;
    let dnm = FEE_BPS_DENOMINATOR as int;
    if left2 == 0 {
        lemma_fee_nonnegative(r, t1);
    } else {
        lemma_mul_inequality(left2, left1, bps);
        lemma_mul_inequality(bps * left2, bps * left1, amt);
        vstd::arithmetic::mul::lemma_mul_is_commutative(bps * left2, amt);
        vstd::arithmetic::mul::lemma_mul_is_commutative(bps * left1, amt);
        lemma_mul_nonnegative(bps, left2);
        lemma_mul_nonnegative(bps * left2, amt);
        lemma_div_is_ordered(bps * left2 * amt, bps * left1 * amt, cool);
        lemma_div_pos_is_pos(bps * left2 * amt, cool);
        lemma_ceil_div_is_ordered((bps * left2 * amt) / cool, (bps * left1 * amt) / cool, dnm);
    }
}

/// The fee is never negative.
pub proof fn lemma_fee_nonnegative(r: DepositReceiptView, t: int)
    requires
        r.cool_down_seconds >= 1,
    ensures
        fee_amount(r, t) >= 0,
{
    let left = fee_time_left(r, t);
    if left != 0 {
        let bps = r.initial_fee_bps as int;
        let amt = r.lst_amount as int;
        let cool = r.cool_down_seconds as int;
        lemma_mul_nonnegative(bps, left);
        lemma_mul_nonnegative(bps * left, amt);
        lemma_div_pos_is_pos(bps * left * amt, cool);
        lemma_div_pos_is_pos((bps * left * amt) / cool, FEE_BPS_DENOMINATOR as int);
    }
}

/// Rounding up is monotone: a larger dividend never gives a smaller result.
pub proof fn lemma_ceil_div_is_ordered(a1: int, a2: int, d: int)
    requires
        0 <= a1 <= a2,
        d >= 1,
    ensures
        ceil_div(a1, d) <= ceil_div(a2, d),
{
    lemma_fundamental_div_mod(a1, d);
    lemma_fundamental_div_mod(a2, d);
    lemma_div_is_ordered(a1, a2, d);
    vstd::arithmetic::div_mod::lemma_mod_bound(a1, d);
    vstd::arithmetic::div_mod::lemma_mod_bound(a2, d);
    if a1 / d == a2 / d && a1 % d != 0 && a2 % d == 0 {
        assert(a2 == d * (a2 / d));
        assert(a1 > d * (a1 / d));
        assert(false);
    }
}

/// At the moment of deposit the whole initial fee is owed: the basis-point
/// rate applied to the minted amount, rounded up.
pub proof fn lemma_fee_at_deposit_time(r: DepositReceiptView)
    requires
        r.cool_down_seconds >= 1,
    ensures
        fee_amount(r, r.deposit_time as int) == ceil_div(
            r.initial_fee_bps * r.lst_amount,
            FEE_BPS_DENOMINATOR as int,
        ),
{
    let bps = r.initial_fee_bps as int;
    let amt = r.lst_amount as int;
    let cool = r.cool_down_seconds as int;
    assert(fee_time_left(r, r.deposit_time as int) == cool);
    assert(bps * cool * amt == (bps * amt) * cool) by (nonlinear_arith);
    lemma_mul_nonnegative(bps, amt);
    vstd::arithmetic::div_mod::lemma_div_by_multiple(bps * amt, cool);
}

/// From the end of the cool-down on, no fee is owed.
pub proof fn lemma_fee_after_cool_down(r: DepositReceiptView, t: int)
    requires
        t >= cool_down_end(r),
    ensures
        fee_amount(r, t) == 0,
{
}

/// Within the cool-down the fee never exceeds the deposited amount, provided
/// the snapshot respects the authority invariant `initial_fee_bps <= 10_000`.
pub proof fn lemma_fee_le_amount(r: DepositReceiptView, t: int)
    requires
        r.cool_down_seconds >= 1,
        r.initial_fee_bps <= FEE_BPS_DENOMINATOR,
        t >= r.deposit_time,
    ensures
        fee_amount(r, t) <= r.lst_amount,
{
    let left = fee_time_left(r, t);
    let bps = r.initial_fee_bps as int;
    let amt = r.lst_amount as int;
    let cool = r.cool_down_seconds as int;
    let dnm = FEE_BPS_DENOMINATOR as int;
    if left != 0 {
        assert(left <= cool);
        assert(bps * left * amt <= (dnm * amt) * cool) by (nonlinear_arith)
            requires
                0 <= bps <= dnm,
                0 < left <= cool,
                0 <= amt,
        ;
        lemma_mul_nonnegative(bps, left);
        lemma_mul_nonnegative(bps * left, amt);
        lemma_div_is_ordered(bps * left * amt, dnm * amt * cool, cool);
        assert(dnm * amt * cool == (dnm * amt) * cool) by (nonlinear_arith);
        vstd::arithmetic::div_mod::lemma_div_by_multiple(dnm * amt, cool);
        let q = (bps * left * amt) / cool;
        assert(q <= dnm * amt);
        lemma_div_pos_is_pos(bps * left * amt, cool);
        lemma_ceil_div_is_ordered(q, dnm * amt, dnm);
        assert(ceil_div(dnm * amt, dnm) == amt) by {
            vstd::arithmetic::div_mod::lemma_mod_multiples_basic(amt, dnm);
            vstd::arithmetic::div_mod::lemma_div_by_multiple(amt, dnm);
            vstd::arithmetic::mul::lemma_mul_is_commutative(dnm, amt);
        }
    }
}

} // verus!
