//! Byte-exact account layout of the two record kinds.
//!
//! Account data is laid out as: one discriminator byte, seven zero bytes of
//! header padding, the record fields in order with all integers
//! little-endian, and 256 reserved zero bytes for forward compatibility.
//!
//! Authority record offsets (data length 501):
//! `0` discriminator (`1`), `8` base, `40` stake_pool, `72` pool_mint,
//! `104` authority, `136` vault, `168` stake_pool_program_id,
//! `200` cool_down_seconds (u64), `208` initial_fee_bps (u32),
//! `212` fee_wallet, `244` bump_seed, `245..501` reserved.
//!
//! Receipt record offsets (data length 421):
//! `0` discriminator (`2`), `8` base, `40` owner, `72` stake_pool,
//! `104` stake_pool_deposit_stake_authority, `136` deposit_time (u64),
//! `144` lst_amount (u64), `152` cool_down_seconds (u64),
//! `160` initial_fee_bps (u32), `164` bump_seed, `165..421` reserved.

use vstd::prelude::*;

use crate::pubkey::Pubkey;
use crate::state::{
    DepositReceipt, DepositReceiptView, StakePoolDepositStakeAuthority,
    StakePoolDepositStakeAuthorityView,
};

verus! {

/// Length of an authority account's data.
pub const STAKE_POOL_DEPOSIT_STAKE_AUTHORITY_LEN: usize = 501;

/// Length of a receipt account's data.
pub const DEPOSIT_RECEIPT_LEN: usize = 421;

/// A run of zero bytes.
pub open spec fn zero_bytes(n: nat) -> Seq<u8> {
    Seq::new(n, |i: int| 0u8)
}

/// The four little-endian bytes of a 32-bit integer.
pub open spec fn le_u32_bytes(v: u32) -> Seq<u8> {
    seq![
        (v & 0xff) as u8,
        ((v >> 8) & 0xff) as u8,
        ((v >> 16) & 0xff) as u8,
        ((v >> 24) & 0xff) as u8,
    ]
}

/// The eight little-endian bytes of a 64-bit integer.
pub open spec fn le_u64_bytes(v: u64) -> Seq<u8> {
    seq![
        (v & 0xff) as u8,
        ((v >> 8) & 0xff) as u8,
        ((v >> 16) & 0xff) as u8,
        ((v >> 24) & 0xff) as u8,
        ((v >> 32) & 0xff) as u8,
        ((v >> 40) & 0xff) as u8,
        ((v >> 48) & 0xff) as u8,
        ((v >> 56) & 0xff) as u8,
    ]
}

/// The 32-bit integer read from four little-endian bytes.
pub open spec fn u32_from_le(s: Seq<u8>) -> u32
    recommends
        s.len() == 4,
{
    (s[0] as u32) | ((s[1] as u32) << 8) | ((s[2] as u32) << 16) | ((s[3] as u32) << 24)
}

/// The 64-bit integer read from eight little-endian bytes.
pub open spec fn u64_from_le(s: Seq<u8>) -> u64
    recommends
        s.len() == 8,
{
    (s[0] as u64) | ((s[1] as u64) << 8) | ((s[2] as u64) << 16) | ((s[3] as u64) << 24) | (
    (s[4] as u64) << 32) | ((s[5] as u64) << 40) | ((s[6] as u64) << 48) | ((s[7] as u64) << 56)
}

/// Reading back the written bytes of a 32-bit integer yields the integer.
pub proof fn lemma_u32_le_roundtrip(v: u32)
    ensures
        u32_from_le(le_u32_bytes(v)) == v,
{
    assert(((v & 0xff) as u8 as u32) | ((((v >> 8) & 0xff) as u8 as u32) << 8) | ((((v >> 16)
        & 0xff) as u8 as u32) << 16) | ((((v >> 24) & 0xff) as u8 as u32) << 24) == v)
        by (bit_vector);
}

/// Reading back the written bytes of a 64-bit integer yields the integer.
pub proof fn lemma_u64_le_roundtrip(v: u64)
    ensures
        u64_from_le(le_u64_bytes(v)) == v,
{
    assert(((v & 0xff) as u8 as u64) | ((((v >> 8) & 0xff) as u8 as u64) << 8) | ((((v >> 16)
        & 0xff) as u8 as u64) << 16) | ((((v >> 24) & 0xff) as u8 as u64) << 24) | ((((v >> 32)
        & 0xff) as u8 as u64) << 32) | ((((v >> 40) & 0xff) as u8 as u64) << 40) | ((((v >> 48)
        & 0xff) as u8 as u64) << 48) | ((((v >> 56) & 0xff) as u8 as u64) << 56) == v)
        by (bit_vector);
}

/// Append the little-endian bytes of a 32-bit integer.
pub fn push_u32_le(out: &mut Vec<u8>, v: u32)
    ensures
        final(out)@ == old(out)@ + le_u32_bytes(v),
{
    out.push((v & 0xff) as u8);
    out.push(((v >> 8) & 0xff) as u8);
    out.push(((v >> 16) & 0xff) as u8);
    out.push(((v >> 24) & 0xff) as u8);
    proof {
        assert(out@ =~= old(out)@ + le_u32_bytes(v));
    }
}

/// Append the little-endian bytes of a 64-bit integer.
pub fn push_u64_le(out: &mut Vec<u8>, v: u64)
    ensures
        final(out)@ == old(out)@ + le_u64_bytes(v),
{
    out.push((v & 0xff) as u8);
    out.push(((v >> 8) & 0xff) as u8);
    out.push(((v >> 16) & 0xff) as u8);
    out.push(((v >> 24) & 0xff) as u8);
    out.push(((v >> 32) & 0xff) as u8);
    out.push(((v >> 40) & 0xff) as u8);
    out.push(((v >> 48) & 0xff) as u8);
    out.push(((v >> 56) & 0xff) as u8);
    proof {
        assert(out@ =~= old(out)@ + le_u64_bytes(v));
    }
}

/// Append `n` zero bytes.
pub fn push_zero_bytes(out: &mut Vec<u8>, n: usize)
    ensures
        final(out)@ == old(out)@ + zero_bytes(n as nat),
{
    let mut i: usize = 0;
    while i < n
        invariant
            0 <= i <= n,
            out@ == old(out)@ + zero_bytes(i as nat),
        decreases n - i,
    {
        out.push(0);
        proof {
            assert(out@ =~= old(out)@ + zero_bytes((i + 1) as nat));
        }
        i = i + 1;
    }
}

/// Read a 32-bit little-endian integer at `offset`.
pub fn read_u32_le(data: &[u8], offset: usize) -> (r: u32)
    requires
        offset + 4 <= data@.len(),
    ensures
        r == u32_from_le(data@.subrange(offset as int, offset + 4)),
{
    let b0 = data[offset];
    let b1 = data[offset + 1];
    let b2 = data[offset + 2];
    let b3 = data[offset + 3];
    (b0 as u32) | ((b1 as u32) << 8) | ((b2 as u32) << 16) | ((b3 as u32) << 24)
}

/// Read a 64-bit little-endian integer at `offset`.
pub fn read_u64_le(data: &[u8], offset: usize) -> (r: u64)
    requires
        offset + 8 <= data@.len(),
    ensures
        r == u64_from_le(data@.subrange(offset as int, offset + 8)),
{
    let b0 = data[offset];
    let b1 = data[offset + 1];
    let b2 = data[offset + 2];
    let b3 = data[offset + 3];
    let b4 = data[offset + 4];
    let b5 = data[offset + 5];
    let b6 = data[offset + 6];
    let b7 = data[offset + 7];
    (b0 as u64) | ((b1 as u64) << 8) | ((b2 as u64) << 16) | ((b3 as u64) << 24) | ((b4
        as u64) << 32) | ((b5 as u64) << 40) | ((b6 as u64) << 48) | ((b7 as u64) << 56)
}

/// Read 32 bytes at `offset` as an address.
pub fn read_pubkey(data: &[u8], offset: usize) -> (r: Pubkey)
    requires
        offset + 32 <= data@.len(),
    ensures
        r@ == data@.subrange(offset as int, offset + 32),
{
    let len: usize = data.len();
    let mut bytes = [0u8; 32];
    let mut i: usize = 0;
    while i < 32
        invariant
            0 <= i <= 32,
            offset + 32 <= len,
            len == data@.len(),
            forall|j: int| 0 <= j < i ==> bytes@[j] == data@[offset + j],
        decreases 32 - i,
    {
        bytes[i] = data[offset + i];
        i = i + 1;
    }
    let r = Pubkey::new(bytes);
    proof {
        assert(r@ =~= data@.subrange(offset as int, offset + 32));
    }
    r
}

/// The full account data of an authority record.
pub open spec fn authority_record_bytes(a: StakePoolDepositStakeAuthorityView) -> Seq<u8> {
    seq![1u8] + zero_bytes(7) + a.base + a.stake_pool + a.pool_mint + a.authority + a.vault
        + a.stake_pool_program_id + le_u64_bytes(a.cool_down_seconds) + le_u32_bytes(
        a.initial_fee_bps,
    ) + a.fee_wallet + seq![a.bump_seed] + zero_bytes(256)
}

/// The full account data of a receipt record.
pub open spec fn receipt_record_bytes(r: DepositReceiptView) -> Seq<u8> {
    seq![2u8] + zero_bytes(7) + r.base + r.owner + r.stake_pool
        + r.stake_pool_deposit_stake_authority + le_u64_bytes(r.deposit_time) + le_u64_bytes(
        r.lst_amount,
    ) + le_u64_bytes(r.cool_down_seconds) + le_u32_bytes(r.initial_fee_bps) + seq![r.bump_seed]
        + zero_bytes(256)
}

impl StakePoolDepositStakeAuthority {
    /// Serialize the record into fresh account data.
    pub fn pack(&self) -> (out: Vec<u8>)
        ensures
            out@ == authority_record_bytes(self@),
            out@.len() == STAKE_POOL_DEPOSIT_STAKE_AUTHORITY_LEN,
    {
        let mut out: Vec<u8> = Vec::new();
        out.push(1);
        push_zero_bytes(&mut out, 7);
        self.base.append_to(&mut out);
        self.stake_pool.append_to(&mut out);
        self.pool_mint.append_to(&mut out);
        self.authority.append_to(&mut out);
        self.vault.append_to(&mut out);
        self.stake_pool_program_id.append_to(&mut out);
        push_u64_le(&mut out, self.cool_down_seconds);
        push_u32_le(&mut out, self.initial_fee_bps);
        self.fee_wallet.append_to(&mut out);
        out.push(self.bump_seed);
        push_zero_bytes(&mut out, 256);
        proof {
            assert(out@ =~= authority_record_bytes(self@));
        }
        out
    }

    /// Deserialize an authority record from account data. Returns the record
    /// exactly when the data has the record's length and discriminator;
    /// header padding and reserved bytes are ignored, as the layout reserves
    /// them for forward compatibility.
    pub fn unpack(data: &[u8]) -> (r: Option<StakePoolDepositStakeAuthority>)
        ensures
            r is Some <==> data@.len() == STAKE_POOL_DEPOSIT_STAKE_AUTHORITY_LEN && data@[0]
                == 1u8,
            r matches Some(a) ==> a@ == decoded_authority_record(data@),
    {
        if data.len() != STAKE_POOL_DEPOSIT_STAKE_AUTHORITY_LEN {
            return None;
        }
        if data[0] != 1 {
            return None;
        }
        let a = StakePoolDepositStakeAuthority {
            base: read_pubkey(data, 8),
            stake_pool: read_pubkey(data, 40),
            pool_mint: read_pubkey(data, 72),
            authority: read_pubkey(data, 104),
            vault: read_pubkey(data, 136),
            stake_pool_program_id: read_pubkey(data, 168),
            cool_down_seconds: read_u64_le(data, 200),
            initial_fee_bps: read_u32_le(data, 208),
            fee_wallet: read_pubkey(data, 212),
            bump_seed: data[244],
        };
        Some(a)
    }
}

/// The authority record read back from account data of the right length.
pub open spec fn decoded_authority_record(data: Seq<u8>) -> StakePoolDepositStakeAuthorityView
    recommends
        data.len() == STAKE_POOL_DEPOSIT_STAKE_AUTHORITY_LEN,
{
    StakePoolDepositStakeAuthorityView {
        base: data.subrange(8, 40),
        stake_pool: data.subrange(40, 72),
        pool_mint: data.subrange(72, 104),
        authority: data.subrange(104, 136),
        vault: data.subrange(136, 168),
        stake_pool_program_id: data.subrange(168, 200),
        cool_down_seconds: u64_from_le(data.subrange(200, 208)),
        initial_fee_bps: u32_from_le(data.subrange(208, 212)),
        fee_wallet: data.subrange(212, 244),
        bump_seed: data[244],
    }
}

impl DepositReceipt {
    /// Serialize the record into fresh account data.
    pub fn pack(&self) -> (out: Vec<u8>)
        ensures
            out@ == receipt_record_bytes(self@),
            out@.len() == DEPOSIT_RECEIPT_LEN,
    {
        let mut out: Vec<u8> = Vec::new();
        out.push(2);
        push_zero_bytes(&mut out, 7);
        self.base.append_to(&mut out);
        self.owner.append_to(&mut out);
        self.stake_pool.append_to(&mut out);
        self.stake_pool_deposit_stake_authority.append_to(&mut out);
        push_u64_le(&mut out, self.deposit_time);
        push_u64_le(&mut out, self.lst_amount);
        push_u64_le(&mut out, self.cool_down_seconds);
        push_u32_le(&mut out, self.initial_fee_bps);
        out.push(self.bump_seed);
        push_zero_bytes(&mut out, 256);
        proof {
            assert(out@ =~= receipt_record_bytes(self@));
        }
        out
    }

    /// Deserialize a receipt record from account data. Returns the record
    /// exactly when the data has the record's length and discriminator.
    pub fn unpack(data: &[u8]) -> (r: Option<DepositReceipt>)
        ensures
            r is Some <==> data@.len() == DEPOSIT_RECEIPT_LEN && data@[0] == 2u8,
            r matches Some(rec) ==> rec@ == decoded_receipt_record(data@),
    {
        if data.len() != DEPOSIT_RECEIPT_LEN {
            return None;
        }
        if data[0] != 2 {
            return None;
        }
        let rec = DepositReceipt {
            base: read_pubkey(data, 8),
            owner: read_pubkey(data, 40),
            stake_pool: read_pubkey(data, 72),
            stake_pool_deposit_stake_authority: read_pubkey(data, 104),
            deposit_time: read_u64_le(data, 136),
            lst_amount: read_u64_le(data, 144),
            cool_down_seconds: read_u64_le(data, 152),
            initial_fee_bps: read_u32_le(data, 160),
            bump_seed: data[164],
        };
        Some(rec)
    }
}

/// The receipt record read back from account data of the right length.
pub open spec fn decoded_receipt_record(data: Seq<u8>) -> DepositReceiptView
    recommends
        data.len() == DEPOSIT_RECEIPT_LEN,
{
    DepositReceiptView {
        base: data.subrange(8, 40),
        owner: data.subrange(40, 72),
        stake_pool: data.subrange(72, 104),
        stake_pool_deposit_stake_authority: data.subrange(104, 136),
        deposit_time: u64_from_le(data.subrange(136, 144)),
        lst_amount: u64_from_le(data.subrange(144, 152)),
        cool_down_seconds: u64_from_le(data.subrange(152, 160)),
        initial_fee_bps: u32_from_le(data.subrange(160, 164)),
        bump_seed: data[164],
    }
}

/// Law: the layout loses nothing. Decoding the encoded bytes of an authority
/// record yields a record whose every field equals the original's.
pub proof fn lemma_authority_record_roundtrip(a: StakePoolDepositStakeAuthorityView)
    requires
        a.base.len() == 32,
        a.stake_pool.len() == 32,
        a.pool_mint.len() == 32,
        a.authority.len() == 32,
        a.vault.len() == 32,
        a.stake_pool_program_id.len() == 32,
        a.fee_wallet.len() == 32,
    ensures
        authority_record_bytes(a).len() == STAKE_POOL_DEPOSIT_STAKE_AUTHORITY_LEN,
        authority_record_bytes(a)[0] == 1u8,
        decoded_authority_record(authority_record_bytes(a)) == a,
{
    let bytes = authority_record_bytes(a);
    assert(bytes.subrange(8, 40) =~= a.base);
    assert(bytes.subrange(40, 72) =~= a.stake_pool);
    assert(bytes.subrange(72, 104) =~= a.pool_mint);
    assert(bytes.subrange(104, 136) =~= a.authority);
    assert(bytes.subrange(136, 168) =~= a.vault);
    assert(bytes.subrange(168, 200) =~= a.stake_pool_program_id);
    assert(bytes.subrange(200, 208) =~= le_u64_bytes(a.cool_down_seconds));
    assert(bytes.subrange(208, 212) =~= le_u32_bytes(a.initial_fee_bps));
    assert(bytes.subrange(212, 244) =~= a.fee_wallet);
    lemma_u64_le_roundtrip(a.cool_down_seconds);
    lemma_u32_le_roundtrip(a.initial_fee_bps);
}

/// Law: the layout loses nothing. Decoding the encoded bytes of a receipt
/// record yields a record whose every field equals the original's.
pub proof fn lemma_receipt_record_roundtrip(r: DepositReceiptView)
    requires
        r.base.len() == 32,
        r.owner.len() == 32,
        r.stake_pool.len() == 32,
        r.stake_pool_deposit_stake_authority.len() == 32,
    ensures
        receipt_record_bytes(r).len() == DEPOSIT_RECEIPT_LEN,
        receipt_record_bytes(r)[0] == 2u8,
        decoded_receipt_record(receipt_record_bytes(r)) == r,
{
    let bytes = receipt_record_bytes(r);
    assert(bytes.subrange(8, 40) =~= r.base);
    assert(bytes.subrange(40, 72) =~= r.owner);
    assert(bytes.subrange(72, 104) =~= r.stake_pool);
    assert(bytes.subrange(104, 136) =~= r.stake_pool_deposit_stake_authority);
    assert(bytes.subrange(136, 144) =~= le_u64_bytes(r.deposit_time));
    assert(bytes.subrange(144, 152) =~= le_u64_bytes(r.lst_amount));
    assert(bytes.subrange(152, 160) =~= le_u64_bytes(r.cool_down_seconds));
    assert(bytes.subrange(160, 164) =~= le_u32_bytes(r.initial_fee_bps));
    lemma_u64_le_roundtrip(r.deposit_time);
    lemma_u64_le_roundtrip(r.lst_amount);
    lemma_u64_le_roundtrip(r.cool_down_seconds);
    lemma_u32_le_roundtrip(r.initial_fee_bps);
}

} // verus!
