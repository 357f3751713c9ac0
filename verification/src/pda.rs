//! Program-derived addresses: the seed schemas of the two account kinds and
//! the derivation functions, built on the runtime's canonical iterative
//! seed-hashing with bump search.

use vstd::prelude::*;

use crate::pubkey::Pubkey;
use crate::state::{DepositReceipt, StakePoolDepositStakeAuthority};

verus! {

/// The seed tag of every interceptor authority address:
/// the bytes of `deposit_stake_authority`.
pub open spec fn stake_pool_deposit_stake_authority_tag() -> Seq<u8> {
    seq![
        100u8, 101, 112, 111, 115, 105, 116, 95, 115, 116, 97, 107, 101, 95, 97, 117, 116, 104,
        111, 114, 105, 116, 121,
    ]
}

/// The seed tag of every deposit receipt address: the bytes of `deposit_receipt`.
pub open spec fn deposit_receipt_tag() -> Seq<u8> {
    seq![100u8, 101, 112, 111, 115, 105, 116, 95, 114, 101, 99, 101, 105, 112, 116]
}

/// The authority seed tag, as a byte vector.
pub fn stake_pool_deposit_stake_authority_seed() -> (r: Vec<u8>)
    ensures
        r@ == stake_pool_deposit_stake_authority_tag(),
{
    let tag: [u8; 23] = [
        100, 101, 112, 111, 115, 105, 116, 95, 115, 116, 97, 107, 101, 95, 97, 117, 116, 104, 111,
        114, 105, 116, 121,
    ];
    let r = vstd::slice::slice_to_vec(tag.as_slice());
    proof {
        assert(r@ =~= stake_pool_deposit_stake_authority_tag());
    }
    r
}

/// The receipt seed tag, as a byte vector.
pub fn deposit_receipt_seed() -> (r: Vec<u8>)
    ensures
        r@ == deposit_receipt_tag(),
{
    let tag: [u8; 15] = [100, 101, 112, 111, 115, 105, 116, 95, 114, 101, 99, 101, 105, 112, 116];
    let r = vstd::slice::slice_to_vec(tag.as_slice());
    proof {
        assert(r@ =~= deposit_receipt_tag());
    }
    r
}

/// What the runtime's bump-searching derivation returns for a seed list and
/// program id: an address and the bump seed it was found under, or nothing in
/// the statistically improbable event that no bump works. The outcome is a
/// pure function of the seeds and the program id.
pub uninterp spec fn find_pda(seeds: Seq<Seq<u8>>, program_id: Seq<u8>) -> Option<(Seq<u8>, u8)>;

/// What the runtime's single-shot derivation returns for a seed list (bump
/// included) and program id; a pure function of its inputs.
pub uninterp spec fn created_pda(seeds: Seq<Seq<u8>>, program_id: Seq<u8>) -> Option<Seq<u8>>;

/// Relies on Pubkey::try_find_program_address: the result is a pure function
/// of the seeds and the program id, and the address it finds re-derives
/// through Pubkey::create_program_address once the returned bump seed is
/// appended to the seed list.
#[verifier::external_body]
fn solana_find_program_address(seeds: &Vec<Vec<u8>>, program_id: &Pubkey) -> (r: Option<
    (Pubkey, u8),
>)
    ensures
        match r {
            Some(p) => find_pda(seeds.deep_view(), program_id@) == Some((p.0@, p.1))
                && created_pda(seeds.deep_view().push(seq![p.1]), program_id@) == Some(p.0@),
            None => find_pda(seeds.deep_view(), program_id@) is None,
        },
{
    let pid = solana_program::pubkey::Pubkey::from(program_id.to_bytes());
    let seed_slices: Vec<&[u8]> = seeds.iter().map(|s| s.as_slice()).collect();
    solana_program::pubkey::Pubkey::try_find_program_address(&seed_slices, &pid)
        .map(|(address, bump)| (Pubkey::new(address.to_bytes()), bump))
}

/// Relies on Pubkey::create_program_address: the result is a pure function of
/// the seeds and the program id; an error (seeds too long, too many seeds, or
/// a derived point on the curve) depends on the same inputs alone.
#[verifier::external_body]
fn solana_create_program_address(seeds: &Vec<Vec<u8>>, program_id: &Pubkey) -> (r: Option<Pubkey>)
    ensures
        match r {
            Some(p) => created_pda(seeds.deep_view(), program_id@) == Some(p@),
            None => created_pda(seeds.deep_view(), program_id@) is None,
        },
{
    let pid = solana_program::pubkey::Pubkey::from(program_id.to_bytes());
    let seed_slices: Vec<&[u8]> = seeds.iter().map(|s| s.as_slice()).collect();
    solana_program::pubkey::Pubkey::create_program_address(&seed_slices, &pid)
        .ok()
        .map(|address| Pubkey::new(address.to_bytes()))
}

/// The seed list of an interceptor authority address.
pub open spec fn authority_seeds(stake_pool: Seq<u8>, base: Seq<u8>) -> Seq<Seq<u8>> {
    seq![stake_pool_deposit_stake_authority_tag(), stake_pool, base]
}

/// The seed list of a deposit receipt address.
pub open spec fn receipt_seeds(stake_pool: Seq<u8>, base: Seq<u8>) -> Seq<Seq<u8>> {
    seq![deposit_receipt_tag(), stake_pool, base]
}

/// Derive the interceptor authority address for a program, pool and base.
pub fn derive_stake_pool_deposit_stake_authority(
    program_id: &Pubkey,
    stake_pool: &Pubkey,
    base: &Pubkey,
) -> (r: Option<(Pubkey, u8)>)
    ensures
        ({
            let d = find_pda(authority_seeds(stake_pool@, base@), program_id@);
            match r {
                Some(p) => d == Some((p.0@, p.1)) && created_pda(
                    authority_seeds(stake_pool@, base@).push(seq![p.1]),
                    program_id@,
                ) == Some(p.0@),
                None => d is None,
            }
        }),
{
    let mut seeds: Vec<Vec<u8>> = Vec::new();
    seeds.push(stake_pool_deposit_stake_authority_seed());
    seeds.push(stake_pool.to_vec());
    seeds.push(base.to_vec());
    proof {
        assert(seeds.deep_view() =~~= authority_seeds(stake_pool@, base@));
    }
    solana_find_program_address(&seeds, program_id)
}

/// Derive the deposit receipt address for a program, pool and base. The
/// owner is deliberately no seed: ownership of a receipt may change after
/// creation, and the address must stay re-derivable.
pub fn derive_stake_deposit_receipt(program_id: &Pubkey, stake_pool: &Pubkey, base: &Pubkey) -> (r:
    Option<(Pubkey, u8)>)
    ensures
        ({
            let d = find_pda(receipt_seeds(stake_pool@, base@), program_id@);
            match r {
                Some(p) => d == Some((p.0@, p.1)) && created_pda(
                    receipt_seeds(stake_pool@, base@).push(seq![p.1]),
                    program_id@,
                ) == Some(p.0@),
                None => d is None,
            }
        }),
{
    let mut seeds: Vec<Vec<u8>> = Vec::new();
    seeds.push(deposit_receipt_seed());
    seeds.push(stake_pool.to_vec());
    seeds.push(base.to_vec());
    proof {
        assert(seeds.deep_view() =~~= receipt_seeds(stake_pool@, base@));
    }
    solana_find_program_address(&seeds, program_id)
}

/// The seeds under which an authority record's own address re-derives and
/// signs: its seed list plus its stored bump.
pub fn stake_pool_deposit_stake_authority_signer_seeds(
    authority: &StakePoolDepositStakeAuthority,
) -> (r: Vec<Vec<u8>>)
    ensures
        r.deep_view() == authority_seeds(authority.stake_pool@, authority.base@).push(
            seq![authority.bump_seed],
        ),
{
    let mut seeds: Vec<Vec<u8>> = Vec::new();
    seeds.push(stake_pool_deposit_stake_authority_seed());
    seeds.push(authority.stake_pool.to_vec());
    seeds.push(authority.base.to_vec());
    let mut bump: Vec<u8> = Vec::new();
    bump.push(authority.bump_seed);
    seeds.push(bump);
    proof {
        assert(seeds.deep_view() =~~= authority_seeds(authority.stake_pool@, authority.base@).push(
            seq![authority.bump_seed],
        ));
    }
    seeds
}

/// The seeds under which a receipt's own address re-derives: its seed list
/// plus its stored bump.
pub fn deposit_receipt_signer_seeds(receipt: &DepositReceipt) -> (r: Vec<Vec<u8>>)
    ensures
        r.deep_view() == receipt_seeds(receipt.stake_pool@, receipt.base@).push(
            seq![receipt.bump_seed],
        ),
{
    let mut seeds: Vec<Vec<u8>> = Vec::new();
    seeds.push(deposit_receipt_seed());
    seeds.push(receipt.stake_pool.to_vec());
    seeds.push(receipt.base.to_vec());
    let mut bump: Vec<u8> = Vec::new();
    bump.push(receipt.bump_seed);
    seeds.push(bump);
    proof {
        assert(seeds.deep_view() =~~= receipt_seeds(receipt.stake_pool@, receipt.base@).push(
            seq![receipt.bump_seed],
        ));
    }
    seeds
}

/// Re-derive a stored authority record's address from its own seeds and bump.
pub fn recreate_authority_address(program_id: &Pubkey, authority: &StakePoolDepositStakeAuthority)
    -> (r: Option<Pubkey>)
    ensures
        ({
            let d = created_pda(
                authority_seeds(authority.stake_pool@, authority.base@).push(
                    seq![authority.bump_seed],
                ),
                program_id@,
            );
            match r {
                Some(p) => d == Some(p@),
                None => d is None,
            }
        }),
{
    let seeds = stake_pool_deposit_stake_authority_signer_seeds(authority);
    solana_create_program_address(&seeds, program_id)
}

/// Re-derive a stored receipt's address from its own seeds and bump.
pub fn recreate_receipt_address(program_id: &Pubkey, receipt: &DepositReceipt) -> (r: Option<
    Pubkey,
>)
    ensures
        ({
            let d = created_pda(
                receipt_seeds(receipt.stake_pool@, receipt.base@).push(seq![receipt.bump_seed]),
                program_id@,
            );
            match r {
                Some(p) => d == Some(p@),
                None => d is None,
            }
        }),
{
    let seeds = deposit_receipt_signer_seeds(receipt);
    solana_create_program_address(&seeds, program_id)
}

/// Law: address derivation is deterministic. Both derivation outcomes are
/// pure functions of the (program, pool, base) triple, so deriving the same
/// triple twice yields an identical (address, bump) outcome.
pub proof fn lemma_pda_determinism(program_id: Seq<u8>, stake_pool: Seq<u8>, base: Seq<u8>)
    ensures
        find_pda(authority_seeds(stake_pool, base), program_id) == find_pda(
            authority_seeds(stake_pool, base),
            program_id,
        ),
        find_pda(receipt_seeds(stake_pool, base), program_id) == find_pda(
            receipt_seeds(stake_pool, base),
            program_id,
        ),
{
}

} // verus!
