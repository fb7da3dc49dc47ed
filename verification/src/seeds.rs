//! Seed preimages and the identities derived from them.
//!
//! Every vault and record lives at an identity derived from a fixed list of
//! seeds under the program that owns it. The lists are byte-exact: a tag is
//! its ASCII text, an identity is its 32 bytes, and a bump is one byte.

use vstd::prelude::*;
use crate::identity::Identity;

verus! {

/// Tag of a reward vault: the ASCII text `reward`.
pub const REWARD_VAULT_SEED: [u8; 6] = [114, 101, 119, 97, 114, 100];

/// Tag of a stake record: the ASCII text `stake_info`.
pub const STAKE_INFO_SEED: [u8; 10] = [115, 116, 97, 107, 101, 95, 105, 110, 102, 111];

/// Tag of a pool authority: the ASCII text `authority`.
pub const AUTHORITY_SEED: [u8; 9] = [97, 117, 116, 104, 111, 114, 105, 116, 121];

/// Tag of a liquidity mint: the ASCII text `mint_liquidity`.
pub const MINT_LIQUIDITY_SEED: [u8; 14] = [
    109, 105, 110, 116, 95, 108, 105, 113, 117, 105, 100, 105, 116, 121,
];

/// Seeds of the reward vault of `mint`.
pub open spec fn reward_vault_seeds(mint: Identity) -> Seq<Seq<u8>> {
    seq![REWARD_VAULT_SEED@, mint@]
}

/// Seeds of the stake record of `staker` on `mint`.
pub open spec fn stake_info_seeds(staker: Identity, mint: Identity) -> Seq<Seq<u8>> {
    seq![STAKE_INFO_SEED@, staker@, mint@]
}

/// Seeds of the pool of `amm` over the two mints.
pub open spec fn pool_seeds(amm: Identity, mint_a: Identity, mint_b: Identity) -> Seq<Seq<u8>> {
    seq![amm@, mint_a@, mint_b@]
}

/// Seeds of the authority that controls the reserves of a pool.
pub open spec fn pool_authority_seeds(
    amm: Identity,
    mint_a: Identity,
    mint_b: Identity,
) -> Seq<Seq<u8>> {
    seq![amm@, mint_a@, mint_b@, AUTHORITY_SEED@]
}

/// Seeds of the liquidity mint of a pool.
pub open spec fn mint_liquidity_seeds(
    amm: Identity,
    mint_a: Identity,
    mint_b: Identity,
) -> Seq<Seq<u8>> {
    seq![amm@, mint_a@, mint_b@, MINT_LIQUIDITY_SEED@]
}

/// What a derived authority presents to sign: its seeds followed by its bump.
pub open spec fn signer_seeds(seeds: Seq<Seq<u8>>, bump: u8) -> Seq<Seq<u8>> {
    seeds.push(seq![bump])
}

/// The byte sequences that a list of seeds holds, in order.
pub open spec fn seed_bytes(seeds: Seq<Vec<u8>>) -> Seq<Seq<u8>> {
    Seq::new(seeds.len(), |i: int| seeds[i]@)
}

fn tag_to_vec<const N: usize>(tag: &[u8; N]) -> (out: Vec<u8>)
    ensures
        out@ == tag@,
{
    let mut out: Vec<u8> = Vec::new();
    let mut i: usize = 0;
    while i < N
        invariant
            i <= N,
            out@ == tag@.subrange(0, i as int),
        decreases N - i,
    {
        out.push(tag[i]);
        i += 1;
        assert(out@ =~= tag@.subrange(0, i as int));
    }
    assert(tag@.subrange(0, N as int) =~= tag@);
    out
}

/// Builds the seeds of the reward vault of `mint`.
pub fn reward_vault_seed_list(mint: &Identity) -> (seeds: Vec<Vec<u8>>)
    ensures
        seed_bytes(seeds@) == reward_vault_seeds(*mint),
{
    let mut seeds: Vec<Vec<u8>> = Vec::new();
    seeds.push(tag_to_vec(&REWARD_VAULT_SEED));
    seeds.push(mint.to_vec());
    assert(seed_bytes(seeds@) =~= reward_vault_seeds(*mint));
    seeds
}

/// Builds the seeds of the stake record of `staker` on `mint`.
pub fn stake_info_seed_list(staker: &Identity, mint: &Identity) -> (seeds: Vec<Vec<u8>>)
    ensures
        seed_bytes(seeds@) == stake_info_seeds(*staker, *mint),
{
    let mut seeds: Vec<Vec<u8>> = Vec::new();
    seeds.push(tag_to_vec(&STAKE_INFO_SEED));
    seeds.push(staker.to_vec());
    seeds.push(mint.to_vec());
    assert(seed_bytes(seeds@) =~= stake_info_seeds(*staker, *mint));
    seeds
}

/// Builds the seeds of the pool of `amm` over the two mints.
pub fn pool_seed_list(amm: &Identity, mint_a: &Identity, mint_b: &Identity) -> (seeds: Vec<Vec<u8>>)
    ensures
        seed_bytes(seeds@) == pool_seeds(*amm, *mint_a, *mint_b),
{
    let mut seeds: Vec<Vec<u8>> = Vec::new();
    seeds.push(amm.to_vec());
    seeds.push(mint_a.to_vec());
    seeds.push(mint_b.to_vec());
    assert(seed_bytes(seeds@) =~= pool_seeds(*amm, *mint_a, *mint_b));
    seeds
}

/// Builds the seeds of the authority over the reserves of a pool.
pub fn pool_authority_seed_list(
    amm: &Identity,
    mint_a: &Identity,
    mint_b: &Identity,
) -> (seeds: Vec<Vec<u8>>)
    ensures
        seed_bytes(seeds@) == pool_authority_seeds(*amm, *mint_a, *mint_b),
{
    let mut seeds: Vec<Vec<u8>> = Vec::new();
    seeds.push(amm.to_vec());
    seeds.push(mint_a.to_vec());
    seeds.push(mint_b.to_vec());
    seeds.push(tag_to_vec(&AUTHORITY_SEED));
    assert(seed_bytes(seeds@) =~= pool_authority_seeds(*amm, *mint_a, *mint_b));
    seeds
}

/// Builds the seeds of the liquidity mint of a pool.
pub fn mint_liquidity_seed_list(
    amm: &Identity,
    mint_a: &Identity,
    mint_b: &Identity,
) -> (seeds: Vec<Vec<u8>>)
    ensures
        seed_bytes(seeds@) == mint_liquidity_seeds(*amm, *mint_a, *mint_b),
{
    let mut seeds: Vec<Vec<u8>> = Vec::new();
    seeds.push(amm.to_vec());
    seeds.push(mint_a.to_vec());
    seeds.push(mint_b.to_vec());
    seeds.push(tag_to_vec(&MINT_LIQUIDITY_SEED));
    assert(seed_bytes(seeds@) =~= mint_liquidity_seeds(*amm, *mint_a, *mint_b));
    seeds
}

/// Appends the bump to a list of seeds, which gives the preimage that the
/// derived authority signs with.
pub fn with_bump(seeds: Vec<Vec<u8>>, bump: u8) -> (signed: Vec<Vec<u8>>)
    ensures
        seed_bytes(signed@) == signer_seeds(seed_bytes(seeds@), bump),
{
    let mut signed = seeds;
    let mut last: Vec<u8> = Vec::new();
    last.push(bump);
    assert(last@ =~= seq![bump]);
    signed.push(last);
    assert(seed_bytes(signed@) =~= signer_seeds(seed_bytes(seeds@), bump));
    signed
}

/// The canonical derived identity and bump of `seeds` under the program
/// `program_id`, or `None` where the seeds derive none. It stands for what
/// `Pubkey::try_find_program_address` computes; all that is known of it here
/// is that it depends on these bytes alone.
pub uninterp spec fn derived_address(
    seeds: Seq<Seq<u8>>,
    program_id: Seq<u8>,
) -> Option<(Seq<u8>, u8)>;

/// A derived identity together with the bump that completes its seeds.
#[derive(Clone, Copy, Debug, PartialEq, Eq)]
pub struct ProgramAddress {
    pub address: Identity,
    pub bump: u8,
}

/// Whether `found` is what `seeds` derive under `program`.
pub open spec fn derives_to(
    seeds: Seq<Seq<u8>>,
    program: Identity,
    found: Option<ProgramAddress>,
) -> bool {
    match found {
        Some(pa) => derived_address(seeds, program@) == Some((pa.address@, pa.bump)),
        None => derived_address(seeds, program@) is None,
    }
}

/// Whether `key` is the identity that `seeds` derive under `program`.
pub open spec fn is_derived(key: Identity, seeds: Seq<Seq<u8>>, program: Identity) -> bool {
    match derived_address(seeds, program@) {
        Some((address, _)) => address == key@,
        None => false,
    }
}

/// The bump of the identity that `seeds` derive under `program`; zero where
/// they derive none.
pub open spec fn bump_of(seeds: Seq<Seq<u8>>, program: Identity) -> u8 {
    match derived_address(seeds, program@) {
        Some((_, bump)) => bump,
        None => 0,
    }
}

/// Whether a derivation found exactly `key`.
pub open spec fn binds(found: Option<ProgramAddress>, key: Identity) -> bool {
    match found {
        Some(pa) => pa.address == key,
        None => false,
    }
}

/// The bump that a derivation found; zero where it found none.
pub open spec fn found_bump(found: Option<ProgramAddress>) -> u8 {
    match found {
        Some(pa) => pa.bump,
        None => 0,
    }
}

/// A derivation that matches the seeds binds a key exactly when the key is
/// the derived identity, and carries the derived bump.
pub proof fn lemma_found_is_derived(
    seeds: Seq<Seq<u8>>,
    program: Identity,
    found: Option<ProgramAddress>,
    key: Identity,
)
    requires
        derives_to(seeds, program, found),
    ensures
        binds(found, key) == is_derived(key, seeds, program),
        found_bump(found) == bump_of(seeds, program),
{
    if let Some(pa) = found {
        crate::identity::lemma_identity_by_view(pa.address, key);
    }
}

/// Calls `Pubkey::try_find_program_address` of `anchor_lang` on the seeds and
/// the program identity. Trusted: the identity and bump that come back are
/// the ones that `derived_address` names for these bytes, and nothing comes
/// back exactly where it names none.
#[verifier::external_body]
pub(crate) fn find_program_address(
    seeds: &Vec<Vec<u8>>,
    program_id: &Identity,
) -> (found: Option<ProgramAddress>)
    ensures
        match found {
            Some(pa) => derived_address(seed_bytes(seeds@), program_id@) == Some(
                (pa.address@, pa.bump),
            ),
            None => derived_address(seed_bytes(seeds@), program_id@) is None,
        },
{
    let parts: Vec<&[u8]> = seeds.iter().map(|seed| seed.as_slice()).collect();
    let program = anchor_lang::prelude::Pubkey::new_from_array(program_id.bytes);
    match anchor_lang::prelude::Pubkey::try_find_program_address(&parts, &program) {
        Some((address, bump)) => {
            Some(ProgramAddress { address: Identity { bytes: address.to_bytes() }, bump })
        },
        None => None,
    }
}

/// Whether what a derivation found is the identity `key`.
pub fn found_binds(found: &Option<ProgramAddress>, key: &Identity) -> (bound: bool)
    ensures
        bound == binds(*found, *key),
{
    match found {
        Some(pa) => pa.address == *key,
        None => false,
    }
}

/// Derives the identity and bump of the reward vault of `mint`.
pub fn reward_vault_address(
    mint: &Identity,
    program_id: &Identity,
) -> (found: Option<ProgramAddress>)
    ensures
        derives_to(reward_vault_seeds(*mint), *program_id, found),
{
    let seeds = reward_vault_seed_list(mint);
    find_program_address(&seeds, program_id)
}

/// Derives the identity and bump of the stake record of `staker` on `mint`.
pub fn stake_info_address(
    staker: &Identity,
    mint: &Identity,
    program_id: &Identity,
) -> (found: Option<ProgramAddress>)
    ensures
        derives_to(stake_info_seeds(*staker, *mint), *program_id, found),
{
    let seeds = stake_info_seed_list(staker, mint);
    find_program_address(&seeds, program_id)
}

/// Derives the identity and bump of the pool of `amm` over the two mints.
pub fn pool_address(
    amm: &Identity,
    mint_a: &Identity,
    mint_b: &Identity,
    program_id: &Identity,
) -> (found: Option<ProgramAddress>)
    ensures
        derives_to(pool_seeds(*amm, *mint_a, *mint_b), *program_id, found),
{
    let seeds = pool_seed_list(amm, mint_a, mint_b);
    find_program_address(&seeds, program_id)
}

/// Derives the identity and bump of the authority over a pool's reserves.
pub fn pool_authority_address(
    amm: &Identity,
    mint_a: &Identity,
    mint_b: &Identity,
    program_id: &Identity,
) -> (found: Option<ProgramAddress>)
    ensures
        derives_to(pool_authority_seeds(*amm, *mint_a, *mint_b), *program_id, found),
{
    let seeds = pool_authority_seed_list(amm, mint_a, mint_b);
    find_program_address(&seeds, program_id)
}

/// Derives the identity and bump of the liquidity mint of a pool.
pub fn mint_liquidity_address(
    amm: &Identity,
    mint_a: &Identity,
    mint_b: &Identity,
    program_id: &Identity,
) -> (found: Option<ProgramAddress>)
    ensures
        derives_to(mint_liquidity_seeds(*amm, *mint_a, *mint_b), *program_id, found),
{
    let seeds = mint_liquidity_seed_list(amm, mint_a, mint_b);
    find_program_address(&seeds, program_id)
}

} // verus!
