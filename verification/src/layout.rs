//! The persisted form of the two records: fixed-width, little-endian, behind
//! an eight-byte discriminator that tells the kind of record.

use vstd::prelude::*;
use vstd::bytes::{
    lemma_auto_spec_u64_to_from_le_bytes, spec_u64_from_le_bytes, spec_u64_to_le_bytes,
    u64_from_le_bytes, u64_to_le_bytes,
};
use vstd::slice::slice_subrange;
use crate::identity::Identity;
use crate::state::{Pool, StakeInfo};

verus! {

/// Discriminator of a stake record: the first eight bytes of the SHA-256
/// digest of `account:StakeInfo`.
pub const STAKE_INFO_DISCRIMINATOR: [u8; 8] = [66, 62, 68, 70, 108, 179, 183, 235];

/// Discriminator of a pool record: the first eight bytes of the SHA-256
/// digest of `account:Pool`.
pub const POOL_DISCRIMINATOR: [u8; 8] = [241, 154, 109, 4, 17, 177, 109, 188];

/// Bytes of a persisted stake record.
pub const STAKE_INFO_LEN: usize = 89;

/// Bytes of a persisted pool record.
pub const POOL_LEN: usize = 104;

/// The byte that stands for a boolean.
pub open spec fn bool_byte(flag: bool) -> u8 {
    if flag {
        1
    } else {
        0
    }
}

/// The persisted form of a stake record: discriminator, staker, mint, slot,
/// flag, amount.
pub open spec fn stake_info_layout(info: StakeInfo) -> Seq<u8> {
    STAKE_INFO_DISCRIMINATOR@ + info.staker@ + info.mint@ + spec_u64_to_le_bytes(info.stake_at)
        + seq![bool_byte(info.is_staked)] + spec_u64_to_le_bytes(info.amount)
}

/// The persisted form of a pool record: discriminator, market maker, first
/// mint, second mint.
pub open spec fn pool_layout(pool: Pool) -> Seq<u8> {
    POOL_DISCRIMINATOR@ + pool.amm@ + pool.mint_a@ + pool.mint_b@
}

fn put(out: &mut Vec<u8>, bytes: &[u8])
    ensures
        final(out)@ == old(out)@ + bytes@,
{
    let mut i: usize = 0;
    while i < bytes.len()
        invariant
            i <= bytes@.len(),
            out@ == old(out)@ + bytes@.subrange(0, i as int),
        decreases bytes@.len() - i,
    {
        out.push(bytes[i]);
        i += 1;
        assert(out@ =~= old(out)@ + bytes@.subrange(0, i as int));
    }
    assert(bytes@.subrange(0, bytes@.len() as int) =~= bytes@);
}

fn identity_at(data: &[u8], start: usize) -> (id: Identity)
    requires
        start + 32 <= data@.len(),
    ensures
        id@ == data@.subrange(start as int, start + 32),
{
    let len = data.len();
    let mut bytes = [0u8; 32];
    let mut i: usize = 0;
    while i < 32
        invariant
            i <= 32,
            len == data@.len(),
            start + 32 <= len,
            forall|k: int| 0 <= k < i ==> bytes[k] == data[start + k],
        decreases 32 - i,
    {
        bytes[i] = data[start + i];
        i += 1;
    }
    let id = Identity { bytes };
    assert(id@ =~= data@.subrange(start as int, start + 32));
    id
}

fn starts_with(data: &[u8], tag: &[u8; 8]) -> (same: bool)
    requires
        data@.len() >= 8,
    ensures
        same == (data@.subrange(0, 8) == tag@),
{
    let mut i: usize = 0;
    while i < 8
        invariant
            i <= 8,
            data@.len() >= 8,
            forall|k: int| 0 <= k < i ==> data[k] == tag[k],
        decreases 8 - i,
    {
        if data[i] != tag[i] {
            assert(data@.subrange(0, 8)[i as int] != tag@[i as int]);
            return false;
        }
        i += 1;
    }
    assert(data@.subrange(0, 8) =~= tag@);
    true
}

/// Writes a stake record in its persisted form.
pub fn stake_info_to_bytes(info: &StakeInfo) -> (out: Vec<u8>)
    ensures
        out@ == stake_info_layout(*info),
        out@.len() == STAKE_INFO_LEN,
{
    let mut out: Vec<u8> = Vec::new();
    put(&mut out, &STAKE_INFO_DISCRIMINATOR);
    put(&mut out, &info.staker.bytes);
    put(&mut out, &info.mint.bytes);
    let slot = u64_to_le_bytes(info.stake_at);
    put(&mut out, slot.as_slice());
    out.push(if info.is_staked { 1 } else { 0 });
    let amount = u64_to_le_bytes(info.amount);
    put(&mut out, amount.as_slice());
    assert(out@ =~= stake_info_layout(*info));
    out
}

/// Reads a stake record from its persisted form: the record whose persisted
/// form the bytes are, and `None` where they are that of no stake record.
pub fn stake_info_from_bytes(data: &[u8]) -> (read: Option<StakeInfo>)
    ensures
        read matches Some(info) ==> data@ == stake_info_layout(info),
        forall|info: StakeInfo|
            #![trigger stake_info_layout(info)]
            read == Some(info) <==> data@ == stake_info_layout(info),
{
    proof {
        lemma_auto_spec_u64_to_from_le_bytes();
    }
    if data.len() != STAKE_INFO_LEN {
        assert forall|info: StakeInfo| data@ != stake_info_layout(info) by {
            assert(stake_info_layout(info).len() == 89);
        }
        return None;
    }
    if !starts_with(data, &STAKE_INFO_DISCRIMINATOR) {
        assert forall|info: StakeInfo| data@ != stake_info_layout(info) by {
            assert(stake_info_layout(info).subrange(0, 8) =~= STAKE_INFO_DISCRIMINATOR@);
        }
        return None;
    }
    let flag = data[80];
    if flag > 1 {
        assert forall|info: StakeInfo| data@ != stake_info_layout(info) by {
            assert(stake_info_layout(info)[80] == bool_byte(info.is_staked));
        }
        return None;
    }
    let info = StakeInfo {
        staker: identity_at(data, 8),
        mint: identity_at(data, 40),
        stake_at: u64_from_le_bytes(slice_subrange(data, 72, 80)),
        is_staked: flag == 1,
        amount: u64_from_le_bytes(slice_subrange(data, 81, 89)),
    };
    assert(data@ =~= stake_info_layout(info));
    assert forall|other: StakeInfo| data@ == stake_info_layout(other) implies other == info by {
        lemma_stake_info_layout_injective(other, info);
    }
    Some(info)
}

/// Writes a pool record in its persisted form.
pub fn pool_to_bytes(pool: &Pool) -> (out: Vec<u8>)
    ensures
        out@ == pool_layout(*pool),
        out@.len() == POOL_LEN,
{
    let mut out: Vec<u8> = Vec::new();
    put(&mut out, &POOL_DISCRIMINATOR);
    put(&mut out, &pool.amm.bytes);
    put(&mut out, &pool.mint_a.bytes);
    put(&mut out, &pool.mint_b.bytes);
    assert(out@ =~= pool_layout(*pool));
    out
}

/// Reads a pool record from its persisted form: the record whose persisted
/// form the bytes are, and `None` where they are that of no pool record.
pub fn pool_from_bytes(data: &[u8]) -> (read: Option<Pool>)
    ensures
        read matches Some(pool) ==> data@ == pool_layout(pool),
        forall|pool: Pool|
            #![trigger pool_layout(pool)]
            read == Some(pool) <==> data@ == pool_layout(pool),
{
    if data.len() != POOL_LEN {
        assert forall|pool: Pool| data@ != pool_layout(pool) by {
            assert(pool_layout(pool).len() == 104);
        }
        return None;
    }
    if !starts_with(data, &POOL_DISCRIMINATOR) {
        assert forall|pool: Pool| data@ != pool_layout(pool) by {
            assert(pool_layout(pool).subrange(0, 8) =~= POOL_DISCRIMINATOR@);
        }
        return None;
    }
    let pool = Pool {
        amm: identity_at(data, 8),
        mint_a: identity_at(data, 40),
        mint_b: identity_at(data, 72),
    };
    assert(data@ =~= pool_layout(pool));
    assert forall|other: Pool| data@ == pool_layout(other) implies other == pool by {
        lemma_pool_layout_injective(other, pool);
    }
    Some(pool)
}

/// A record of either kind, told apart by its discriminator.
#[derive(Clone, Copy, Debug, PartialEq, Eq)]
pub enum Record {
    StakeInfo(StakeInfo),
    Pool(Pool),
}

/// The persisted form of a record of either kind.
pub open spec fn record_layout(record: Record) -> Seq<u8> {
    match record {
        Record::StakeInfo(info) => stake_info_layout(info),
        Record::Pool(pool) => pool_layout(pool),
    }
}

/// Writes a record of either kind in its persisted form.
pub fn record_to_bytes(record: &Record) -> (out: Vec<u8>)
    ensures
        out@ == record_layout(*record),
{
    match record {
        Record::StakeInfo(info) => stake_info_to_bytes(info),
        Record::Pool(pool) => pool_to_bytes(pool),
    }
}

/// Reads a record of either kind from its persisted form: the record whose
/// persisted form the bytes are, and `None` where they are that of no
/// record.
pub fn record_from_bytes(data: &[u8]) -> (read: Option<Record>)
    ensures
        read matches Some(record) ==> data@ == record_layout(record),
        forall|record: Record|
            #![trigger record_layout(record)]
            read == Some(record) <==> data@ == record_layout(record),
{
    proof {
        lemma_auto_spec_u64_to_from_le_bytes();
    }
    match stake_info_from_bytes(data) {
        Some(info) => {
            assert forall|pool: Pool| data@ != pool_layout(pool) by {
                assert(stake_info_layout(info).len() == 89);
                assert(pool_layout(pool).len() == 104);
            }
            Some(Record::StakeInfo(info))
        },
        None => match pool_from_bytes(data) {
            Some(pool) => Some(Record::Pool(pool)),
            None => None,
        },
    }
}

/// Two stake records with the same persisted form are the same record.
pub proof fn lemma_stake_info_layout_injective(a: StakeInfo, b: StakeInfo)
    requires
        stake_info_layout(a) == stake_info_layout(b),
    ensures
        a == b,
{
    lemma_auto_spec_u64_to_from_le_bytes();
    let la = stake_info_layout(a);
    let lb = stake_info_layout(b);
    assert(la.subrange(8, 40) =~= a.staker@);
    assert(lb.subrange(8, 40) =~= b.staker@);
    assert(la.subrange(40, 72) =~= a.mint@);
    assert(lb.subrange(40, 72) =~= b.mint@);
    assert(la.subrange(72, 80) =~= spec_u64_to_le_bytes(a.stake_at));
    assert(lb.subrange(72, 80) =~= spec_u64_to_le_bytes(b.stake_at));
    assert(la[80] == bool_byte(a.is_staked));
    assert(lb[80] == bool_byte(b.is_staked));
    assert(la.subrange(81, 89) =~= spec_u64_to_le_bytes(a.amount));
    assert(lb.subrange(81, 89) =~= spec_u64_to_le_bytes(b.amount));
    crate::identity::lemma_identity_by_view(a.staker, b.staker);
    crate::identity::lemma_identity_by_view(a.mint, b.mint);
    assert(spec_u64_from_le_bytes(spec_u64_to_le_bytes(a.stake_at)) == a.stake_at);
    assert(spec_u64_from_le_bytes(spec_u64_to_le_bytes(b.stake_at)) == b.stake_at);
    assert(spec_u64_from_le_bytes(spec_u64_to_le_bytes(a.amount)) == a.amount);
    assert(spec_u64_from_le_bytes(spec_u64_to_le_bytes(b.amount)) == b.amount);
}

/// Two pool records with the same persisted form are the same record.
pub proof fn lemma_pool_layout_injective(a: Pool, b: Pool)
    requires
        pool_layout(a) == pool_layout(b),
    ensures
        a == b,
{
    let la = pool_layout(a);
    let lb = pool_layout(b);
    assert(la.subrange(8, 40) =~= a.amm@);
    assert(lb.subrange(8, 40) =~= b.amm@);
    assert(la.subrange(40, 72) =~= a.mint_a@);
    assert(lb.subrange(40, 72) =~= b.mint_a@);
    assert(la.subrange(72, 104) =~= a.mint_b@);
    assert(lb.subrange(72, 104) =~= b.mint_b@);
    crate::identity::lemma_identity_by_view(a.amm, b.amm);
    crate::identity::lemma_identity_by_view(a.mint_a, b.mint_a);
    crate::identity::lemma_identity_by_view(a.mint_b, b.mint_b);
}

} // verus!
