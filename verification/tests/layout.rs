use anchor_lang::prelude::Pubkey;
use anchor_lang::solana_program::hash::hash;
use anchor_lang::AnchorSerialize;
use stake_amm::identity::Identity;
use stake_amm::layout::{
    pool_from_bytes, pool_to_bytes, record_from_bytes, record_to_bytes, stake_info_from_bytes,
    stake_info_to_bytes, Record, POOL_DISCRIMINATOR, POOL_LEN, STAKE_INFO_DISCRIMINATOR,
    STAKE_INFO_LEN,
};
use stake_amm::state::{Pool, StakeInfo};

fn who(byte: u8) -> Identity {
    Identity::new([byte; 32])
}

fn sample() -> StakeInfo {
    StakeInfo {
        staker: who(1),
        mint: who(2),
        stake_at: 0x0102_0304_0506_0708,
        is_staked: true,
        amount: 600,
    }
}

fn sample_bytes() -> Vec<u8> {
    let mut bytes = vec![66u8, 62, 68, 70, 108, 179, 183, 235];
    bytes.extend_from_slice(&[1u8; 32]);
    bytes.extend_from_slice(&[2u8; 32]);
    bytes.extend_from_slice(&[8, 7, 6, 5, 4, 3, 2, 1]);
    bytes.push(1);
    bytes.extend_from_slice(&[0x58, 0x02, 0, 0, 0, 0, 0, 0]);
    bytes
}

#[test]
fn discriminators_are_digests_of_the_record_names() {
    assert_eq!(&hash("account:StakeInfo".as_bytes()).to_bytes()[..8], &STAKE_INFO_DISCRIMINATOR[..]);
    assert_eq!(&hash("account:Pool".as_bytes()).to_bytes()[..8], &POOL_DISCRIMINATOR[..]);
}

#[test]
fn a_stake_record_is_written_field_by_field() {
    let bytes = stake_info_to_bytes(&sample());
    assert_eq!(bytes.len(), STAKE_INFO_LEN);
    assert_eq!(bytes.len(), 8 + 32 + 32 + 8 + 1 + 8);
    assert_eq!(bytes, sample_bytes());
}

#[test]
fn a_stake_record_reads_back() {
    assert_eq!(stake_info_from_bytes(&sample_bytes()), Some(sample()));
    let records = [
        StakeInfo::empty(),
        StakeInfo { staker: who(255), mint: who(0), stake_at: u64::MAX, is_staked: false, amount: u64::MAX },
        StakeInfo { staker: who(9), mint: who(8), stake_at: 1, is_staked: true, amount: 1 << 63 },
    ];
    for record in records {
        assert_eq!(stake_info_from_bytes(&stake_info_to_bytes(&record)), Some(record));
    }
}

#[test]
fn a_stake_record_of_the_wrong_shape_is_not_read() {
    let good = sample_bytes();
    assert_eq!(stake_info_from_bytes(&good[..88]), None);
    let mut longer = good.clone();
    longer.push(0);
    assert_eq!(stake_info_from_bytes(&longer), None);
    assert_eq!(stake_info_from_bytes(&[]), None);
    for i in 0..8 {
        let mut other_kind = good.clone();
        other_kind[i] ^= 1;
        assert_eq!(stake_info_from_bytes(&other_kind), None);
    }
    let mut flag = good.clone();
    flag[80] = 2;
    assert_eq!(stake_info_from_bytes(&flag), None);
    flag[80] = 0;
    let mut unstaked = sample();
    unstaked.is_staked = false;
    assert_eq!(stake_info_from_bytes(&flag), Some(unstaked));
}

#[test]
fn a_pool_record_is_three_identities_behind_its_discriminator() {
    let pool = Pool { amm: who(3), mint_a: who(4), mint_b: who(5) };
    let bytes = pool_to_bytes(&pool);
    assert_eq!(bytes.len(), POOL_LEN);
    let mut expected = vec![241u8, 154, 109, 4, 17, 177, 109, 188];
    expected.extend_from_slice(&[3u8; 32]);
    expected.extend_from_slice(&[4u8; 32]);
    expected.extend_from_slice(&[5u8; 32]);
    assert_eq!(bytes, expected);
    assert_eq!(pool_from_bytes(&bytes), Some(pool));
}

#[test]
fn a_pool_record_of_the_wrong_shape_is_not_read() {
    let bytes = pool_to_bytes(&Pool { amm: who(3), mint_a: who(4), mint_b: who(5) });
    assert_eq!(pool_from_bytes(&bytes[..103]), None);
    let mut other_kind = bytes.clone();
    other_kind[7] = 0;
    assert_eq!(pool_from_bytes(&other_kind), None);
    assert_eq!(pool_from_bytes(&stake_info_to_bytes(&sample())), None);
    assert_eq!(stake_info_from_bytes(&bytes), None);
}

#[test]
fn the_fields_are_written_as_borsh_writes_them() {
    let info = sample();
    let mut expected = STAKE_INFO_DISCRIMINATOR.to_vec();
    Pubkey::new_from_array(info.staker.bytes).serialize(&mut expected).unwrap();
    Pubkey::new_from_array(info.mint.bytes).serialize(&mut expected).unwrap();
    info.stake_at.serialize(&mut expected).unwrap();
    info.is_staked.serialize(&mut expected).unwrap();
    info.amount.serialize(&mut expected).unwrap();
    assert_eq!(stake_info_to_bytes(&info), expected);
}

#[test]
fn records_are_told_apart_by_their_discriminator() {
    let info = Record::StakeInfo(sample());
    let pool = Record::Pool(Pool { amm: who(3), mint_a: who(4), mint_b: who(5) });
    assert_eq!(record_to_bytes(&info), sample_bytes());
    assert_eq!(record_from_bytes(&record_to_bytes(&info)), Some(info));
    assert_eq!(record_from_bytes(&record_to_bytes(&pool)), Some(pool));
    let mut neither = record_to_bytes(&pool);
    neither[..8].copy_from_slice(&STAKE_INFO_DISCRIMINATOR);
    assert_eq!(record_from_bytes(&neither), None);
    assert_eq!(record_from_bytes(&[0u8; 89]), None);
    assert_eq!(record_from_bytes(&[]), None);
}
