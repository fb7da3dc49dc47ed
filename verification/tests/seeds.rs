use stake_amm::identity::Identity;
use stake_amm::seeds::{
    found_binds, mint_liquidity_address, mint_liquidity_seed_list, pool_address,
    pool_authority_address, pool_authority_seed_list, pool_seed_list, reward_vault_address,
    reward_vault_seed_list, stake_info_address, stake_info_seed_list, with_bump, ProgramAddress,
    AUTHORITY_SEED, MINT_LIQUIDITY_SEED, REWARD_VAULT_SEED, STAKE_INFO_SEED,
};

fn id(byte: u8) -> Identity {
    Identity::new([byte; 32])
}

#[test]
fn tags_are_their_ascii_text() {
    assert_eq!(&REWARD_VAULT_SEED[..], "reward".as_bytes());
    assert_eq!(&STAKE_INFO_SEED[..], "stake_info".as_bytes());
    assert_eq!(&AUTHORITY_SEED[..], "authority".as_bytes());
    assert_eq!(&MINT_LIQUIDITY_SEED[..], "mint_liquidity".as_bytes());
}

#[test]
fn seed_lists_are_byte_exact() {
    assert_eq!(reward_vault_seed_list(&id(2)), vec!["reward".as_bytes().to_vec(), vec![2u8; 32]]);
    assert_eq!(
        stake_info_seed_list(&id(1), &id(2)),
        vec!["stake_info".as_bytes().to_vec(), vec![1u8; 32], vec![2u8; 32]]
    );
    assert_eq!(
        pool_seed_list(&id(3), &id(4), &id(5)),
        vec![vec![3u8; 32], vec![4u8; 32], vec![5u8; 32]]
    );
    assert_eq!(
        pool_authority_seed_list(&id(3), &id(4), &id(5)),
        vec![vec![3u8; 32], vec![4u8; 32], vec![5u8; 32], "authority".as_bytes().to_vec()]
    );
    assert_eq!(
        mint_liquidity_seed_list(&id(3), &id(4), &id(5)),
        vec![vec![3u8; 32], vec![4u8; 32], vec![5u8; 32], "mint_liquidity".as_bytes().to_vec()]
    );
}

#[test]
fn the_bump_goes_last() {
    let signed = with_bump(reward_vault_seed_list(&id(2)), 254);
    assert_eq!(signed, vec!["reward".as_bytes().to_vec(), vec![2u8; 32], vec![254u8]]);
}

#[test]
fn identity_bytes_come_out_in_order() {
    let mut bytes = [0u8; 32];
    for i in 0..32 {
        bytes[i] = i as u8;
    }
    let identity = Identity::new(bytes);
    assert_eq!(identity.to_vec(), bytes.to_vec());
    assert_eq!(identity.bytes, bytes);
}

#[test]
fn identities_differ_by_any_byte() {
    let a = id(9);
    let mut bytes = [9u8; 32];
    assert!(a == Identity::new(bytes));
    bytes[31] = 8;
    assert!(a != Identity::new(bytes));
    bytes[31] = 9;
    bytes[0] = 10;
    assert!(a != Identity::new(bytes));
    assert!(Identity::zero() == Identity::new([0u8; 32]));
}

#[test]
fn reward_vault_address_is_the_derived_one() {
    let found = reward_vault_address(&id(2), &id(7)).unwrap();
    assert_eq!(found.bump, 254);
    assert_eq!(
        found.address.bytes,
        [
            84, 26, 62, 234, 136, 142, 142, 70, 114, 100, 253, 217, 186, 156, 207, 43, 109, 96, 30,
            231, 54, 92, 56, 37, 184, 51, 248, 167, 72, 249, 235, 159
        ]
    );
}

#[test]
fn stake_info_address_is_the_derived_one() {
    let found = stake_info_address(&id(1), &id(2), &id(7)).unwrap();
    assert_eq!(found.bump, 253);
    assert_eq!(
        found.address.bytes,
        [
            130, 181, 167, 249, 150, 67, 197, 36, 220, 177, 24, 249, 117, 13, 103, 57, 216, 201,
            106, 239, 31, 103, 243, 107, 50, 151, 52, 248, 50, 150, 15, 150
        ]
    );
}

#[test]
fn pool_addresses_are_the_derived_ones() {
    let pool = pool_address(&id(3), &id(4), &id(5), &id(7)).unwrap();
    assert_eq!(pool.bump, 254);
    assert_eq!(
        pool.address.bytes,
        [
            16, 78, 236, 198, 124, 27, 123, 94, 96, 196, 215, 254, 60, 160, 207, 59, 203, 116, 224,
            131, 105, 56, 209, 70, 175, 188, 33, 64, 89, 5, 39, 230
        ]
    );
    let authority = pool_authority_address(&id(3), &id(4), &id(5), &id(7)).unwrap();
    assert_eq!(authority.bump, 255);
    assert_eq!(
        authority.address.bytes,
        [
            96, 136, 84, 71, 164, 199, 93, 243, 23, 85, 100, 19, 115, 36, 136, 238, 199, 43, 44,
            114, 214, 222, 138, 131, 162, 167, 238, 239, 206, 111, 227, 137
        ]
    );
    let mint = mint_liquidity_address(&id(3), &id(4), &id(5), &id(7)).unwrap();
    assert_eq!(mint.bump, 252);
    assert_eq!(
        mint.address.bytes,
        [
            18, 28, 3, 250, 166, 139, 56, 208, 118, 86, 108, 197, 57, 6, 70, 126, 24, 87, 93, 137,
            166, 224, 34, 161, 245, 103, 133, 87, 102, 210, 101, 204
        ]
    );
}

#[test]
fn derivation_is_a_function_of_its_seeds() {
    let once = reward_vault_address(&id(2), &id(7)).unwrap();
    let again = reward_vault_address(&id(2), &id(7)).unwrap();
    assert!(once.address == again.address);
    assert_eq!(once.bump, again.bump);
    let other_mint = reward_vault_address(&id(3), &id(7)).unwrap();
    assert!(once.address != other_mint.address);
    let other_program = reward_vault_address(&id(2), &id(8)).unwrap();
    assert!(once.address != other_program.address);
    let mut nearly = [2u8; 32];
    nearly[17] = 3;
    let one_byte_off = reward_vault_address(&Identity::new(nearly), &id(7)).unwrap();
    assert!(once.address != one_byte_off.address);
}

#[test]
fn a_derivation_binds_only_its_own_address() {
    let found = Some(ProgramAddress { address: id(4), bump: 255 });
    assert!(found_binds(&found, &id(4)));
    assert!(!found_binds(&found, &id(5)));
    assert!(!found_binds(&None, &id(4)));
}
