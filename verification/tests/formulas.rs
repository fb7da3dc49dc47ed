use stake_amm::formulas::{reward, share};
use stake_amm::wide::U256;

#[test]
fn reward_is_one_hundredth_per_slot() {
    assert_eq!(reward(500, 100), Some(500));
    assert_eq!(reward(400, 100), Some(400));
    assert_eq!(reward(200, 1), Some(2));
    assert_eq!(reward(1_000, 7), Some(70));
}

#[test]
fn reward_rounds_down() {
    assert_eq!(reward(199, 1), Some(1));
    assert_eq!(reward(99, 1), Some(0));
    assert_eq!(reward(1, 99), Some(0));
    assert_eq!(reward(3, 33), Some(0));
    assert_eq!(reward(3, 34), Some(1));
}

#[test]
fn reward_of_nothing_is_nothing() {
    assert_eq!(reward(0, 1_000_000), Some(0));
    assert_eq!(reward(1_000_000, 0), Some(0));
}

#[test]
fn reward_stops_where_the_product_leaves_64_bits() {
    assert_eq!(reward(u64::MAX, 1), Some(u64::MAX / 100));
    assert_eq!(reward(u64::MAX, 2), None);
    assert_eq!(reward(1 << 32, 1 << 32), None);
    assert_eq!(reward(1 << 32, (1 << 32) - 1), Some(((1u64 << 32) * ((1u64 << 32) - 1)) / 100));
}

#[test]
fn reward_does_not_shrink_as_amount_or_slots_grow() {
    let amounts = [0u64, 1, 99, 100, 101, 12_345, 1_000_000];
    let slots = [0u64, 1, 50, 99, 100, 101, 4_321];
    for i in 0..amounts.len() {
        for j in 0..slots.len() {
            let here = reward(amounts[i], slots[j]).unwrap();
            if i + 1 < amounts.len() {
                assert!(here <= reward(amounts[i + 1], slots[j]).unwrap());
            }
            if j + 1 < slots.len() {
                assert!(here <= reward(amounts[i], slots[j + 1]).unwrap());
            }
        }
    }
}

#[test]
fn share_is_the_proportional_slice() {
    assert_eq!(share(500_000, 1_000_000, 2_000_000), Some(250_000));
    assert_eq!(share(500_000, 4_000_000, 2_000_000), Some(1_000_000));
    assert_eq!(share(1, 10, 3), Some(3));
    assert_eq!(share(2, 10, 3), Some(6));
    assert_eq!(share(3, 10, 3), Some(10));
}

#[test]
fn share_needs_a_supply() {
    assert_eq!(share(1, 1, 0), None);
    assert_eq!(share(0, 0, 0), None);
}

#[test]
fn share_multiplies_beyond_64_bits() {
    assert_eq!(share(u64::MAX, u64::MAX, u64::MAX), Some(u64::MAX));
    assert_eq!(share(u64::MAX, u64::MAX - 1, u64::MAX), Some(u64::MAX - 1));
    assert_eq!(share(1 << 40, 1 << 40, 1 << 20), Some(1 << 60));
    assert_eq!(share(u64::MAX, 3, 4), Some(13_835_058_055_282_163_711));
}

#[test]
fn share_stops_where_the_slice_leaves_64_bits() {
    assert_eq!(share(u64::MAX, u64::MAX, 1), None);
    assert_eq!(share(u64::MAX, 2, 1), None);
    assert_eq!(share(1 << 40, 1 << 40, 1 << 15), None);
}

#[test]
fn share_never_extracts_more_than_its_proportion() {
    let cases = [
        (1u64, 1u64, 1u64),
        (1, 10, 3),
        (7, 1_000_003, 13),
        (500_000, 1_000_000, 2_000_000),
        (999_999, 123_456_789, 1_000_000),
        (u64::MAX, u64::MAX, u64::MAX),
    ];
    for (amount, reserve, supply) in cases {
        let out = share(amount, reserve, supply).unwrap() as u128;
        let product = amount as u128 * reserve as u128;
        assert!(out * supply as u128 <= product);
        assert!(product < (out + 1) * supply as u128);
        assert!(out <= reserve as u128);
    }
}

#[test]
fn share_is_exact_at_the_edge_of_64_bits() {
    assert_eq!(share(6, 7, 2), Some(21));
    assert_eq!(share(u64::MAX, u64::MAX, u64::MAX - 1), None);
    assert_eq!(share(u64::MAX - 1, u64::MAX, u64::MAX), Some(u64::MAX - 1));
    assert_eq!(share(u64::MAX, 1 << 63, 1 << 63), Some(u64::MAX));
    assert_eq!(share(u64::MAX, (1 << 63) + 1, 1 << 63), None);
}

#[test]
fn small_numbers_fit_in_64_bits() {
    assert!(U256 { words: [0, 0, 0, 0] }.fits_u64());
    assert!(U256 { words: [u64::MAX, 0, 0, 0] }.fits_u64());
    assert!(!U256 { words: [0, 1, 0, 0] }.fits_u64());
    assert!(!U256 { words: [0, 0, 1, 0] }.fits_u64());
    assert!(!U256 { words: [5, 0, 0, 1] }.fits_u64());
}
