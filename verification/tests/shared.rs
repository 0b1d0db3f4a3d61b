use aura_programs::math::{
    elapsed_seconds, fraction_of, mul_div, mul_mul_div, wide_product, BASIS_POINTS,
};
use aura_programs::pda::{find_signer_seeds, key_seed, with_bump};
use aura_programs::pubkey::Pubkey;
use aura_programs::time_weighted_staking::seeds::{
    pool_vault_signer_seeds, reward_vault_signer_seeds,
};

fn key(tag: u8) -> Pubkey {
    Pubkey::new_from_array([tag; 32])
}

fn outside(key: &Pubkey) -> anchor_lang::prelude::Pubkey {
    anchor_lang::prelude::Pubkey::new_from_array(key.to_bytes())
}

#[test]
fn keys_compare_by_their_bytes() {
    assert_eq!(key(3), key(3));
    assert_ne!(key(3), key(4));
    let mut bytes = [3u8; 32];
    bytes[31] = 4;
    assert_ne!(Pubkey::new_from_array(bytes), key(3));
    assert_eq!(Pubkey::new_from_array(bytes).to_bytes(), bytes);
    assert_eq!(Pubkey::default().to_bytes(), [0u8; 32]);
    assert!(Pubkey::default().is_unset());
    assert!(!key(1).is_unset());
    bytes = [0u8; 32];
    bytes[17] = 1;
    assert!(!Pubkey::new_from_array(bytes).is_unset());
}

#[test]
fn products_are_divided_once_and_rounded_down() {
    assert_eq!(BASIS_POINTS, 10_000);
    assert_eq!(mul_div(7, 3, 2), Some(10));
    assert_eq!(mul_div(0, 3, 2), Some(0));
    assert_eq!(mul_div(7, 3, 0), None);
    assert_eq!(mul_div(u64::MAX, u64::MAX, u64::MAX), Some(u64::MAX));
    assert_eq!(mul_div(u64::MAX, 2, 2), Some(u64::MAX));
    assert_eq!(mul_div(u64::MAX, 3, 2), None);
    assert_eq!(mul_mul_div(7, 3, 5, 2), Some(52));
    assert_eq!(mul_mul_div(7, 3, 5, 0), None);
    assert_eq!(mul_mul_div(u64::MAX, u64::MAX, 1, u64::MAX), Some(u64::MAX));
    assert_eq!(mul_mul_div(u64::MAX, u64::MAX, 2, u64::MAX), None);
    assert_eq!(mul_mul_div(u64::MAX, u64::MAX, u64::MAX, u64::MAX), None);
    assert_eq!(wide_product(2, 3, 4), Some(24));
    assert_eq!(wide_product(u64::MAX, u64::MAX, 1), Some(u64::MAX as u128 * u64::MAX as u128));
    assert_eq!(wide_product(u64::MAX, u64::MAX, 2), None);
    assert_eq!(fraction_of(1_000, 5, 100), 50);
    assert_eq!(fraction_of(19, 5, 100), 0);
    assert_eq!(fraction_of(u64::MAX, 100, 100), u64::MAX);
}

#[test]
fn elapsed_time_is_never_negative() {
    assert_eq!(elapsed_seconds(100, 160), Some(60));
    assert_eq!(elapsed_seconds(100, 100), Some(0));
    assert_eq!(elapsed_seconds(100, 99), None);
    assert_eq!(elapsed_seconds(-5, 5), Some(10));
    assert_eq!(elapsed_seconds(0, i64::MAX), Some(i64::MAX as u64));
    assert_eq!(elapsed_seconds(-1, i64::MAX), None);
    assert_eq!(elapsed_seconds(i64::MIN, i64::MAX), None);
}

#[test]
fn seeds_are_label_keys_and_bump() {
    assert_eq!(key_seed(&key(7)), vec![7u8; 32]);
    assert_eq!(with_bump(vec![vec![1, 2]], 9), vec![vec![1, 2], vec![9]]);
    assert_eq!(with_bump(Vec::new(), 0), vec![vec![0u8]]);
    assert_eq!(
        pool_vault_signer_seeds(&key(1), 253),
        vec![b"pool_vault".to_vec(), vec![1u8; 32], vec![253u8]]
    );
}

#[test]
fn reward_vault_seeds_carry_the_bump_of_the_derived_address() {
    let pool = key(1);
    let reward_mint = key(60);
    let program_id = key(77);
    let (address, bump) = anchor_lang::prelude::Pubkey::find_program_address(
        &[b"reward_vault", &[1u8; 32], &[60u8; 32]],
        &outside(&program_id),
    );
    let seeds = reward_vault_signer_seeds(&pool, &reward_mint, &program_id).unwrap();
    assert_eq!(
        seeds,
        vec![b"reward_vault".to_vec(), vec![1u8; 32], vec![60u8; 32], vec![bump]]
    );
    // The seeds with their bump derive the vault's address.
    let parts: Vec<&[u8]> = seeds.iter().map(|seed| seed.as_slice()).collect();
    assert_eq!(
        anchor_lang::prelude::Pubkey::create_program_address(&parts, &outside(&program_id)),
        Ok(address)
    );
    // Other seeds, or another program, derive another address.
    let other = reward_vault_signer_seeds(&pool, &key(61), &program_id).unwrap();
    let parts: Vec<&[u8]> = other.iter().map(|seed| seed.as_slice()).collect();
    assert_ne!(
        anchor_lang::prelude::Pubkey::create_program_address(&parts, &outside(&program_id)),
        Ok(address)
    );
}

#[test]
fn bump_is_found_for_any_seeds_that_the_derivation_takes() {
    let program_id = key(78);
    for tag in 0..20u8 {
        let seeds = vec![vec![tag; 3], vec![tag; 32]];
        let expected = anchor_lang::prelude::Pubkey::try_find_program_address(
            &[&[tag; 3], &[tag; 32]],
            &outside(&program_id),
        )
        .map(|found| found.1);
        let signing = find_signer_seeds(seeds.clone(), &program_id);
        assert_eq!(signing.map(|signing| signing[2].clone()), expected.map(|bump| vec![bump]));
    }
    // A seed longer than the derivation takes finds no address.
    assert_eq!(find_signer_seeds(vec![vec![0u8; 33]], &program_id), None);
    // So do more seeds than it takes.
    assert_eq!(find_signer_seeds(vec![vec![1u8]; 16], &program_id), None);
    assert!(find_signer_seeds(vec![vec![1u8]; 15], &program_id).is_some());
}
