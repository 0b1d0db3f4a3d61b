//! The seeds from which the pool's vaults are derived, and with which the
//! pool signs for what leaves them.

use vstd::prelude::*;
use crate::pda::find_signer_seeds;
use crate::pda::key_seed;
use crate::pda::program_address_bump;
use crate::pda::signer_seeds;
use crate::pda::with_bump;
use crate::pubkey::Pubkey;

verus! {

/// The bytes of `pool_vault`.
pub open spec fn pool_vault_label() -> Seq<u8> {
    seq![112u8, 111u8, 111u8, 108u8, 95u8, 118u8, 97u8, 117u8, 108u8, 116u8]
}

/// The bytes of `reward_vault`.
pub open spec fn reward_vault_label() -> Seq<u8> {
    seq![114u8, 101u8, 119u8, 97u8, 114u8, 100u8, 95u8, 118u8, 97u8, 117u8, 108u8, 116u8]
}

/// The seeds of the vault that holds the staked tokens of the pool at
/// `staking_pool`.
pub open spec fn pool_vault_seeds(staking_pool: Pubkey) -> Seq<Seq<u8>> {
    seq![pool_vault_label(), staking_pool.bytes@]
}

/// The seeds of the pool's vault of the reward token `reward_mint`.
pub open spec fn reward_vault_seeds(staking_pool: Pubkey, reward_mint: Pubkey) -> Seq<Seq<u8>> {
    seq![reward_vault_label(), staking_pool.bytes@, reward_mint.bytes@]
}

/// The seeds that sign for the vault of staked tokens, whose bump the pool
/// has on record.
pub fn pool_vault_signer_seeds(staking_pool: &Pubkey, vault_bump: u8) -> (signing: Vec<Vec<u8>>)
    ensures
        signing.deep_view() == signer_seeds(pool_vault_seeds(*staking_pool), vault_bump),
{
    let label: Vec<u8> = vec![112u8, 111u8, 111u8, 108u8, 95u8, 118u8, 97u8, 117u8, 108u8, 116u8];
    assert(label@ =~= pool_vault_label());
    let mut seeds: Vec<Vec<u8>> = Vec::new();
    seeds.push(label);
    seeds.push(key_seed(staking_pool));
    assert(seeds.deep_view() =~= pool_vault_seeds(*staking_pool)) by {
        assert(seeds.deep_view().len() == 2);
        assert(seeds.deep_view()[0] == seeds@[0]@);
        assert(seeds.deep_view()[1] == seeds@[1]@);
    }
    with_bump(seeds, vault_bump)
}

/// The seeds that sign for the vault of a reward token, with the bump that
/// the derivation finds for the program at `program_id`; none where it
/// finds no address.
pub fn reward_vault_signer_seeds(
    staking_pool: &Pubkey,
    reward_mint: &Pubkey,
    program_id: &Pubkey,
) -> (signing: Option<Vec<Vec<u8>>>)
    ensures
        match signing {
            Some(signing) => {
                &&& program_address_bump(
                    reward_vault_seeds(*staking_pool, *reward_mint),
                    program_id.bytes@,
                ) is Some
                &&& signing.deep_view() == signer_seeds(
                    reward_vault_seeds(*staking_pool, *reward_mint),
                    program_address_bump(
                        reward_vault_seeds(*staking_pool, *reward_mint),
                        program_id.bytes@,
                    ).unwrap(),
                )
            },
            None => program_address_bump(
                reward_vault_seeds(*staking_pool, *reward_mint),
                program_id.bytes@,
            ) is None,
        },
{
    let label: Vec<u8> = vec![
        114u8,
        101u8,
        119u8,
        97u8,
        114u8,
        100u8,
        95u8,
        118u8,
        97u8,
        117u8,
        108u8,
        116u8,
    ];
    assert(label@ =~= reward_vault_label());
    let mut seeds: Vec<Vec<u8>> = Vec::new();
    seeds.push(label);
    seeds.push(key_seed(staking_pool));
    seeds.push(key_seed(reward_mint));
    assert(seeds.deep_view() =~= reward_vault_seeds(*staking_pool, *reward_mint)) by {
        assert(seeds.deep_view().len() == 3);
        assert(seeds.deep_view()[0] == seeds@[0]@);
        assert(seeds.deep_view()[1] == seeds@[1]@);
        assert(seeds.deep_view()[2] == seeds@[2]@);
    }
    find_signer_seeds(seeds, program_id)
}

} // verus!
