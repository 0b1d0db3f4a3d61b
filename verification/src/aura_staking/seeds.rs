//! The seeds from which the pool's two vaults are derived, and with which
//! the pool signs for what leaves them.

use vstd::prelude::*;
use crate::pda::key_seed;
use crate::pda::signer_seeds;
use crate::pda::with_bump;
use crate::pubkey::Pubkey;

verus! {

/// The bytes of `stake_vault`.
pub open spec fn stake_vault_label() -> Seq<u8> {
    seq![115u8, 116u8, 97u8, 107u8, 101u8, 95u8, 118u8, 97u8, 117u8, 108u8, 116u8]
}

/// The bytes of `reward_vault`.
pub open spec fn reward_vault_label() -> Seq<u8> {
    seq![114u8, 101u8, 119u8, 97u8, 114u8, 100u8, 95u8, 118u8, 97u8, 117u8, 108u8, 116u8]
}

/// The seeds of the vault that holds the staked tokens.
pub open spec fn stake_vault_seeds(staking_pool: Pubkey) -> Seq<Seq<u8>> {
    seq![stake_vault_label(), staking_pool.bytes@]
}

/// The seeds of the vault that rewards are paid from.
pub open spec fn reward_vault_seeds(staking_pool: Pubkey) -> Seq<Seq<u8>> {
    seq![reward_vault_label(), staking_pool.bytes@]
}

/// The seeds that sign for the vault of staked tokens, whose bump the pool
/// has on record.
pub fn stake_vault_signer_seeds(staking_pool: &Pubkey, vault_bump: u8) -> (signing: Vec<Vec<u8>>)
    ensures
        signing.deep_view() == signer_seeds(stake_vault_seeds(*staking_pool), vault_bump),
{
    let label: Vec<u8> = vec![
        115u8,
        116u8,
        97u8,
        107u8,
        101u8,
        95u8,
        118u8,
        97u8,
        117u8,
        108u8,
        116u8,
    ];
    assert(label@ =~= stake_vault_label());
    let mut seeds: Vec<Vec<u8>> = Vec::new();
    seeds.push(label);
    seeds.push(key_seed(staking_pool));
    assert(seeds.deep_view() =~= stake_vault_seeds(*staking_pool)) by {
        assert(seeds.deep_view().len() == 2);
        assert(seeds.deep_view()[0] == seeds@[0]@);
        assert(seeds.deep_view()[1] == seeds@[1]@);
    }
    with_bump(seeds, vault_bump)
}

/// The seeds that sign for the reward vault, whose bump the pool has on
/// record.
pub fn reward_vault_signer_seeds(staking_pool: &Pubkey, reward_vault_bump: u8) -> (signing: Vec<
    Vec<u8>,
>)
    ensures
        signing.deep_view() == signer_seeds(reward_vault_seeds(*staking_pool), reward_vault_bump),
{
    let label: Vec<u8> = vec![
        114u8,
        101u8,
        119u8,
        97u8,
        114u8,
        100u8,
        95u8,
        118u8,
        97u8,
        117u8,
        108u8,
        116u8,
    ];
    assert(label@ =~= reward_vault_label());
    let mut seeds: Vec<Vec<u8>> = Vec::new();
    seeds.push(label);
    seeds.push(key_seed(staking_pool));
    assert(seeds.deep_view() =~= reward_vault_seeds(*staking_pool)) by {
        assert(seeds.deep_view().len() == 2);
        assert(seeds.deep_view()[0] == seeds@[0]@);
        assert(seeds.deep_view()[1] == seeds@[1]@);
    }
    with_bump(seeds, reward_vault_bump)
}

} // verus!
