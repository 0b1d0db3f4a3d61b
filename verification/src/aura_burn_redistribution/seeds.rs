//! The seeds from which the pool's token account is derived, and with which
//! the program signs for what leaves it.

use vstd::prelude::*;
use crate::pda::signer_seeds;
use crate::pda::with_bump;

verus! {

/// The bytes of `staking_pool`.
pub open spec fn staking_pool_label() -> Seq<u8> {
    seq![115u8, 116u8, 97u8, 107u8, 105u8, 110u8, 103u8, 95u8, 112u8, 111u8, 111u8, 108u8]
}

/// The seeds of the pool's token account.
pub open spec fn staking_pool_seeds() -> Seq<Seq<u8>> {
    seq![staking_pool_label()]
}

/// The seeds that sign for the pool's token account, with the bump that was
/// found for it.
pub fn staking_pool_signer_seeds(bump: u8) -> (signing: Vec<Vec<u8>>)
    ensures
        signing.deep_view() == signer_seeds(staking_pool_seeds(), bump),
{
    let label: Vec<u8> = vec![
        115u8,
        116u8,
        97u8,
        107u8,
        105u8,
        110u8,
        103u8,
        95u8,
        112u8,
        111u8,
        111u8,
        108u8,
    ];
    assert(label@ =~= staking_pool_label());
    let mut seeds: Vec<Vec<u8>> = Vec::new();
    seeds.push(label);
    assert(seeds.deep_view() =~= staking_pool_seeds()) by {
        assert(seeds.deep_view().len() == 1);
        assert(seeds.deep_view()[0] == seeds@[0]@);
    }
    with_bump(seeds, bump)
}

} // verus!
