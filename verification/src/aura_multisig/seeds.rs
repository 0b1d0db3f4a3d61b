//! The seeds with which the treasury signs for what leaves its vault.

use vstd::prelude::*;
use crate::pda::key_seed;
use crate::pda::signer_seeds;
use crate::pda::with_bump;
use crate::pubkey::Pubkey;

verus! {

/// The bytes of `multisig`.
pub open spec fn multisig_label() -> Seq<u8> {
    seq![109u8, 117u8, 108u8, 116u8, 105u8, 115u8, 105u8, 103u8]
}

/// The seeds of the treasury's vault.
pub open spec fn multisig_seeds(multisig: Pubkey) -> Seq<Seq<u8>> {
    seq![multisig_label(), multisig.bytes@]
}

/// The seeds that sign for the treasury's vault, with the bump that the
/// treasury has on record.
pub fn multisig_signer_seeds(multisig: &Pubkey, bump: u8) -> (signing: Vec<Vec<u8>>)
    ensures
        signing.deep_view() == signer_seeds(multisig_seeds(*multisig), bump),
{
    let label: Vec<u8> = vec![109u8, 117u8, 108u8, 116u8, 105u8, 115u8, 105u8, 103u8];
    assert(label@ =~= multisig_label());
    let mut seeds: Vec<Vec<u8>> = Vec::new();
    seeds.push(label);
    seeds.push(key_seed(multisig));
    assert(seeds.deep_view() =~= multisig_seeds(*multisig)) by {
        assert(seeds.deep_view().len() == 2);
        assert(seeds.deep_view()[0] == seeds@[0]@);
        assert(seeds.deep_view()[1] == seeds@[1]@);
    }
    with_bump(seeds, bump)
}

} // verus!
