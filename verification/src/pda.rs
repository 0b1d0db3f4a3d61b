//! Addresses that a program derives for the accounts it controls.
//!
//! Such an address is found from a list of seeds and the program's own
//! address, together with one more seed of a single byte, the bump. A
//! program moves what such an account holds by naming the seeds and the bump.

use vstd::prelude::*;
use crate::pubkey::Pubkey;

verus! {

/// The bump with which `seeds` derive an address for the program at
/// `program_id`, as the ledger's derivation finds it; none where it finds
/// no address.
pub uninterp spec fn program_address_bump(seeds: Seq<Seq<u8>>, program_id: Seq<u8>) -> Option<u8>;

/// Calls `Pubkey::try_find_program_address` of `anchor_lang` (defined in
/// `solana_program`) and hands back the bump it found. The derivation hashes
/// the seeds and the program's address and is a function of these alone; it
/// is not restated here, only named: the result is `program_address_bump` of
/// the arguments.
#[verifier::external_body]
fn find_bump(seeds: &Vec<Vec<u8>>, program_id: &Pubkey) -> (bump: Option<u8>)
    ensures
        bump == program_address_bump(seeds.deep_view(), program_id.bytes@),
{
    let id = anchor_lang::prelude::Pubkey::new_from_array(program_id.bytes);
    let parts: Vec<&[u8]> = seeds.iter().map(|seed| seed.as_slice()).collect();
    anchor_lang::prelude::Pubkey::try_find_program_address(&parts, &id).map(|found| found.1)
}

/// The bytes of an address, as a seed.
pub fn key_seed(key: &Pubkey) -> (seed: Vec<u8>)
    ensures
        seed@ == key.bytes@,
{
    let mut seed: Vec<u8> = Vec::new();
    let mut i: usize = 0;
    while i < 32
        invariant
            i <= 32,
            seed@.len() == i,
            forall|j: int| 0 <= j < i ==> seed@[j] == key.bytes[j],
        decreases 32 - i,
    {
        seed.push(key.bytes[i]);
        i += 1;
    }
    assert(seed@ =~= key.bytes@);
    seed
}

/// The seeds that sign for an account derived from `seeds` with `bump`:
/// the seeds, and the bump as a last seed of one byte.
pub open spec fn signer_seeds(seeds: Seq<Seq<u8>>, bump: u8) -> Seq<Seq<u8>> {
    seeds.push(seq![bump])
}

/// Appends the bump to the seeds.
pub fn with_bump(seeds: Vec<Vec<u8>>, bump: u8) -> (signing: Vec<Vec<u8>>)
    ensures
        signing.deep_view() == signer_seeds(seeds.deep_view(), bump),
{
    let mut signing = seeds;
    let mut last: Vec<u8> = Vec::new();
    last.push(bump);
    assert(last@ =~= seq![bump]);
    signing.push(last);
    assert(signing.deep_view() =~= signer_seeds(seeds.deep_view(), bump)) by {
        assert(signing.deep_view().len() == seeds.deep_view().len() + 1);
        assert forall|i: int| 0 <= i < signing.deep_view().len() implies signing.deep_view()[i]
            == signer_seeds(seeds.deep_view(), bump)[i] by {
            if i < seeds@.len() {
                assert(signing@[i] == seeds@[i]);
            }
        }
    }
    signing
}

/// The seeds that sign for the account derived from `seeds` for the program
/// at `program_id`, with the bump that the derivation finds; none where it
/// finds no address.
pub fn find_signer_seeds(seeds: Vec<Vec<u8>>, program_id: &Pubkey) -> (signing: Option<
    Vec<Vec<u8>>,
>)
    ensures
        match signing {
            Some(signing) => {
                &&& program_address_bump(seeds.deep_view(), program_id.bytes@) is Some
                &&& signing.deep_view() == signer_seeds(
                    seeds.deep_view(),
                    program_address_bump(seeds.deep_view(), program_id.bytes@).unwrap(),
                )
            },
            None => program_address_bump(seeds.deep_view(), program_id.bytes@) is None,
        },
{
    match find_bump(&seeds, program_id) {
        Some(bump) => Some(with_bump(seeds, bump)),
        None => None,
    }
}

} // verus!
