//! Deterministic address derivation.
//!
//! The host chain derives record addresses and signing authorities from
//! seed paths with `Pubkey::try_find_program_address`. The result of
//! that derivation is named by the uninterpreted function [`pda_of`];
//! everything the library proves about derived addresses is stated
//! through that name.

use vstd::prelude::*;

use crate::identity::{id_bytes, id_of_bytes, Identity};
use crate::seeds::{
    authority_seeds, instruction_seeds, make_authority_tag, make_instruction_tag,
    make_multisig_tag, make_squad_tag, make_transaction_tag, registry_seeds, transaction_seeds,
    u32_le_bytes,
};

verus! {

/// The address and bump seed that program-derived-address search finds
/// for a seed path and a program identity, if any.
pub uninterp spec fn pda_of(seeds: Seq<Seq<u8>>, program: Seq<u8>) -> Option<(Seq<u8>, u8)>;

/// Relies on `Pubkey::try_find_program_address` (from the `solana-address`
/// crate, re-exported through `anchor-lang`): the search depends on the
/// seed byte strings and the program key alone, returns a 32-byte
/// address together with the bump seed that produced it, and returns
/// `None` only in the statistically improbable event that no bump seed
/// yields a valid address.
#[verifier::external_body]
fn try_find_pda(seeds: &Vec<Vec<u8>>, program: &Vec<u8>) -> (r: Option<(Vec<u8>, u8)>)
    requires
        program@.len() == 32,
    ensures
        match r {
            Some(p) => p.0@.len() == 32 && pda_of(seeds.deep_view(), program@) == Some(
                (p.0@, p.1),
            ),
            None => pda_of(seeds.deep_view(), program@) is None,
        },
{
    let arr: [u8; 32] = program.as_slice().try_into().unwrap();
    let pk = anchor_lang::prelude::Pubkey::new_from_array(arr);
    let seed_slices: Vec<&[u8]> = seeds.iter().map(|s| s.as_slice()).collect();
    match anchor_lang::prelude::Pubkey::try_find_program_address(&seed_slices, &pk) {
        Some((addr, bump)) => Some((addr.to_bytes().to_vec(), bump)),
        None => None,
    }
}

/// The derivation result of a seed path, with the address folded back
/// into an [`Identity`].
pub open spec fn pda_identity(seeds: Seq<Seq<u8>>, program: Identity) -> Option<(Identity, u8)> {
    match pda_of(seeds, id_bytes(program)) {
        Some(p) => Some((id_of_bytes(p.0), p.1)),
        None => None,
    }
}

/// Maps the wrapper's raw result into an [`Identity`] pair.
fn fold_pda_result(raw: Option<(Vec<u8>, u8)>, Ghost(seeds): Ghost<Seq<Seq<u8>>>, program: &Identity) -> (r: Option<
    (Identity, u8),
>)
    requires
        match raw {
            Some(p) => p.0@.len() == 32 && pda_of(seeds, id_bytes(*program)) == Some((p.0@, p.1)),
            None => pda_of(seeds, id_bytes(*program)) is None,
        },
    ensures
        r == pda_identity(seeds, *program),
{
    match raw {
        Some(p) => Some((Identity::from_bytes(&p.0), p.1)),
        None => None,
    }
}

/// Derives the address of a registry from its creation key.
pub fn derive_registry_address(create_key: &Identity, program_id: &Identity) -> (r: Option<
    (Identity, u8),
>)
    ensures
        r == pda_identity(registry_seeds(*create_key), *program_id),
{
    let mut seeds: Vec<Vec<u8>> = Vec::new();
    seeds.push(make_squad_tag());
    seeds.push(create_key.to_bytes());
    seeds.push(make_multisig_tag());
    proof {
        assert(seeds.deep_view() =~~= registry_seeds(*create_key));
    }
    let raw = try_find_pda(&seeds, &program_id.to_bytes());
    fold_pda_result(raw, Ghost(registry_seeds(*create_key)), program_id)
}

/// Derives the signing authority of a registry at an authority index.
pub fn derive_authority_address(ms_key: &Identity, authority_index: u16, program_id: &Identity) -> (r: Option<
    (Identity, u8),
>)
    ensures
        r == pda_identity(authority_seeds(*ms_key, authority_index), *program_id),
{
    let mut seeds: Vec<Vec<u8>> = Vec::new();
    seeds.push(make_squad_tag());
    seeds.push(ms_key.to_bytes());
    seeds.push(u32_le_bytes(authority_index as u32));
    seeds.push(make_authority_tag());
    proof {
        assert(seeds.deep_view() =~~= authority_seeds(*ms_key, authority_index));
    }
    let raw = try_find_pda(&seeds, &program_id.to_bytes());
    fold_pda_result(raw, Ghost(authority_seeds(*ms_key, authority_index)), program_id)
}

/// Derives the storage address of a transaction record.
pub fn derive_transaction_address(
    ms_key: &Identity,
    transaction_index: u32,
    program_id: &Identity,
) -> (r: Option<(Identity, u8)>)
    ensures
        r == pda_identity(transaction_seeds(*ms_key, transaction_index), *program_id),
{
    let mut seeds: Vec<Vec<u8>> = Vec::new();
    seeds.push(make_squad_tag());
    seeds.push(ms_key.to_bytes());
    seeds.push(u32_le_bytes(transaction_index));
    seeds.push(make_transaction_tag());
    proof {
        assert(seeds.deep_view() =~~= transaction_seeds(*ms_key, transaction_index));
    }
    let raw = try_find_pda(&seeds, &program_id.to_bytes());
    fold_pda_result(raw, Ghost(transaction_seeds(*ms_key, transaction_index)), program_id)
}

/// Derives the storage address of an instruction record.
pub fn derive_instruction_address(
    tx_key: &Identity,
    instruction_index: u8,
    program_id: &Identity,
) -> (r: Option<(Identity, u8)>)
    ensures
        r == pda_identity(instruction_seeds(*tx_key, instruction_index), *program_id),
{
    let mut seeds: Vec<Vec<u8>> = Vec::new();
    seeds.push(make_squad_tag());
    seeds.push(tx_key.to_bytes());
    let ix: Vec<u8> = vec![instruction_index];
    seeds.push(ix);
    seeds.push(make_instruction_tag());
    proof {
        assert(seeds.deep_view() =~~= instruction_seeds(*tx_key, instruction_index));
    }
    let raw = try_find_pda(&seeds, &program_id.to_bytes());
    fold_pda_result(raw, Ghost(instruction_seeds(*tx_key, instruction_index)), program_id)
}

} // verus!
