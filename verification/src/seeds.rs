//! Seed paths for deterministic address derivation.
//!
//! Every record of the multisig lives at an address derived from a fixed
//! namespace tag, a parent key and an index. The functions here build
//! those seed byte strings exactly as they are specified.

use vstd::prelude::*;

use crate::identity::{id_bytes, Identity};

verus! {

/// The namespace tag, the ASCII bytes of "squad".
pub open spec fn squad_tag() -> Seq<u8> {
    seq![115u8, 113u8, 117u8, 97u8, 100u8]
}

/// The registry marker, the ASCII bytes of "multisig".
pub open spec fn multisig_tag() -> Seq<u8> {
    seq![109u8, 117u8, 108u8, 116u8, 105u8, 115u8, 105u8, 103u8]
}

/// The authority marker, the ASCII bytes of "authority".
pub open spec fn authority_tag() -> Seq<u8> {
    seq![97u8, 117u8, 116u8, 104u8, 111u8, 114u8, 105u8, 116u8, 121u8]
}

/// The transaction marker, the ASCII bytes of "transaction".
pub open spec fn transaction_tag() -> Seq<u8> {
    seq![116u8, 114u8, 97u8, 110u8, 115u8, 97u8, 99u8, 116u8, 105u8, 111u8, 110u8]
}

/// The instruction marker, the ASCII bytes of "instruction".
pub open spec fn instruction_tag() -> Seq<u8> {
    seq![105u8, 110u8, 115u8, 116u8, 114u8, 117u8, 99u8, 116u8, 105u8, 111u8, 110u8]
}

/// The 4-byte little-endian form of a 32-bit index.
pub open spec fn u32_le(x: u32) -> Seq<u8> {
    seq![
        (x as int % 0x100) as u8,
        (x as int / 0x100 % 0x100) as u8,
        (x as int / 0x10000 % 0x100) as u8,
        (x as int / 0x1000000 % 0x100) as u8,
    ]
}

/// The seed path of a registry: tag, creation key, registry marker.
pub open spec fn registry_seeds(create_key: Identity) -> Seq<Seq<u8>> {
    seq![squad_tag(), id_bytes(create_key), multisig_tag()]
}

/// The seed path of a derived authority: tag, registry address,
/// 4-byte authority index, authority marker.
pub open spec fn authority_seeds(ms_key: Identity, authority_index: u16) -> Seq<Seq<u8>> {
    seq![squad_tag(), id_bytes(ms_key), u32_le(authority_index as u32), authority_tag()]
}

/// The seed path of a transaction record: tag, registry address,
/// 4-byte transaction index, transaction marker.
pub open spec fn transaction_seeds(ms_key: Identity, transaction_index: u32) -> Seq<Seq<u8>> {
    seq![squad_tag(), id_bytes(ms_key), u32_le(transaction_index), transaction_tag()]
}

/// The seed path of an instruction record: tag, transaction address,
/// 1-byte instruction index, instruction marker.
pub open spec fn instruction_seeds(tx_key: Identity, instruction_index: u8) -> Seq<Seq<u8>> {
    seq![squad_tag(), id_bytes(tx_key), seq![instruction_index], instruction_tag()]
}

/// Builds the ASCII bytes of the "squad" tag.
pub fn make_squad_tag() -> (r: Vec<u8>)
    ensures
        r@ == squad_tag(),
{
    let r: Vec<u8> = vec![115u8, 113u8, 117u8, 97u8, 100u8];
    proof {
        assert(r@ =~= squad_tag());
    }
    r
}

/// Builds the ASCII bytes of the "multisig" tag.
pub fn make_multisig_tag() -> (r: Vec<u8>)
    ensures
        r@ == multisig_tag(),
{
    let r: Vec<u8> = vec![109u8, 117u8, 108u8, 116u8, 105u8, 115u8, 105u8, 103u8];
    proof {
        assert(r@ =~= multisig_tag());
    }
    r
}

/// Builds the ASCII bytes of the "authority" tag.
pub fn make_authority_tag() -> (r: Vec<u8>)
    ensures
        r@ == authority_tag(),
{
    let r: Vec<u8> = vec![97u8, 117u8, 116u8, 104u8, 111u8, 114u8, 105u8, 116u8, 121u8];
    proof {
        assert(r@ =~= authority_tag());
    }
    r
}

/// Builds the ASCII bytes of the "transaction" tag.
pub fn make_transaction_tag() -> (r: Vec<u8>)
    ensures
        r@ == transaction_tag(),
{
    let r: Vec<u8> = vec![
        116u8,
        114u8,
        97u8,
        110u8,
        115u8,
        97u8,
        99u8,
        116u8,
        105u8,
        111u8,
        110u8,
    ];
    proof {
        assert(r@ =~= transaction_tag());
    }
    r
}

/// Builds the ASCII bytes of the "instruction" tag.
pub fn make_instruction_tag() -> (r: Vec<u8>)
    ensures
        r@ == instruction_tag(),
{
    let r: Vec<u8> = vec![
        105u8,
        110u8,
        115u8,
        116u8,
        114u8,
        117u8,
        99u8,
        116u8,
        105u8,
        111u8,
        110u8,
    ];
    proof {
        assert(r@ =~= instruction_tag());
    }
    r
}

/// Builds the 4-byte little-endian form of a 32-bit index.
pub fn u32_le_bytes(x: u32) -> (r: Vec<u8>)
    ensures
        r@ == u32_le(x),
{
    let r: Vec<u8> = vec![
        (x % 0x100) as u8,
        (x / 0x100 % 0x100) as u8,
        (x / 0x10000 % 0x100) as u8,
        (x / 0x1000000 % 0x100) as u8,
    ];
    proof {
        assert(r@ =~= u32_le(x));
    }
    r
}

} // verus!
