//! Packed messages, record sizing and identity byte forms.

use squads_mpl::errors::MsError;
use squads_mpl::execute::SuppliedAccount;
use squads_mpl::identity::Identity;
use squads_mpl::instruction::{IncomingInstruction, MsAccountMeta};
use squads_mpl::message::{
    compile_invocations, validate_message_accounts, LoadedLookupTable, MsTransactionMessage,
    TransactionMessage,
};
use squads_mpl::ms::Ms;
use squads_mpl::seeds::{make_multisig_tag, make_squad_tag, u32_le_bytes};
use squads_mpl::transaction::MsTransaction;

fn key(tag: u64) -> Identity {
    Identity {
        w0: 0,
        w1: 0,
        w2: 0,
        w3: tag,
    }
}

fn key_bytes(tag: u8) -> Vec<u8> {
    let mut v = vec![0u8; 32];
    v[31] = tag;
    v
}

#[test]
fn identity_bytes_round_trip() {
    let mut bytes = vec![0u8; 32];
    bytes[0] = 0x01;
    bytes[7] = 0x02;
    bytes[31] = 0x03;
    let id = Identity::from_bytes(&bytes);
    assert_eq!(id.w0, 0x0100000000000002);
    assert_eq!(id.w1, 0);
    assert_eq!(id.w2, 0);
    assert_eq!(id.w3, 3);
    assert_eq!(id.to_bytes(), bytes);
}

#[test]
fn identity_ordering_follows_bytes() {
    let lo = Identity::from_bytes(&key_bytes(1));
    let hi = Identity::from_bytes(&key_bytes(2));
    assert!(lo.less_than(&hi));
    assert!(!hi.less_than(&lo));
    assert!(!lo.less_than(&lo));
}

#[test]
fn record_sizes_match_their_layout() {
    assert_eq!(Ms::SIZE_WITHOUT_MEMBERS, 58);
    assert_eq!(MsTransaction::MINIMUM_SIZE, 89);
    assert_eq!(MsTransaction::initial_size_with_members(0), 101);
    assert_eq!(MsTransaction::initial_size_with_members(3), 89 + 3 * (4 + 96));
    let incoming = IncomingInstruction {
        program_id: key(1),
        keys: vec![
            MsAccountMeta {
                pubkey: key(2),
                is_signer: false,
                is_writable: true,
            },
            MsAccountMeta {
                pubkey: key(3),
                is_signer: true,
                is_writable: false,
            },
        ],
        data: vec![1, 2, 3, 4, 5],
    };
    // 32 + 4 + 2 * 34 + 4 + 5 payload bytes, plus index, bump and
    // executed flag.
    assert_eq!(incoming.get_max_size(), 32 + 4 + 68 + 4 + 5 + 3);
}

/// One packed message: two static keys, one instruction over both,
/// one lookup reference loading one writable and one readonly key.
fn packed_message() -> Vec<u8> {
    let mut bytes = Vec::new();
    bytes.push(1u8); // signers
    bytes.push(1u8); // writable signers
    bytes.push(0u8); // writable non-signers
    bytes.push(2u8); // static keys
    bytes.extend(key_bytes(10));
    bytes.extend(key_bytes(11));
    bytes.push(1u8); // instructions
    bytes.push(1u8); // program id index
    bytes.push(3u8); // account indexes
    bytes.extend([0u8, 2u8, 3u8]);
    bytes.extend([2u8, 0u8]); // payload length, little endian
    bytes.extend([0xaau8, 0xbbu8]);
    bytes.push(1u8); // lookup references
    bytes.extend(key_bytes(20)); // lookup table address
    bytes.push(1u8); // writable indexes
    bytes.push(5u8);
    bytes.push(1u8); // readonly indexes
    bytes.push(7u8);
    bytes
}

#[test]
fn deserialize_reads_the_exact_message() {
    let m = TransactionMessage::deserialize(&packed_message()).unwrap();
    assert_eq!(m.num_signers, 1);
    assert_eq!(m.num_writable_signers, 1);
    assert_eq!(m.num_writable_non_signers, 0);
    assert_eq!(m.account_keys.len(), 2);
    assert_eq!(m.account_keys[0], Identity::from_bytes(&key_bytes(10)));
    assert_eq!(m.account_keys[1], Identity::from_bytes(&key_bytes(11)));
    assert_eq!(m.instructions.len(), 1);
    assert_eq!(m.instructions[0].program_id_index, 1);
    assert_eq!(m.instructions[0].account_indexes, vec![0, 2, 3]);
    assert_eq!(m.instructions[0].data, vec![0xaa, 0xbb]);
    assert_eq!(m.address_table_lookups.len(), 1);
    assert_eq!(
        m.address_table_lookups[0].account_key,
        Identity::from_bytes(&key_bytes(20))
    );
    assert_eq!(m.address_table_lookups[0].writable_indexes, vec![5]);
    assert_eq!(m.address_table_lookups[0].readonly_indexes, vec![7]);
}

#[test]
fn deserialize_rejects_truncated_input() {
    let bytes = packed_message();
    for cut in [0usize, 3, 4, 30, 70, bytes.len() - 1] {
        let err = TransactionMessage::deserialize(&bytes[..cut].to_vec()).unwrap_err();
        assert_eq!(err, MsError::InvalidTransactionMessage);
    }
}

#[test]
fn validation_checks_the_class_counts() {
    let m = TransactionMessage::deserialize(&packed_message()).unwrap();
    let validated = MsTransactionMessage::try_from(m).unwrap();
    assert_eq!(validated.num_all_account_keys(), 4);
    assert!(validated.is_signer_index(0));
    assert!(!validated.is_signer_index(1));
    assert!(validated.is_static_writable_index(0));
    assert!(!validated.is_static_writable_index(1));
    assert!(!validated.is_static_writable_index(2));

    let mut bad = TransactionMessage::deserialize(&packed_message()).unwrap();
    bad.num_signers = 3;
    assert_eq!(
        MsTransactionMessage::try_from(bad).unwrap_err(),
        MsError::InvalidTransactionMessage
    );
}

fn validated_message() -> MsTransactionMessage {
    MsTransactionMessage::try_from(TransactionMessage::deserialize(&packed_message()).unwrap())
        .unwrap()
}

fn table_with(addresses: Vec<Identity>) -> LoadedLookupTable {
    LoadedLookupTable {
        key: Identity::from_bytes(&key_bytes(20)),
        owner: key(600),
        addresses,
    }
}

fn supplied_for_message(loaded_writable: Identity, loaded_readonly: Identity) -> Vec<SuppliedAccount> {
    vec![
        // static key 0: writable signer
        SuppliedAccount {
            key: Identity::from_bytes(&key_bytes(10)),
            owner: key(0),
            is_signer: true,
            is_writable: true,
        },
        // static key 1: readonly non-signer (a program id)
        SuppliedAccount {
            key: Identity::from_bytes(&key_bytes(11)),
            owner: key(0),
            is_signer: false,
            is_writable: false,
        },
        // loaded writable
        SuppliedAccount {
            key: loaded_writable,
            owner: key(0),
            is_signer: false,
            is_writable: true,
        },
        // loaded readonly
        SuppliedAccount {
            key: loaded_readonly,
            owner: key(0),
            is_signer: false,
            is_writable: false,
        },
    ]
}

#[test]
fn account_validation_accepts_a_faithful_supply() {
    let m = validated_message();
    let w = key(701);
    let r = key(702);
    let mut addresses = vec![key(0); 8];
    addresses[5] = w;
    addresses[7] = r;
    let tables = vec![table_with(addresses)];
    let accounts = supplied_for_message(w, r);
    validate_message_accounts(&m, &accounts, &tables, key(800), key(600)).unwrap();
}

#[test]
fn account_validation_rejects_a_swapped_key() {
    let m = validated_message();
    let w = key(701);
    let r = key(702);
    let mut addresses = vec![key(0); 8];
    addresses[5] = w;
    addresses[7] = r;
    let tables = vec![table_with(addresses)];
    // The loaded writable account does not hold the address the table
    // holds at the referenced position.
    let accounts = supplied_for_message(key(999), r);
    validate_message_accounts(&m, &accounts, &tables, key(800), key(600)).unwrap_err();
    // A table owned by the wrong program is refused too.
    let mut addresses2 = vec![key(0); 8];
    addresses2[5] = w;
    addresses2[7] = r;
    let mut bad_table = table_with(addresses2);
    bad_table.owner = key(601);
    validate_message_accounts(
        &m,
        &supplied_for_message(w, r),
        &vec![bad_table],
        key(800),
        key(600),
    )
    .unwrap_err();
}

#[test]
fn compiled_invocations_resolve_indexes() {
    let m = validated_message();
    let w = key(701);
    let r = key(702);
    let accounts = supplied_for_message(w, r);
    let plan = compile_invocations(&m, &accounts).unwrap();
    assert_eq!(plan.len(), 1);
    // The program is static key 1; the instruction touches static key
    // 0 (a signer) and both loaded accounts.
    assert_eq!(plan[0].program_id, Identity::from_bytes(&key_bytes(11)));
    assert_eq!(plan[0].data, vec![0xaa, 0xbb]);
    assert_eq!(plan[0].accounts.len(), 3);
    assert_eq!(plan[0].accounts[0].pubkey, Identity::from_bytes(&key_bytes(10)));
    assert!(plan[0].accounts[0].is_signer);
    assert!(plan[0].accounts[0].is_writable);
    assert_eq!(plan[0].accounts[1].pubkey, w);
    assert!(!plan[0].accounts[1].is_signer);
    assert!(plan[0].accounts[1].is_writable);
    assert_eq!(plan[0].accounts[2].pubkey, r);
    assert!(!plan[0].accounts[2].is_writable);

    // An index past the supplied accounts aborts compilation.
    let mut oob = validated_message();
    oob.instructions[0].account_indexes = vec![0, 9];
    assert_eq!(
        compile_invocations(&oob, &accounts).unwrap_err(),
        MsError::InvalidAccount
    );
}

#[test]
fn seed_parts_are_exact() {
    assert_eq!(make_squad_tag(), b"squad".to_vec());
    assert_eq!(make_multisig_tag(), b"multisig".to_vec());
    assert_eq!(u32_le_bytes(0x01020304), vec![4, 3, 2, 1]);
    assert_eq!(u32_le_bytes(0), vec![0, 0, 0, 0]);
}

#[test]
fn error_labels_are_distinct() {
    assert_ne!(
        MsError::KeyNotInMultisig.label(),
        MsError::InvalidThreshold.label()
    );
    assert_eq!(MsError::DeprecatedTransaction.label(), "deprecated transaction");
}
