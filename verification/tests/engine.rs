//! The execution engine: batch and sequential paths, and address
//! derivation.

use squads_mpl::errors::MsError;
use squads_mpl::execute::{
    complete_execute_instruction, complete_execute_transaction, execute_instruction,
    execute_transaction, SuppliedAccount,
};
use squads_mpl::identity::Identity;
use squads_mpl::instruction::{IncomingInstruction, MsAccountMeta, MsInstruction};
use squads_mpl::ms::Ms;
use squads_mpl::ops::{
    add_instruction, approve_transaction, create, create_transaction, set_external_execute,
};
use squads_mpl::pda::{
    derive_authority_address, derive_instruction_address, derive_registry_address,
    derive_transaction_address,
};
use squads_mpl::transaction::{MsTransaction, MsTransactionStatus};

fn key(tag: u64) -> Identity {
    Identity {
        w0: 0,
        w1: 0,
        w2: 0,
        w3: tag,
    }
}

fn account(k: Identity, owner: Identity) -> SuppliedAccount {
    SuppliedAccount {
        key: k,
        owner,
        is_signer: false,
        is_writable: true,
    }
}

/// A registry with members {A, B}, threshold 2, whose address and bump
/// really derive from its creation key.
fn ready_registry(program: Identity) -> (Ms, Identity, Identity, Identity) {
    let a = key(1);
    let b = key(2);
    let create_key = key(100);
    let (ms_key, ms_bump) = derive_registry_address(&create_key, &program).unwrap();
    let ms = create(2, create_key, vec![a, b], ms_bump).unwrap();
    (ms, ms_key, a, b)
}

fn staged_incoming(target: Identity, touched: Identity, payload: Vec<u8>) -> IncomingInstruction {
    IncomingInstruction {
        program_id: target,
        keys: vec![MsAccountMeta {
            pubkey: touched,
            is_signer: false,
            is_writable: true,
        }],
        data: payload,
    }
}

fn copy_record(rec: &MsInstruction) -> MsInstruction {
    MsInstruction {
        program_id: rec.program_id,
        keys: rec.keys.clone(),
        data: rec.data.clone(),
        instruction_index: rec.instruction_index,
        bump: rec.bump,
        executed: rec.executed,
    }
}

/// Drives a fresh transaction with one staged instruction to
/// `ExecuteReady` and returns everything the engine needs.
fn ready_to_execute(
    program: Identity,
    target: Identity,
    touched: Identity,
) -> (Ms, Identity, MsTransaction, Identity, MsInstruction) {
    let (mut ms, ms_key, a, b) = ready_registry(program);
    let mut tx = create_transaction(&mut ms, ms_key, a, 1, program).unwrap();
    let tx_key = derive_transaction_address(&ms_key, tx.transaction_index, &program).unwrap().0;
    let rec = add_instruction(
        &ms,
        ms_key,
        &mut tx,
        tx_key,
        staged_incoming(target, touched, vec![7, 8, 9]),
        a,
        program,
    )
    .unwrap();
    tx.activate();
    approve_transaction(&ms, ms_key, &mut tx, a).unwrap();
    approve_transaction(&ms, ms_key, &mut tx, b).unwrap();
    assert_eq!(tx.status, MsTransactionStatus::ExecuteReady);
    (ms, ms_key, tx, tx_key, rec)
}

#[test]
fn derivation_is_deterministic_and_moves_the_key() {
    let program = key(300);
    let ms_key = key(200);
    let first = derive_authority_address(&ms_key, 1, &program).unwrap();
    let second = derive_authority_address(&ms_key, 1, &program).unwrap();
    assert_eq!(first, second);
    // The derived authority is a fresh identity, not the seed handed in.
    assert_ne!(first.0, ms_key);
    assert_ne!(first.0, program);
    let other_index = derive_authority_address(&ms_key, 2, &program).unwrap();
    assert_ne!(first.0, other_index.0);
}

#[test]
fn created_transaction_carries_the_derived_bumps() {
    let program = key(300);
    let (mut ms, ms_key, a, _b) = ready_registry(program);
    let tx = create_transaction(&mut ms, ms_key, a, 1, program).unwrap();
    let authority = derive_authority_address(&ms_key, 1, &program).unwrap();
    assert_eq!(tx.authority_bump, authority.1);
    let tx_pda = derive_transaction_address(&ms_key, 1, &program).unwrap();
    assert_eq!(tx.bump, tx_pda.1);
    // Authority 0 copies the registry's own bump instead.
    let tx0 = create_transaction(&mut ms, ms_key, a, 0, program).unwrap();
    assert_eq!(tx0.authority_bump, ms.bump);
}

#[test]
fn batch_execution_validates_and_commits() {
    let program = key(300);
    let target = key(400);
    let touched = key(500);
    let (ms, ms_key, mut tx, tx_key, rec) = ready_to_execute(program, target, touched);
    let ix_key = derive_instruction_address(&tx_key, 1, &program).unwrap().0;
    let supplied = vec![
        account(ix_key, program),
        account(target, key(0)),
        account(touched, key(0)),
    ];
    let decoded = vec![Some(copy_record(&rec)), None, None];
    let account_list: Vec<u8> = vec![0, 1, 2];
    let member = key(1);
    let plan = execute_transaction(
        &ms,
        ms_key,
        &mut tx,
        member,
        &supplied,
        &decoded,
        &account_list,
        program,
    )
    .unwrap();
    assert_eq!(plan.len(), 1);
    assert_eq!(plan[0].program_id, target);
    assert_eq!(plan[0].data, vec![7, 8, 9]);
    assert_eq!(plan[0].accounts.len(), 1);
    assert_eq!(plan[0].accounts[0].pubkey, touched);
    assert!(!plan[0].use_registry_authority);
    assert_eq!(tx.status, MsTransactionStatus::ExecuteReady);
    let mut records = vec![rec];
    complete_execute_transaction(&mut tx, &mut records);
    assert_eq!(tx.status, MsTransactionStatus::Executed);
    assert_eq!(tx.executed_index, 1);
    assert!(records[0].executed);
}

#[test]
fn batch_aborts_on_account_key_mismatch() {
    // The supplied account for the record's declared key differs from
    // the declaration: the whole batch aborts with an account
    // mismatch and nothing changes.
    let program = key(300);
    let target = key(400);
    let touched = key(500);
    let (ms, ms_key, mut tx, tx_key, rec) = ready_to_execute(program, target, touched);
    let ix_key = derive_instruction_address(&tx_key, 1, &program).unwrap().0;
    let supplied = vec![
        account(ix_key, program),
        account(target, key(0)),
        account(key(999), key(0)),
    ];
    let decoded = vec![Some(copy_record(&rec)), None, None];
    let account_list: Vec<u8> = vec![0, 1, 2];
    let err = execute_transaction(
        &ms,
        ms_key,
        &mut tx,
        key(1),
        &supplied,
        &decoded,
        &account_list,
        program,
    )
    .unwrap_err();
    assert_eq!(err, MsError::InvalidInstructionAccount);
    assert_eq!(tx.status, MsTransactionStatus::ExecuteReady);
    assert_eq!(tx.executed_index, 0);
    assert!(!rec.executed);
}

#[test]
fn batch_aborts_on_forged_record_account() {
    // The record's account is not at the derived storage address.
    let program = key(300);
    let (ms, ms_key, mut tx, _tx_key, rec) = ready_to_execute(program, key(400), key(500));
    let supplied = vec![
        account(key(777), program),
        account(key(400), key(0)),
        account(key(500), key(0)),
    ];
    let decoded = vec![Some(copy_record(&rec)), None, None];
    let err = execute_transaction(
        &ms,
        ms_key,
        &mut tx,
        key(1),
        &supplied,
        &decoded,
        &vec![0, 1, 2],
        program,
    )
    .unwrap_err();
    assert_eq!(err, MsError::InvalidInstructionAccount);
}

#[test]
fn batch_aborts_on_foreign_owner() {
    let program = key(300);
    let (ms, ms_key, mut tx, tx_key, rec) = ready_to_execute(program, key(400), key(500));
    let ix_key = derive_instruction_address(&tx_key, 1, &program).unwrap().0;
    let supplied = vec![
        account(ix_key, key(666)),
        account(key(400), key(0)),
        account(key(500), key(0)),
    ];
    let decoded = vec![Some(copy_record(&rec)), None, None];
    let err = execute_transaction(
        &ms,
        ms_key,
        &mut tx,
        key(1),
        &supplied,
        &decoded,
        &vec![0, 1, 2],
        program,
    )
    .unwrap_err();
    assert_eq!(err, MsError::InvalidInstructionAccount);
}

#[test]
fn batch_aborts_on_short_account_list() {
    let program = key(300);
    let (ms, ms_key, mut tx, tx_key, rec) = ready_to_execute(program, key(400), key(500));
    let ix_key = derive_instruction_address(&tx_key, 1, &program).unwrap().0;
    let supplied = vec![account(ix_key, program), account(key(400), key(0))];
    let decoded = vec![Some(copy_record(&rec)), None];
    let err = execute_transaction(
        &ms,
        ms_key,
        &mut tx,
        key(1),
        &supplied,
        &decoded,
        &vec![0, 1],
        program,
    )
    .unwrap_err();
    assert_eq!(err, MsError::InvalidNumberOfAccounts);
}

#[test]
fn empty_transaction_executes_immediately_and_only_once() {
    let program = key(300);
    let (mut ms, ms_key, a, b) = ready_registry(program);
    let mut tx = create_transaction(&mut ms, ms_key, a, 1, program).unwrap();
    tx.activate();
    approve_transaction(&ms, ms_key, &mut tx, a).unwrap();
    approve_transaction(&ms, ms_key, &mut tx, b).unwrap();
    let supplied: Vec<SuppliedAccount> = vec![];
    let decoded: Vec<Option<MsInstruction>> = vec![];
    let plan = execute_transaction(
        &ms,
        ms_key,
        &mut tx,
        a,
        &supplied,
        &decoded,
        &vec![],
        program,
    )
    .unwrap();
    assert!(plan.is_empty());
    assert_eq!(tx.status, MsTransactionStatus::Executed);
    // Executing an executed transaction is a state mismatch, never a
    // second dispatch.
    let err = execute_transaction(
        &ms,
        ms_key,
        &mut tx,
        a,
        &supplied,
        &decoded,
        &vec![],
        program,
    )
    .unwrap_err();
    assert_eq!(err, MsError::InvalidTransactionState);
}

#[test]
fn external_execution_needs_the_flag() {
    let program = key(300);
    let (mut ms, ms_key, a, b) = ready_registry(program);
    let mut tx = create_transaction(&mut ms, ms_key, a, 1, program).unwrap();
    tx.activate();
    approve_transaction(&ms, ms_key, &mut tx, a).unwrap();
    approve_transaction(&ms, ms_key, &mut tx, b).unwrap();
    let outsider = key(9);
    let err = execute_transaction(
        &ms,
        ms_key,
        &mut tx,
        outsider,
        &vec![],
        &vec![],
        &vec![],
        program,
    )
    .unwrap_err();
    assert_eq!(err, MsError::KeyNotInMultisig);
    set_external_execute(&mut ms, true).unwrap();
    execute_transaction(&ms, ms_key, &mut tx, outsider, &vec![], &vec![], &vec![], program)
        .unwrap();
    assert_eq!(tx.status, MsTransactionStatus::Executed);
}

#[test]
fn reentrant_governance_payload_is_refused() {
    // An authority-0 batch may only target the core program, and its
    // payload must not re-enter an execution operation.
    let program = key(300);
    let (mut ms, ms_key, a, b) = ready_registry(program);
    let mut tx = create_transaction(&mut ms, ms_key, a, 0, program).unwrap();
    let tx_key = derive_transaction_address(&ms_key, tx.transaction_index, &program).unwrap().0;
    let reentrant = vec![0xe7, 0xad, 0x31, 0x5b, 0xeb, 0x18, 0x44, 0x13];
    let rec = add_instruction(
        &ms,
        ms_key,
        &mut tx,
        tx_key,
        staged_incoming(program, key(500), reentrant),
        a,
        program,
    )
    .unwrap();
    tx.activate();
    approve_transaction(&ms, ms_key, &mut tx, a).unwrap();
    approve_transaction(&ms, ms_key, &mut tx, b).unwrap();
    let ix_key = derive_instruction_address(&tx_key, 1, &program).unwrap().0;
    let supplied = vec![
        account(ix_key, program),
        account(program, key(0)),
        account(key(500), key(0)),
    ];
    let decoded = vec![Some(copy_record(&rec)), None, None];
    let err = execute_transaction(
        &ms,
        ms_key,
        &mut tx,
        a,
        &supplied,
        &decoded,
        &vec![0, 1, 2],
        program,
    )
    .unwrap_err();
    assert_eq!(err, MsError::InvalidAuthorityIndex);
    assert_eq!(tx.status, MsTransactionStatus::ExecuteReady);
}

#[test]
fn governance_instruction_must_target_the_core_program() {
    let program = key(300);
    let (mut ms, ms_key, a, _b) = ready_registry(program);
    let mut tx = create_transaction(&mut ms, ms_key, a, 0, program).unwrap();
    let tx_key = derive_transaction_address(&ms_key, tx.transaction_index, &program).unwrap().0;
    let err = add_instruction(
        &ms,
        ms_key,
        &mut tx,
        tx_key,
        staged_incoming(key(400), key(500), vec![1]),
        a,
        program,
    )
    .unwrap_err();
    assert_eq!(err, MsError::InvalidAuthorityIndex);
    assert_eq!(tx.instruction_index, 0);
}

#[test]
fn attach_requires_draft_and_creator() {
    let program = key(300);
    let (mut ms, ms_key, a, b) = ready_registry(program);
    let mut tx = create_transaction(&mut ms, ms_key, a, 1, program).unwrap();
    let tx_key = derive_transaction_address(&ms_key, tx.transaction_index, &program).unwrap().0;
    let err = add_instruction(
        &ms,
        ms_key,
        &mut tx,
        tx_key,
        staged_incoming(key(400), key(500), vec![1]),
        b,
        program,
    )
    .unwrap_err();
    assert_eq!(err, MsError::KeyNotInMultisig);
    tx.activate();
    let err = add_instruction(
        &ms,
        ms_key,
        &mut tx,
        tx_key,
        staged_incoming(key(400), key(500), vec![1]),
        a,
        program,
    )
    .unwrap_err();
    assert_eq!(err, MsError::InvalidTransactionState);
}

#[test]
fn staging_round_trip_counts_in_order() {
    let program = key(300);
    let (mut ms, ms_key, a, _b) = ready_registry(program);
    let mut tx = create_transaction(&mut ms, ms_key, a, 1, program).unwrap();
    let tx_key = derive_transaction_address(&ms_key, tx.transaction_index, &program).unwrap().0;
    let mut records = Vec::new();
    for n in 0..4u8 {
        let rec = add_instruction(
            &ms,
            ms_key,
            &mut tx,
            tx_key,
            staged_incoming(key(400), key(500 + n as u64), vec![n]),
            a,
            program,
        )
        .unwrap();
        records.push(rec);
    }
    assert_eq!(tx.instruction_index, 4);
    for (pos, rec) in records.iter().enumerate() {
        assert_eq!(rec.instruction_index as usize, pos + 1);
    }
}

#[test]
fn sequential_execution_is_strictly_in_order() {
    let program = key(300);
    let target = key(400);
    let (mut ms, ms_key, a, b) = ready_registry(program);
    let mut tx = create_transaction(&mut ms, ms_key, a, 1, program).unwrap();
    let tx_key = derive_transaction_address(&ms_key, tx.transaction_index, &program).unwrap().0;
    let mut rec1 = add_instruction(
        &ms,
        ms_key,
        &mut tx,
        tx_key,
        staged_incoming(target, key(500), vec![1]),
        a,
        program,
    )
    .unwrap();
    let mut rec2 = add_instruction(
        &ms,
        ms_key,
        &mut tx,
        tx_key,
        staged_incoming(target, key(501), vec![2]),
        a,
        program,
    )
    .unwrap();
    tx.activate();
    approve_transaction(&ms, ms_key, &mut tx, a).unwrap();
    approve_transaction(&ms, ms_key, &mut tx, b).unwrap();
    let ix1_key = derive_instruction_address(&tx_key, 1, &program).unwrap().0;
    let ix2_key = derive_instruction_address(&tx_key, 2, &program).unwrap().0;
    // The second record is refused while the first is pending.
    let err = execute_instruction(
        &ms,
        ms_key,
        &tx,
        &rec2,
        ix2_key,
        program,
        a,
        &vec![account(target, key(0)), account(key(501), key(0))],
        program,
    )
    .unwrap_err();
    assert_eq!(err, MsError::InvalidInstructionAccount);
    let plan = execute_instruction(
        &ms,
        ms_key,
        &tx,
        &rec1,
        ix1_key,
        program,
        a,
        &vec![account(target, key(0)), account(key(500), key(0))],
        program,
    )
    .unwrap();
    assert_eq!(plan.program_id, target);
    assert_eq!(plan.data, vec![1]);
    complete_execute_instruction(&mut tx, &mut rec1);
    assert!(rec1.executed);
    assert_eq!(tx.executed_index, 1);
    assert_eq!(tx.status, MsTransactionStatus::ExecuteReady);
    // Once sequential execution began, the atomic path is refused.
    let err = execute_transaction(
        &ms,
        ms_key,
        &mut tx,
        a,
        &vec![],
        &vec![],
        &vec![],
        program,
    )
    .unwrap_err();
    assert_eq!(err, MsError::PartialExecution);
    let plan2 = execute_instruction(
        &ms,
        ms_key,
        &tx,
        &rec2,
        ix2_key,
        program,
        a,
        &vec![account(target, key(0)), account(key(501), key(0))],
        program,
    )
    .unwrap();
    assert_eq!(plan2.data, vec![2]);
    complete_execute_instruction(&mut tx, &mut rec2);
    assert_eq!(tx.executed_index, 2);
    assert_eq!(tx.status, MsTransactionStatus::Executed);
}

#[test]
fn sequential_execution_refuses_authority_zero() {
    let program = key(300);
    let (mut ms, ms_key, a, b) = ready_registry(program);
    let mut tx = create_transaction(&mut ms, ms_key, a, 0, program).unwrap();
    let tx_key = derive_transaction_address(&ms_key, tx.transaction_index, &program).unwrap().0;
    let rec = add_instruction(
        &ms,
        ms_key,
        &mut tx,
        tx_key,
        staged_incoming(program, key(500), vec![1]),
        a,
        program,
    )
    .unwrap();
    tx.activate();
    approve_transaction(&ms, ms_key, &mut tx, a).unwrap();
    approve_transaction(&ms, ms_key, &mut tx, b).unwrap();
    let ix_key = derive_instruction_address(&tx_key, 1, &program).unwrap().0;
    let err = execute_instruction(
        &ms,
        ms_key,
        &tx,
        &rec,
        ix_key,
        program,
        a,
        &vec![account(program, key(0)), account(key(500), key(0))],
        program,
    )
    .unwrap_err();
    assert_eq!(err, MsError::InvalidAuthorityIndex);
}
