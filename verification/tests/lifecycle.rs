//! Registry and transaction lifecycle behavior.

use squads_mpl::errors::MsError;
use squads_mpl::identity::Identity;
use squads_mpl::ms::Ms;
use squads_mpl::ops::{
    add_authority, add_member, add_member_and_change_threshold, approve_transaction,
    cancel_transaction, change_threshold, create, create_transaction, reject_transaction,
    remove_member, remove_member_and_change_threshold, set_external_execute,
};
use squads_mpl::transaction::MsTransactionStatus;

fn key(tag: u64) -> Identity {
    Identity {
        w0: 0,
        w1: 0,
        w2: 0,
        w3: tag,
    }
}

fn three_member_registry() -> (Ms, Identity, Identity, Identity) {
    let a = key(1);
    let b = key(2);
    let c = key(3);
    let ms = create(2, key(100), vec![c, a, b], 254).unwrap();
    (ms, a, b, c)
}

#[test]
fn create_sorts_and_dedups() {
    let a = key(1);
    let b = key(2);
    let ms = create(2, key(100), vec![b, a, b, a], 254).unwrap();
    assert_eq!(ms.keys, vec![a, b]);
    assert_eq!(ms.threshold, 2);
    assert_eq!(ms.authority_index, 1);
    assert_eq!(ms.transaction_index, 0);
    assert_eq!(ms.ms_change_index, 0);
    assert!(!ms.allow_external_execute);
    assert_eq!(ms.key_capacity, 2);
}

#[test]
fn create_rejects_empty_members() {
    assert_eq!(create(1, key(100), vec![], 254).unwrap_err(), MsError::EmptyMembers);
}

#[test]
fn create_rejects_bad_thresholds() {
    let a = key(1);
    let b = key(2);
    assert_eq!(
        create(0, key(100), vec![a, b], 254).unwrap_err(),
        MsError::InvalidThreshold
    );
    assert_eq!(
        create(3, key(100), vec![a, b], 254).unwrap_err(),
        MsError::InvalidThreshold
    );
    // Duplicates collapse before the threshold is checked.
    assert_eq!(
        create(2, key(100), vec![a, a], 254).unwrap_err(),
        MsError::InvalidThreshold
    );
}

#[test]
fn membership_lookup() {
    let (ms, a, b, c) = three_member_registry();
    assert!(ms.is_member(a).is_some());
    assert!(ms.is_member(b).is_some());
    assert!(ms.is_member(c).is_some());
    assert!(ms.is_member(key(9)).is_none());
}

#[test]
fn approve_reaches_quorum_exactly_at_threshold() {
    let (mut ms, a, b, _c) = three_member_registry();
    let ms_key = key(200);
    let program = key(300);
    let mut tx = create_transaction(&mut ms, ms_key, a, 1, program).unwrap();
    assert_eq!(ms.transaction_index, 1);
    assert_eq!(tx.transaction_index, 1);
    assert_eq!(tx.status, MsTransactionStatus::Draft);
    tx.activate();
    approve_transaction(&ms, ms_key, &mut tx, b).unwrap();
    assert_eq!(tx.status, MsTransactionStatus::Active);
    assert_eq!(tx.approved.len(), 1);
    approve_transaction(&ms, ms_key, &mut tx, a).unwrap();
    assert_eq!(tx.status, MsTransactionStatus::ExecuteReady);
    assert_eq!(tx.approved.len(), 2);
}

#[test]
fn approve_is_idempotent() {
    let (mut ms, a, b, _c) = three_member_registry();
    let ms_key = key(200);
    let mut tx = create_transaction(&mut ms, ms_key, a, 1, key(300)).unwrap();
    tx.activate();
    approve_transaction(&ms, ms_key, &mut tx, b).unwrap();
    approve_transaction(&ms, ms_key, &mut tx, b).unwrap();
    assert_eq!(tx.approved.len(), 1);
    assert_eq!(tx.status, MsTransactionStatus::Active);
}

#[test]
fn vote_switching_moves_the_vote() {
    let (mut ms, a, b, _c) = three_member_registry();
    let ms_key = key(200);
    let mut tx = create_transaction(&mut ms, ms_key, a, 1, key(300)).unwrap();
    tx.activate();
    approve_transaction(&ms, ms_key, &mut tx, b).unwrap();
    reject_transaction(&ms, ms_key, &mut tx, b).unwrap();
    assert_eq!(tx.approved.len(), 0);
    assert_eq!(tx.rejected.len(), 1);
    approve_transaction(&ms, ms_key, &mut tx, b).unwrap();
    assert_eq!(tx.approved.len(), 1);
    assert_eq!(tx.rejected.len(), 0);
}

#[test]
fn rejections_past_cutoff_reject_the_transaction() {
    // Members {A, B, C}, threshold 2: the cutoff is 3 - 2 = 1, so the
    // second rejection flips the record.
    let (mut ms, a, b, c) = three_member_registry();
    let ms_key = key(200);
    let mut tx = create_transaction(&mut ms, ms_key, a, 1, key(300)).unwrap();
    assert_eq!(tx.transaction_index, 1);
    tx.activate();
    reject_transaction(&ms, ms_key, &mut tx, c).unwrap();
    assert_eq!(tx.status, MsTransactionStatus::Active);
    reject_transaction(&ms, ms_key, &mut tx, b).unwrap();
    assert_eq!(tx.status, MsTransactionStatus::Rejected);
    assert_eq!(tx.rejected.len(), 2);
}

#[test]
fn votes_require_membership_and_active_status() {
    let (mut ms, a, _b, _c) = three_member_registry();
    let ms_key = key(200);
    let mut tx = create_transaction(&mut ms, ms_key, a, 1, key(300)).unwrap();
    assert_eq!(
        approve_transaction(&ms, ms_key, &mut tx, a).unwrap_err(),
        MsError::InvalidTransactionState
    );
    tx.activate();
    assert_eq!(
        approve_transaction(&ms, ms_key, &mut tx, key(9)).unwrap_err(),
        MsError::KeyNotInMultisig
    );
    assert_eq!(
        approve_transaction(&ms, key(201), &mut tx, a).unwrap_err(),
        MsError::InvalidInstructionAccount
    );
}

#[test]
fn creation_requires_membership() {
    let (mut ms, _a, _b, _c) = three_member_registry();
    assert_eq!(
        create_transaction(&mut ms, key(200), key(9), 1, key(300)).unwrap_err(),
        MsError::KeyNotInMultisig
    );
    assert_eq!(ms.transaction_index, 0);
}

#[test]
fn membership_change_deprecates_open_transactions() {
    // Members {A, B, C, D}, threshold 3. The third record is created
    // and activated, then a membership change stamps the change index
    // to 3; the record's own index 3 is not above 3, so every further
    // vote fails as stale.
    let a = key(1);
    let b = key(2);
    let c = key(3);
    let d = key(4);
    let mut ms = create(3, key(100), vec![a, b, c, d], 254).unwrap();
    let ms_key = key(200);
    let program = key(300);
    let _tx1 = create_transaction(&mut ms, ms_key, a, 1, program).unwrap();
    let _tx2 = create_transaction(&mut ms, ms_key, a, 1, program).unwrap();
    let mut tx3 = create_transaction(&mut ms, ms_key, a, 1, program).unwrap();
    assert_eq!(tx3.transaction_index, 3);
    tx3.activate();
    remove_member(&mut ms, d).unwrap();
    assert_eq!(ms.ms_change_index, 3);
    assert_eq!(
        approve_transaction(&ms, ms_key, &mut tx3, a).unwrap_err(),
        MsError::DeprecatedTransaction
    );
    // Re-adding the removed member does not resurrect the record.
    add_member(&mut ms, d, 10, 10).unwrap();
    assert_eq!(
        approve_transaction(&ms, ms_key, &mut tx3, a).unwrap_err(),
        MsError::DeprecatedTransaction
    );
}

#[test]
fn add_member_without_spare_slots_needs_funding() {
    // The registry is created with exactly as many slots as members;
    // growing by a chunk of ten slots needs the account to hold the
    // rent for the grown size.
    let (mut ms, _a, _b, _c) = three_member_registry();
    assert_eq!(ms.key_capacity, 3);
    let before = ms.keys.clone();
    assert_eq!(
        add_member(&mut ms, key(5), 9, 10).unwrap_err(),
        MsError::NotEnoughLamports
    );
    assert_eq!(ms.keys, before);
    assert_eq!(ms.key_capacity, 3);
    add_member(&mut ms, key(5), 10, 10).unwrap();
    assert_eq!(ms.keys.len(), 4);
    assert_eq!(ms.key_capacity, 13);
    assert_eq!(ms.ms_change_index, ms.transaction_index);
}

#[test]
fn remove_sole_member_is_refused() {
    let a = key(1);
    let mut ms = create(1, key(100), vec![a], 254).unwrap();
    assert_eq!(
        remove_member(&mut ms, a).unwrap_err(),
        MsError::CannotRemoveSoloMember
    );
    assert_eq!(ms.keys, vec![a]);
    assert_eq!(ms.threshold, 1);
}

#[test]
fn remove_member_clamps_threshold() {
    let (mut ms, _a, _b, c) = three_member_registry();
    let mut ms3 = create(3, key(100), vec![key(1), key(2), c], 254).unwrap();
    remove_member(&mut ms3, c).unwrap();
    assert_eq!(ms3.keys.len(), 2);
    assert_eq!(ms3.threshold, 2);
    // Removing an absent key still stamps the change index.
    remove_member(&mut ms, key(9)).unwrap();
    assert_eq!(ms.keys.len(), 3);
    assert_eq!(ms.threshold, 2);
}

#[test]
fn change_threshold_clamps_and_rejects_zero() {
    let (mut ms, _a, _b, _c) = three_member_registry();
    assert_eq!(change_threshold(&mut ms, 0).unwrap_err(), MsError::InvalidThreshold);
    change_threshold(&mut ms, 5).unwrap();
    assert_eq!(ms.threshold, 3);
    change_threshold(&mut ms, 1).unwrap();
    assert_eq!(ms.threshold, 1);
}

#[test]
fn combined_mutators_apply_both_steps() {
    let (mut ms, _a, b, _c) = three_member_registry();
    add_member_and_change_threshold(&mut ms, key(5), 4, 10, 10).unwrap();
    assert_eq!(ms.keys.len(), 4);
    assert_eq!(ms.threshold, 4);
    remove_member_and_change_threshold(&mut ms, b, 0).unwrap_err();
    assert_eq!(ms.keys.len(), 4);
    remove_member_and_change_threshold(&mut ms, b, 2).unwrap();
    assert_eq!(ms.keys.len(), 3);
    assert_eq!(ms.threshold, 2);
}

#[test]
fn cancel_needs_quorum() {
    let (mut ms, a, b, c) = three_member_registry();
    let ms_key = key(200);
    let mut tx = create_transaction(&mut ms, ms_key, a, 1, key(300)).unwrap();
    tx.activate();
    assert_eq!(
        cancel_transaction(&ms, ms_key, &mut tx, a).unwrap_err(),
        MsError::InvalidTransactionState
    );
    approve_transaction(&ms, ms_key, &mut tx, a).unwrap();
    approve_transaction(&ms, ms_key, &mut tx, b).unwrap();
    assert_eq!(tx.status, MsTransactionStatus::ExecuteReady);
    cancel_transaction(&ms, ms_key, &mut tx, c).unwrap();
    assert_eq!(tx.status, MsTransactionStatus::ExecuteReady);
    cancel_transaction(&ms, ms_key, &mut tx, c).unwrap();
    assert_eq!(tx.cancelled.len(), 1);
    cancel_transaction(&ms, ms_key, &mut tx, a).unwrap();
    assert_eq!(tx.status, MsTransactionStatus::Cancelled);
}

#[test]
fn authority_counter_and_external_execute_flag() {
    let (mut ms, _a, _b, _c) = three_member_registry();
    add_authority(&mut ms).unwrap();
    assert_eq!(ms.authority_index, 2);
    set_external_execute(&mut ms, true).unwrap();
    assert!(ms.allow_external_execute);
}

#[test]
fn transaction_counter_is_strictly_increasing() {
    let (mut ms, a, _b, _c) = three_member_registry();
    let ms_key = key(200);
    let program = key(300);
    let tx1 = create_transaction(&mut ms, ms_key, a, 1, program).unwrap();
    let tx2 = create_transaction(&mut ms, ms_key, a, 1, program).unwrap();
    let tx3 = create_transaction(&mut ms, ms_key, a, 1, program).unwrap();
    assert_eq!(tx1.transaction_index, 1);
    assert_eq!(tx2.transaction_index, 2);
    assert_eq!(tx3.transaction_index, 3);
    assert_eq!(ms.transaction_index, 3);
}
