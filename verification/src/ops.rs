//! The externally invocable operations of the multisig core.
//!
//! Each operation checks its guards in the same order the hosting
//! environment would, mutates nothing when a guard fails, and states in
//! its contract exactly which error each input produces and how the
//! records change on success.

use vstd::prelude::*;

use crate::errors::MsError;
use crate::identity::Identity;
use crate::instruction::{IncomingInstruction, MsInstruction};
use crate::keylist::{insert_key, key_set, lemma_sorted_len_is_card, sorted_unique};
use crate::ms::Ms;
use crate::pda::{derive_authority_address, derive_transaction_address, pda_identity};
use crate::seeds::{authority_seeds, transaction_seeds};
use crate::transaction::{MsTransaction, MsTransactionStatus};

verus! {

/// A transaction record is stale once its index is at or below the
/// registry's change index.
pub open spec fn is_stale(ms: Ms, tx: MsTransaction) -> bool {
    tx.transaction_index <= ms.ms_change_index
}

/// Creates a registry: deduplicates and sorts the member list, then
/// validates the threshold against the distinct member count.
pub fn create(threshold: u16, create_key: Identity, members: Vec<Identity>, bump: u8) -> (r:
    Result<Ms, MsError>)
    ensures
        (r is Ok) <==> (1 <= members@.to_set().len() <= 0xffff && 1 <= threshold as int
            <= members@.to_set().len()),
        match r {
            Ok(ms) => {
                &&& ms.wf()
                &&& ms.member_set() == members@.to_set()
                &&& ms.keys@.len() == members@.to_set().len()
                &&& 1 <= members@.to_set().len() <= 0xffff
                &&& 1 <= threshold as int <= members@.to_set().len()
                &&& ms.threshold == threshold
                &&& ms.authority_index == 1
                &&& ms.transaction_index == 0
                &&& ms.ms_change_index == 0
                &&& ms.bump == bump
                &&& ms.create_key == create_key
                &&& !ms.allow_external_execute
            },
            Err(e) => {
                &&& e == MsError::EmptyMembers <==> members@.to_set().len() == 0
                &&& e == MsError::MaxMembersReached <==> members@.to_set().len() > 0xffff
                &&& e == MsError::InvalidThreshold <==> (1 <= members@.to_set().len() <= 0xffff
                    && !(1 <= threshold as int <= members@.to_set().len()))
            },
        },
{
    let mut uniq: Vec<Identity> = Vec::new();
    let mut i: usize = 0;
    while i < members.len()
        invariant
            i <= members@.len(),
            sorted_unique(uniq@),
            uniq@.len() <= i,
            key_set(uniq@) == members@.take(i as int).to_set(),
        decreases members@.len() - i,
    {
        proof {
            let prefix = members@.take(i as int);
            let next = members@.take(i + 1);
            assert(key_set(uniq@).insert(members@[i as int]) =~= next.to_set()) by {
                assert forall|y: Identity|
                    prefix.to_set().insert(members@[i as int]).contains(y) implies next.to_set()
                    .contains(y) by {
                    if prefix.contains(y) {
                        let k = choose|k: int| 0 <= k < prefix.len() && prefix[k] == y;
                        assert(next[k] == y);
                    } else {
                        assert(next[i as int] == y);
                    }
                }
                assert forall|y: Identity| next.to_set().contains(y) implies prefix.to_set().insert(
                    members@[i as int],
                ).contains(y) by {
                    let k = choose|k: int| 0 <= k < next.len() && next[k] == y;
                    if k < i {
                        assert(prefix[k] == y);
                    }
                }
            }
        }
        insert_key(&mut uniq, members[i]);
        i = i + 1;
    }
    proof {
        assert(members@.take(members@.len() as int) =~= members@);
        lemma_sorted_len_is_card(uniq@);
    }
    let total_members = uniq.len();
    if total_members < 1 {
        return Err(MsError::EmptyMembers);
    }
    if total_members > 0xffff {
        return Err(MsError::MaxMembersReached);
    }
    if threshold < 1 || threshold as usize > total_members {
        return Err(MsError::InvalidThreshold);
    }
    Ok(Ms::init(threshold, create_key, uniq, bump))
}

/// How many member slots a reallocation adds at a time.
pub const REALLOC_CHUNK: usize = 10;

/// Adds a member. When the backing storage has no spare slot, the
/// operation first grows it by [`REALLOC_CHUNK`] slots, which requires
/// the account to hold at least the rent for the grown size.
///
/// `lamports` is the balance of the registry's account and
/// `rent_for_grown_size` the balance the host demands for the account
/// after growing; both are facts of the hosting environment.
pub fn add_member(
    ms: &mut Ms,
    new_member: Identity,
    lamports: u64,
    rent_for_grown_size: u64,
) -> (r: Result<(), MsError>)
    requires
        old(ms).wf(),
        old(ms).key_capacity + REALLOC_CHUNK <= usize::MAX,
    ensures
        final(ms).wf(),
        (r is Ok) <==> (old(ms).keys@.len() < 0xffff && (old(ms).keys@.len() < old(
            ms,
        ).key_capacity || rent_for_grown_size <= lamports)),
        match r {
            Ok(()) => {
                &&& final(ms).member_set() == old(ms).member_set().insert(new_member)
                &&& final(ms).spec_is_member(new_member)
                &&& final(ms).key_capacity == if old(ms).keys@.len() < old(ms).key_capacity {
                    old(ms).key_capacity
                } else {
                    (old(ms).key_capacity + REALLOC_CHUNK) as usize
                }
                &&& *final(ms) == (Ms {
                    keys: final(ms).keys,
                    key_capacity: final(ms).key_capacity,
                    ms_change_index: old(ms).transaction_index,
                    ..*old(ms)
                })
            },
            Err(e) => {
                &&& *final(ms) == *old(ms)
                &&& e == MsError::MaxMembersReached <==> old(ms).keys@.len() >= 0xffff
                &&& e == MsError::NotEnoughLamports <==> (old(ms).keys@.len() < 0xffff && old(
                    ms,
                ).keys@.len() >= old(ms).key_capacity && rent_for_grown_size > lamports)
            },
        },
{
    if ms.keys.len() >= 0xffff {
        return Err(MsError::MaxMembersReached);
    }
    if ms.keys.len() >= ms.key_capacity {
        // No spare slot: grow the storage by one chunk, which the
        // account must already be funded for.
        if rent_for_grown_size > lamports {
            return Err(MsError::NotEnoughLamports);
        }
        ms.grow_capacity(REALLOC_CHUNK);
    }
    ms.add_member(new_member);
    let new_index = ms.transaction_index;
    ms.set_change_index(new_index);
    Ok(())
}

/// Removes a member. Refuses to empty the registry; clamps the
/// threshold down to the shrunken member count when needed. Always
/// stamps the change index on success, even when the key was absent.
pub fn remove_member(ms: &mut Ms, old_member: Identity) -> (r: Result<(), MsError>)
    requires
        old(ms).wf(),
    ensures
        final(ms).wf(),
        (r is Ok) <==> old(ms).keys@.len() > 1,
        match r {
            Ok(()) => {
                &&& final(ms).member_set() == old(ms).member_set().remove(old_member)
                &&& !final(ms).spec_is_member(old_member)
                &&& final(ms).threshold as int == if old(ms).spec_is_member(old_member) && old(
                    ms,
                ).keys@.len() - 1 < old(ms).threshold as int {
                    old(ms).keys@.len() - 1
                } else {
                    old(ms).threshold as int
                }
                &&& *final(ms) == (Ms {
                    keys: final(ms).keys,
                    threshold: final(ms).threshold,
                    ms_change_index: old(ms).transaction_index,
                    ..*old(ms)
                })
            },
            Err(e) => {
                &&& *final(ms) == *old(ms)
                &&& e == MsError::CannotRemoveSoloMember
            },
        },
{
    if ms.keys.len() == 1 {
        return Err(MsError::CannotRemoveSoloMember);
    }
    ms.remove_member(old_member);
    let new_index = ms.transaction_index;
    ms.set_change_index(new_index);
    Ok(())
}

/// Changes the threshold: refuses zero, clamps values above the member
/// count down to it, and stamps the change index.
pub fn change_threshold(ms: &mut Ms, new_threshold: u16) -> (r: Result<(), MsError>)
    requires
        old(ms).wf(),
    ensures
        final(ms).wf(),
        (r is Ok) <==> new_threshold >= 1,
        match r {
            Ok(()) => {
                &&& final(ms).threshold as int == if new_threshold as int <= old(
                    ms,
                ).keys@.len() {
                    new_threshold as int
                } else {
                    old(ms).keys@.len() as int
                }
                &&& *final(ms) == (Ms {
                    threshold: final(ms).threshold,
                    ms_change_index: old(ms).transaction_index,
                    ..*old(ms)
                })
            },
            Err(e) => {
                &&& *final(ms) == *old(ms)
                &&& e == MsError::InvalidThreshold
            },
        },
{
    if new_threshold < 1 {
        return Err(MsError::InvalidThreshold);
    }
    if (ms.keys.len() as u64) < (new_threshold as u64) {
        let clamped = ms.keys.len() as u16;
        ms.change_threshold(clamped);
    } else {
        ms.change_threshold(new_threshold);
    }
    let new_index = ms.transaction_index;
    ms.set_change_index(new_index);
    Ok(())
}

/// Adds a member and then applies a new threshold against the grown
/// member count, with the same clamping as [`change_threshold`].
pub fn add_member_and_change_threshold(
    ms: &mut Ms,
    new_member: Identity,
    new_threshold: u16,
    lamports: u64,
    rent_for_grown_size: u64,
) -> (r: Result<(), MsError>)
    requires
        old(ms).wf(),
        old(ms).key_capacity + REALLOC_CHUNK <= usize::MAX,
    ensures
        final(ms).wf(),
        (r is Ok) <==> (old(ms).keys@.len() < 0xffff && (old(ms).keys@.len() < old(
            ms,
        ).key_capacity || rent_for_grown_size <= lamports) && new_threshold >= 1),
        match r {
            Ok(()) => {
                &&& final(ms).member_set() == old(ms).member_set().insert(new_member)
                &&& final(ms).spec_is_member(new_member)
                &&& final(ms).threshold as int == if new_threshold as int <= final(ms).keys@.len() {
                    new_threshold as int
                } else {
                    final(ms).keys@.len() as int
                }
                &&& final(ms).key_capacity == if old(ms).keys@.len() < old(ms).key_capacity {
                    old(ms).key_capacity
                } else {
                    (old(ms).key_capacity + REALLOC_CHUNK) as usize
                }
                &&& *final(ms) == (Ms {
                    keys: final(ms).keys,
                    threshold: final(ms).threshold,
                    key_capacity: final(ms).key_capacity,
                    ms_change_index: old(ms).transaction_index,
                    ..*old(ms)
                })
            },
            Err(e) => {
                &&& *final(ms) == *old(ms)
                &&& e == MsError::MaxMembersReached <==> old(ms).keys@.len() >= 0xffff
                &&& e == MsError::NotEnoughLamports <==> (old(ms).keys@.len() < 0xffff && old(
                    ms,
                ).keys@.len() >= old(ms).key_capacity && rent_for_grown_size > lamports)
                &&& e == MsError::InvalidThreshold <==> (old(ms).keys@.len() < 0xffff && (old(
                    ms,
                ).keys@.len() < old(ms).key_capacity || rent_for_grown_size <= lamports)
                    && new_threshold < 1)
            },
        },
{
    // Every guard of both steps is checked before either mutation, so
    // a failure leaves the registry untouched.
    if ms.keys.len() >= 0xffff {
        return Err(MsError::MaxMembersReached);
    }
    if ms.keys.len() >= ms.key_capacity && rent_for_grown_size > lamports {
        return Err(MsError::NotEnoughLamports);
    }
    if new_threshold < 1 {
        return Err(MsError::InvalidThreshold);
    }
    if ms.keys.len() >= ms.key_capacity {
        ms.grow_capacity(REALLOC_CHUNK);
    }
    ms.add_member(new_member);
    if (ms.keys.len() as u64) < (new_threshold as u64) {
        let clamped = ms.keys.len() as u16;
        ms.change_threshold(clamped);
    } else {
        ms.change_threshold(new_threshold);
    }
    let new_index = ms.transaction_index;
    ms.set_change_index(new_index);
    Ok(())
}

/// Removes a member and then applies a new threshold against the
/// shrunken member count, with the same clamping as
/// [`change_threshold`].
pub fn remove_member_and_change_threshold(
    ms: &mut Ms,
    old_member: Identity,
    new_threshold: u16,
) -> (r: Result<(), MsError>)
    requires
        old(ms).wf(),
    ensures
        final(ms).wf(),
        (r is Ok) <==> (old(ms).keys@.len() > 1 && new_threshold >= 1),
        match r {
            Ok(()) => {
                &&& final(ms).member_set() == old(ms).member_set().remove(old_member)
                &&& !final(ms).spec_is_member(old_member)
                &&& final(ms).threshold as int == if new_threshold as int <= final(ms).keys@.len() {
                    new_threshold as int
                } else {
                    final(ms).keys@.len() as int
                }
                &&& *final(ms) == (Ms {
                    keys: final(ms).keys,
                    threshold: final(ms).threshold,
                    ms_change_index: old(ms).transaction_index,
                    ..*old(ms)
                })
            },
            Err(e) => {
                &&& *final(ms) == *old(ms)
                &&& e == MsError::CannotRemoveSoloMember <==> old(ms).keys@.len() == 1
                &&& e == MsError::InvalidThreshold <==> (old(ms).keys@.len() > 1 && new_threshold
                    < 1)
            },
        },
{
    if ms.keys.len() == 1 {
        return Err(MsError::CannotRemoveSoloMember);
    }
    if new_threshold < 1 {
        return Err(MsError::InvalidThreshold);
    }
    ms.remove_member(old_member);
    if (ms.keys.len() as u64) < (new_threshold as u64) {
        let clamped = ms.keys.len() as u16;
        ms.change_threshold(clamped);
    } else {
        ms.change_threshold(new_threshold);
    }
    let new_index = ms.transaction_index;
    ms.set_change_index(new_index);
    Ok(())
}

/// Bumps the registry's bookkeeping counter of derived authorities.
pub fn add_authority(ms: &mut Ms) -> (r: Result<(), MsError>)
    requires
        old(ms).authority_index < 0xffff,
    ensures
        r is Ok,
        *final(ms) == (Ms { authority_index: (old(ms).authority_index + 1) as u16, ..*old(ms) }),
{
    ms.add_authority();
    Ok(())
}

/// Toggles whether non-members may trigger execution.
pub fn set_external_execute(ms: &mut Ms, allow: bool) -> (r: Result<(), MsError>)
    ensures
        r is Ok,
        *final(ms) == (Ms { allow_external_execute: allow, ..*old(ms) }),
{
    ms.set_external_execute(allow);
    Ok(())
}

/// The guard chain of [`create_transaction`].
pub open spec fn create_transaction_guard(
    ms: Ms,
    ms_key: Identity,
    creator: Identity,
    authority_index: u16,
    program_id: Identity,
) -> Option<MsError> {
    if !ms.spec_is_member(creator) {
        Some(MsError::KeyNotInMultisig)
    } else if authority_index >= 1 && pda_identity(
        authority_seeds(ms_key, authority_index),
        program_id,
    ) is None {
        Some(MsError::InvalidAuthorityIndex)
    } else if pda_identity(
        transaction_seeds(ms_key, (ms.transaction_index + 1) as u32),
        program_id,
    ) is None {
        Some(MsError::InvalidInstructionAccount)
    } else {
        None
    }
}

/// Creates a transaction record: consumes the next counter value and
/// binds the record to an authority, whose bump seed is re-derived for
/// general authorities and copied from the registry for authority 0.
pub fn create_transaction(
    ms: &mut Ms,
    ms_key: Identity,
    creator: Identity,
    authority_index: u16,
    program_id: Identity,
) -> (r: Result<MsTransaction, MsError>)
    requires
        old(ms).wf(),
        old(ms).transaction_index < 0xffff_ffffu32,
    ensures
        final(ms).wf(),
        match r {
            Ok(tx) => {
                &&& create_transaction_guard(*old(ms), ms_key, creator, authority_index, program_id)
                    is None
                &&& *final(ms) == (Ms {
                    transaction_index: (old(ms).transaction_index + 1) as u32,
                    ..*old(ms)
                })
                &&& tx.wf()
                &&& tx.creator == creator
                &&& tx.ms == ms_key
                &&& tx.transaction_index == old(ms).transaction_index + 1
                &&& tx.authority_index == authority_index
                &&& tx.status == MsTransactionStatus::Draft
                &&& tx.instruction_index == 0
                &&& tx.executed_index == 0
                &&& tx.approved@.len() == 0
                &&& tx.rejected@.len() == 0
                &&& tx.cancelled@.len() == 0
                &&& (authority_index == 0 ==> tx.authority_bump == old(ms).bump)
                &&& (authority_index >= 1 ==> match pda_identity(
                    authority_seeds(ms_key, authority_index),
                    program_id,
                ) {
                    Some(p) => tx.authority_bump == p.1,
                    None => false,
                })
                &&& match pda_identity(
                    transaction_seeds(ms_key, tx.transaction_index),
                    program_id,
                ) {
                    Some(p) => tx.bump == p.1,
                    None => false,
                }
            },
            Err(e) => {
                &&& *final(ms) == *old(ms)
                &&& create_transaction_guard(*old(ms), ms_key, creator, authority_index, program_id)
                    == Some(e)
            },
        },
{
    if ms.is_member(creator).is_none() {
        return Err(MsError::KeyNotInMultisig);
    }
    let authority_bump: u8;
    if authority_index >= 1 {
        match derive_authority_address(&ms_key, authority_index, &program_id) {
            Some(p) => {
                authority_bump = p.1;
            },
            None => {
                return Err(MsError::InvalidAuthorityIndex);
            },
        }
    } else {
        authority_bump = ms.bump;
    }
    let next_index = ms.transaction_index + 1;
    let tx_bump: u8;
    match derive_transaction_address(&ms_key, next_index, &program_id) {
        Some(p) => {
            tx_bump = p.1;
        },
        None => {
            return Err(MsError::InvalidInstructionAccount);
        },
    }
    ms.transaction_index = next_index;
    Ok(
        MsTransaction::init(
            creator,
            ms_key,
            next_index,
            tx_bump,
            authority_index,
            authority_bump,
        ),
    )
}

/// The guard chain of [`activate_transaction`].
pub open spec fn activate_guard(
    ms: Ms,
    ms_key: Identity,
    tx: MsTransaction,
    creator: Identity,
) -> Option<MsError> {
    if tx.creator != creator {
        Some(MsError::KeyNotInMultisig)
    } else if tx.status != MsTransactionStatus::Draft {
        Some(MsError::InvalidTransactionState)
    } else if is_stale(ms, tx) {
        Some(MsError::DeprecatedTransaction)
    } else if tx.ms != ms_key {
        Some(MsError::InvalidInstructionAccount)
    } else if !ms.spec_is_member(creator) {
        Some(MsError::KeyNotInMultisig)
    } else {
        None
    }
}

/// Activates a draft transaction, opening it for votes.
pub fn activate_transaction(
    ms: &Ms,
    ms_key: Identity,
    tx: &mut MsTransaction,
    creator: Identity,
) -> (r: Result<(), MsError>)
    requires
        ms.wf(),
        old(tx).wf(),
    ensures
        final(tx).wf(),
        match r {
            Ok(()) => {
                &&& activate_guard(*ms, ms_key, *old(tx), creator) is None
                &&& *final(tx) == (MsTransaction {
                    status: MsTransactionStatus::Active,
                    ..*old(tx)
                })
            },
            Err(e) => {
                &&& *final(tx) == *old(tx)
                &&& activate_guard(*ms, ms_key, *old(tx), creator) == Some(e)
            },
        },
{
    if let Some(e) = check_activate_guard(ms, ms_key, tx, creator) {
        return Err(e);
    }
    tx.activate();
    Ok(())
}

/// Evaluates [`activate_guard`] in guard order.
fn check_activate_guard(ms: &Ms, ms_key: Identity, tx: &MsTransaction, creator: Identity) -> (r:
    Option<MsError>)
    requires
        ms.wf(),
        tx.wf(),
    ensures
        r == activate_guard(*ms, ms_key, *tx, creator),
{
    if !(tx.creator == creator) {
        Some(MsError::KeyNotInMultisig)
    } else if !(tx.status == MsTransactionStatus::Draft) {
        Some(MsError::InvalidTransactionState)
    } else if tx.transaction_index <= ms.ms_change_index {
        Some(MsError::DeprecatedTransaction)
    } else if !(tx.ms == ms_key) {
        Some(MsError::InvalidInstructionAccount)
    } else if ms.is_member(creator).is_none() {
        Some(MsError::KeyNotInMultisig)
    } else {
        None
    }
}

/// The guard chain shared by [`approve_transaction`] and
/// [`reject_transaction`].
pub open spec fn vote_guard(
    ms: Ms,
    ms_key: Identity,
    tx: MsTransaction,
    member: Identity,
) -> Option<MsError> {
    if tx.status != MsTransactionStatus::Active {
        Some(MsError::InvalidTransactionState)
    } else if is_stale(ms, tx) {
        Some(MsError::DeprecatedTransaction)
    } else if tx.ms != ms_key {
        Some(MsError::InvalidInstructionAccount)
    } else if !ms.spec_is_member(member) {
        Some(MsError::KeyNotInMultisig)
    } else {
        None
    }
}

/// Evaluates [`vote_guard`] in guard order.
fn check_vote_guard(ms: &Ms, ms_key: Identity, tx: &MsTransaction, member: Identity) -> (r: Option<
    MsError,
>)
    requires
        ms.wf(),
        tx.wf(),
    ensures
        r == vote_guard(*ms, ms_key, *tx, member),
{
    if !(tx.status == MsTransactionStatus::Active) {
        Some(MsError::InvalidTransactionState)
    } else if tx.transaction_index <= ms.ms_change_index {
        Some(MsError::DeprecatedTransaction)
    } else if !(tx.ms == ms_key) {
        Some(MsError::InvalidInstructionAccount)
    } else if ms.is_member(member).is_none() {
        Some(MsError::KeyNotInMultisig)
    } else {
        None
    }
}

/// Records an approval: removes any standing rejection by the same
/// member, records the approval idempotently, and flips the record to
/// `ExecuteReady` exactly when the approvals reach the threshold.
pub fn approve_transaction(
    ms: &Ms,
    ms_key: Identity,
    tx: &mut MsTransaction,
    member: Identity,
) -> (r: Result<(), MsError>)
    requires
        ms.wf(),
        old(tx).wf(),
        old(tx).approved@.len() < usize::MAX,
    ensures
        final(tx).wf(),
        match r {
            Ok(()) => {
                &&& vote_guard(*ms, ms_key, *old(tx), member) is None
                &&& final(tx).approved_set() == old(tx).approved_set().insert(member)
                &&& final(tx).rejected_set() == old(tx).rejected_set().remove(member)
                &&& final(tx).cancelled@ == old(tx).cancelled@
                &&& (final(tx).status == MsTransactionStatus::ExecuteReady <==> final(tx).approved@.len() >= ms.threshold as int)
                &&& (final(tx).status == MsTransactionStatus::ExecuteReady || final(tx).status
                    == MsTransactionStatus::Active)
                &&& *final(tx) == (MsTransaction {
                    approved: final(tx).approved,
                    rejected: final(tx).rejected,
                    status: final(tx).status,
                    ..*old(tx)
                })
            },
            Err(e) => {
                &&& *final(tx) == *old(tx)
                &&& vote_guard(*ms, ms_key, *old(tx), member) == Some(e)
            },
        },
{
    if let Some(e) = check_vote_guard(ms, ms_key, tx, member) {
        return Err(e);
    }
    // Vote switching: a standing rejection is withdrawn first.
    if let Some(ind) = tx.has_voted_reject(member) {
        tx.remove_reject(ind);
    } else {
        proof {
            assert(tx.rejected_set() =~= old(tx).rejected_set().remove(member));
        }
    }
    if tx.has_voted_approve(member).is_none() {
        tx.sign(member);
    } else {
        proof {
            assert(tx.approved_set() =~= old(tx).approved_set().insert(member));
        }
    }
    if tx.approved.len() >= ms.threshold as usize {
        tx.ready_to_execute();
    }
    Ok(())
}

/// Records a rejection: removes any standing approval by the same
/// member, records the rejection idempotently, and flips the record to
/// `Rejected` exactly when the rejections exceed the complement of the
/// threshold.
pub fn reject_transaction(
    ms: &Ms,
    ms_key: Identity,
    tx: &mut MsTransaction,
    member: Identity,
) -> (r: Result<(), MsError>)
    requires
        ms.wf(),
        old(tx).wf(),
        old(tx).rejected@.len() < usize::MAX,
    ensures
        final(tx).wf(),
        match r {
            Ok(()) => {
                &&& vote_guard(*ms, ms_key, *old(tx), member) is None
                &&& final(tx).rejected_set() == old(tx).rejected_set().insert(member)
                &&& final(tx).approved_set() == old(tx).approved_set().remove(member)
                &&& final(tx).cancelled@ == old(tx).cancelled@
                &&& (final(tx).status == MsTransactionStatus::Rejected <==> final(tx).rejected@.len() > ms.keys@.len() - ms.threshold as int)
                &&& (final(tx).status == MsTransactionStatus::Rejected || final(tx).status
                    == MsTransactionStatus::Active)
                &&& *final(tx) == (MsTransaction {
                    approved: final(tx).approved,
                    rejected: final(tx).rejected,
                    status: final(tx).status,
                    ..*old(tx)
                })
            },
            Err(e) => {
                &&& *final(tx) == *old(tx)
                &&& vote_guard(*ms, ms_key, *old(tx), member) == Some(e)
            },
        },
{
    if let Some(e) = check_vote_guard(ms, ms_key, tx, member) {
        return Err(e);
    }
    // Vote switching: a standing approval is withdrawn first.
    if let Some(ind) = tx.has_voted_approve(member) {
        tx.remove_approve(ind);
    } else {
        proof {
            assert(tx.approved_set() =~= old(tx).approved_set().remove(member));
        }
    }
    if tx.has_voted_reject(member).is_none() {
        tx.reject(member);
    } else {
        proof {
            assert(tx.rejected_set() =~= old(tx).rejected_set().insert(member));
        }
    }
    let cutoff = ms.keys.len() - ms.threshold as usize;
    if tx.rejected.len() > cutoff {
        tx.set_rejected();
    }
    Ok(())
}

/// The guard chain of [`cancel_transaction`].
pub open spec fn cancel_guard(
    ms: Ms,
    ms_key: Identity,
    tx: MsTransaction,
    member: Identity,
) -> Option<MsError> {
    if tx.status != MsTransactionStatus::ExecuteReady {
        Some(MsError::InvalidTransactionState)
    } else if tx.ms != ms_key {
        Some(MsError::InvalidInstructionAccount)
    } else if !ms.spec_is_member(member) {
        Some(MsError::KeyNotInMultisig)
    } else {
        None
    }
}

/// Records a cancellation vote on a ready-to-execute record and flips
/// it to `Cancelled` exactly when the cancellations reach the
/// threshold.
pub fn cancel_transaction(
    ms: &Ms,
    ms_key: Identity,
    tx: &mut MsTransaction,
    member: Identity,
) -> (r: Result<(), MsError>)
    requires
        ms.wf(),
        old(tx).wf(),
        old(tx).cancelled@.len() < usize::MAX,
    ensures
        final(tx).wf(),
        match r {
            Ok(()) => {
                &&& cancel_guard(*ms, ms_key, *old(tx), member) is None
                &&& final(tx).cancelled_set() == old(tx).cancelled_set().insert(member)
                &&& final(tx).approved@ == old(tx).approved@
                &&& final(tx).rejected@ == old(tx).rejected@
                &&& (final(tx).status == MsTransactionStatus::Cancelled <==> final(tx).cancelled@.len() >= ms.threshold as int)
                &&& (final(tx).status == MsTransactionStatus::Cancelled || final(tx).status
                    == MsTransactionStatus::ExecuteReady)
                &&& *final(tx) == (MsTransaction {
                    cancelled: final(tx).cancelled,
                    status: final(tx).status,
                    ..*old(tx)
                })
            },
            Err(e) => {
                &&& *final(tx) == *old(tx)
                &&& cancel_guard(*ms, ms_key, *old(tx), member) == Some(e)
            },
        },
{
    if !(tx.status == MsTransactionStatus::ExecuteReady) {
        return Err(MsError::InvalidTransactionState);
    }
    if !(tx.ms == ms_key) {
        return Err(MsError::InvalidInstructionAccount);
    }
    if ms.is_member(member).is_none() {
        return Err(MsError::KeyNotInMultisig);
    }
    if tx.has_cancelled(member).is_none() {
        tx.cancel(member);
    } else {
        proof {
            assert(tx.cancelled_set() =~= old(tx).cancelled_set().insert(member));
        }
    }
    if tx.cancelled.len() >= ms.threshold as usize {
        tx.set_cancelled();
    }
    Ok(())
}

/// The guard chain of [`add_instruction`].
pub open spec fn add_instruction_guard(
    ms: Ms,
    ms_key: Identity,
    tx: MsTransaction,
    creator: Identity,
    incoming_program: Identity,
    program_id: Identity,
    tx_key: Identity,
) -> Option<MsError> {
    if tx.creator != creator {
        Some(MsError::KeyNotInMultisig)
    } else if tx.status != MsTransactionStatus::Draft {
        Some(MsError::InvalidTransactionState)
    } else if tx.ms != ms_key {
        Some(MsError::InvalidInstructionAccount)
    } else if !ms.spec_is_member(creator) {
        Some(MsError::KeyNotInMultisig)
    } else if tx.authority_index == 0 && incoming_program != program_id {
        Some(MsError::InvalidAuthorityIndex)
    } else if pda_identity(
        crate::seeds::instruction_seeds(tx_key, (tx.instruction_index + 1) as u8),
        program_id,
    ) is None {
        Some(MsError::InvalidInstructionAccount)
    } else {
        None
    }
}

/// Attaches a sub-instruction to a draft transaction. An authority-0
/// proposal may only target the core program itself.
pub fn add_instruction(
    ms: &Ms,
    ms_key: Identity,
    tx: &mut MsTransaction,
    tx_key: Identity,
    incoming_instruction: IncomingInstruction,
    creator: Identity,
    program_id: Identity,
) -> (r: Result<MsInstruction, MsError>)
    requires
        ms.wf(),
        old(tx).wf(),
        old(tx).instruction_index < 0xff,
    ensures
        final(tx).wf(),
        match r {
            Ok(rec) => {
                &&& add_instruction_guard(
                    *ms,
                    ms_key,
                    *old(tx),
                    creator,
                    incoming_instruction.program_id,
                    program_id,
                    tx_key,
                ) is None
                &&& *final(tx) == (MsTransaction {
                    instruction_index: (old(tx).instruction_index + 1) as u8,
                    ..*old(tx)
                })
                &&& rec.instruction_index == old(tx).instruction_index + 1
                &&& rec.program_id == incoming_instruction.program_id
                &&& rec.keys@ == incoming_instruction.keys@
                &&& rec.data@ == incoming_instruction.data@
                &&& !rec.executed
                &&& match pda_identity(
                    crate::seeds::instruction_seeds(tx_key, rec.instruction_index),
                    program_id,
                ) {
                    Some(p) => rec.bump == p.1,
                    None => false,
                }
            },
            Err(e) => {
                &&& *final(tx) == *old(tx)
                &&& add_instruction_guard(
                    *ms,
                    ms_key,
                    *old(tx),
                    creator,
                    incoming_instruction.program_id,
                    program_id,
                    tx_key,
                ) == Some(e)
            },
        },
{
    if !(tx.creator == creator) {
        return Err(MsError::KeyNotInMultisig);
    }
    if !(tx.status == MsTransactionStatus::Draft) {
        return Err(MsError::InvalidTransactionState);
    }
    if !(tx.ms == ms_key) {
        return Err(MsError::InvalidInstructionAccount);
    }
    if ms.is_member(creator).is_none() {
        return Err(MsError::KeyNotInMultisig);
    }
    if tx.authority_index == 0 && !(incoming_instruction.program_id == program_id) {
        return Err(MsError::InvalidAuthorityIndex);
    }
    let next_index = tx.instruction_index + 1;
    let bump: u8;
    match crate::pda::derive_instruction_address(&tx_key, next_index, &program_id) {
        Some(p) => {
            bump = p.1;
        },
        None => {
            return Err(MsError::InvalidInstructionAccount);
        },
    }
    tx.instruction_index = next_index;
    Ok(MsInstruction::init(next_index, incoming_instruction, bump))
}

} // verus!
