//! The global laws of the multisig core, stated and proved once over
//! the contracts of the operations.

use vstd::prelude::*;

use crate::errors::MsError;
use crate::execute::{execute_guard, execute_transaction_result, SuppliedAccount};
use crate::identity::Identity;
use crate::instruction::MsInstruction;
use crate::keylist::lemma_sorted_len_is_card;
use crate::ms::Ms;
use crate::ops::{activate_guard, is_stale, vote_guard};
use crate::transaction::{MsTransaction, MsTransactionStatus};

verus! {

/// Threshold invariant: in every well-formed registry the threshold
/// lies between 1 and the number of distinct members, and every
/// operation of this library keeps registries well-formed.
pub proof fn lemma_threshold_invariant(ms: Ms)
    requires
        ms.wf(),
    ensures
        ms.member_set().finite(),
        1 <= ms.threshold as int <= ms.member_set().len(),
{
    lemma_sorted_len_is_card(ms.keys@);
}

/// Monotonic counters: a record consumes the counter value right after
/// the reading at its creation, so records created at different counter
/// readings never share an index, and the counter never decreases.
pub proof fn lemma_transaction_indexes_unique(
    earlier: Ms,
    later: Ms,
    tx1: MsTransaction,
    tx2: MsTransaction,
)
    requires
        tx1.transaction_index == earlier.transaction_index + 1,
        later.transaction_index >= earlier.transaction_index + 1,
        tx2.transaction_index == later.transaction_index + 1,
    ensures
        tx2.transaction_index > tx1.transaction_index,
        tx1.transaction_index != tx2.transaction_index,
{
}

/// Vote disjointness: in every well-formed transaction record no key
/// both approves and rejects.
pub proof fn lemma_vote_disjointness(tx: MsTransaction)
    requires
        tx.wf(),
    ensures
        tx.approved_set().intersect(tx.rejected_set()) =~= Set::<Identity>::empty(),
{
    assert forall|k: Identity|
        !(tx.approved_set().contains(k) && tx.rejected_set().contains(k)) by {
        if tx.approved_set().contains(k) && tx.rejected_set().contains(k) {
            assert(tx.approved@.contains(k));
            assert(tx.rejected@.contains(k));
        }
    }
}

/// Staleness is permanent: the registry operations never lower the
/// change index, so once a record is stale it stays stale, and every
/// activation or vote on it keeps failing with the staleness error,
/// whoever asks and however membership changes afterwards.
pub proof fn lemma_staleness_is_permanent(
    stamped: Ms,
    later: Ms,
    ms_key: Identity,
    tx: MsTransaction,
    member: Identity,
)
    requires
        is_stale(stamped, tx),
        later.ms_change_index >= stamped.ms_change_index,
    ensures
        is_stale(later, tx),
        tx.status == MsTransactionStatus::Active && tx.ms == ms_key ==> vote_guard(
            later,
            ms_key,
            tx,
            member,
        ) == Some(MsError::DeprecatedTransaction),
        tx.status == MsTransactionStatus::Draft && tx.creator == member ==> activate_guard(
            later,
            ms_key,
            tx,
            member,
        ) == Some(MsError::DeprecatedTransaction),
{
}

/// Execution idempotence boundary: a record that has already been
/// executed fails the batch execution operation with the state
/// mismatch error, whatever accounts are supplied, so its staged
/// instructions can never be dispatched twice.
pub proof fn lemma_executed_is_final(
    ms: Ms,
    ms_key: Identity,
    tx: MsTransaction,
    member: Identity,
    supplied: Seq<SuppliedAccount>,
    decoded: Seq<Option<MsInstruction>>,
    account_list: Seq<u8>,
    program_id: Identity,
)
    requires
        tx.status == MsTransactionStatus::Executed,
    ensures
        execute_guard(ms, ms_key, tx, member) == Some(MsError::InvalidTransactionState),
        execute_transaction_result(
            ms,
            ms_key,
            tx,
            member,
            supplied,
            decoded,
            account_list,
            program_id,
        ) matches Err(e) && e == MsError::InvalidTransactionState,
{
}

/// The staged records of a transaction run 1..N with no gaps, where N
/// is the record's instruction count.
pub open spec fn staged_records_wf(tx: MsTransaction, records: Seq<MsInstruction>) -> bool {
    &&& records.len() == tx.instruction_index
    &&& forall|i: int|
        0 <= i < records.len() ==> (#[trigger] records[i]).instruction_index == i + 1
}

/// Round trip for instruction staging: a fresh draft has no staged
/// records, each attachment extends the staged list by a record whose
/// index is its position, and a staged list always reads back in
/// attachment order.
pub proof fn lemma_staging_starts_empty(tx: MsTransaction)
    requires
        tx.instruction_index == 0,
    ensures
        staged_records_wf(tx, Seq::empty()),
{
}

/// One attachment keeps the staged list well-formed: the new record's
/// index is the new count, and every older record keeps its position.
pub proof fn lemma_staging_round_trip(
    before: MsTransaction,
    after: MsTransaction,
    records: Seq<MsInstruction>,
    rec: MsInstruction,
)
    requires
        staged_records_wf(before, records),
        before.instruction_index < 0xff,
        after.instruction_index == before.instruction_index + 1,
        rec.instruction_index == before.instruction_index + 1,
    ensures
        staged_records_wf(after, records.push(rec)),
        records.push(rec).len() == after.instruction_index,
        forall|i: int|
            0 <= i < records.push(rec).len() ==> (#[trigger] records.push(rec)[i]).instruction_index
                == i + 1,
{
    assert forall|i: int|
        0 <= i < records.push(rec).len() implies (#[trigger] records.push(
        rec,
    )[i]).instruction_index == i + 1 by {
        if i < records.len() {
            assert(records.push(rec)[i] == records[i]);
        } else {
            assert(records.push(rec)[i] == rec);
        }
    }
}

} // verus!
