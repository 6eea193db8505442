//! The execution engine.
//!
//! At `ExecuteReady` the engine walks the staged instruction records in
//! order, authenticates each against the caller-supplied account list
//! (owner, derived storage address, target program and every declared
//! account key), guards authority-0 batches against re-entrant
//! payloads, and hands the host an execution plan. The host dispatches
//! the plan under the derived authority and then commits the outcome
//! with the completion operations.

use vstd::prelude::*;

use crate::errors::MsError;
use crate::identity::Identity;
use crate::instruction::{MsAccountMeta, MsInstruction};
use crate::ms::Ms;
use crate::pda::{derive_instruction_address, derive_transaction_address, pda_identity};
use crate::seeds::{instruction_seeds, transaction_seeds};
use crate::transaction::{MsTransaction, MsTransactionStatus};

verus! {

/// One account the caller supplied to the engine, as plain facts the
/// hosting environment vouches for.
#[derive(Clone, Copy, Debug, PartialEq, Eq, Structural)]
pub struct SuppliedAccount {
    /// The account's key.
    pub key: Identity,
    /// The program that owns the account.
    pub owner: Identity,
    /// Whether the account signed the invocation.
    pub is_signer: bool,
    /// Whether the account was passed as writable.
    pub is_writable: bool,
}

/// One fully validated sub-instruction, ready for the host to dispatch.
#[derive(Debug)]
pub struct PlannedInvocation {
    /// The program to invoke.
    pub program_id: Identity,
    /// The accounts to pass, in declared order.
    pub accounts: Vec<MsAccountMeta>,
    /// The payload to pass.
    pub data: Vec<u8>,
    /// Whether to sign with the registry's own identity (authority 0)
    /// instead of the transaction's general derived authority.
    pub use_registry_authority: bool,
}

/// The spec-level shape of a planned invocation.
pub open spec fn plan_view(p: PlannedInvocation) -> (Identity, Seq<MsAccountMeta>, Seq<u8>, bool) {
    (p.program_id, p.accounts@, p.data@, p.use_registry_authority)
}

/// The spec-level invocation a record yields.
pub open spec fn planned_of(rec: MsInstruction, authority_zero: bool) -> (
    Identity,
    Seq<MsAccountMeta>,
    Seq<u8>,
    bool,
) {
    (rec.program_id, rec.keys@, rec.data@, authority_zero)
}

/// The payload discriminator of the batch execution operation.
pub open spec fn execute_transaction_discriminator() -> Seq<u8> {
    seq![0xe7u8, 0xadu8, 0x31u8, 0x5bu8, 0xebu8, 0x18u8, 0x44u8, 0x13u8]
}

/// The payload discriminator of the sequential execution operation.
pub open spec fn execute_instruction_discriminator() -> Seq<u8> {
    seq![0x30u8, 0x12u8, 0x28u8, 0x28u8, 0x4bu8, 0x4au8, 0x93u8, 0x6eu8]
}

/// Whether a payload would re-enter one of the execution operations.
pub open spec fn is_reentrant_payload(data: Seq<u8>) -> bool {
    data.len() >= 8 && (data.take(8) == execute_transaction_discriminator() || data.take(8)
        == execute_instruction_discriminator())
}

/// Checks a payload against the two execution discriminators.
pub fn is_reentrant(data: &Vec<u8>) -> (r: bool)
    ensures
        r == is_reentrant_payload(data@),
{
    if data.len() < 8 {
        return false;
    }
    let tx_like = data[0] == 0xe7 && data[1] == 0xad && data[2] == 0x31 && data[3] == 0x5b
        && data[4] == 0xeb && data[5] == 0x18 && data[6] == 0x44 && data[7] == 0x13;
    let ix_like = data[0] == 0x30 && data[1] == 0x12 && data[2] == 0x28 && data[3] == 0x28
        && data[4] == 0x4b && data[5] == 0x4a && data[6] == 0x93 && data[7] == 0x6e;
    proof {
        if tx_like {
            assert(data@.take(8) =~= execute_transaction_discriminator());
        }
        if ix_like {
            assert(data@.take(8) =~= execute_instruction_discriminator());
        }
        if !tx_like && !ix_like {
            assert(data@.take(8) != execute_transaction_discriminator()) by {
                if data@.take(8) == execute_transaction_discriminator() {
                    assert(data@[0] == 0xe7 && data@[1] == 0xad && data@[2] == 0x31 && data@[3]
                        == 0x5b && data@[4] == 0xeb && data@[5] == 0x18 && data@[6] == 0x44
                        && data@[7] == 0x13) by {
                        assert forall|j: int| 0 <= j < 8 implies data@[j] == data@.take(8)[j] by {}
                    }
                }
            }
            assert(data@.take(8) != execute_instruction_discriminator()) by {
                if data@.take(8) == execute_instruction_discriminator() {
                    assert(data@[0] == 0x30 && data@[1] == 0x12 && data@[2] == 0x28 && data@[3]
                        == 0x28 && data@[4] == 0x4b && data@[5] == 0x4a && data@[6] == 0x93
                        && data@[7] == 0x6e) by {
                        assert forall|j: int| 0 <= j < 8 implies data@[j] == data@.take(8)[j] by {}
                    }
                }
            }
        }
    }
    tx_like || ix_like
}

/// The account the engine reads next: position `cursor` of the
/// caller's selection list, pointing into the supplied accounts.
pub open spec fn mapped_account(
    supplied: Seq<SuppliedAccount>,
    account_list: Seq<u8>,
    cursor: int,
) -> Option<SuppliedAccount> {
    if 0 <= cursor < account_list.len() && account_list[cursor] < supplied.len() {
        Some(supplied[account_list[cursor] as int])
    } else {
        None
    }
}

/// Walks one record's declared account keys against the supplied
/// accounts from `cursor` on; yields the cursor after the last key.
pub open spec fn match_keys(
    keys: Seq<MsAccountMeta>,
    supplied: Seq<SuppliedAccount>,
    account_list: Seq<u8>,
    cursor: int,
    k: int,
) -> Result<int, MsError>
    decreases keys.len() - k,
{
    if k < 0 || k >= keys.len() {
        Ok(cursor)
    } else {
        match mapped_account(supplied, account_list, cursor) {
            None => Err(MsError::InvalidNumberOfAccounts),
            Some(acc) => if acc.key != keys[k].pubkey {
                Err(MsError::InvalidInstructionAccount)
            } else {
                match_keys(keys, supplied, account_list, cursor + 1, k + 1)
            },
        }
    }
}

/// Validates the records of a batch from instruction number `i` up to
/// `n`, walking the supplied accounts from `cursor` on. For each
/// record: its account must be owned by the core program, decode as a
/// record, and sit at the derived storage address; the supplied
/// program account and every declared account key must match; an
/// authority-0 record must target the core program with a payload that
/// does not re-enter execution. Yields the planned invocations.
pub open spec fn batch_walk(
    supplied: Seq<SuppliedAccount>,
    decoded: Seq<Option<MsInstruction>>,
    account_list: Seq<u8>,
    cursor: int,
    i: int,
    n: int,
    tx_key: Identity,
    authority_zero: bool,
    program_id: Identity,
) -> Result<Seq<(Identity, Seq<MsAccountMeta>, Seq<u8>, bool)>, MsError>
    decreases n + 1 - i,
{
    if i < 1 || i > n {
        Ok(Seq::empty())
    } else {
        match mapped_account(supplied, account_list, cursor) {
            None => Err(MsError::InvalidNumberOfAccounts),
            Some(head) => {
                let head_index = account_list[cursor] as int;
                if head.owner != program_id {
                    Err(MsError::InvalidInstructionAccount)
                } else if decoded[head_index] is None {
                    Err(MsError::InvalidInstructionAccount)
                } else {
                    let rec = decoded[head_index].unwrap();
                    match pda_identity(instruction_seeds(tx_key, i as u8), program_id) {
                        None => Err(MsError::InvalidInstructionAccount),
                        Some(p) => if p.0 != head.key {
                            Err(MsError::InvalidInstructionAccount)
                        } else {
                            match mapped_account(supplied, account_list, cursor + 1) {
                                None => Err(MsError::InvalidNumberOfAccounts),
                                Some(prog_acc) => if prog_acc.key != rec.program_id {
                                    Err(MsError::InvalidInstructionAccount)
                                } else {
                                    match match_keys(
                                        rec.keys@,
                                        supplied,
                                        account_list,
                                        cursor + 2,
                                        0,
                                    ) {
                                        Err(e) => Err(e),
                                        Ok(next_cursor) => if authority_zero && rec.program_id
                                            != program_id {
                                            Err(MsError::InvalidAuthorityIndex)
                                        } else if authority_zero && is_reentrant_payload(
                                            rec.data@,
                                        ) {
                                            Err(MsError::InvalidAuthorityIndex)
                                        } else {
                                            match batch_walk(
                                                supplied,
                                                decoded,
                                                account_list,
                                                next_cursor,
                                                i + 1,
                                                n,
                                                tx_key,
                                                authority_zero,
                                                program_id,
                                            ) {
                                                Err(e) => Err(e),
                                                Ok(rest) => Ok(
                                                    seq![planned_of(rec, authority_zero)] + rest,
                                                ),
                                            }
                                        },
                                    }
                                },
                            }
                        },
                    }
                }
            },
        }
    }
}

/// The guard chain of [`execute_transaction`].
pub open spec fn execute_guard(
    ms: Ms,
    ms_key: Identity,
    tx: MsTransaction,
    member: Identity,
) -> Option<MsError> {
    if tx.status != MsTransactionStatus::ExecuteReady {
        Some(MsError::InvalidTransactionState)
    } else if tx.ms != ms_key {
        Some(MsError::InvalidInstructionAccount)
    } else if tx.executed_index >= 1 {
        Some(MsError::PartialExecution)
    } else if !ms.spec_is_member(member) && !ms.allow_external_execute {
        Some(MsError::KeyNotInMultisig)
    } else {
        None
    }
}

/// What [`execute_transaction`] decides, as one spec-level result.
pub open spec fn execute_transaction_result(
    ms: Ms,
    ms_key: Identity,
    tx: MsTransaction,
    member: Identity,
    supplied: Seq<SuppliedAccount>,
    decoded: Seq<Option<MsInstruction>>,
    account_list: Seq<u8>,
    program_id: Identity,
) -> Result<Seq<(Identity, Seq<MsAccountMeta>, Seq<u8>, bool)>, MsError> {
    match execute_guard(ms, ms_key, tx, member) {
        Some(e) => Err(e),
        None => if tx.instruction_index == 0 {
            Ok(Seq::empty())
        } else {
            match pda_identity(transaction_seeds(ms_key, tx.transaction_index), program_id) {
                None => Err(MsError::InvalidInstructionAccount),
                Some(txp) => batch_walk(
                    supplied,
                    decoded,
                    account_list,
                    0,
                    1,
                    tx.instruction_index as int,
                    txp.0,
                    tx.authority_index == 0,
                    program_id,
                ),
            }
        },
    }
}

/// Copies a list of declared accounts.
pub(crate) fn copy_metas(v: &Vec<MsAccountMeta>) -> (r: Vec<MsAccountMeta>)
    ensures
        r@ == v@,
{
    let mut out: Vec<MsAccountMeta> = Vec::new();
    let mut i: usize = 0;
    while i < v.len()
        invariant
            i <= v@.len(),
            out@ == v@.take(i as int),
        decreases v@.len() - i,
    {
        out.push(v[i]);
        proof {
            assert(out@ =~= v@.take(i + 1));
        }
        i = i + 1;
    }
    proof {
        assert(v@.take(v@.len() as int) =~= v@);
    }
    out
}

/// Copies a payload.
pub(crate) fn copy_bytes(v: &Vec<u8>) -> (r: Vec<u8>)
    ensures
        r@ == v@,
{
    let mut out: Vec<u8> = Vec::new();
    let mut i: usize = 0;
    while i < v.len()
        invariant
            i <= v@.len(),
            out@ == v@.take(i as int),
        decreases v@.len() - i,
    {
        out.push(v[i]);
        proof {
            assert(out@ =~= v@.take(i + 1));
        }
        i = i + 1;
    }
    proof {
        assert(v@.take(v@.len() as int) =~= v@);
    }
    out
}

/// The views of the invocations planned so far.
pub open spec fn plan_views(plan: Seq<PlannedInvocation>) -> Seq<
    (Identity, Seq<MsAccountMeta>, Seq<u8>, bool),
> {
    plan.map_values(|p: PlannedInvocation| plan_view(p))
}

/// Validates an entire ready-to-execute batch and returns its execution
/// plan, to be dispatched by the host as one atomic unit.
///
/// A batch with no staged instructions trivially succeeds and is marked
/// executed at once; otherwise the record is left untouched until the
/// host dispatches the plan and calls [`complete_execute_transaction`].
///
/// `supplied` describes the caller's accounts, `decoded[j]` the staged
/// record held by `supplied[j]`'s account if it holds one, and
/// `account_list` is the caller's selection list into `supplied`.
#[verifier::loop_isolation(false)]
pub fn execute_transaction(
    ms: &Ms,
    ms_key: Identity,
    tx: &mut MsTransaction,
    member: Identity,
    supplied: &Vec<SuppliedAccount>,
    decoded: &Vec<Option<MsInstruction>>,
    account_list: &Vec<u8>,
    program_id: Identity,
) -> (r: Result<Vec<PlannedInvocation>, MsError>)
    requires
        ms.wf(),
        old(tx).wf(),
        decoded@.len() == supplied@.len(),
    ensures
        final(tx).wf(),
        match r {
            Ok(plan) => {
                &&& execute_transaction_result(
                    *ms,
                    ms_key,
                    *old(tx),
                    member,
                    supplied@,
                    decoded@,
                    account_list@,
                    program_id,
                ) == Ok::<_, MsError>(plan_views(plan@))
                &&& (old(tx).instruction_index == 0 ==> plan@.len() == 0 && *final(tx) == (
                MsTransaction { status: MsTransactionStatus::Executed, ..*old(tx) }))
                &&& (old(tx).instruction_index != 0 ==> plan@.len() == old(tx).instruction_index
                    && *final(tx) == *old(tx))
            },
            Err(e) => {
                &&& execute_transaction_result(
                    *ms,
                    ms_key,
                    *old(tx),
                    member,
                    supplied@,
                    decoded@,
                    account_list@,
                    program_id,
                ) == Err::<Seq<(Identity, Seq<MsAccountMeta>, Seq<u8>, bool)>, _>(e)
                &&& *final(tx) == *old(tx)
            },
        },
{
    if !(tx.status == MsTransactionStatus::ExecuteReady) {
        return Err(MsError::InvalidTransactionState);
    }
    if !(tx.ms == ms_key) {
        return Err(MsError::InvalidInstructionAccount);
    }
    if tx.executed_index >= 1 {
        return Err(MsError::PartialExecution);
    }
    if ms.is_member(member).is_none() && !ms.allow_external_execute {
        return Err(MsError::KeyNotInMultisig);
    }
    if tx.instruction_index == 0 {
        // An empty proposal trivially succeeds.
        tx.set_executed();
        proof {
            assert(plan_views(Seq::<PlannedInvocation>::empty()) =~= Seq::<
                (Identity, Seq<MsAccountMeta>, Seq<u8>, bool),
            >::empty());
        }
        return Ok(Vec::new());
    }
    let tx_key: Identity;
    match derive_transaction_address(&ms_key, tx.transaction_index, &program_id) {
        Some(p) => {
            tx_key = p.0;
        },
        None => {
            return Err(MsError::InvalidInstructionAccount);
        },
    }
    let authority_zero = tx.authority_index == 0;
    let n = tx.instruction_index;
    let mut plan: Vec<PlannedInvocation> = Vec::new();
    let mut cursor: usize = 0;
    let mut i: usize = 1;
    while i <= n as usize
        invariant
            1 <= i <= n as int + 1,
            plan@.len() == i - 1,
            batch_walk(
                supplied@,
                decoded@,
                account_list@,
                0,
                1,
                n as int,
                tx_key,
                authority_zero,
                program_id,
            ) == match batch_walk(
                supplied@,
                decoded@,
                account_list@,
                cursor as int,
                i as int,
                n as int,
                tx_key,
                authority_zero,
                program_id,
            ) {
                Ok(rest) => Ok::<_, MsError>(plan_views(plan@) + rest),
                Err(e) => Err(e),
            },
            decoded@.len() == supplied@.len(),
        decreases n as int + 1 - i,
    {
        if cursor >= account_list.len() || account_list[cursor] as usize >= supplied.len() {
            return Err(MsError::InvalidNumberOfAccounts);
        }
        let head_index = account_list[cursor] as usize;
        let head = supplied[head_index];
        if !(head.owner == program_id) {
            return Err(MsError::InvalidInstructionAccount);
        }
        if decoded[head_index].is_none() {
            return Err(MsError::InvalidInstructionAccount);
        }
        let rec = match &decoded[head_index] {
            Some(rec) => rec,
            None => {
                return Err(MsError::InvalidInstructionAccount);
            },
        };
        match derive_instruction_address(&tx_key, i as u8, &program_id) {
            Some(p) => {
                if !(p.0 == head.key) {
                    return Err(MsError::InvalidInstructionAccount);
                }
            },
            None => {
                return Err(MsError::InvalidInstructionAccount);
            },
        }
        if cursor + 1 >= account_list.len() || account_list[cursor + 1] as usize
            >= supplied.len() {
            return Err(MsError::InvalidNumberOfAccounts);
        }
        let prog_acc = supplied[account_list[cursor + 1] as usize];
        if !(prog_acc.key == rec.program_id) {
            return Err(MsError::InvalidInstructionAccount);
        }
        // Walk the record's declared account keys against the
        // supplied accounts.
        let mut k: usize = 0;
        let mut inner_cursor: usize = cursor + 2;
        while k < rec.keys.len()
            invariant
                k <= rec.keys@.len(),
                inner_cursor == cursor + 2 + k,
                cursor + 2 <= inner_cursor <= usize::MAX,
                decoded@.len() == supplied@.len(),
                match_keys(rec.keys@, supplied@, account_list@, cursor + 2, 0) == match_keys(
                    rec.keys@,
                    supplied@,
                    account_list@,
                    inner_cursor as int,
                    k as int,
                ),
            decreases rec.keys@.len() - k,
        {
            if inner_cursor >= account_list.len() || account_list[inner_cursor] as usize
                >= supplied.len() {
                return Err(MsError::InvalidNumberOfAccounts);
            }
            let acc = supplied[account_list[inner_cursor] as usize];
            if !(acc.key == rec.keys[k].pubkey) {
                return Err(MsError::InvalidInstructionAccount);
            }
            k = k + 1;
            inner_cursor = inner_cursor + 1;
        }
        proof {
            assert(match_keys(rec.keys@, supplied@, account_list@, cursor + 2, 0) == Ok::<
                int,
                MsError,
            >(inner_cursor as int));
        }
        if authority_zero && !(rec.program_id == program_id) {
            return Err(MsError::InvalidAuthorityIndex);
        }
        if authority_zero && is_reentrant(&rec.data) {
            return Err(MsError::InvalidAuthorityIndex);
        }
        let item = PlannedInvocation {
            program_id: rec.program_id,
            accounts: copy_metas(&rec.keys),
            data: copy_bytes(&rec.data),
            use_registry_authority: authority_zero,
        };
        let ghost old_plan = plan@;
        plan.push(item);
        proof {
            assert(plan_views(plan@) =~= plan_views(old_plan).push(planned_of(*rec, authority_zero)));
            assert forall|rest: Seq<(Identity, Seq<MsAccountMeta>, Seq<u8>, bool)>|
                true implies #[trigger] (plan_views(old_plan) + (seq![
                planned_of(*rec, authority_zero),
            ] + rest)) =~= plan_views(plan@) + rest by {}
        }
        cursor = inner_cursor;
        i = i + 1;
    }
    proof {
        assert(batch_walk(
            supplied@,
            decoded@,
            account_list@,
            cursor as int,
            i as int,
            n as int,
            tx_key,
            authority_zero,
            program_id,
        ) == Ok::<_, MsError>(Seq::<(Identity, Seq<MsAccountMeta>, Seq<u8>, bool)>::empty()));
        assert(plan_views(plan@) + Seq::<(Identity, Seq<MsAccountMeta>, Seq<u8>, bool)>::empty()
            =~= plan_views(plan@));
    }
    Ok(plan)
}

/// Commits a fully dispatched atomic batch: every record is marked
/// executed, the high-water mark advances to the last instruction and
/// the transaction becomes `Executed`.
#[verifier::loop_isolation(false)]
pub fn complete_execute_transaction(tx: &mut MsTransaction, records: &mut Vec<MsInstruction>)
    requires
        old(tx).wf(),
        old(tx).status == MsTransactionStatus::ExecuteReady,
    ensures
        final(tx).wf(),
        *final(tx) == (MsTransaction {
            status: MsTransactionStatus::Executed,
            executed_index: old(tx).instruction_index,
            ..*old(tx)
        }),
        final(records)@.len() == old(records)@.len(),
        forall|j: int|
            0 <= j < final(records)@.len() ==> #[trigger] final(records)@[j] == (MsInstruction {
                executed: true,
                ..old(records)@[j]
            }),
{
    let mut j: usize = 0;
    while j < records.len()
        invariant
            j <= records@.len(),
            records@.len() == old(records)@.len(),
            forall|q: int|
                0 <= q < j ==> #[trigger] records@[q] == (MsInstruction {
                    executed: true,
                    ..old(records)@[q]
                }),
            forall|q: int| j <= q < records@.len() ==> #[trigger] records@[q] == old(records)@[q],
        decreases records@.len() - j,
    {
        let rec = &mut records[j];
        rec.set_executed();
        j = j + 1;
    }
    tx.executed_index = tx.instruction_index;
    tx.set_executed();
}

/// The guard chain of [`execute_instruction`].
pub open spec fn execute_instruction_guard(
    ms: Ms,
    ms_key: Identity,
    tx: MsTransaction,
    record: MsInstruction,
    record_key: Identity,
    record_owner: Identity,
    member: Identity,
    program_id: Identity,
) -> Option<MsError> {
    if tx.status != MsTransactionStatus::ExecuteReady {
        Some(MsError::InvalidTransactionState)
    } else if tx.ms != ms_key {
        Some(MsError::InvalidInstructionAccount)
    } else if tx.executed_index >= 0xff || record.instruction_index != tx.executed_index + 1 {
        Some(MsError::InvalidInstructionAccount)
    } else if !ms.spec_is_member(member) && !ms.allow_external_execute {
        Some(MsError::KeyNotInMultisig)
    } else if tx.authority_index == 0 {
        Some(MsError::InvalidAuthorityIndex)
    } else if record_owner != program_id {
        Some(MsError::InvalidInstructionAccount)
    } else {
        None
    }
}

/// What [`execute_instruction`] decides, as one spec-level result.
pub open spec fn execute_instruction_result(
    ms: Ms,
    ms_key: Identity,
    tx: MsTransaction,
    record: MsInstruction,
    record_key: Identity,
    record_owner: Identity,
    member: Identity,
    supplied: Seq<SuppliedAccount>,
    program_id: Identity,
) -> Result<(Identity, Seq<MsAccountMeta>, Seq<u8>, bool), MsError> {
    match execute_instruction_guard(
        ms,
        ms_key,
        tx,
        record,
        record_key,
        record_owner,
        member,
        program_id,
    ) {
        Some(e) => Err(e),
        None => match pda_identity(transaction_seeds(ms_key, tx.transaction_index), program_id) {
            None => Err(MsError::InvalidInstructionAccount),
            Some(txp) => match pda_identity(
                instruction_seeds(txp.0, record.instruction_index),
                program_id,
            ) {
                None => Err(MsError::InvalidInstructionAccount),
                Some(ixp) => if ixp.0 != record_key {
                    Err(MsError::InvalidInstructionAccount)
                } else if supplied.len() == 0 {
                    Err(MsError::InvalidNumberOfAccounts)
                } else if supplied[0].key != record.program_id {
                    Err(MsError::InvalidInstructionAccount)
                } else if supplied.len() < 1 + record.keys@.len() {
                    Err(MsError::InvalidNumberOfAccounts)
                } else if exists|k: int|
                    0 <= k < record.keys@.len() && supplied[1 + k].key != record.keys@[k].pubkey {
                    Err(MsError::InvalidInstructionAccount)
                } else {
                    Ok(planned_of(record, false))
                },
            },
        },
    }
}

/// Validates the next sequential step of a ready-to-execute
/// transaction: the record must be the one right after the high-water
/// mark, authenticated at its derived storage address, and the
/// supplied accounts must start with its target program followed by
/// its declared account keys in order. Authority 0 is refused on this
/// path. The host dispatches the returned invocation and then calls
/// [`complete_execute_instruction`].
#[verifier::loop_isolation(false)]
pub fn execute_instruction(
    ms: &Ms,
    ms_key: Identity,
    tx: &MsTransaction,
    record: &MsInstruction,
    record_key: Identity,
    record_owner: Identity,
    member: Identity,
    supplied: &Vec<SuppliedAccount>,
    program_id: Identity,
) -> (r: Result<PlannedInvocation, MsError>)
    requires
        ms.wf(),
        tx.wf(),
    ensures
        match r {
            Ok(plan) => execute_instruction_result(
                *ms,
                ms_key,
                *tx,
                *record,
                record_key,
                record_owner,
                member,
                supplied@,
                program_id,
            ) == Ok::<_, MsError>(plan_view(plan)),
            Err(e) => execute_instruction_result(
                *ms,
                ms_key,
                *tx,
                *record,
                record_key,
                record_owner,
                member,
                supplied@,
                program_id,
            ) == Err::<(Identity, Seq<MsAccountMeta>, Seq<u8>, bool), _>(e),
        },
{
    if !(tx.status == MsTransactionStatus::ExecuteReady) {
        return Err(MsError::InvalidTransactionState);
    }
    if !(tx.ms == ms_key) {
        return Err(MsError::InvalidInstructionAccount);
    }
    if tx.executed_index >= 0xff || !(record.instruction_index == tx.executed_index + 1) {
        return Err(MsError::InvalidInstructionAccount);
    }
    if ms.is_member(member).is_none() && !ms.allow_external_execute {
        return Err(MsError::KeyNotInMultisig);
    }
    // Partial execution of internal governance actions is unsafe, so
    // authority 0 must go through the atomic batch path.
    if tx.authority_index == 0 {
        return Err(MsError::InvalidAuthorityIndex);
    }
    if !(record_owner == program_id) {
        return Err(MsError::InvalidInstructionAccount);
    }
    let tx_key: Identity;
    match derive_transaction_address(&ms_key, tx.transaction_index, &program_id) {
        Some(p) => {
            tx_key = p.0;
        },
        None => {
            return Err(MsError::InvalidInstructionAccount);
        },
    }
    match derive_instruction_address(&tx_key, record.instruction_index, &program_id) {
        Some(p) => {
            if !(p.0 == record_key) {
                return Err(MsError::InvalidInstructionAccount);
            }
        },
        None => {
            return Err(MsError::InvalidInstructionAccount);
        },
    }
    if supplied.len() == 0 {
        return Err(MsError::InvalidNumberOfAccounts);
    }
    if !(supplied[0].key == record.program_id) {
        return Err(MsError::InvalidInstructionAccount);
    }
    if supplied.len() - 1 < record.keys.len() {
        return Err(MsError::InvalidNumberOfAccounts);
    }
    let mut k: usize = 0;
    while k < record.keys.len()
        invariant
            k <= record.keys@.len(),
            supplied@.len() >= 1 + record.keys@.len(),
            forall|q: int| 0 <= q < k ==> #[trigger] supplied@[1 + q].key == record.keys@[q].pubkey,
        decreases record.keys@.len() - k,
    {
        if !(supplied[1 + k].key == record.keys[k].pubkey) {
            return Err(MsError::InvalidInstructionAccount);
        }
        k = k + 1;
    }
    Ok(
        PlannedInvocation {
            program_id: record.program_id,
            accounts: copy_metas(&record.keys),
            data: copy_bytes(&record.data),
            use_registry_authority: false,
        },
    )
}

/// Commits one dispatched sequential step: the record is marked
/// executed, the high-water mark advances to it, and the transaction
/// becomes `Executed` when it was the last staged instruction.
pub fn complete_execute_instruction(tx: &mut MsTransaction, record: &mut MsInstruction)
    requires
        old(tx).wf(),
        old(tx).status == MsTransactionStatus::ExecuteReady,
        old(record).instruction_index == old(tx).executed_index + 1,
        old(record).instruction_index <= old(tx).instruction_index,
    ensures
        final(tx).wf(),
        *final(record) == (MsInstruction { executed: true, ..*old(record) }),
        *final(tx) == (MsTransaction {
            executed_index: old(record).instruction_index,
            status: if old(record).instruction_index == old(tx).instruction_index {
                MsTransactionStatus::Executed
            } else {
                MsTransactionStatus::ExecuteReady
            },
            ..*old(tx)
        }),
{
    record.set_executed();
    tx.executed_index = record.instruction_index;
    if record.instruction_index == tx.instruction_index {
        tx.set_executed();
    }
}

} // verus!
