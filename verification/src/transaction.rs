//! Transaction records: one proposal each, with status and vote lists.

use vstd::prelude::*;

use crate::identity::Identity;
use crate::keylist::{find_key, insert_key, key_set, remove_at, sorted_unique};

verus! {

/// Lifecycle status of a transaction record.
#[derive(Clone, Copy, Debug, PartialEq, Eq, Structural)]
pub enum MsTransactionStatus {
    /// Freshly created; instructions may still be attached.
    Draft,
    /// Open for member votes.
    Active,
    /// Approved by a quorum and pending execution.
    ExecuteReady,
    /// Fully executed.
    Executed,
    /// Rejected by more members than could still be outvoted.
    Rejected,
    /// Cancelled by a quorum after becoming ready to execute.
    Cancelled,
}

/// One proposal under a registry.
#[derive(Debug)]
pub struct MsTransaction {
    /// Member that created the proposal.
    pub creator: Identity,
    /// Address of the owning registry.
    pub ms: Identity,
    /// The registry counter value this record consumed; also its
    /// address seed and its staleness stamp.
    pub transaction_index: u32,
    /// The authority the staged instructions will be signed with.
    pub authority_index: u16,
    /// Bump seed of that authority's derived address.
    pub authority_bump: u8,
    /// Lifecycle status.
    pub status: MsTransactionStatus,
    /// Number of instruction records attached so far.
    pub instruction_index: u8,
    /// Bump seed of this record's own derived address.
    pub bump: u8,
    /// Members that currently approve, strictly sorted.
    pub approved: Vec<Identity>,
    /// Members that currently reject, strictly sorted.
    pub rejected: Vec<Identity>,
    /// Members that voted to cancel, strictly sorted.
    pub cancelled: Vec<Identity>,
    /// High-water mark of sequential execution; 0 means not started.
    pub executed_index: u8,
}

impl MsTransaction {
    /// Packed size of a transaction record besides its vote lists: the
    /// creator key (32), registry key (32), transaction index (4),
    /// authority index (4), authority bump (1), status (1 + 12),
    /// instruction count (1), bump (1) and execution high-water
    /// mark (1).
    pub const MINIMUM_SIZE: usize = 32 + 32 + 4 + 4 + 1 + (1 + 12) + 1 + 1 + 1;

    /// Storage bytes a fresh record needs under a registry of
    /// `members_len` members: the fixed fields plus three vote lists
    /// sized for every member to vote.
    pub fn initial_size_with_members(members_len: usize) -> (r: usize)
        requires
            members_len * 96 + 101 <= usize::MAX,
        ensures
            r == 89 + 3 * (4 + members_len * 32),
    {
        Self::MINIMUM_SIZE + (3 * (4 + (members_len * 32)))
    }

    /// Well-formedness: the vote lists are strictly sorted, no key
    /// both approves and rejects, and sequential execution never runs
    /// past the attached instructions.
    pub open spec fn wf(self) -> bool {
        &&& sorted_unique(self.approved@)
        &&& sorted_unique(self.rejected@)
        &&& sorted_unique(self.cancelled@)
        &&& forall|k: Identity|
            !(#[trigger] self.approved@.contains(k) && #[trigger] self.rejected@.contains(k))
        &&& self.executed_index <= self.instruction_index
    }

    /// The set of approving members.
    pub open spec fn approved_set(self) -> Set<Identity> {
        key_set(self.approved@)
    }

    /// The set of rejecting members.
    pub open spec fn rejected_set(self) -> Set<Identity> {
        key_set(self.rejected@)
    }

    /// The set of members that voted to cancel.
    pub open spec fn cancelled_set(self) -> Set<Identity> {
        key_set(self.cancelled@)
    }

    /// Builds a fresh record in `Draft` with empty vote lists.
    pub fn init(
        creator: Identity,
        multisig: Identity,
        transaction_index: u32,
        bump: u8,
        authority_index: u16,
        authority_bump: u8,
    ) -> (r: MsTransaction)
        ensures
            r.wf(),
            r.creator == creator,
            r.ms == multisig,
            r.transaction_index == transaction_index,
            r.authority_index == authority_index,
            r.authority_bump == authority_bump,
            r.status == MsTransactionStatus::Draft,
            r.instruction_index == 0,
            r.bump == bump,
            r.approved@.len() == 0,
            r.rejected@.len() == 0,
            r.cancelled@.len() == 0,
            r.executed_index == 0,
    {
        MsTransaction {
            creator,
            ms: multisig,
            transaction_index,
            authority_index,
            authority_bump,
            status: MsTransactionStatus::Draft,
            instruction_index: 0,
            bump,
            approved: Vec::new(),
            rejected: Vec::new(),
            cancelled: Vec::new(),
            executed_index: 0,
        }
    }

    /// Sets the status to `Active`.
    pub fn activate(&mut self)
        ensures
            *final(self) == (MsTransaction { status: MsTransactionStatus::Active, ..*old(self) }),
    {
        self.status = MsTransactionStatus::Active;
    }

    /// Sets the status to `ExecuteReady`.
    pub fn ready_to_execute(&mut self)
        ensures
            *final(self) == (MsTransaction {
                status: MsTransactionStatus::ExecuteReady,
                ..*old(self)
            }),
    {
        self.status = MsTransactionStatus::ExecuteReady;
    }

    /// Sets the status to `Rejected`.
    pub fn set_rejected(&mut self)
        ensures
            *final(self) == (MsTransaction { status: MsTransactionStatus::Rejected, ..*old(self) }),
    {
        self.status = MsTransactionStatus::Rejected;
    }

    /// Sets the status to `Cancelled`.
    pub fn set_cancelled(&mut self)
        ensures
            *final(self) == (MsTransaction {
                status: MsTransactionStatus::Cancelled,
                ..*old(self)
            }),
    {
        self.status = MsTransactionStatus::Cancelled;
    }

    /// Sets the status to `Executed`.
    pub fn set_executed(&mut self)
        ensures
            *final(self) == (MsTransaction { status: MsTransactionStatus::Executed, ..*old(self) }),
    {
        self.status = MsTransactionStatus::Executed;
    }

    /// Records an approval vote. The voter must not currently reject;
    /// vote switching removes the opposite vote first.
    pub fn sign(&mut self, member: Identity)
        requires
            old(self).wf(),
            !old(self).rejected@.contains(member),
            old(self).approved@.len() < usize::MAX,
        ensures
            final(self).wf(),
            final(self).approved_set() == old(self).approved_set().insert(member),
            final(self).approved@.contains(member),
            old(self).approved@.contains(member) ==> final(self).approved@ == old(self).approved@,
            !old(self).approved@.contains(member) ==> final(self).approved@.len() == old(
                self,
            ).approved@.len() + 1,
            *final(self) == (MsTransaction { approved: final(self).approved, ..*old(self) }),
    {
        insert_key(&mut self.approved, member);
        proof {
            assert forall|k: Identity| self.approved@.contains(k) implies old(
                self,
            ).approved@.contains(k) || k == member by {
                assert(key_set(self.approved@).contains(k));
                assert(key_set(old(self).approved@).insert(member).contains(k));
            }
        }
    }

    /// Records a rejection vote. The voter must not currently approve.
    pub fn reject(&mut self, member: Identity)
        requires
            old(self).wf(),
            !old(self).approved@.contains(member),
            old(self).rejected@.len() < usize::MAX,
        ensures
            final(self).wf(),
            final(self).rejected_set() == old(self).rejected_set().insert(member),
            final(self).rejected@.contains(member),
            old(self).rejected@.contains(member) ==> final(self).rejected@ == old(self).rejected@,
            !old(self).rejected@.contains(member) ==> final(self).rejected@.len() == old(
                self,
            ).rejected@.len() + 1,
            *final(self) == (MsTransaction { rejected: final(self).rejected, ..*old(self) }),
    {
        insert_key(&mut self.rejected, member);
        proof {
            assert forall|k: Identity| self.rejected@.contains(k) implies old(
                self,
            ).rejected@.contains(k) || k == member by {
                assert(key_set(self.rejected@).contains(k));
                assert(key_set(old(self).rejected@).insert(member).contains(k));
            }
        }
    }

    /// Records a cancellation vote.
    pub fn cancel(&mut self, member: Identity)
        requires
            old(self).wf(),
            old(self).cancelled@.len() < usize::MAX,
        ensures
            final(self).wf(),
            final(self).cancelled_set() == old(self).cancelled_set().insert(member),
            final(self).cancelled@.contains(member),
            old(self).cancelled@.contains(member) ==> final(self).cancelled@ == old(
                self,
            ).cancelled@,
            !old(self).cancelled@.contains(member) ==> final(self).cancelled@.len() == old(
                self,
            ).cancelled@.len() + 1,
            *final(self) == (MsTransaction { cancelled: final(self).cancelled, ..*old(self) }),
    {
        insert_key(&mut self.cancelled, member);
    }

    /// Whether the key has an approval or a rejection recorded.
    pub fn has_voted(&self, member: Identity) -> (r: bool)
        requires
            self.wf(),
        ensures
            r == (self.approved@.contains(member) || self.rejected@.contains(member)),
    {
        let approved = find_key(&self.approved, &member).is_some();
        let rejected = find_key(&self.rejected, &member).is_some();
        approved || rejected
    }

    /// Position of the key's approval vote, if any.
    pub fn has_voted_approve(&self, member: Identity) -> (r: Option<usize>)
        requires
            self.wf(),
        ensures
            r is Some <==> self.approved@.contains(member),
            match r {
                Some(i) => i < self.approved@.len() && self.approved@[i as int] == member,
                None => !self.approved@.contains(member),
            },
    {
        find_key(&self.approved, &member)
    }

    /// Position of the key's rejection vote, if any.
    pub fn has_voted_reject(&self, member: Identity) -> (r: Option<usize>)
        requires
            self.wf(),
        ensures
            r is Some <==> self.rejected@.contains(member),
            match r {
                Some(i) => i < self.rejected@.len() && self.rejected@[i as int] == member,
                None => !self.rejected@.contains(member),
            },
    {
        find_key(&self.rejected, &member)
    }

    /// Position of the key's cancellation vote, if any.
    pub fn has_cancelled(&self, member: Identity) -> (r: Option<usize>)
        requires
            self.wf(),
        ensures
            r is Some <==> self.cancelled@.contains(member),
            match r {
                Some(i) => i < self.cancelled@.len() && self.cancelled@[i as int] == member,
                None => !self.cancelled@.contains(member),
            },
    {
        find_key(&self.cancelled, &member)
    }

    /// Removes the rejection vote at a known position.
    pub fn remove_reject(&mut self, index: usize)
        requires
            old(self).wf(),
            index < old(self).rejected@.len(),
        ensures
            final(self).wf(),
            final(self).rejected_set() == old(self).rejected_set().remove(
                old(self).rejected@[index as int],
            ),
            !final(self).rejected@.contains(old(self).rejected@[index as int]),
            final(self).rejected@.len() == old(self).rejected@.len() - 1,
            *final(self) == (MsTransaction { rejected: final(self).rejected, ..*old(self) }),
    {
        let ghost removed = self.rejected@[index as int];
        remove_at(&mut self.rejected, index);
        proof {
            assert forall|k: Identity| self.rejected@.contains(k) implies old(
                self,
            ).rejected@.contains(k) by {
                assert(key_set(self.rejected@).contains(k));
                assert(key_set(old(self).rejected@).remove(removed).contains(k));
            }
        }
    }

    /// Removes the approval vote at a known position.
    pub fn remove_approve(&mut self, index: usize)
        requires
            old(self).wf(),
            index < old(self).approved@.len(),
        ensures
            final(self).wf(),
            final(self).approved_set() == old(self).approved_set().remove(
                old(self).approved@[index as int],
            ),
            !final(self).approved@.contains(old(self).approved@[index as int]),
            final(self).approved@.len() == old(self).approved@.len() - 1,
            *final(self) == (MsTransaction { approved: final(self).approved, ..*old(self) }),
    {
        let ghost removed = self.approved@[index as int];
        remove_at(&mut self.approved, index);
        proof {
            assert forall|k: Identity| self.approved@.contains(k) implies old(
                self,
            ).approved@.contains(k) by {
                assert(key_set(self.approved@).contains(k));
                assert(key_set(old(self).approved@).remove(removed).contains(k));
            }
        }
    }
}

} // verus!
