//! The membership registry: member keys, approval threshold and the
//! rolling indexes that tie transaction records to membership epochs.

use vstd::prelude::*;

use crate::identity::Identity;
use crate::keylist::{find_key, insert_key, key_set, remove_at, sorted_unique};

verus! {

/// The registry of one multisig: its members, threshold and counters.
#[derive(Debug)]
pub struct Ms {
    /// Minimum number of approvals required to execute a proposal.
    pub threshold: u16,
    /// Counter of derived authorities registered for bookkeeping.
    pub authority_index: u16,
    /// Strictly increasing counter of transaction records ever created.
    pub transaction_index: u32,
    /// Value of `transaction_index` at the last membership or threshold
    /// change; any transaction at or below it is permanently stale.
    pub ms_change_index: u32,
    /// Bump seed of the registry's own derived address.
    pub bump: u8,
    /// Key that seeded the registry's address.
    pub create_key: Identity,
    /// Whether non-members may trigger execution.
    pub allow_external_execute: bool,
    /// Member keys, strictly sorted.
    pub keys: Vec<Identity>,
    /// Member slots the backing storage has room for.
    pub key_capacity: usize,
}

impl Ms {
    /// Packed size of a registry record besides its member keys: the
    /// record tag (8), threshold (2), authority counter (2),
    /// transaction counter (4), change index (4), bump (1), creation
    /// key (32), external-execute flag (1) and member list length (4).
    pub const SIZE_WITHOUT_MEMBERS: usize = 8 + 2 + 2 + 4 + 4 + 1 + 32 + 1 + 4;

    /// Well-formedness: the threshold always lies in `1 ..= |members|`,
    /// the member list is strictly sorted (hence duplicate-free) and
    /// fits its storage, and the change index never runs ahead of the
    /// transaction counter.
    pub open spec fn wf(self) -> bool {
        &&& 1 <= self.threshold as int <= self.keys@.len()
        &&& self.keys@.len() <= 0xffff
        &&& sorted_unique(self.keys@)
        &&& self.ms_change_index <= self.transaction_index
        &&& self.keys@.len() <= self.key_capacity as int
    }

    /// The set of member keys.
    pub open spec fn member_set(self) -> Set<Identity> {
        key_set(self.keys@)
    }

    /// Whether `k` is a member.
    pub open spec fn spec_is_member(self, k: Identity) -> bool {
        self.keys@.contains(k)
    }

    /// Builds a fresh registry from an already sorted, duplicate-free
    /// member list. Counters start at zero and the first general
    /// authority index is reserved.
    pub fn init(threshold: u16, create_key: Identity, members: Vec<Identity>, bump: u8) -> (r: Ms)
        requires
            sorted_unique(members@),
            1 <= threshold as int <= members@.len(),
            members@.len() <= 0xffff,
        ensures
            r.wf(),
            r.threshold == threshold,
            r.authority_index == 1,
            r.transaction_index == 0,
            r.ms_change_index == 0,
            r.bump == bump,
            r.create_key == create_key,
            !r.allow_external_execute,
            r.keys@ == members@,
            r.key_capacity == members@.len(),
    {
        let key_capacity = members.len();
        Ms {
            threshold,
            authority_index: 1,
            transaction_index: 0,
            ms_change_index: 0,
            bump,
            create_key,
            allow_external_execute: false,
            keys: members,
            key_capacity,
        }
    }

    /// Looks a key up among the members by binary search.
    pub fn is_member(&self, member: Identity) -> (r: Option<usize>)
        requires
            self.wf(),
        ensures
            r is Some <==> self.spec_is_member(member),
            match r {
                Some(i) => i < self.keys@.len() && self.keys@[i as int] == member,
                None => !self.spec_is_member(member),
            },
    {
        find_key(&self.keys, &member)
    }

    /// Stamps the change index, deprecating every transaction record
    /// created at or below `index`.
    pub fn set_change_index(&mut self, index: u32)
        requires
            old(self).ms_change_index <= index <= old(self).transaction_index,
        ensures
            *final(self) == (Ms { ms_change_index: index, ..*old(self) }),
    {
        self.ms_change_index = index;
    }

    /// Bumps the bookkeeping counter of registered authorities.
    pub fn add_authority(&mut self)
        requires
            old(self).authority_index < 0xffff,
        ensures
            *final(self) == (Ms {
                authority_index: (old(self).authority_index + 1) as u16,
                ..*old(self)
            }),
    {
        self.authority_index = self.authority_index + 1;
    }

    /// Inserts a key into the member list, keeping it sorted; a key
    /// already present leaves the registry unchanged.
    pub fn add_member(&mut self, member: Identity)
        requires
            old(self).wf(),
            old(self).keys@.len() < 0xffff,
            old(self).spec_is_member(member) || old(self).keys@.len() < old(self).key_capacity,
        ensures
            final(self).wf(),
            final(self).member_set() == old(self).member_set().insert(member),
            final(self).spec_is_member(member),
            old(self).spec_is_member(member) ==> final(self).keys@ == old(self).keys@,
            !old(self).spec_is_member(member) ==> final(self).keys@.len() == old(self).keys@.len()
                + 1,
            *final(self) == (Ms { keys: final(self).keys, ..*old(self) }),
    {
        insert_key(&mut self.keys, member);
    }

    /// Removes a key from the member list if present; if the list then
    /// falls below the threshold, the threshold is clamped down to the
    /// new member count.
    pub fn remove_member(&mut self, member: Identity)
        requires
            old(self).wf(),
            old(self).keys@.len() > 1 || !old(self).spec_is_member(member),
        ensures
            final(self).wf(),
            final(self).member_set() == old(self).member_set().remove(member),
            !final(self).spec_is_member(member),
            final(self).threshold as int == if old(self).spec_is_member(member) && old(
                self,
            ).keys@.len() - 1 < old(self).threshold as int {
                old(self).keys@.len() - 1
            } else {
                old(self).threshold as int
            },
            !old(self).spec_is_member(member) ==> final(self).keys@ == old(self).keys@,
            old(self).spec_is_member(member) ==> final(self).keys@.len() == old(self).keys@.len()
                - 1,
            *final(self) == (Ms {
                keys: final(self).keys,
                threshold: final(self).threshold,
                ..*old(self)
            }),
    {
        match find_key(&self.keys, &member) {
            Some(i) => {
                remove_at(&mut self.keys, i);
                if self.keys.len() < self.threshold as usize {
                    self.threshold = self.keys.len() as u16;
                }
            },
            None => {
                proof {
                    assert(self.member_set() =~= old(self).member_set().remove(member));
                }
            },
        }
    }

    /// Sets the threshold to a value already known to be valid.
    pub fn change_threshold(&mut self, threshold: u16)
        requires
            old(self).wf(),
            1 <= threshold as int <= old(self).keys@.len(),
        ensures
            final(self).wf(),
            *final(self) == (Ms { threshold, ..*old(self) }),
    {
        self.threshold = threshold;
    }

    /// Toggles whether non-members may trigger execution.
    pub fn set_external_execute(&mut self, allow: bool)
        ensures
            *final(self) == (Ms { allow_external_execute: allow, ..*old(self) }),
    {
        self.allow_external_execute = allow;
    }

    /// Grows the tracked storage capacity by a chunk of member slots.
    pub fn grow_capacity(&mut self, extra: usize)
        requires
            old(self).key_capacity + extra <= usize::MAX,
        ensures
            *final(self) == (Ms {
                key_capacity: (old(self).key_capacity + extra) as usize,
                ..*old(self)
            }),
    {
        self.key_capacity = self.key_capacity + extra;
    }
}

} // verus!
