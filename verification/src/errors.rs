//! Error kinds surfaced by the multisig core.
//!
//! Every guard failure maps to exactly one of these kinds so that callers
//! can distinguish authorization failures, lifecycle-state mismatches,
//! stale proposals, account mismatches and capacity problems.

use vstd::prelude::*;

verus! {

/// The error taxonomy of the multisig core.
#[derive(Clone, Copy, Debug, PartialEq, Eq, Structural)]
pub enum MsError {
    /// The acting key is not authorized (not a member, or not the creator).
    KeyNotInMultisig,
    /// The operation was attempted against the wrong lifecycle status.
    InvalidTransactionState,
    /// The supplied account list is too short or indexes out of range.
    InvalidNumberOfAccounts,
    /// A supplied account does not match the expected key, owner or
    /// derived address.
    InvalidInstructionAccount,
    /// The authority index is not usable for this operation.
    InvalidAuthorityIndex,
    /// The transaction has already been executed.
    TransactionAlreadyExecuted,
    /// Removing this member would leave the registry empty.
    CannotRemoveSoloMember,
    /// The threshold is outside `1 ..= member count`.
    InvalidThreshold,
    /// The transaction's index is at or below the registry's change index.
    DeprecatedTransaction,
    /// A staged sub-instruction failed when the host dispatched it.
    InstructionFailed,
    /// The member list is already at its maximum size.
    MaxMembersReached,
    /// An initial member list was empty after deduplication.
    EmptyMembers,
    /// Atomic execution was attempted after sequential execution began.
    PartialExecution,
    /// The account holding the registry is not funded for its new size.
    NotEnoughLamports,
    /// A packed transaction message failed validation.
    InvalidTransactionMessage,
    /// A supplied account violates the packed message's declarations.
    InvalidAccount,
}

/// The label text of each error kind.
pub open spec fn spec_label(e: MsError) -> Seq<char> {
    match e {
        MsError::KeyNotInMultisig => "key not in multisig"@,
        MsError::InvalidTransactionState => "invalid transaction state"@,
        MsError::InvalidNumberOfAccounts => "invalid number of accounts"@,
        MsError::InvalidInstructionAccount => "invalid instruction account"@,
        MsError::InvalidAuthorityIndex => "invalid authority index"@,
        MsError::TransactionAlreadyExecuted => "transaction already executed"@,
        MsError::CannotRemoveSoloMember => "cannot remove solo member"@,
        MsError::InvalidThreshold => "invalid threshold"@,
        MsError::DeprecatedTransaction => "deprecated transaction"@,
        MsError::InstructionFailed => "instruction failed"@,
        MsError::MaxMembersReached => "max members reached"@,
        MsError::EmptyMembers => "empty members"@,
        MsError::PartialExecution => "partial execution"@,
        MsError::NotEnoughLamports => "not enough lamports"@,
        MsError::InvalidTransactionMessage => "invalid transaction message"@,
        MsError::InvalidAccount => "invalid account"@,
    }
}

impl MsError {
    /// The label of this error kind, for host-side reporting; each
    /// kind has its own text.
    pub fn label(&self) -> (r: &'static str)
        ensures
            r@ == spec_label(*self),
            r@.len() > 0,
    {
        let s = match self {
            MsError::KeyNotInMultisig => "key not in multisig",
            MsError::InvalidTransactionState => "invalid transaction state",
            MsError::InvalidNumberOfAccounts => "invalid number of accounts",
            MsError::InvalidInstructionAccount => "invalid instruction account",
            MsError::InvalidAuthorityIndex => "invalid authority index",
            MsError::TransactionAlreadyExecuted => "transaction already executed",
            MsError::CannotRemoveSoloMember => "cannot remove solo member",
            MsError::InvalidThreshold => "invalid threshold",
            MsError::DeprecatedTransaction => "deprecated transaction",
            MsError::InstructionFailed => "instruction failed",
            MsError::MaxMembersReached => "max members reached",
            MsError::EmptyMembers => "empty members",
            MsError::PartialExecution => "partial execution",
            MsError::NotEnoughLamports => "not enough lamports",
            MsError::InvalidTransactionMessage => "invalid transaction message",
            MsError::InvalidAccount => "invalid account",
        };
        proof {
            reveal_strlit("key not in multisig");
            reveal_strlit("invalid transaction state");
            reveal_strlit("invalid number of accounts");
            reveal_strlit("invalid instruction account");
            reveal_strlit("invalid authority index");
            reveal_strlit("transaction already executed");
            reveal_strlit("cannot remove solo member");
            reveal_strlit("invalid threshold");
            reveal_strlit("deprecated transaction");
            reveal_strlit("instruction failed");
            reveal_strlit("max members reached");
            reveal_strlit("empty members");
            reveal_strlit("partial execution");
            reveal_strlit("not enough lamports");
            reveal_strlit("invalid transaction message");
            reveal_strlit("invalid account");
        }
        s
    }
}

} // verus!
