//! Instruction records: the staged sub-instructions of a proposal.

use vstd::prelude::*;

use crate::identity::Identity;

verus! {

/// One account a staged sub-instruction touches, with its modifiers.
#[derive(Clone, Copy, Debug, PartialEq, Eq, Structural)]
pub struct MsAccountMeta {
    /// The account's key.
    pub pubkey: Identity,
    /// Whether the account must sign the sub-instruction.
    pub is_signer: bool,
    /// Whether the sub-instruction may write to the account.
    pub is_writable: bool,
}

/// A fully specified sub-instruction handed in for staging.
#[derive(Debug)]
pub struct IncomingInstruction {
    /// The program the sub-instruction targets.
    pub program_id: Identity,
    /// The accounts it touches, in declared order.
    pub keys: Vec<MsAccountMeta>,
    /// Its opaque payload.
    pub data: Vec<u8>,
}

/// The number of bytes one account entry occupies when a record is
/// packed: a 32-byte key and two flag bytes.
pub const META_PACKED_LEN: usize = 34;

/// The packed size of a staged record beyond its account entries and
/// payload: the target key (32), two list length prefixes (4 + 4) and
/// the record's own index, bump and executed flag (3).
pub const RECORD_PACKED_OVERHEAD: usize = 43;

impl IncomingInstruction {
    /// The packed size of this sub-instruction's fields.
    pub open spec fn spec_packed_size(self) -> int {
        40 + 34 * self.keys@.len() as int + self.data@.len() as int
    }

    /// Storage bytes a record of this sub-instruction needs: its packed
    /// fields plus the record's index, bump and executed flag.
    pub fn get_max_size(&self) -> (r: usize)
        requires
            34 * self.keys@.len() + self.data@.len() + 43 <= usize::MAX,
        ensures
            r == self.spec_packed_size() + 3,
    {
        32 + 4 + META_PACKED_LEN * self.keys.len() + 4 + self.data.len() + 3
    }
}

/// One staged sub-instruction of a transaction record.
#[derive(Debug)]
pub struct MsInstruction {
    /// The program the sub-instruction targets.
    pub program_id: Identity,
    /// The accounts it touches, in declared order.
    pub keys: Vec<MsAccountMeta>,
    /// Its opaque payload.
    pub data: Vec<u8>,
    /// 1-based position among the transaction's staged instructions.
    pub instruction_index: u8,
    /// Bump seed of this record's derived storage address.
    pub bump: u8,
    /// Whether this record has been executed.
    pub executed: bool,
}

impl MsInstruction {
    /// Upper bound on the packed size of one staged record.
    pub const MAXIMUM_SIZE: usize = 1280;

    /// Builds a record from an incoming sub-instruction.
    pub fn init(instruction_index: u8, incoming_instruction: IncomingInstruction, bump: u8) -> (r:
        MsInstruction)
        ensures
            r.program_id == incoming_instruction.program_id,
            r.keys@ == incoming_instruction.keys@,
            r.data@ == incoming_instruction.data@,
            r.instruction_index == instruction_index,
            r.bump == bump,
            !r.executed,
    {
        MsInstruction {
            program_id: incoming_instruction.program_id,
            keys: incoming_instruction.keys,
            data: incoming_instruction.data,
            instruction_index,
            bump,
            executed: false,
        }
    }

    /// Marks the record as executed.
    pub fn set_executed(&mut self)
        ensures
            *final(self) == (MsInstruction { executed: true, ..*old(self) }),
    {
        self.executed = true;
    }
}

} // verus!
