//! Packed transaction messages.
//!
//! A packed message carries a whole batch in one account: a compact
//! account-key table split into signer/writable classes, compiled
//! instructions that index into that table, and lookup-table references
//! that load further keys. The byte format is parsed and validated
//! here; what the parser accepts and returns is pinned down by the
//! spec-level parsing functions.

use vstd::prelude::*;

use crate::errors::MsError;
use crate::execute::{PlannedInvocation, SuppliedAccount};
use crate::identity::{id_of_bytes, Identity};
use crate::instruction::MsAccountMeta;

verus! {

/// One compiled instruction of a packed message: a program reference
/// and account references, both as indexes into the message's key
/// table, plus the payload.
#[derive(Debug)]
pub struct MsCompiledInstruction {
    /// Index of the target program's key in the message's key table.
    pub program_id_index: u8,
    /// Indexes of the accounts to pass, in order.
    pub account_indexes: Vec<u8>,
    /// The payload.
    pub data: Vec<u8>,
}

/// One lookup-table reference of a packed message.
#[derive(Debug)]
pub struct MsMessageAddressTableLookup {
    /// Address of the lookup table account.
    pub account_key: Identity,
    /// Positions in the table loaded as writable accounts.
    pub writable_indexes: Vec<u8>,
    /// Positions in the table loaded as readonly accounts.
    pub readonly_indexes: Vec<u8>,
}

/// A packed message as parsed from bytes, before validation.
#[derive(Debug)]
pub struct TransactionMessage {
    /// Number of signer keys at the front of the key table.
    pub num_signers: u8,
    /// Number of writable keys among the signers.
    pub num_writable_signers: u8,
    /// Number of writable keys among the non-signers.
    pub num_writable_non_signers: u8,
    /// The key table: writable signers, readonly signers, writable
    /// non-signers, then readonly non-signers and program keys.
    pub account_keys: Vec<Identity>,
    /// The compiled instructions.
    pub instructions: Vec<MsCompiledInstruction>,
    /// The lookup-table references.
    pub address_table_lookups: Vec<MsMessageAddressTableLookup>,
}

/// A packed message whose class counts have been validated.
#[derive(Debug)]
pub struct MsTransactionMessage {
    /// Number of signer keys at the front of the key table.
    pub num_signers: u8,
    /// Number of writable keys among the signers.
    pub num_writable_signers: u8,
    /// Number of writable keys among the non-signers.
    pub num_writable_non_signers: u8,
    /// The key table.
    pub account_keys: Vec<Identity>,
    /// The compiled instructions.
    pub instructions: Vec<MsCompiledInstruction>,
    /// The lookup-table references.
    pub address_table_lookups: Vec<MsMessageAddressTableLookup>,
}

/// Spec shape of a compiled instruction.
pub open spec fn compiled_view(c: MsCompiledInstruction) -> (u8, Seq<u8>, Seq<u8>) {
    (c.program_id_index, c.account_indexes@, c.data@)
}

/// Spec shape of a lookup-table reference.
pub open spec fn lookup_view(l: MsMessageAddressTableLookup) -> (Identity, Seq<u8>, Seq<u8>) {
    (l.account_key, l.writable_indexes@, l.readonly_indexes@)
}

/// Spec shapes of a list of compiled instructions.
pub open spec fn compiled_views(s: Seq<MsCompiledInstruction>) -> Seq<(u8, Seq<u8>, Seq<u8>)> {
    s.map_values(|c: MsCompiledInstruction| compiled_view(c))
}

/// Spec shapes of a list of lookup-table references.
pub open spec fn lookup_views(s: Seq<MsMessageAddressTableLookup>) -> Seq<
    (Identity, Seq<u8>, Seq<u8>),
> {
    s.map_values(|l: MsMessageAddressTableLookup| lookup_view(l))
}

/// Spec shape of a packed message.
pub open spec fn message_view(m: TransactionMessage) -> (
    u8,
    u8,
    u8,
    Seq<Identity>,
    Seq<(u8, Seq<u8>, Seq<u8>)>,
    Seq<(Identity, Seq<u8>, Seq<u8>)>,
) {
    (
        m.num_signers,
        m.num_writable_signers,
        m.num_writable_non_signers,
        m.account_keys@,
        compiled_views(m.instructions@),
        lookup_views(m.address_table_lookups@),
    )
}

/// Reads one byte.
pub open spec fn parse_u8(s: Seq<u8>, pos: int) -> Option<(u8, int)> {
    if 0 <= pos && pos + 1 <= s.len() {
        Some((s[pos], pos + 1))
    } else {
        None
    }
}

/// Reads a 16-bit little-endian length.
pub open spec fn parse_u16_le(s: Seq<u8>, pos: int) -> Option<(u16, int)> {
    if 0 <= pos && pos + 2 <= s.len() {
        Some(((s[pos] + s[pos + 1] * 0x100) as u16, pos + 2))
    } else {
        None
    }
}

/// Reads a 32-byte key.
pub open spec fn parse_key(s: Seq<u8>, pos: int) -> Option<(Identity, int)> {
    if 0 <= pos && pos + 32 <= s.len() {
        Some((id_of_bytes(s.subrange(pos, pos + 32)), pos + 32))
    } else {
        None
    }
}

/// Reads `n` raw bytes.
pub open spec fn parse_bytes(s: Seq<u8>, pos: int, n: int) -> Option<(Seq<u8>, int)> {
    if 0 <= pos && 0 <= n && pos + n <= s.len() {
        Some((s.subrange(pos, pos + n), pos + n))
    } else {
        None
    }
}

/// Reads `count` 32-byte keys.
pub open spec fn parse_keys(s: Seq<u8>, pos: int, count: int) -> Option<(Seq<Identity>, int)>
    decreases count,
{
    if count <= 0 {
        Some((Seq::empty(), pos))
    } else {
        match parse_key(s, pos) {
            None => None,
            Some((k, p1)) => match parse_keys(s, p1, count - 1) {
                None => None,
                Some((rest, p2)) => Some((seq![k] + rest, p2)),
            },
        }
    }
}

/// Reads one compiled instruction: program index, a byte-counted index
/// list, and a 16-bit-counted payload.
pub open spec fn parse_compiled(s: Seq<u8>, pos: int) -> Option<((u8, Seq<u8>, Seq<u8>), int)> {
    match parse_u8(s, pos) {
        None => None,
        Some((prog, p1)) => match parse_u8(s, p1) {
            None => None,
            Some((idx_len, p2)) => match parse_bytes(s, p2, idx_len as int) {
                None => None,
                Some((indexes, p3)) => match parse_u16_le(s, p3) {
                    None => None,
                    Some((data_len, p4)) => match parse_bytes(s, p4, data_len as int) {
                        None => None,
                        Some((data, p5)) => Some(((prog, indexes, data), p5)),
                    },
                },
            },
        },
    }
}

/// Reads `count` compiled instructions.
pub open spec fn parse_compiled_list(s: Seq<u8>, pos: int, count: int) -> Option<
    (Seq<(u8, Seq<u8>, Seq<u8>)>, int),
>
    decreases count,
{
    if count <= 0 {
        Some((Seq::empty(), pos))
    } else {
        match parse_compiled(s, pos) {
            None => None,
            Some((c, p1)) => match parse_compiled_list(s, p1, count - 1) {
                None => None,
                Some((rest, p2)) => Some((seq![c] + rest, p2)),
            },
        }
    }
}

/// Reads one lookup-table reference: a key and two byte-counted index
/// lists.
pub open spec fn parse_lookup(s: Seq<u8>, pos: int) -> Option<((Identity, Seq<u8>, Seq<u8>), int)> {
    match parse_key(s, pos) {
        None => None,
        Some((key, p1)) => match parse_u8(s, p1) {
            None => None,
            Some((w_len, p2)) => match parse_bytes(s, p2, w_len as int) {
                None => None,
                Some((writable, p3)) => match parse_u8(s, p3) {
                    None => None,
                    Some((r_len, p4)) => match parse_bytes(s, p4, r_len as int) {
                        None => None,
                        Some((readonly, p5)) => Some(((key, writable, readonly), p5)),
                    },
                },
            },
        },
    }
}

/// Reads `count` lookup-table references.
pub open spec fn parse_lookup_list(s: Seq<u8>, pos: int, count: int) -> Option<
    (Seq<(Identity, Seq<u8>, Seq<u8>)>, int),
>
    decreases count,
{
    if count <= 0 {
        Some((Seq::empty(), pos))
    } else {
        match parse_lookup(s, pos) {
            None => None,
            Some((l, p1)) => match parse_lookup_list(s, p1, count - 1) {
                None => None,
                Some((rest, p2)) => Some((seq![l] + rest, p2)),
            },
        }
    }
}

/// Parses a whole packed message from the front of `s`: three class
/// counts, a byte-counted key table, byte-counted compiled
/// instructions, and byte-counted lookup references. Trailing bytes
/// are ignored.
pub open spec fn parse_transaction_message(s: Seq<u8>) -> Option<
    ((u8, u8, u8, Seq<Identity>, Seq<(u8, Seq<u8>, Seq<u8>)>, Seq<(Identity, Seq<u8>, Seq<u8>)>), int),
> {
    match parse_u8(s, 0) {
        None => None,
        Some((ns, p1)) => match parse_u8(s, p1) {
            None => None,
            Some((nws, p2)) => match parse_u8(s, p2) {
                None => None,
                Some((nwns, p3)) => match parse_u8(s, p3) {
                    None => None,
                    Some((keys_len, p4)) => match parse_keys(s, p4, keys_len as int) {
                        None => None,
                        Some((keys, p5)) => match parse_u8(s, p5) {
                            None => None,
                            Some((ix_len, p6)) => match parse_compiled_list(s, p6, ix_len as int) {
                                None => None,
                                Some((ixs, p7)) => match parse_u8(s, p7) {
                                    None => None,
                                    Some((lk_len, p8)) => match parse_lookup_list(
                                        s,
                                        p8,
                                        lk_len as int,
                                    ) {
                                        None => None,
                                        Some((lks, p9)) => Some(
                                            ((ns, nws, nwns, keys, ixs, lks), p9),
                                        ),
                                    },
                                },
                            },
                        },
                    },
                },
            },
        },
    }
}


/// A lookup table the host has loaded: its address, its owner and the
/// addresses it holds.
#[derive(Debug)]
pub struct LoadedLookupTable {
    /// The table account's address.
    pub key: Identity,
    /// The program that owns the table account.
    pub owner: Identity,
    /// The addresses stored in the table.
    pub addresses: Vec<Identity>,
}

/// Number of account keys the message's lookup references load.
pub open spec fn loaded_key_count(lks: Seq<MsMessageAddressTableLookup>) -> int
    decreases lks.len(),
{
    if lks.len() == 0 {
        0
    } else {
        loaded_key_count(lks.drop_last()) + lks.last().writable_indexes@.len()
            + lks.last().readonly_indexes@.len()
    }
}

/// Prefixes never load more keys than the whole reference list.
pub proof fn lemma_loaded_key_count_mono(lks: Seq<MsMessageAddressTableLookup>, j: int)
    requires
        0 <= j <= lks.len(),
    ensures
        0 <= loaded_key_count(lks.take(j)) <= loaded_key_count(lks),
        j < lks.len() ==> loaded_key_count(lks.take(j + 1)) == loaded_key_count(lks.take(j))
            + lks[j].writable_indexes@.len() + lks[j].readonly_indexes@.len(),
    decreases lks.len() - j,
{
    if j < lks.len() {
        assert(lks.take(j + 1).drop_last() =~= lks.take(j));
        assert(lks.take(j + 1).last() == lks[j]);
        lemma_loaded_key_count_nonneg(lks.take(j));
        lemma_loaded_key_count_mono(lks, j + 1);
    } else {
        assert(lks.take(j) =~= lks);
        lemma_loaded_key_count_nonneg(lks);
    }
}

/// A reference list never loads a negative number of keys.
pub proof fn lemma_loaded_key_count_nonneg(lks: Seq<MsMessageAddressTableLookup>)
    ensures
        loaded_key_count(lks) >= 0,
    decreases lks.len(),
{
    if lks.len() > 0 {
        lemma_loaded_key_count_nonneg(lks.drop_last());
    }
}

impl MsTransactionMessage {
    /// The class counts are consistent with the key table: signers fit
    /// in the table, writable signers among the signers, and writable
    /// non-signers among the non-signers.
    pub open spec fn valid_counts(
        num_signers: u8,
        num_writable_signers: u8,
        num_writable_non_signers: u8,
        account_keys: Seq<Identity>,
    ) -> bool {
        &&& num_signers as int <= account_keys.len()
        &&& num_writable_signers <= num_signers
        &&& num_writable_non_signers as int <= account_keys.len() - num_signers as int
    }

    /// Validates a parsed message's class counts.
    pub fn try_from(message: TransactionMessage) -> (r: Result<MsTransactionMessage, MsError>)
        ensures
            match r {
                Ok(m) => {
                    &&& Self::valid_counts(
                        message.num_signers,
                        message.num_writable_signers,
                        message.num_writable_non_signers,
                        message.account_keys@,
                    )
                    &&& m.num_signers == message.num_signers
                    &&& m.num_writable_signers == message.num_writable_signers
                    &&& m.num_writable_non_signers == message.num_writable_non_signers
                    &&& m.account_keys@ == message.account_keys@
                    &&& m.instructions@ == message.instructions@
                    &&& m.address_table_lookups@ == message.address_table_lookups@
                },
                Err(e) => {
                    &&& e == MsError::InvalidTransactionMessage
                    &&& !Self::valid_counts(
                        message.num_signers,
                        message.num_writable_signers,
                        message.num_writable_non_signers,
                        message.account_keys@,
                    )
                },
            },
    {
        if message.num_signers as usize > message.account_keys.len() {
            return Err(MsError::InvalidTransactionMessage);
        }
        if message.num_writable_signers > message.num_signers {
            return Err(MsError::InvalidTransactionMessage);
        }
        if message.num_writable_non_signers as usize > message.account_keys.len()
            - message.num_signers as usize {
            return Err(MsError::InvalidTransactionMessage);
        }
        Ok(
            MsTransactionMessage {
                num_signers: message.num_signers,
                num_writable_signers: message.num_writable_signers,
                num_writable_non_signers: message.num_writable_non_signers,
                account_keys: message.account_keys,
                instructions: message.instructions,
                address_table_lookups: message.address_table_lookups,
            },
        )
    }

    /// All account keys of the message: the static table plus every
    /// key its lookup references load.
    #[verifier::loop_isolation(false)]
    pub fn num_all_account_keys(&self) -> (r: usize)
        requires
            self.account_keys@.len() + loaded_key_count(self.address_table_lookups@)
                <= usize::MAX,
        ensures
            r == self.account_keys@.len() + loaded_key_count(self.address_table_lookups@),
    {
        proof {
            lemma_loaded_key_count_nonneg(self.address_table_lookups@);
        }
        let mut loaded: usize = 0;
        let mut j: usize = 0;
        while j < self.address_table_lookups.len()
            invariant
                j <= self.address_table_lookups@.len(),
                loaded == loaded_key_count(self.address_table_lookups@.take(j as int)),
            decreases self.address_table_lookups@.len() - j,
        {
            proof {
                lemma_loaded_key_count_mono(self.address_table_lookups@, j as int);
                lemma_loaded_key_count_mono(self.address_table_lookups@, j + 1);
            }
            let lk = &self.address_table_lookups[j];
            loaded = loaded + lk.writable_indexes.len();
            loaded = loaded + lk.readonly_indexes.len();
            j = j + 1;
        }
        proof {
            assert(self.address_table_lookups@.take(self.address_table_lookups@.len() as int)
                =~= self.address_table_lookups@);
        }
        self.account_keys.len() + loaded
    }

    /// Whether position `idx` of the static key table was requested to
    /// be writable.
    pub open spec fn spec_is_static_writable(self, idx: int) -> bool {
        &&& 0 <= idx < self.account_keys@.len()
        &&& (idx < self.num_writable_signers as int || (idx >= self.num_signers as int && (idx
            - self.num_signers as int) < self.num_writable_non_signers as int))
    }

    /// Whether position `key_index` of the static key table was
    /// requested to be writable.
    pub fn is_static_writable_index(&self, key_index: usize) -> (r: bool)
        ensures
            r == self.spec_is_static_writable(key_index as int),
    {
        if key_index >= self.account_keys.len() {
            return false;
        }
        if key_index < self.num_writable_signers as usize {
            return true;
        }
        if key_index >= self.num_signers as usize {
            return (key_index - self.num_signers as usize)
                < self.num_writable_non_signers as usize;
        }
        false
    }

    /// Whether position `key_index` was requested to be a signer.
    pub fn is_signer_index(&self, key_index: usize) -> (r: bool)
        ensures
            r == (key_index < self.num_signers as int),
    {
        key_index < self.num_signers as usize
    }
}

/// First table in the loaded list with the given address.
pub open spec fn find_table(tables: Seq<LoadedLookupTable>, key: Identity, q: int) -> Option<int>
    decreases tables.len() - q,
{
    if q < 0 || q >= tables.len() {
        None
    } else if tables[q].key == key {
        Some(q)
    } else {
        find_table(tables, key, q + 1)
    }
}

/// One account loaded from a lookup table is as declared: the right
/// modifiers and exactly the address the table holds at the referenced
/// position.
pub open spec fn loaded_entry_valid(
    accounts: Seq<SuppliedAccount>,
    tbl: LoadedLookupTable,
    pos: int,
    table_index: u8,
    writable: bool,
) -> bool {
    &&& 0 <= pos < accounts.len()
    &&& accounts[pos].is_writable == writable
    &&& !accounts[pos].is_signer
    &&& (table_index as int) < tbl.addresses@.len()
    &&& accounts[pos].key == tbl.addresses@[table_index as int]
}

/// The block of accounts one lookup reference loads is as declared:
/// its table was supplied, the writable entries come first and the
/// readonly entries follow, each matching the table.
pub open spec fn lookup_block_valid(
    m: MsTransactionMessage,
    accounts: Seq<SuppliedAccount>,
    tables: Seq<LoadedLookupTable>,
    j: int,
) -> bool {
    let lk = m.address_table_lookups@[j];
    let base = m.account_keys@.len() + loaded_key_count(m.address_table_lookups@.take(j));
    match find_table(tables, lk.account_key, 0) {
        None => false,
        Some(t) => {
            &&& forall|x: int|
                0 <= x < lk.writable_indexes@.len() ==> loaded_entry_valid(
                    accounts,
                    tables[t],
                    base + x,
                    lk.writable_indexes@[x],
                    true,
                )
            &&& forall|x: int|
                0 <= x < lk.readonly_indexes@.len() ==> loaded_entry_valid(
                    accounts,
                    tables[t],
                    base + lk.writable_indexes@.len() + x,
                    lk.readonly_indexes@[x],
                    false,
                )
        },
    }
}

/// The supplied accounts satisfy everything the packed message
/// declares: one loaded table per lookup reference, each owned by the
/// lookup-table program and mentioned by the message; the static keys
/// first, with the declared writability and, away from the authority,
/// the declared signer flag; then the loaded blocks in order.
pub open spec fn message_accounts_valid(
    m: MsTransactionMessage,
    accounts: Seq<SuppliedAccount>,
    tables: Seq<LoadedLookupTable>,
    authority: Identity,
    lookup_table_program: Identity,
) -> bool {
    &&& tables.len() == m.address_table_lookups@.len()
    &&& forall|t: int| 0 <= t < tables.len() ==> (#[trigger] tables[t]).owner == lookup_table_program
    &&& forall|t: int|
        0 <= t < tables.len() ==> exists|q: int|
            0 <= q < m.address_table_lookups@.len() && (#[trigger] m.address_table_lookups@[q]).account_key
                == (#[trigger] tables[t]).key
    &&& accounts.len() == m.account_keys@.len() + loaded_key_count(m.address_table_lookups@)
    &&& forall|i: int|
        0 <= i < m.account_keys@.len() ==> {
            &&& (#[trigger] accounts[i]).key == m.account_keys@[i]
            &&& accounts[i].is_writable == m.spec_is_static_writable(i)
            &&& (accounts[i].key != authority ==> accounts[i].is_signer == (i
                < m.num_signers as int))
        }
    &&& forall|j: int|
        0 <= j < m.address_table_lookups@.len() ==> lookup_block_valid(m, accounts, tables, j)
}

/// Reads one byte.
fn read_u8(input: &Vec<u8>, pos: usize) -> (r: Option<(u8, usize)>)
    ensures
        match r {
            Some(p) => parse_u8(input@, pos as int) == Some((p.0, p.1 as int)),
            None => parse_u8(input@, pos as int) is None,
        },
{
    if pos < input.len() {
        Some((input[pos], pos + 1))
    } else {
        None
    }
}

/// Reads a 16-bit little-endian length.
fn read_u16_le(input: &Vec<u8>, pos: usize) -> (r: Option<(u16, usize)>)
    ensures
        match r {
            Some(p) => parse_u16_le(input@, pos as int) == Some((p.0, p.1 as int)),
            None => parse_u16_le(input@, pos as int) is None,
        },
{
    if input.len() >= 2 && pos <= input.len() - 2 {
        Some((input[pos] as u16 + input[pos + 1] as u16 * 0x100, pos + 2))
    } else {
        None
    }
}

/// Reads `n` raw bytes.
#[verifier::loop_isolation(false)]
fn read_bytes(input: &Vec<u8>, pos: usize, n: usize) -> (r: Option<(Vec<u8>, usize)>)
    ensures
        match r {
            Some(p) => parse_bytes(input@, pos as int, n as int) == Some((p.0@, p.1 as int)),
            None => parse_bytes(input@, pos as int, n as int) is None,
        },
{
    if n > input.len() || pos > input.len() - n {
        return None;
    }
    let mut out: Vec<u8> = Vec::new();
    let mut j: usize = 0;
    while j < n
        invariant
            j <= n,
            out@ == input@.subrange(pos as int, pos + j),
        decreases n - j,
    {
        out.push(input[pos + j]);
        proof {
            assert(out@ =~= input@.subrange(pos as int, pos + j + 1));
        }
        j = j + 1;
    }
    Some((out, pos + n))
}

/// Reads a 32-byte key.
fn read_key(input: &Vec<u8>, pos: usize) -> (r: Option<(Identity, usize)>)
    ensures
        match r {
            Some(p) => parse_key(input@, pos as int) == Some((p.0, p.1 as int)),
            None => parse_key(input@, pos as int) is None,
        },
{
    match read_bytes(input, pos, 32) {
        Some(p) => Some((Identity::from_bytes(&p.0), p.1)),
        None => None,
    }
}

/// Reads `count` 32-byte keys.
#[verifier::loop_isolation(false)]
fn read_keys(input: &Vec<u8>, pos: usize, count: u8) -> (r: Option<(Vec<Identity>, usize)>)
    ensures
        match r {
            Some(p) => parse_keys(input@, pos as int, count as int) == Some((p.0@, p.1 as int)),
            None => parse_keys(input@, pos as int, count as int) is None,
        },
{
    let mut out: Vec<Identity> = Vec::new();
    let mut cur: usize = pos;
    let mut j: u8 = 0;
    while j < count
        invariant
            j <= count,
            out@.len() == j as int,
            parse_keys(input@, pos as int, count as int) == (match parse_keys(
                input@,
                cur as int,
                count - j,
            ) {
                Some(p) => Some((out@ + p.0, p.1)),
                None => None::<(Seq<Identity>, int)>,
            }),
        decreases count - j,
    {
        let ghost old_out = out@;
        match read_key(input, cur) {
            Some(p) => {
                out.push(p.0);
                proof {
                    assert forall|rest: Seq<Identity>|
                        true implies #[trigger] (old_out + (seq![p.0] + rest)) =~= out@ + rest by {}
                }
                cur = p.1;
            },
            None => {
                return None;
            },
        }
        j = j + 1;
    }
    proof {
        assert(out@ + Seq::<Identity>::empty() =~= out@);
    }
    Some((out, cur))
}

/// Reads one compiled instruction.
fn read_compiled(input: &Vec<u8>, pos: usize) -> (r: Option<(MsCompiledInstruction, usize)>)
    ensures
        match r {
            Some(p) => parse_compiled(input@, pos as int) == Some(
                (compiled_view(p.0), p.1 as int),
            ),
            None => parse_compiled(input@, pos as int) is None,
        },
{
    let (prog, p1) = match read_u8(input, pos) {
        Some(x) => x,
        None => {
            return None;
        },
    };
    let (idx_len, p2) = match read_u8(input, p1) {
        Some(x) => x,
        None => {
            return None;
        },
    };
    let (indexes, p3) = match read_bytes(input, p2, idx_len as usize) {
        Some(x) => x,
        None => {
            return None;
        },
    };
    let (data_len, p4) = match read_u16_le(input, p3) {
        Some(x) => x,
        None => {
            return None;
        },
    };
    let (data, p5) = match read_bytes(input, p4, data_len as usize) {
        Some(x) => x,
        None => {
            return None;
        },
    };
    Some((MsCompiledInstruction { program_id_index: prog, account_indexes: indexes, data }, p5))
}

/// Reads `count` compiled instructions.
#[verifier::loop_isolation(false)]
fn read_compiled_list(input: &Vec<u8>, pos: usize, count: u8) -> (r: Option<
    (Vec<MsCompiledInstruction>, usize),
>)
    ensures
        match r {
            Some(p) => parse_compiled_list(input@, pos as int, count as int) == Some(
                (compiled_views(p.0@), p.1 as int),
            ),
            None => parse_compiled_list(input@, pos as int, count as int) is None,
        },
{
    let mut out: Vec<MsCompiledInstruction> = Vec::new();
    let mut cur: usize = pos;
    let mut j: u8 = 0;
    while j < count
        invariant
            j <= count,
            out@.len() == j as int,
            parse_compiled_list(input@, pos as int, count as int) == (match parse_compiled_list(
                input@,
                cur as int,
                count - j,
            ) {
                Some(p) => Some(
                    (compiled_views(out@) + p.0, p.1),
                ),
                None => None::<(Seq<(u8, Seq<u8>, Seq<u8>)>, int)>,
            }),
        decreases count - j,
    {
        let ghost old_out = out@;
        match read_compiled(input, cur) {
            Some(p) => {
                let ghost cv = compiled_view(p.0);
                out.push(p.0);
                proof {
                    assert(compiled_views(out@)
                        =~= compiled_views(old_out).push(
                        cv,
                    ));
                    assert forall|rest: Seq<(u8, Seq<u8>, Seq<u8>)>|
                        true implies #[trigger] (compiled_views(old_out) + (seq![cv] + rest)) =~= compiled_views(out@) + rest by {}
                }
                cur = p.1;
            },
            None => {
                return None;
            },
        }
        j = j + 1;
    }
    proof {
        assert(compiled_views(out@) + Seq::<
            (u8, Seq<u8>, Seq<u8>),
        >::empty() =~= compiled_views(out@));
    }
    Some((out, cur))
}

/// Reads one lookup-table reference.
fn read_lookup(input: &Vec<u8>, pos: usize) -> (r: Option<(MsMessageAddressTableLookup, usize)>)
    ensures
        match r {
            Some(p) => parse_lookup(input@, pos as int) == Some((lookup_view(p.0), p.1 as int)),
            None => parse_lookup(input@, pos as int) is None,
        },
{
    let (key, p1) = match read_key(input, pos) {
        Some(x) => x,
        None => {
            return None;
        },
    };
    let (w_len, p2) = match read_u8(input, p1) {
        Some(x) => x,
        None => {
            return None;
        },
    };
    let (writable, p3) = match read_bytes(input, p2, w_len as usize) {
        Some(x) => x,
        None => {
            return None;
        },
    };
    let (r_len, p4) = match read_u8(input, p3) {
        Some(x) => x,
        None => {
            return None;
        },
    };
    let (readonly, p5) = match read_bytes(input, p4, r_len as usize) {
        Some(x) => x,
        None => {
            return None;
        },
    };
    Some(
        (
            MsMessageAddressTableLookup {
                account_key: key,
                writable_indexes: writable,
                readonly_indexes: readonly,
            },
            p5,
        ),
    )
}

/// Reads `count` lookup-table references.
#[verifier::loop_isolation(false)]
fn read_lookup_list(input: &Vec<u8>, pos: usize, count: u8) -> (r: Option<
    (Vec<MsMessageAddressTableLookup>, usize),
>)
    ensures
        match r {
            Some(p) => parse_lookup_list(input@, pos as int, count as int) == Some(
                (lookup_views(p.0@), p.1 as int),
            ),
            None => parse_lookup_list(input@, pos as int, count as int) is None,
        },
{
    let mut out: Vec<MsMessageAddressTableLookup> = Vec::new();
    let mut cur: usize = pos;
    let mut j: u8 = 0;
    while j < count
        invariant
            j <= count,
            out@.len() == j as int,
            parse_lookup_list(input@, pos as int, count as int) == (match parse_lookup_list(
                input@,
                cur as int,
                count - j,
            ) {
                Some(p) => Some(
                    (lookup_views(out@) + p.0, p.1),
                ),
                None => None::<(Seq<(Identity, Seq<u8>, Seq<u8>)>, int)>,
            }),
        decreases count - j,
    {
        let ghost old_out = out@;
        match read_lookup(input, cur) {
            Some(p) => {
                let ghost lv = lookup_view(p.0);
                out.push(p.0);
                proof {
                    assert(lookup_views(out@)
                        =~= lookup_views(old_out).push(lv));
                    assert forall|rest: Seq<(Identity, Seq<u8>, Seq<u8>)>|
                        true implies #[trigger] (lookup_views(old_out) + (seq![lv] + rest)) =~= lookup_views(out@) + rest by {}
                }
                cur = p.1;
            },
            None => {
                return None;
            },
        }
        j = j + 1;
    }
    proof {
        assert(lookup_views(out@) + Seq::<
            (Identity, Seq<u8>, Seq<u8>),
        >::empty() =~= lookup_views(out@));
    }
    Some((out, cur))
}

impl TransactionMessage {
    /// Parses a packed message from the front of `input`. Succeeds
    /// exactly on the inputs the spec-level parser accepts, and then
    /// returns exactly the parsed message; trailing bytes are ignored.
    pub fn deserialize(input: &Vec<u8>) -> (r: Result<TransactionMessage, MsError>)
        ensures
            match r {
                Ok(m) => match parse_transaction_message(input@) {
                    Some(p) => message_view(m) == p.0,
                    None => false,
                },
                Err(e) => parse_transaction_message(input@) is None && e
                    == MsError::InvalidTransactionMessage,
            },
    {
        let (ns, p1) = match read_u8(input, 0) {
            Some(x) => x,
            None => {
                return Err(MsError::InvalidTransactionMessage);
            },
        };
        let (nws, p2) = match read_u8(input, p1) {
            Some(x) => x,
            None => {
                return Err(MsError::InvalidTransactionMessage);
            },
        };
        let (nwns, p3) = match read_u8(input, p2) {
            Some(x) => x,
            None => {
                return Err(MsError::InvalidTransactionMessage);
            },
        };
        let (keys_len, p4) = match read_u8(input, p3) {
            Some(x) => x,
            None => {
                return Err(MsError::InvalidTransactionMessage);
            },
        };
        let (keys, p5) = match read_keys(input, p4, keys_len) {
            Some(x) => x,
            None => {
                return Err(MsError::InvalidTransactionMessage);
            },
        };
        let (ix_len, p6) = match read_u8(input, p5) {
            Some(x) => x,
            None => {
                return Err(MsError::InvalidTransactionMessage);
            },
        };
        let (ixs, p7) = match read_compiled_list(input, p6, ix_len) {
            Some(x) => x,
            None => {
                return Err(MsError::InvalidTransactionMessage);
            },
        };
        let (lk_len, p8) = match read_u8(input, p7) {
            Some(x) => x,
            None => {
                return Err(MsError::InvalidTransactionMessage);
            },
        };
        let (lks, _p9) = match read_lookup_list(input, p8, lk_len) {
            Some(x) => x,
            None => {
                return Err(MsError::InvalidTransactionMessage);
            },
        };
        Ok(
            TransactionMessage {
                num_signers: ns,
                num_writable_signers: nws,
                num_writable_non_signers: nwns,
                account_keys: keys,
                instructions: ixs,
                address_table_lookups: lks,
            },
        )
    }
}


/// Whether any lookup reference of the message names `key`.
#[verifier::loop_isolation(false)]
fn lookup_mentions(m: &MsTransactionMessage, key: Identity) -> (r: bool)
    ensures
        r == (exists|q: int|
            0 <= q < m.address_table_lookups@.len() && (#[trigger] m.address_table_lookups@[q]).account_key
                == key),
{
    let mut q: usize = 0;
    while q < m.address_table_lookups.len()
        invariant
            q <= m.address_table_lookups@.len(),
            forall|p: int|
                0 <= p < q ==> (#[trigger] m.address_table_lookups@[p]).account_key != key,
        decreases m.address_table_lookups@.len() - q,
    {
        if m.address_table_lookups[q].account_key == key {
            return true;
        }
        q = q + 1;
    }
    false
}

/// Finds the first loaded table with the given address.
#[verifier::loop_isolation(false)]
fn find_table_index(tables: &Vec<LoadedLookupTable>, key: Identity) -> (r: Option<usize>)
    ensures
        match r {
            Some(t) => t < tables@.len() && find_table(tables@, key, 0) == Some(t as int),
            None => find_table(tables@, key, 0) is None,
        },
{
    let mut t: usize = 0;
    while t < tables.len()
        invariant
            t <= tables@.len(),
            find_table(tables@, key, 0) == find_table(tables@, key, t as int),
        decreases tables@.len() - t,
    {
        if tables[t].key == key {
            return Some(t);
        }
        t = t + 1;
    }
    None
}

/// Checks the caller-supplied accounts of a packed message against
/// everything the message declares. Succeeds exactly when
/// [`message_accounts_valid`] holds; `authority` is the signing
/// authority, whose signer flag is not checked, and
/// `lookup_table_program` is the program that must own every supplied
/// lookup table.
#[verifier::loop_isolation(false)]
pub fn validate_message_accounts(
    m: &MsTransactionMessage,
    accounts: &Vec<SuppliedAccount>,
    tables: &Vec<LoadedLookupTable>,
    authority: Identity,
    lookup_table_program: Identity,
) -> (r: Result<(), MsError>)
    requires
        m.account_keys@.len() + loaded_key_count(m.address_table_lookups@) <= usize::MAX,
    ensures
        (r is Ok) <==> message_accounts_valid(
            *m,
            accounts@,
            tables@,
            authority,
            lookup_table_program,
        ),
{
    if tables.len() != m.address_table_lookups.len() {
        return Err(MsError::InvalidNumberOfAccounts);
    }
    let mut t: usize = 0;
    while t < tables.len()
        invariant
            t <= tables@.len(),
            forall|p: int|
                0 <= p < t ==> (#[trigger] tables@[p]).owner == lookup_table_program,
            forall|p: int|
                0 <= p < t ==> (exists|q: int|
                    0 <= q < m.address_table_lookups@.len()
                        && (#[trigger] m.address_table_lookups@[q]).account_key == (
                    #[trigger] tables@[p]).key),
        decreases tables@.len() - t,
    {
        if !(tables[t].owner == lookup_table_program) {
            return Err(MsError::InvalidAccount);
        }
        if !lookup_mentions(m, tables[t].key) {
            return Err(MsError::InvalidAccount);
        }
        t = t + 1;
    }
    proof {
        lemma_loaded_key_count_nonneg(m.address_table_lookups@);
    }
    if accounts.len() != m.num_all_account_keys() {
        return Err(MsError::InvalidNumberOfAccounts);
    }
    let mut i: usize = 0;
    while i < m.account_keys.len()
        invariant
            i <= m.account_keys@.len(),
            forall|p: int|
                0 <= p < i ==> {
                    &&& (#[trigger] accounts@[p]).key == m.account_keys@[p]
                    &&& accounts@[p].is_writable == m.spec_is_static_writable(p)
                    &&& (accounts@[p].key != authority ==> accounts@[p].is_signer == (p
                        < m.num_signers as int))
                },
        decreases m.account_keys@.len() - i,
    {
        let acc = accounts[i];
        if !(acc.key == m.account_keys[i]) {
            return Err(MsError::InvalidAccount);
        }
        if acc.is_writable != m.is_static_writable_index(i) {
            return Err(MsError::InvalidAccount);
        }
        if !(acc.key == authority) && acc.is_signer != m.is_signer_index(i) {
            return Err(MsError::InvalidAccount);
        }
        i = i + 1;
    }
    let mut pos: usize = m.account_keys.len();
    let mut j: usize = 0;
    while j < m.address_table_lookups.len()
        invariant
            j <= m.address_table_lookups@.len(),
            pos <= accounts@.len(),
            pos == m.account_keys@.len() + loaded_key_count(
                m.address_table_lookups@.take(j as int),
            ),
            forall|p: int|
                0 <= p < j ==> lookup_block_valid(*m, accounts@, tables@, p),
        decreases m.address_table_lookups@.len() - j,
    {
        proof {
            lemma_loaded_key_count_mono(m.address_table_lookups@, j as int);
        }
        let lk = &m.address_table_lookups[j];
        let tbl_index = match find_table_index(tables, lk.account_key) {
            Some(x) => x,
            None => {
                proof {
                    if message_accounts_valid(
                        *m,
                        accounts@,
                        tables@,
                        authority,
                        lookup_table_program,
                    ) {
                        assert(lookup_block_valid(*m, accounts@, tables@, j as int));
                    }
                }
                return Err(MsError::InvalidAccount);
            },
        };
        let tbl = &tables[tbl_index];
        let ghost base = pos as int;
        let mut x: usize = 0;
        while x < lk.writable_indexes.len()
            invariant
                x <= lk.writable_indexes@.len(),
                x == 0 || pos + x <= accounts@.len(),
                forall|p: int|
                    0 <= p < x ==> loaded_entry_valid(
                        accounts@,
                        tables@[tbl_index as int],
                        base + p,
                        lk.writable_indexes@[p],
                        true,
                    ),
            decreases lk.writable_indexes@.len() - x,
        {
            if accounts.len() - pos <= x {
                proof {
                    if message_accounts_valid(
                        *m,
                        accounts@,
                        tables@,
                        authority,
                        lookup_table_program,
                    ) {
                        assert(lookup_block_valid(*m, accounts@, tables@, j as int));
                        assert(loaded_entry_valid(
                            accounts@,
                            tables@[find_table(tables@, lk.account_key, 0).unwrap()],
                            base + x,
                            lk.writable_indexes@[x as int],
                            true,
                        ));
                    }
                }
                return Err(MsError::InvalidNumberOfAccounts);
            }
            let acc = accounts[pos + x];
            let widx = lk.writable_indexes[x];
            if !acc.is_writable || acc.is_signer || widx as usize >= tbl.addresses.len() || !(
            acc.key == tbl.addresses[widx as usize]) {
                proof {
                    if message_accounts_valid(
                        *m,
                        accounts@,
                        tables@,
                        authority,
                        lookup_table_program,
                    ) {
                        assert(lookup_block_valid(*m, accounts@, tables@, j as int));
                        assert(loaded_entry_valid(
                            accounts@,
                            tables@[find_table(tables@, lk.account_key, 0).unwrap()],
                            base + x,
                            lk.writable_indexes@[x as int],
                            true,
                        ));
                    }
                }
                return Err(MsError::InvalidAccount);
            }
            x = x + 1;
        }
        let w_len = lk.writable_indexes.len();
        let mut y: usize = 0;
        while y < lk.readonly_indexes.len()
            invariant
                y <= lk.readonly_indexes@.len(),
                (y == 0 && w_len == 0) || pos + w_len + y <= accounts@.len(),
                forall|p: int|
                    0 <= p < y ==> loaded_entry_valid(
                        accounts@,
                        tables@[tbl_index as int],
                        base + w_len + p,
                        lk.readonly_indexes@[p],
                        false,
                    ),
            decreases lk.readonly_indexes@.len() - y,
        {
            if accounts.len() < pos + w_len || accounts.len() - pos - w_len <= y {
                proof {
                    if message_accounts_valid(
                        *m,
                        accounts@,
                        tables@,
                        authority,
                        lookup_table_program,
                    ) {
                        assert(lookup_block_valid(*m, accounts@, tables@, j as int));
                        assert(loaded_entry_valid(
                            accounts@,
                            tables@[find_table(tables@, lk.account_key, 0).unwrap()],
                            base + w_len + y,
                            lk.readonly_indexes@[y as int],
                            false,
                        ));
                    }
                }
                return Err(MsError::InvalidNumberOfAccounts);
            }
            let acc = accounts[pos + w_len + y];
            let ridx = lk.readonly_indexes[y];
            if acc.is_writable || acc.is_signer || ridx as usize >= tbl.addresses.len() || !(
            acc.key == tbl.addresses[ridx as usize]) {
                proof {
                    if message_accounts_valid(
                        *m,
                        accounts@,
                        tables@,
                        authority,
                        lookup_table_program,
                    ) {
                        assert(lookup_block_valid(*m, accounts@, tables@, j as int));
                        assert(loaded_entry_valid(
                            accounts@,
                            tables@[find_table(tables@, lk.account_key, 0).unwrap()],
                            base + w_len + y,
                            lk.readonly_indexes@[y as int],
                            false,
                        ));
                    }
                }
                return Err(MsError::InvalidAccount);
            }
            y = y + 1;
        }
        proof {
            lemma_loaded_key_count_mono(m.address_table_lookups@, j as int);
            assert(lookup_block_valid(*m, accounts@, tables@, j as int));
        }
        pos = pos + w_len;
        pos = pos + lk.readonly_indexes.len();
        j = j + 1;
    }
    proof {
        assert(m.address_table_lookups@.take(m.address_table_lookups@.len() as int)
            =~= m.address_table_lookups@);
    }
    Ok(())
}


/// The account entries one compiled instruction resolves to, walking
/// its index list from `x` on: each index must point into the
/// supplied accounts; the entry takes that account's key and
/// writability, and is a signer exactly when the index lies in the
/// signer range of the key table.
pub open spec fn compile_metas(
    indexes: Seq<u8>,
    accounts: Seq<SuppliedAccount>,
    num_signers: u8,
    x: int,
) -> Result<Seq<MsAccountMeta>, MsError>
    decreases indexes.len() - x,
{
    if x < 0 || x >= indexes.len() {
        Ok(Seq::empty())
    } else if indexes[x] >= accounts.len() {
        Err(MsError::InvalidAccount)
    } else {
        let acc = accounts[indexes[x] as int];
        let meta = MsAccountMeta {
            pubkey: acc.key,
            is_signer: (indexes[x] as int) < num_signers as int,
            is_writable: acc.is_writable,
        };
        match compile_metas(indexes, accounts, num_signers, x + 1) {
            Err(e) => Err(e),
            Ok(rest) => Ok(seq![meta] + rest),
        }
    }
}

/// The invocations a packed message compiles to, from instruction `j`
/// on: each one targets the program its index references and carries
/// the resolved account entries and the payload.
pub open spec fn compile_walk(
    ixs: Seq<MsCompiledInstruction>,
    accounts: Seq<SuppliedAccount>,
    num_signers: u8,
    j: int,
) -> Result<Seq<(Identity, Seq<MsAccountMeta>, Seq<u8>, bool)>, MsError>
    decreases ixs.len() - j,
{
    if j < 0 || j >= ixs.len() {
        Ok(Seq::empty())
    } else if ixs[j].program_id_index >= accounts.len() {
        Err(MsError::InvalidAccount)
    } else {
        match compile_metas(ixs[j].account_indexes@, accounts, num_signers, 0) {
            Err(e) => Err(e),
            Ok(metas) => match compile_walk(ixs, accounts, num_signers, j + 1) {
                Err(e) => Err(e),
                Ok(rest) => Ok(
                    seq![(accounts[ixs[j].program_id_index as int].key, metas, ixs[j].data@, false)]
                        + rest,
                ),
            },
        }
    }
}

/// Compiles a validated packed message into dispatchable invocations,
/// resolving every account reference against the supplied accounts.
#[verifier::loop_isolation(false)]
pub fn compile_invocations(m: &MsTransactionMessage, accounts: &Vec<SuppliedAccount>) -> (r:
    Result<Vec<PlannedInvocation>, MsError>)
    ensures
        match r {
            Ok(plan) => compile_walk(m.instructions@, accounts@, m.num_signers, 0) == Ok::<
                _,
                MsError,
            >(crate::execute::plan_views(plan@)),
            Err(e) => compile_walk(m.instructions@, accounts@, m.num_signers, 0) == Err::<
                Seq<(Identity, Seq<MsAccountMeta>, Seq<u8>, bool)>,
                _,
            >(e),
        },
{
    let mut plan: Vec<PlannedInvocation> = Vec::new();
    let mut j: usize = 0;
    while j < m.instructions.len()
        invariant
            j <= m.instructions@.len(),
            compile_walk(m.instructions@, accounts@, m.num_signers, 0) == (match compile_walk(
                m.instructions@,
                accounts@,
                m.num_signers,
                j as int,
            ) {
                Ok(rest) => Ok::<_, MsError>(crate::execute::plan_views(plan@) + rest),
                Err(e) => Err(e),
            }),
        decreases m.instructions@.len() - j,
    {
        let c = &m.instructions[j];
        if c.program_id_index as usize >= accounts.len() {
            return Err(MsError::InvalidAccount);
        }
        let mut metas: Vec<MsAccountMeta> = Vec::new();
        let mut x: usize = 0;
        while x < c.account_indexes.len()
            invariant
                x <= c.account_indexes@.len(),
                compile_metas(c.account_indexes@, accounts@, m.num_signers, 0) == (
                match compile_metas(c.account_indexes@, accounts@, m.num_signers, x as int) {
                    Ok(rest) => Ok::<_, MsError>(metas@ + rest),
                    Err(e) => Err(e),
                }),
            decreases c.account_indexes@.len() - x,
        {
            let idx = c.account_indexes[x];
            if idx as usize >= accounts.len() {
                return Err(MsError::InvalidAccount);
            }
            let acc = accounts[idx as usize];
            let meta = MsAccountMeta {
                pubkey: acc.key,
                is_signer: (idx as usize) < m.num_signers as usize,
                is_writable: acc.is_writable,
            };
            let ghost old_metas = metas@;
            metas.push(meta);
            proof {
                assert forall|rest: Seq<MsAccountMeta>|
                    true implies #[trigger] (old_metas + (seq![meta] + rest)) =~= metas@
                    + rest by {}
            }
            x = x + 1;
        }
        proof {
            assert(metas@ + Seq::<MsAccountMeta>::empty() =~= metas@);
            assert(compile_metas(c.account_indexes@, accounts@, m.num_signers, 0) == Ok::<
                _,
                MsError,
            >(metas@));
        }
        let item = PlannedInvocation {
            program_id: accounts[c.program_id_index as usize].key,
            accounts: metas,
            data: crate::execute::copy_bytes(&c.data),
            use_registry_authority: false,
        };
        let ghost iv = crate::execute::plan_view(item);
        let ghost old_plan = plan@;
        plan.push(item);
        proof {
            assert(crate::execute::plan_views(plan@) =~= crate::execute::plan_views(
                old_plan,
            ).push(iv));
            assert forall|rest: Seq<(Identity, Seq<MsAccountMeta>, Seq<u8>, bool)>|
                true implies #[trigger] (crate::execute::plan_views(old_plan) + (seq![iv] + rest))
                =~= crate::execute::plan_views(plan@) + rest by {}
        }
        j = j + 1;
    }
    proof {
        assert(crate::execute::plan_views(plan@) + Seq::<
            (Identity, Seq<MsAccountMeta>, Seq<u8>, bool),
        >::empty() =~= crate::execute::plan_views(plan@));
    }
    Ok(plan)
}

} // verus!
