//! Identities: 32-byte account keys.
//!
//! A key is held as four 64-bit words in big-endian order, so that the
//! word-wise lexicographic order used to keep member and vote lists
//! sorted coincides with the byte-wise order of the underlying key.

use vstd::prelude::*;

verus! {

/// A 32-byte account key, split into four big-endian 64-bit words.
#[derive(Clone, Copy, Debug, PartialEq, Eq, Structural)]
pub struct Identity {
    pub w0: u64,
    pub w1: u64,
    pub w2: u64,
    pub w3: u64,
}

/// Strict lexicographic order on identities, word by word.
pub open spec fn id_lt(a: Identity, b: Identity) -> bool {
    a.w0 < b.w0 || (a.w0 == b.w0 && (a.w1 < b.w1 || (a.w1 == b.w1 && (a.w2 < b.w2 || (a.w2
        == b.w2 && a.w3 < b.w3)))))
}

/// The big-endian value of an 8-byte window starting at `k`.
pub open spec fn word_of_bytes(s: Seq<u8>, k: int) -> int {
    s[k] * 0x100000000000000 + s[k + 1] * 0x1000000000000 + s[k + 2] * 0x10000000000 + s[k + 3]
        * 0x100000000 + s[k + 4] * 0x1000000 + s[k + 5] * 0x10000 + s[k + 6] * 0x100 + s[k + 7]
}

/// Byte `j` (0 = most significant) of a 64-bit word.
pub open spec fn byte_of_word(w: u64, j: int) -> u8 {
    if j == 0 {
        ((w as int / 0x100000000000000) % 0x100) as u8
    } else if j == 1 {
        ((w as int / 0x1000000000000) % 0x100) as u8
    } else if j == 2 {
        ((w as int / 0x10000000000) % 0x100) as u8
    } else if j == 3 {
        ((w as int / 0x100000000) % 0x100) as u8
    } else if j == 4 {
        ((w as int / 0x1000000) % 0x100) as u8
    } else if j == 5 {
        ((w as int / 0x10000) % 0x100) as u8
    } else if j == 6 {
        ((w as int / 0x100) % 0x100) as u8
    } else {
        (w as int % 0x100) as u8
    }
}

/// Byte `i` of the 32-byte form of an identity.
pub open spec fn id_byte(id: Identity, i: int) -> u8 {
    if i < 8 {
        byte_of_word(id.w0, i)
    } else if i < 16 {
        byte_of_word(id.w1, i - 8)
    } else if i < 24 {
        byte_of_word(id.w2, i - 16)
    } else {
        byte_of_word(id.w3, i - 24)
    }
}

/// The 32-byte form of an identity.
pub open spec fn id_bytes(id: Identity) -> Seq<u8> {
    Seq::new(32, |i: int| id_byte(id, i))
}

/// The identity whose four words are read big-endian out of a 32-byte
/// string.
pub open spec fn id_of_bytes(s: Seq<u8>) -> Identity {
    Identity {
        w0: word_of_bytes(s, 0) as u64,
        w1: word_of_bytes(s, 8) as u64,
        w2: word_of_bytes(s, 16) as u64,
        w3: word_of_bytes(s, 24) as u64,
    }
}

impl Identity {
    /// Builds an identity from its 32-byte form.
    pub fn from_bytes(bytes: &Vec<u8>) -> (r: Identity)
        requires
            bytes@.len() == 32,
        ensures
            r == id_of_bytes(bytes@),
    {
        Identity {
            w0: Self::word_from(bytes, 0),
            w1: Self::word_from(bytes, 8),
            w2: Self::word_from(bytes, 16),
            w3: Self::word_from(bytes, 24),
        }
    }

    /// Reads one big-endian 64-bit word out of an 8-byte window.
    fn word_from(bytes: &Vec<u8>, k: usize) -> (r: u64)
        requires
            k <= 24,
            k + 8 <= bytes@.len(),
        ensures
            r == word_of_bytes(bytes@, k as int),
    {
        (bytes[k] as u64) * 0x100000000000000u64 + (bytes[k + 1] as u64) * 0x1000000000000u64 + (
        bytes[k + 2] as u64) * 0x10000000000u64 + (bytes[k + 3] as u64) * 0x100000000u64 + (bytes[k
            + 4] as u64) * 0x1000000u64 + (bytes[k + 5] as u64) * 0x10000u64 + (bytes[k + 6] as u64)
            * 0x100u64 + (bytes[k + 7] as u64)
    }

    /// Returns the 32-byte form of this identity.
    pub fn to_bytes(&self) -> (r: Vec<u8>)
        ensures
            r@ == id_bytes(*self),
    {
        let mut out: Vec<u8> = Vec::new();
        Self::push_word(&mut out, self.w0);
        Self::push_word(&mut out, self.w1);
        Self::push_word(&mut out, self.w2);
        Self::push_word(&mut out, self.w3);
        proof {
            assert(out@ =~= id_bytes(*self)) by {
                assert forall|i: int| 0 <= i < 32 implies out@[i] == id_byte(*self, i) by {}
            }
        }
        out
    }

    /// Appends the 8 big-endian bytes of one word.
    fn push_word(out: &mut Vec<u8>, w: u64)
        ensures
            final(out)@.len() == old(out)@.len() + 8,
            forall|j: int|
                0 <= j < 8 ==> final(out)@[old(out)@.len() + j] == byte_of_word(w, j),
            forall|i: int| 0 <= i < old(out)@.len() ==> final(out)@[i] == old(out)@[i],
    {
        out.push((w / 0x100000000000000u64 % 0x100u64) as u8);
        out.push((w / 0x1000000000000u64 % 0x100u64) as u8);
        out.push((w / 0x10000000000u64 % 0x100u64) as u8);
        out.push((w / 0x100000000u64 % 0x100u64) as u8);
        out.push((w / 0x1000000u64 % 0x100u64) as u8);
        out.push((w / 0x10000u64 % 0x100u64) as u8);
        out.push((w / 0x100u64 % 0x100u64) as u8);
        out.push((w % 0x100u64) as u8);
    }

    /// Strict lexicographic comparison, word by word.
    pub fn less_than(&self, other: &Identity) -> (r: bool)
        ensures
            r == id_lt(*self, *other),
    {
        self.w0 < other.w0 || (self.w0 == other.w0 && (self.w1 < other.w1 || (self.w1 == other.w1
            && (self.w2 < other.w2 || (self.w2 == other.w2 && self.w3 < other.w3)))))
    }
}

} // verus!
