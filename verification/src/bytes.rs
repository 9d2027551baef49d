//! Machine words inside byte memory.
//!
//! The relocator and the ELF parsers both view memory as a sequence of
//! bytes in which 64-bit machine words are stored little-endian, as on
//! x86-64. This module gives that view a mathematical form: `word_at`
//! reads a word from a byte sequence, `store_word_seq` writes one, and
//! the lemmas relate the two.

use vstd::prelude::*;
use vstd::bytes::{spec_u16_from_le_bytes, spec_u32_from_le_bytes, spec_u64_from_le_bytes, spec_u64_to_le_bytes, lemma_auto_spec_u64_to_from_le_bytes, u16_from_le_bytes, u32_from_le_bytes, u64_from_le_bytes, u64_to_le_bytes};
use vstd::slice::slice_subrange;

verus! {

/// The 16-bit field stored little-endian at byte offset `off`.
pub open spec fn half_at(s: Seq<u8>, off: int) -> u16
    recommends
        0 <= off,
        off + 2 <= s.len(),
{
    spec_u16_from_le_bytes(s.subrange(off, off + 2))
}

/// The 32-bit field stored little-endian at byte offset `off`.
pub open spec fn quarter_at(s: Seq<u8>, off: int) -> u32
    recommends
        0 <= off,
        off + 4 <= s.len(),
{
    spec_u32_from_le_bytes(s.subrange(off, off + 4))
}

/// The machine word stored little-endian at byte offset `off`.
pub open spec fn word_at(s: Seq<u8>, off: int) -> u64
    recommends
        0 <= off,
        off + 8 <= s.len(),
{
    spec_u64_from_le_bytes(s.subrange(off, off + 8))
}

/// The byte sequence after the word `v` is stored little-endian at offset `off`.
pub open spec fn store_word_seq(s: Seq<u8>, off: int, v: u64) -> Seq<u8>
    recommends
        0 <= off,
        off + 8 <= s.len(),
{
    s.take(off) + spec_u64_to_le_bytes(v) + s.skip(off + 8)
}

/// Storing a word does not change the length of memory.
pub proof fn lemma_store_word_len(s: Seq<u8>, off: int, v: u64)
    requires
        0 <= off,
        off + 8 <= s.len(),
    ensures
        store_word_seq(s, off, v).len() == s.len(),
{
    lemma_auto_spec_u64_to_from_le_bytes();
}

/// Bytes outside the stored range keep their old value.
pub proof fn lemma_store_word_frame_byte(s: Seq<u8>, off: int, v: u64, i: int)
    requires
        0 <= off,
        off + 8 <= s.len(),
        0 <= i < s.len(),
        i < off || off + 8 <= i,
    ensures
        store_word_seq(s, off, v)[i] == s[i],
{
    lemma_auto_spec_u64_to_from_le_bytes();
}

/// Reading back the word that was just stored yields the stored value.
pub proof fn lemma_store_word_read_back(s: Seq<u8>, off: int, v: u64)
    requires
        0 <= off,
        off + 8 <= s.len(),
    ensures
        word_at(store_word_seq(s, off, v), off) == v,
{
    lemma_auto_spec_u64_to_from_le_bytes();
    let stored = store_word_seq(s, off, v);
    assert(stored.subrange(off, off + 8) =~= spec_u64_to_le_bytes(v));
}

/// Reading a word from a range that the store did not touch yields the old word.
pub proof fn lemma_store_word_frame_word(s: Seq<u8>, off: int, v: u64, off2: int)
    requires
        0 <= off,
        off + 8 <= s.len(),
        0 <= off2,
        off2 + 8 <= s.len(),
        off2 + 8 <= off || off + 8 <= off2,
    ensures
        word_at(store_word_seq(s, off, v), off2) == word_at(s, off2),
{
    lemma_auto_spec_u64_to_from_le_bytes();
    let stored = store_word_seq(s, off, v);
    assert forall|i: int| off2 <= i < off2 + 8 implies stored[i] == s[i] by {
        lemma_store_word_frame_byte(s, off, v, i);
    }
    assert(stored.subrange(off2, off2 + 8) =~= s.subrange(off2, off2 + 8));
}

/// Converts an in-range 64-bit offset to a vector index.
pub fn u64_to_index(x: u64) -> (i: usize)
    requires
        x <= usize::MAX,
    ensures
        i == x,
{
    x as usize
}

/// Reads the 16-bit field stored little-endian at byte offset `off` of `s`.
pub fn read_half(s: &Vec<u8>, off: usize) -> (v: u16)
    requires
        off + 2 <= s.len(),
    ensures
        v == half_at(s@, off as int),
{
    u16_from_le_bytes(slice_subrange(s.as_slice(), off, off + 2))
}

/// Reads the 32-bit field stored little-endian at byte offset `off` of `s`.
pub fn read_quarter(s: &Vec<u8>, off: usize) -> (v: u32)
    requires
        off + 4 <= s.len(),
    ensures
        v == quarter_at(s@, off as int),
{
    u32_from_le_bytes(slice_subrange(s.as_slice(), off, off + 4))
}

/// Reads the machine word stored little-endian at byte offset `off` of `s`.
pub fn read_word(s: &Vec<u8>, off: usize) -> (v: u64)
    requires
        off + 8 <= s.len(),
    ensures
        v == word_at(s@, off as int),
{
    u64_from_le_bytes(slice_subrange(s.as_slice(), off, off + 8))
}

/// Stores the machine word `v` little-endian at byte offset `off` of `s`.
pub fn write_word(s: &mut Vec<u8>, off: usize, v: u64)
    requires
        off + 8 <= old(s).len(),
    ensures
        final(s)@ == store_word_seq(old(s)@, off as int, v),
{
    let le = u64_to_le_bytes(v);
    let mut k: usize = 0;
    while k < 8
        invariant
            off + 8 <= old(s).len(),
            s.len() == old(s).len(),
            le@ == spec_u64_to_le_bytes(v),
            le@.len() == 8,
            0 <= k <= 8,
            forall|i: int| 0 <= i < s@.len() && !(off <= i < off + k) ==> s@[i] == old(s)@[i],
            forall|i: int| off <= i < off + k ==> s@[i] == le@[i - off],
        decreases 8 - k,
    {
        s.set(off + k, le[k]);
        k += 1;
    }
    proof {
        lemma_auto_spec_u64_to_from_le_bytes();
        assert(s@ =~= store_word_seq(old(s)@, off as int, v));
    }
}

} // verus!
