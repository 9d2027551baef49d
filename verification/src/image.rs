//! The mapped image.
//!
//! The kernel maps the runtime's ELF image somewhere in the address space;
//! the runtime sees it as raw memory reached through its load address. Here
//! the image is held explicitly: the load address (base) and the bytes that
//! sit at it. Byte `i` of `bytes` models the byte at address `base + i`.

use vstd::prelude::*;
use crate::bytes::{word_at, store_word_seq, half_at, quarter_at, read_half, read_quarter, read_word, write_word, u64_to_index};

verus! {

/// A contiguous region of mapped memory: the bytes at addresses
/// `base .. base + bytes.len()`.
pub struct MemoryImage {
    /// The load address (load bias) the kernel chose.
    pub base: u64,
    /// The bytes of the region, in address order.
    pub bytes: Vec<u8>,
}

impl MemoryImage {
    /// Every byte of the region has an address below `2^64`.
    pub open spec fn wf(&self) -> bool {
        self.base + self.bytes@.len() <= u64::MAX + 1
    }

    /// The number of mapped bytes.
    pub open spec fn spec_len(&self) -> int {
        self.bytes.len() as int
    }

    /// Creates the image of a region mapped at `base` holding `bytes`.
    pub fn new(base: u64, bytes: Vec<u8>) -> (r: MemoryImage)
        requires
            base + bytes@.len() <= u64::MAX + 1,
        ensures
            r.base == base,
            r.bytes@ == bytes@,
            r.wf(),
    {
        MemoryImage { base, bytes }
    }

    /// The number of mapped bytes.
    pub fn len(&self) -> (n: usize)
        ensures
            n == self.spec_len(),
    {
        self.bytes.len()
    }

    /// Reads the byte at offset `off` from the load address.
    pub fn byte_at(&self, off: u64) -> (b: u8)
        requires
            off < self.spec_len(),
        ensures
            b == self.bytes@[off as int],
    {
        let i = u64_to_index(off);
        self.bytes[i]
    }

    /// Reads the 16-bit field at offset `off` from the load address.
    pub fn half_word_at(&self, off: u64) -> (v: u16)
        requires
            off + 2 <= self.spec_len(),
        ensures
            v == half_at(self.bytes@, off as int),
    {
        let i = u64_to_index(off);
        read_half(&self.bytes, i)
    }

    /// Reads the 32-bit field at offset `off` from the load address.
    pub fn quarter_word_at(&self, off: u64) -> (v: u32)
        requires
            off + 4 <= self.spec_len(),
        ensures
            v == quarter_at(self.bytes@, off as int),
    {
        let i = u64_to_index(off);
        read_quarter(&self.bytes, i)
    }

    /// Reads the machine word at offset `off` from the load address.
    pub fn word_at_offset(&self, off: u64) -> (v: u64)
        requires
            off + 8 <= self.spec_len(),
        ensures
            v == word_at(self.bytes@, off as int),
    {
        let i = u64_to_index(off);
        read_word(&self.bytes, i)
    }

    /// Copies `count` bytes starting at offset `off` from the load
    /// address out of the image.
    pub fn read_bytes(&self, off: u64, count: u64) -> (r: Vec<u8>)
        requires
            off + count <= self.spec_len(),
        ensures
            r@ == self.bytes@.subrange(off as int, off + count),
    {
        let mut out: Vec<u8> = Vec::new();
        let mut i: u64 = 0;
        while i < count
            invariant
                0 <= i <= count,
                off + count <= self.spec_len(),
                out@ == self.bytes@.subrange(off as int, off + i),
            decreases count - i,
        {
            let b = self.byte_at(off + i);
            out.push(b);
            proof {
                assert(out@ =~= self.bytes@.subrange(off as int, off + i + 1));
            }
            i += 1;
        }
        out
    }

    /// Stores the machine word `v` at offset `off` from the load address.
    ///
    /// This is the single store primitive every relocation performs; on a
    /// real machine it is one word-sized write at address `base + off`.
    pub fn store_word_at_offset(&mut self, off: u64, v: u64)
        requires
            off + 8 <= old(self).spec_len(),
        ensures
            final(self).base == old(self).base,
            final(self).bytes@ == store_word_seq(old(self).bytes@, off as int, v),
    {
        let i = u64_to_index(off);
        write_word(&mut self.bytes, i, v);
    }
}

} // verus!
