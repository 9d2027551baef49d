//! The string table.
//!
//! A collection of null-terminated strings in contiguous memory, located
//! by `DT_STRTAB`. The string at offset `i` is the run of bytes from `i`
//! up to the first null byte; offset 0 holds the empty string.

use vstd::prelude::*;

verus! {

/// The offset of the first null byte at or after `i`, or `None` where
/// none exists before the table ends.
pub open spec fn spec_find_nul(s: Seq<u8>, i: int) -> Option<int>
    decreases s.len() - i,
{
    if i < 0 || i >= s.len() {
        None
    } else if s[i] == 0 {
        Some(i)
    } else {
        spec_find_nul(s, i + 1)
    }
}

/// The null-terminated string stored at offset `i`, without its
/// terminator, or `None` where `i` lies outside the table or no
/// terminator follows.
pub open spec fn spec_string_at(s: Seq<u8>, i: int) -> Option<Seq<u8>> {
    match spec_find_nul(s, i) {
        None => None,
        Some(j) => Some(s.subrange(i, j)),
    }
}

/// Finding the terminator is unmoved by stepping over non-null bytes.
proof fn lemma_find_nul_skip(s: Seq<u8>, i: int, cur: int)
    requires
        0 <= i <= cur <= s.len(),
        forall|k: int| i <= k < cur ==> s[k] != 0,
    ensures
        spec_find_nul(s, i) == spec_find_nul(s, cur),
    decreases cur - i,
{
    if i < cur {
        lemma_find_nul_skip(s, i + 1, cur);
    }
}

/// The strings of a shared object, held as one contiguous byte region.
#[derive(Clone)]
pub struct StringTable {
    /// The table's bytes, starting at the offset `DT_STRTAB` named.
    pub bytes: Vec<u8>,
}

impl StringTable {
    /// Initializes a string table from the bytes read out of the image.
    pub fn new(bytes: Vec<u8>) -> (r: StringTable)
        ensures
            r.bytes@ == bytes@,
    {
        StringTable { bytes }
    }

    /// Retrieves the string at byte offset `index`, without its null
    /// terminator.
    pub fn get(&self, index: usize) -> (r: Option<Vec<u8>>)
        ensures
            match r {
                Some(v) => spec_string_at(self.bytes@, index as int) == Some(v@),
                None => spec_string_at(self.bytes@, index as int) is None,
            },
    {
        if index >= self.bytes.len() {
            return None;
        }
        let mut out: Vec<u8> = Vec::new();
        let mut cur: usize = index;
        loop
            invariant
                index <= cur <= self.bytes@.len(),
                forall|k: int| index <= k < cur ==> self.bytes@[k] != 0,
                out@ == self.bytes@.subrange(index as int, cur as int),
            decreases self.bytes@.len() - cur,
        {
            if cur >= self.bytes.len() {
                proof {
                    lemma_find_nul_skip(self.bytes@, index as int, cur as int);
                }
                return None;
            }
            let b = self.bytes[cur];
            if b == 0 {
                proof {
                    lemma_find_nul_skip(self.bytes@, index as int, cur as int);
                }
                return Some(out);
            }
            out.push(b);
            proof {
                assert(out@ =~= self.bytes@.subrange(index as int, cur + 1));
            }
            cur += 1;
        }
    }

    /// Extracts the table's bytes, consuming it.
    pub fn into_inner(self) -> (r: Vec<u8>)
        ensures
            r@ == self.bytes@,
    {
        self.bytes
    }
}

} // verus!
