//! Iteration over whole environment strings.
//!
//! The kernel passes the environment as a null-terminated vector of
//! pointers to null-terminated byte strings. Once the shell has read the
//! strings out of memory, this iterator yields them one at a time.

use vstd::prelude::*;

verus! {

/// Copies a byte string.
pub fn copy_byte_string(s: &Vec<u8>) -> (r: Vec<u8>)
    ensures
        r@ == s@,
{
    let mut out: Vec<u8> = Vec::new();
    let mut i: usize = 0;
    while i < s.len()
        invariant
            0 <= i <= s@.len(),
            out@ == s@.take(i as int),
        decreases s@.len() - i,
    {
        out.push(s[i]);
        proof {
            assert(out@ =~= s@.take(i + 1));
        }
        i += 1;
    }
    proof {
        assert(s@.take(s@.len() as int) =~= s@);
    }
    out
}

/// An iterator over the environment strings: the strings not yet yielded.
#[derive(Clone)]
pub struct EnvironmentIterator {
    /// The environment strings, in stack order, each without its null
    /// terminator.
    pub strings: Vec<Vec<u8>>,
    /// How many strings have been yielded so far.
    pub position: usize,
}

impl EnvironmentIterator {
    /// The yielded strings never outnumber the environment's.
    pub open spec fn wf(&self) -> bool {
        self.position <= self.strings@.len()
    }

    /// The strings this iterator has yet to yield.
    pub open spec fn remaining(&self) -> Seq<Vec<u8>> {
        self.strings@.skip(self.position as int)
    }

    /// Initializes an iterator over the environment strings.
    pub fn new(strings: Vec<Vec<u8>>) -> (r: EnvironmentIterator)
        ensures
            r.wf(),
            r.strings@ == strings@,
            r.position == 0,
            r.remaining() == strings@,
    {
        let r = EnvironmentIterator { strings, position: 0 };
        proof {
            assert(r.strings@.skip(0) =~= r.strings@);
        }
        r
    }

    /// Extracts the backing strings — all of them, yielded or not —
    /// consuming the iterator.
    pub fn into_inner(self) -> (r: Vec<Vec<u8>>)
        ensures
            r@ == self.strings@,
    {
        self.strings
    }

    /// Yields the next environment string, or `None` at the end.
    pub fn next(&mut self) -> (r: Option<Vec<u8>>)
        requires
            old(self).wf(),
        ensures
            final(self).wf(),
            match r {
                Some(s) => {
                    &&& old(self).remaining().len() > 0
                    &&& s@ == old(self).remaining()[0]@
                    &&& final(self).remaining() == old(self).remaining().skip(1)
                },
                None => {
                    &&& old(self).remaining().len() == 0
                    &&& final(self).remaining() == old(self).remaining()
                },
            },
    {
        if self.position < self.strings.len() {
            let s = copy_byte_string(&self.strings[self.position]);
            self.position = self.position + 1;
            proof {
                assert(self.strings@.skip(self.position as int) =~= old(
                    self,
                ).strings@.skip(old(self).position as int).skip(1));
            }
            Some(s)
        } else {
            None
        }
    }
}

} // verus!
