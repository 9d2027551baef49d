//! Environment variables.
//!
//! Each environment string has the shape `NAME=VALUE`; the iterator
//! splits at the first `=` byte. A string with no `=` is malformed: a
//! debug build of the runtime makes that a fatal diagnostic, and a
//! release build's iterator terminates silently at the first malformed
//! entry, which is the behaviour modelled here.

use vstd::prelude::*;
use crate::linux::environment_iterator::copy_byte_string;

verus! {

/// The index of the first `=` byte at or after `i`, or `None` where none
/// exists.
pub open spec fn spec_find_equals(s: Seq<u8>, i: int) -> Option<int>
    decreases s.len() - i,
{
    if i < 0 || i >= s.len() {
        None
    } else if s[i] == 61 {
        Some(i)
    } else {
        spec_find_equals(s, i + 1)
    }
}

/// The (name, value) split of an environment string at its first `=`
/// byte, or `None` for a malformed string without one.
pub open spec fn spec_split_environment(s: Seq<u8>) -> Option<(Seq<u8>, Seq<u8>)> {
    match spec_find_equals(s, 0) {
        None => None,
        Some(j) => Some((s.take(j), s.skip(j + 1))),
    }
}

/// Stepping over non-`=` bytes does not move the split point.
proof fn lemma_find_equals_skip(s: Seq<u8>, i: int, cur: int)
    requires
        0 <= i <= cur <= s.len(),
        forall|k: int| i <= k < cur ==> s[k] != 61,
    ensures
        spec_find_equals(s, i) == spec_find_equals(s, cur),
    decreases cur - i,
{
    if i < cur {
        lemma_find_equals_skip(s, i + 1, cur);
    }
}

/// Splits one environment string at its first `=` byte.
pub fn split_environment_entry(entry: &Vec<u8>) -> (r: Option<(Vec<u8>, Vec<u8>)>)
    ensures
        match r {
            Some(pair) => spec_split_environment(entry@) == Some((pair.0@, pair.1@)),
            None => spec_split_environment(entry@) is None,
        },
{
    let mut i: usize = 0;
    while i < entry.len()
        invariant
            0 <= i <= entry@.len(),
            forall|k: int| 0 <= k < i ==> entry@[k] != 61,
        decreases entry@.len() - i,
    {
        if entry[i] == 61 {
            proof {
                lemma_find_equals_skip(entry@, 0, i as int);
            }
            let mut name: Vec<u8> = Vec::new();
            let mut k: usize = 0;
            while k < i
                invariant
                    0 <= k <= i <= entry@.len(),
                    name@ == entry@.subrange(0, k as int),
                decreases i - k,
            {
                name.push(entry[k]);
                proof {
                    assert(name@ =~= entry@.subrange(0, k + 1));
                }
                k += 1;
            }
            let mut value: Vec<u8> = Vec::new();
            let mut m: usize = i + 1;
            while m < entry.len()
                invariant
                    i + 1 <= m <= entry@.len(),
                    value@ == entry@.subrange(i + 1, m as int),
                decreases entry@.len() - m,
            {
                value.push(entry[m]);
                proof {
                    assert(value@ =~= entry@.subrange(i + 1, m + 1));
                }
                m += 1;
            }
            proof {
                assert(entry@.take(i as int) =~= entry@.subrange(0, i as int));
                assert(entry@.skip(i + 1) =~= entry@.subrange(i + 1, entry@.len() as int));
            }
            return Some((name, value));
        }
        i += 1;
    }
    proof {
        lemma_find_equals_skip(entry@, 0, entry@.len() as int);
    }
    None
}

/// An iterator over the environment as (name, value) pairs: the strings
/// not yet yielded.
#[derive(Clone)]
pub struct EnvironmentIter {
    /// The environment strings, in stack order, each without its null
    /// terminator.
    pub strings: Vec<Vec<u8>>,
    /// How many strings have been yielded so far.
    pub position: usize,
}

impl EnvironmentIter {
    /// The yielded strings never outnumber the environment's.
    pub open spec fn wf(&self) -> bool {
        self.position <= self.strings@.len()
    }

    /// The strings this iterator has yet to yield.
    pub open spec fn remaining(&self) -> Seq<Vec<u8>> {
        self.strings@.skip(self.position as int)
    }

    /// Initializes an iterator over the environment strings.
    pub fn new(strings: Vec<Vec<u8>>) -> (r: EnvironmentIter)
        ensures
            r.wf(),
            r.strings@ == strings@,
            r.position == 0,
            r.remaining() == strings@,
    {
        let r = EnvironmentIter { strings, position: 0 };
        proof {
            assert(r.strings@.skip(0) =~= r.strings@);
        }
        r
    }

    /// Extracts the backing strings — all of them, yielded or not —
    /// consuming the iterator.
    pub fn into_inner(self) -> (r: Vec<Vec<u8>>)
        ensures
            r@ == self.strings@,
    {
        self.strings
    }

    /// Yields the next variable split at its first `=`; at the end of the
    /// environment, or at a malformed string without `=`, yields `None`.
    pub fn next(&mut self) -> (r: Option<(Vec<u8>, Vec<u8>)>)
        requires
            old(self).wf(),
        ensures
            final(self).wf(),
            match r {
                Some(pair) => {
                    &&& old(self).remaining().len() > 0
                    &&& spec_split_environment(old(self).remaining()[0]@) == Some(
                        (pair.0@, pair.1@),
                    )
                    &&& final(self).remaining() == old(self).remaining().skip(1)
                },
                None => {
                    &&& final(self).remaining() == old(self).remaining()
                    &&& (old(self).remaining().len() == 0 || spec_split_environment(
                        old(self).remaining()[0]@,
                    ) is None)
                },
            },
    {
        if self.position >= self.strings.len() {
            return None;
        }
        let pair = split_environment_entry(&self.strings[self.position]);
        match pair {
            Some(p) => {
                self.position = self.position + 1;
                proof {
                    assert(self.strings@.skip(self.position as int) =~= old(
                        self,
                    ).strings@.skip(old(self).position as int).skip(1));
                }
                Some(p)
            },
            None => None,
        }
    }
}

} // verus!
