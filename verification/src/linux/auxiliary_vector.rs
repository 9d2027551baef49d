//! The auxiliary vector.
//!
//! A table of (tag, value) word pairs the kernel leaves on the initial
//! stack after the environment pointers, terminated by a pair whose tag is
//! `AT_NULL`. The bootstrap reads from it the runtime's load address, the
//! page size, a pointer to sixteen pseudorandom bytes, and the location of
//! the executable's program headers.

use vstd::prelude::*;
use crate::errors::BootstrapError;

verus! {

/// End of the auxiliary vector.
pub const AT_NULL: u64 = 0;

/// Address of the executable's program headers.
pub const AT_PHDR: u64 = 3;

/// Size in bytes of one program-header entry.
pub const AT_PHENT: u64 = 4;

/// Number of program-header entries.
pub const AT_PHNUM: u64 = 5;

/// The system page size.
pub const AT_PAGE_SIZE: u64 = 6;

/// The runtime's load address, or null if the runtime is the executable.
pub const AT_BASE: u64 = 7;

/// The executable's entry point.
pub const AT_ENTRY: u64 = 9;

/// Address of sixteen pseudorandom bytes.
pub const AT_RANDOM: u64 = 25;

/// An item of the auxiliary vector. The value word is a union in the
/// kernel's layout (an integer or a pointer depending on the tag); both
/// readings are the same stored word, held here as `a_val`.
#[derive(Clone, Copy, PartialEq, Eq, Structural, Debug)]
pub struct AuxiliaryVectorItem {
    /// Tag saying what the item carries.
    pub a_type: u64,
    /// The item's value or pointer word.
    pub a_val: u64,
}

/// The index of the first zero word at or after `i`, or `None` where none
/// exists.
pub open spec fn spec_find_zero_word(words: Seq<u64>, i: int) -> Option<int>
    decreases words.len() - i,
{
    if i < 0 || i >= words.len() {
        None
    } else if words[i] == 0 {
        Some(i)
    } else {
        spec_find_zero_word(words, i + 1)
    }
}

/// Scans the stack words for the zero word that terminates a
/// null-terminated block starting at `start`.
pub fn find_zero_word(words: &Vec<u64>, start: usize) -> (r: Result<usize, BootstrapError>)
    ensures
        match r {
            Ok(z) => {
                &&& start <= z < words@.len()
                &&& spec_find_zero_word(words@, start as int) == Some(z as int)
            },
            Err(e) => {
                &&& e == (BootstrapError::TruncatedStartupContext)
                &&& spec_find_zero_word(words@, start as int) is None
            },
        },
{
    let mut cur: usize = start;
    loop
        invariant
            start <= cur,
            spec_find_zero_word(words@, start as int) == spec_find_zero_word(words@, cur as int),
        decreases words@.len() - cur,
    {
        if cur >= words.len() {
            return Err(BootstrapError::TruncatedStartupContext);
        }
        if words[cur] == 0 {
            return Ok(cur);
        }
        cur += 1;
    }
}

/// The auxiliary items held in the word pairs from index `i` up to (not
/// including) the first `AT_NULL` pair, or `None` where the words run out
/// before a terminator.
pub open spec fn spec_auxiliary_entries(words: Seq<u64>, i: int) -> Option<
    Seq<AuxiliaryVectorItem>,
>
    decreases words.len() - i,
{
    if i < 0 || i + 2 > words.len() {
        None
    } else if words[i] == AT_NULL {
        Some(Seq::empty())
    } else {
        match spec_auxiliary_entries(words, i + 2) {
            None => None,
            Some(rest) => Some(
                seq![AuxiliaryVectorItem { a_type: words[i], a_val: words[i + 1] }] + rest,
            ),
        }
    }
}

/// Reads the auxiliary vector out of the stack words, starting at word
/// index `start`, up to its `AT_NULL` terminator.
pub fn read_auxiliary_entries(words: &Vec<u64>, start: usize) -> (r: Result<
    Vec<AuxiliaryVectorItem>,
    BootstrapError,
>)
    ensures
        match r {
            Ok(items) => spec_auxiliary_entries(words@, start as int) == Some(items@),
            Err(e) => {
                &&& e == (BootstrapError::TruncatedStartupContext)
                &&& spec_auxiliary_entries(words@, start as int) is None
            },
        },
{
    let mut items: Vec<AuxiliaryVectorItem> = Vec::new();
    let mut cur: usize = start;
    loop
        invariant
            start <= cur,
            cur - start == 2 * items@.len(),
            forall|rest: Seq<AuxiliaryVectorItem>|
                spec_auxiliary_entries(words@, cur as int) == Some(rest)
                    ==> spec_auxiliary_entries(words@, start as int) == Some(items@ + rest),
            spec_auxiliary_entries(words@, cur as int) is None ==> spec_auxiliary_entries(
                words@,
                start as int,
            ) is None,
        decreases words@.len() - cur,
    {
        if cur >= usize::MAX - 1 || cur + 2 > words.len() {
            proof {
                assert(words@.len() == words.len());
                assert(spec_auxiliary_entries(words@, cur as int) is None);
            }
            return Err(BootstrapError::TruncatedStartupContext);
        }
        let tag = words[cur];
        if tag == AT_NULL {
            proof {
                assert(items@ + Seq::<AuxiliaryVectorItem>::empty() =~= items@);
            }
            return Ok(items);
        }
        let item = AuxiliaryVectorItem { a_type: tag, a_val: words[cur + 1] };
        proof {
            assert forall|rest: Seq<AuxiliaryVectorItem>|
                spec_auxiliary_entries(words@, cur as int + 2) == Some(rest)
                    implies spec_auxiliary_entries(words@, start as int) == Some(
                (items@ + seq![item]) + rest,
            ) by {
                assert(spec_auxiliary_entries(words@, cur as int) == Some(seq![item] + rest));
                assert(items@ + (seq![item] + rest) =~= (items@ + seq![item]) + rest);
            }
        }
        let ghost items_before = items@;
        items.push(item);
        proof {
            assert(items@ =~= items_before + seq![item]);
        }
        cur = cur + 2;
    }
}

/// An iterator over an `AT_NULL`-terminated auxiliary vector that has
/// been read off the stack: the items not yet yielded.
#[derive(Clone)]
pub struct AuxiliaryVectorIter {
    /// The items read from the vector, in order.
    pub items: Vec<AuxiliaryVectorItem>,
    /// How many items have been yielded so far.
    pub position: usize,
}

impl AuxiliaryVectorIter {
    /// The yielded items never outnumber the vector's.
    pub open spec fn wf(&self) -> bool {
        self.position <= self.items@.len()
    }

    /// The items this iterator has yet to yield.
    pub open spec fn remaining(&self) -> Seq<AuxiliaryVectorItem> {
        self.items@.skip(self.position as int)
    }

    /// Initializes an iterator over the items of an auxiliary vector.
    pub fn new(items: Vec<AuxiliaryVectorItem>) -> (r: AuxiliaryVectorIter)
        ensures
            r.wf(),
            r.items@ == items@,
            r.position == 0,
            r.remaining() == items@,
    {
        let r = AuxiliaryVectorIter { items, position: 0 };
        proof {
            assert(r.items@.skip(0) =~= r.items@);
        }
        r
    }

    /// Locates the auxiliary vector behind the environment pointers and
    /// reads it: the vector's pairs begin one word past the zero word
    /// that ends the environment block starting at `environment_start`.
    pub fn from_environment_iter(words: &Vec<u64>, environment_start: usize) -> (r: Result<
        AuxiliaryVectorIter,
        BootstrapError,
    >)
        ensures
            match r {
                Ok(iter) => {
                    &&& iter.wf()
                    &&& {
                        let z = spec_find_zero_word(words@, environment_start as int);
                        &&& z is Some
                        &&& spec_auxiliary_entries(words@, z.unwrap() + 1) == Some(
                            iter.remaining(),
                        )
                    }
                },
                Err(e) => {
                    &&& e == (BootstrapError::TruncatedStartupContext)
                    &&& {
                        let z = spec_find_zero_word(words@, environment_start as int);
                        z is None || spec_auxiliary_entries(words@, z.unwrap() + 1) is None
                    }
                },
            },
    {
        let zero = match find_zero_word(words, environment_start) {
            Ok(z) => z,
            Err(e) => {
                return Err(e);
            },
        };
        proof {
            assert(zero < words.len());
        }
        let items = match read_auxiliary_entries(words, zero + 1) {
            Ok(items) => items,
            Err(e) => {
                return Err(e);
            },
        };
        Ok(AuxiliaryVectorIter::new(items))
    }

    /// Extracts the backing items — all of them, yielded or not —
    /// consuming the iterator.
    pub fn into_inner(self) -> (r: Vec<AuxiliaryVectorItem>)
        ensures
            r@ == self.items@,
    {
        self.items
    }

    /// Yields the next item, or `None` at the end of the vector.
    pub fn next(&mut self) -> (r: Option<AuxiliaryVectorItem>)
        requires
            old(self).wf(),
        ensures
            final(self).wf(),
            match r {
                Some(item) => {
                    &&& old(self).remaining().len() > 0
                    &&& item == old(self).remaining()[0]
                    &&& final(self).remaining() == old(self).remaining().skip(1)
                },
                None => {
                    &&& old(self).remaining().len() == 0
                    &&& final(self).remaining() == old(self).remaining()
                },
            },
    {
        if self.position < self.items.len() {
            let item = self.items[self.position];
            self.position = self.position + 1;
            proof {
                assert(self.remaining() =~= old(self).remaining().skip(1));
            }
            Some(item)
        } else {
            None
        }
    }
}

/// The last value the auxiliary vector gives for `tag`, if any; an
/// assigning scan leaves the last occurrence in hand.
pub open spec fn spec_last_aux_value(items: Seq<AuxiliaryVectorItem>, tag: u64) -> Option<u64>
    decreases items.len(),
{
    if items.len() == 0 {
        None
    } else if items.last().a_type == tag {
        Some(items.last().a_val)
    } else {
        spec_last_aux_value(items.drop_last(), tag)
    }
}

/// The values of interest gathered from the auxiliary vector; a tag the
/// vector does not carry leaves its field zero (null).
#[derive(Clone, Copy, PartialEq, Eq, Structural, Debug)]
pub struct AuxiliaryValues {
    /// `AT_BASE`: the runtime's load address, or null if the runtime is
    /// the executable.
    pub base: u64,
    /// `AT_ENTRY`: the executable's entry point.
    pub entry: u64,
    /// `AT_PAGE_SIZE`: the system page size.
    pub page_size: u64,
    /// `AT_RANDOM`: address of sixteen pseudorandom bytes.
    pub random: u64,
    /// `AT_PHDR`: address of the executable's program headers.
    pub program_header_pointer: u64,
    /// `AT_PHENT`: size in bytes of one program-header entry.
    pub program_header_entry_size: u64,
    /// `AT_PHNUM`: number of program-header entries.
    pub program_header_count: u64,
}

/// What a full scan of the auxiliary vector leaves in each field.
pub open spec fn spec_aux_field(items: Seq<AuxiliaryVectorItem>, tag: u64) -> u64 {
    match spec_last_aux_value(items, tag) {
        Some(v) => v,
        None => 0,
    }
}

impl AuxiliaryValues {
    /// Gathers the values of interest in one pass over the vector, later
    /// occurrences of a tag overwriting earlier ones.
    pub fn gather(items: &Vec<AuxiliaryVectorItem>) -> (r: AuxiliaryValues)
        ensures
            r.base == spec_aux_field(items@, AT_BASE),
            r.entry == spec_aux_field(items@, AT_ENTRY),
            r.page_size == spec_aux_field(items@, AT_PAGE_SIZE),
            r.random == spec_aux_field(items@, AT_RANDOM),
            r.program_header_pointer == spec_aux_field(items@, AT_PHDR),
            r.program_header_entry_size == spec_aux_field(items@, AT_PHENT),
            r.program_header_count == spec_aux_field(items@, AT_PHNUM),
    {
        let mut r = AuxiliaryValues {
            base: 0,
            entry: 0,
            page_size: 0,
            random: 0,
            program_header_pointer: 0,
            program_header_entry_size: 0,
            program_header_count: 0,
        };
        let mut i: usize = 0;
        while i < items.len()
            invariant
                0 <= i <= items@.len(),
                r.base == spec_aux_field(items@.take(i as int), AT_BASE),
                r.entry == spec_aux_field(items@.take(i as int), AT_ENTRY),
                r.page_size == spec_aux_field(items@.take(i as int), AT_PAGE_SIZE),
                r.random == spec_aux_field(items@.take(i as int), AT_RANDOM),
                r.program_header_pointer == spec_aux_field(items@.take(i as int), AT_PHDR),
                r.program_header_entry_size == spec_aux_field(items@.take(i as int), AT_PHENT),
                r.program_header_count == spec_aux_field(items@.take(i as int), AT_PHNUM),
            decreases items@.len() - i,
        {
            let item = items[i];
            if item.a_type == AT_BASE {
                r.base = item.a_val;
            } else if item.a_type == AT_ENTRY {
                r.entry = item.a_val;
            } else if item.a_type == AT_PAGE_SIZE {
                r.page_size = item.a_val;
            } else if item.a_type == AT_RANDOM {
                r.random = item.a_val;
            } else if item.a_type == AT_PHDR {
                r.program_header_pointer = item.a_val;
            } else if item.a_type == AT_PHENT {
                r.program_header_entry_size = item.a_val;
            } else if item.a_type == AT_PHNUM {
                r.program_header_count = item.a_val;
            }
            proof {
                let t = items@.take(i + 1);
                assert(t.drop_last() =~= items@.take(i as int));
                assert(t.last() == items@[i as int]);
            }
            i += 1;
        }
        proof {
            assert(items@.take(items@.len() as int) =~= items@);
        }
        r
    }
}

} // verus!
