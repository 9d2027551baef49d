//! The dynamic array.
//!
//! A `DT_NULL`-terminated sequence of 16-byte (tag, value) entries located
//! by the `PT_DYNAMIC` program header. Callers pass over it several times
//! to gather independent tags.

use vstd::prelude::*;
use crate::bytes::word_at;
use crate::image::MemoryImage;
use crate::errors::BootstrapError;

verus! {

/// Terminator of the dynamic array.
pub const DT_NULL: u64 = 0;

/// String-table index of a required library's name.
pub const DT_NEEDED: u64 = 1;

/// Address of the global offset table.
pub const DT_PLTGOT: u64 = 3;

/// Address of the string table.
pub const DT_STRTAB: u64 = 5;

/// Address of the symbol table.
pub const DT_SYMTAB: u64 = 6;

/// Address of the RELA relocation table.
pub const DT_RELA: u64 = 7;

/// Total size in bytes of the RELA table.
pub const DT_RELASZ: u64 = 8;

/// Size in bytes of one RELA record.
pub const DT_RELAENT: u64 = 9;

/// Size in bytes of one symbol record.
pub const DT_SYMENT: u64 = 11;

/// Marker that relocations may touch a read-only text segment.
pub const DT_TEXTREL: u64 = 22;

/// Size in bytes of one dynamic-array entry on 64-bit ELF.
pub const DYNAMIC_ENTRY_SIZE: u64 = 16;

/// An entry of the dynamic array. The second word is a union in the file
/// format (an integer or an address depending on the tag); both readings
/// are the same stored word, held here as `d_val`.
#[derive(Clone, Copy, PartialEq, Eq, Structural, Debug)]
pub struct DynamicArrayItem {
    /// Tag saying what the entry describes.
    pub d_tag: u64,
    /// The entry's value or address word.
    pub d_val: u64,
}

/// The dynamic-array entry stored at byte offset `off`.
pub open spec fn spec_dynamic_item_at(s: Seq<u8>, off: int) -> DynamicArrayItem {
    DynamicArrayItem { d_tag: word_at(s, off), d_val: word_at(s, off + 8) }
}

/// The entries from byte offset `off` up to (not including) the first
/// `DT_NULL` entry, or `None` where the memory runs out before a
/// terminator is found.
pub open spec fn spec_dynamic_entries(s: Seq<u8>, off: int) -> Option<Seq<DynamicArrayItem>>
    decreases s.len() - off,
{
    if off < 0 || off + DYNAMIC_ENTRY_SIZE > s.len() {
        None
    } else if word_at(s, off) == DT_NULL {
        Some(Seq::empty())
    } else {
        match spec_dynamic_entries(s, off + DYNAMIC_ENTRY_SIZE) {
            None => None,
            Some(rest) => Some(seq![spec_dynamic_item_at(s, off)] + rest),
        }
    }
}

/// Reads the dynamic array starting at offset `off` from the base, up to
/// its `DT_NULL` terminator.
pub fn read_dynamic_entries(image: &MemoryImage, off: u64) -> (r: Result<
    Vec<DynamicArrayItem>,
    BootstrapError,
>)
    ensures
        match r {
            Ok(items) => spec_dynamic_entries(image.bytes@, off as int) == Some(items@),
            Err(e) => {
                &&& e == (BootstrapError::UnterminatedDynamicArray)
                &&& spec_dynamic_entries(image.bytes@, off as int) is None
            },
        },
{
    let mut items: Vec<DynamicArrayItem> = Vec::new();
    let mut cur: u64 = off;
    loop
        invariant
            off <= cur,
            cur - off == DYNAMIC_ENTRY_SIZE * items@.len(),
            forall|rest: Seq<DynamicArrayItem>|
                spec_dynamic_entries(image.bytes@, cur as int) == Some(rest)
                    ==> spec_dynamic_entries(image.bytes@, off as int) == Some(items@ + rest),
            spec_dynamic_entries(image.bytes@, cur as int) is None ==> spec_dynamic_entries(
                image.bytes@,
                off as int,
            ) is None,
        decreases image.spec_len() - cur,
    {
        if cur > u64::MAX - DYNAMIC_ENTRY_SIZE || cur + DYNAMIC_ENTRY_SIZE > image.len() as u64 {
            return Err(BootstrapError::UnterminatedDynamicArray);
        }
        let tag = image.word_at_offset(cur);
        if tag == DT_NULL {
            proof {
                assert(spec_dynamic_entries(image.bytes@, cur as int) == Some(
                    Seq::<DynamicArrayItem>::empty(),
                ));
                assert(items@ + Seq::<DynamicArrayItem>::empty() =~= items@);
            }
            return Ok(items);
        }
        let value = image.word_at_offset(cur + 8);
        let item = DynamicArrayItem { d_tag: tag, d_val: value };
        proof {
            assert(item == spec_dynamic_item_at(image.bytes@, cur as int));
            assert forall|rest: Seq<DynamicArrayItem>|
                spec_dynamic_entries(image.bytes@, cur as int + DYNAMIC_ENTRY_SIZE) == Some(
                    rest,
                ) implies spec_dynamic_entries(image.bytes@, off as int) == Some(
                (items@ + seq![item]) + rest,
            ) by {
                assert(spec_dynamic_entries(image.bytes@, cur as int) == Some(
                    seq![item] + rest,
                ));
                assert(items@ + (seq![item] + rest) =~= (items@ + seq![item]) + rest);
            }
        }
        let ghost items_before = items@;
        items.push(item);
        proof {
            assert(items@ =~= items_before + seq![item]);
        }
        cur = cur + DYNAMIC_ENTRY_SIZE;
    }
}

/// The last value the dynamic array gives for `tag`, if any; an
/// assigning scan leaves the last occurrence in hand.
pub open spec fn spec_last_tag_value(items: Seq<DynamicArrayItem>, tag: u64) -> Option<u64>
    decreases items.len(),
{
    if items.len() == 0 {
        None
    } else if items.last().d_tag == tag {
        Some(items.last().d_val)
    } else {
        spec_last_tag_value(items.drop_last(), tag)
    }
}

/// The values of the array's `DT_NEEDED` entries, in array order.
pub open spec fn spec_needed_values(items: Seq<DynamicArrayItem>) -> Seq<u64>
    decreases items.len(),
{
    if items.len() == 0 {
        Seq::empty()
    } else {
        let rest = spec_needed_values(items.drop_last());
        if items.last().d_tag == DT_NEEDED {
            rest.push(items.last().d_val)
        } else {
            rest
        }
    }
}

/// Scans the array for an entry with the given tag; later entries win.
pub fn find_dynamic_value(items: &Vec<DynamicArrayItem>, tag: u64) -> (r: Option<u64>)
    ensures
        r == spec_last_tag_value(items@, tag),
{
    let mut found: Option<u64> = None;
    let mut i: usize = 0;
    while i < items.len()
        invariant
            0 <= i <= items@.len(),
            found == spec_last_tag_value(items@.take(i as int), tag),
        decreases items@.len() - i,
    {
        if items[i].d_tag == tag {
            found = Some(items[i].d_val);
        }
        proof {
            let t = items@.take(i + 1);
            assert(t.drop_last() =~= items@.take(i as int));
            assert(t.last() == items@[i as int]);
        }
        i += 1;
    }
    proof {
        assert(items@.take(items@.len() as int) =~= items@);
    }
    found
}

/// Collects the values of the array's `DT_NEEDED` entries, in order.
pub fn collect_needed(items: &Vec<DynamicArrayItem>) -> (r: Vec<u64>)
    ensures
        r@ == spec_needed_values(items@),
{
    let mut needed: Vec<u64> = Vec::new();
    let mut i: usize = 0;
    while i < items.len()
        invariant
            0 <= i <= items@.len(),
            needed@ == spec_needed_values(items@.take(i as int)),
        decreases items@.len() - i,
    {
        if items[i].d_tag == DT_NEEDED {
            needed.push(items[i].d_val);
        }
        proof {
            let t = items@.take(i + 1);
            assert(t.drop_last() =~= items@.take(i as int));
            assert(t.last() == items@[i as int]);
        }
        i += 1;
    }
    proof {
        assert(items@.take(items@.len() as int) =~= items@);
    }
    needed
}

/// Checks the per-entry sizes the dynamic array declares: `DT_RELAENT`
/// must equal the RELA record size and `DT_SYMENT` the symbol record
/// size, invariants a debug build of the runtime asserts.
pub fn check_entry_sizes(items: &Vec<DynamicArrayItem>) -> (r: Result<(), BootstrapError>)
    ensures
        match r {
            Ok(()) => forall|j: int|
                0 <= j < items@.len() ==> ((#[trigger] items@[j]).d_tag == DT_RELAENT
                    ==> items@[j].d_val == 24) && (items@[j].d_tag == DT_SYMENT
                    ==> items@[j].d_val == 24),
            Err(BootstrapError::RelaEntrySizeMismatch) => exists|j: int|
                0 <= j < items@.len() && (#[trigger] items@[j]).d_tag == DT_RELAENT
                    && items@[j].d_val != 24,
            Err(BootstrapError::SymbolEntrySizeMismatch) => exists|j: int|
                0 <= j < items@.len() && (#[trigger] items@[j]).d_tag == DT_SYMENT
                    && items@[j].d_val != 24,
            Err(_) => false,
        },
{
    let mut i: usize = 0;
    while i < items.len()
        invariant
            0 <= i <= items@.len(),
            forall|j: int|
                0 <= j < i ==> ((#[trigger] items@[j]).d_tag == DT_RELAENT ==> items@[j].d_val
                    == 24) && (items@[j].d_tag == DT_SYMENT ==> items@[j].d_val == 24),
        decreases items@.len() - i,
    {
        if items[i].d_tag == DT_RELAENT && items[i].d_val != 24 {
            return Err(BootstrapError::RelaEntrySizeMismatch);
        }
        if items[i].d_tag == DT_SYMENT && items[i].d_val != 24 {
            return Err(BootstrapError::SymbolEntrySizeMismatch);
        }
        i += 1;
    }
    Ok(())
}

/// Checks that the array marks no relocations against read-only text
/// (`DT_TEXTREL`), an invariant a debug build of the runtime asserts
/// before relocating itself.
pub fn check_no_text_relocations(items: &Vec<DynamicArrayItem>) -> (r: Result<
    (),
    BootstrapError,
>)
    ensures
        match r {
            Ok(()) => forall|j: int|
                0 <= j < items@.len() ==> (#[trigger] items@[j]).d_tag != DT_TEXTREL,
            Err(BootstrapError::TextRelocationsPresent) => exists|j: int|
                0 <= j < items@.len() && (#[trigger] items@[j]).d_tag == DT_TEXTREL,
            Err(_) => false,
        },
{
    let mut i: usize = 0;
    while i < items.len()
        invariant
            0 <= i <= items@.len(),
            forall|j: int| 0 <= j < i ==> (#[trigger] items@[j]).d_tag != DT_TEXTREL,
        decreases items@.len() - i,
    {
        if items[i].d_tag == DT_TEXTREL {
            return Err(BootstrapError::TextRelocationsPresent);
        }
        i += 1;
    }
    Ok(())
}

/// An iterator over a `DT_NULL`-terminated dynamic array that has been
/// read out of the image: the items not yet yielded.
#[derive(Clone)]
pub struct DynamicArrayIter {
    /// The items read from the array, in order.
    pub items: Vec<DynamicArrayItem>,
    /// How many items have been yielded so far.
    pub position: usize,
}

impl DynamicArrayIter {
    /// The yielded items never outnumber the array's.
    pub open spec fn wf(&self) -> bool {
        self.position <= self.items@.len()
    }

    /// The items this iterator has yet to yield.
    pub open spec fn remaining(&self) -> Seq<DynamicArrayItem> {
        self.items@.skip(self.position as int)
    }

    /// Initializes an iterator over the items of a dynamic array.
    pub fn new(items: Vec<DynamicArrayItem>) -> (r: DynamicArrayIter)
        ensures
            r.wf(),
            r.items@ == items@,
            r.position == 0,
            r.remaining() == items@,
    {
        let r = DynamicArrayIter { items, position: 0 };
        proof {
            assert(r.items@.skip(0) =~= r.items@);
        }
        r
    }

    /// Extracts the backing items — all of them, yielded or not —
    /// consuming the iterator.
    pub fn into_inner(self) -> (r: Vec<DynamicArrayItem>)
        ensures
            r@ == self.items@,
    {
        self.items
    }

    /// Yields the next item, or `None` at the end of the array.
    pub fn next(&mut self) -> (r: Option<DynamicArrayItem>)
        requires
            old(self).wf(),
        ensures
            final(self).wf(),
            match r {
                Some(item) => {
                    &&& old(self).remaining().len() > 0
                    &&& item == old(self).remaining()[0]
                    &&& final(self).remaining() == old(self).remaining().skip(1)
                },
                None => {
                    &&& old(self).remaining().len() == 0
                    &&& final(self).remaining() == old(self).remaining()
                },
            },
{
        if self.position < self.items.len() {
            let item = self.items[self.position];
            self.position = self.position + 1;
            proof {
                assert(self.remaining() =~= old(self).remaining().skip(1));
            }
            Some(item)
        } else {
            None
        }
    }
}

} // verus!
