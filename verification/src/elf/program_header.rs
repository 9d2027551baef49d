//! Program-header entries.
//!
//! Each 56-byte entry describes one segment of the image. The bootstrap
//! needs `PT_LOAD` (virtual-address extents), `PT_DYNAMIC` (locates the
//! dynamic array), `PT_TLS` (the thread-local-storage template) and
//! `PT_PHDR` (the table's own virtual address, used to recover the image
//! base when no explicit base is available).

use vstd::prelude::*;
use crate::bytes::{quarter_at, word_at};
use crate::image::MemoryImage;
use crate::errors::BootstrapError;

verus! {

/// Loadable segment.
pub const PT_LOAD: u32 = 1;

/// Segment holding the dynamic array.
pub const PT_DYNAMIC: u32 = 2;

/// Entry giving the program-header table's own virtual address.
pub const PT_PHDR: u32 = 6;

/// Segment holding the TLS template.
pub const PT_TLS: u32 = 7;

/// Size in bytes of one program-header entry on 64-bit ELF.
pub const PROGRAM_HEADER_SIZE: u64 = 56;

/// One program-header entry.
#[derive(Clone, Copy, PartialEq, Eq, Structural, Debug)]
pub struct ProgramHeader {
    /// Segment kind.
    pub p_type: u32,
    /// Permission flags.
    pub p_flags: u32,
    /// File offset of the segment's image.
    pub p_offset: u64,
    /// Virtual address of the segment, relative to the image base.
    pub p_vaddr: u64,
    /// Physical address; unused on Linux/x86-64.
    pub p_paddr: u64,
    /// Number of bytes stored in the file image.
    pub p_filesz: u64,
    /// Number of bytes the segment occupies in memory.
    pub p_memsz: u64,
    /// Required alignment of the segment.
    pub p_align: u64,
}

/// The program-header entry stored at byte offset `off`.
pub open spec fn spec_program_header_at(s: Seq<u8>, off: int) -> ProgramHeader {
    ProgramHeader {
        p_type: quarter_at(s, off),
        p_flags: quarter_at(s, off + 4),
        p_offset: word_at(s, off + 8),
        p_vaddr: word_at(s, off + 16),
        p_paddr: word_at(s, off + 24),
        p_filesz: word_at(s, off + 32),
        p_memsz: word_at(s, off + 40),
        p_align: word_at(s, off + 48),
    }
}

/// The table of `count` program-header entries starting at byte offset `off`.
pub open spec fn spec_program_header_table(s: Seq<u8>, off: int, count: int) -> Seq<ProgramHeader> {
    Seq::new(count as nat, |i: int| spec_program_header_at(s, off + PROGRAM_HEADER_SIZE * i))
}

/// Reads one program-header entry at offset `off` from the base.
pub fn read_program_header(image: &MemoryImage, off: u64) -> (r: ProgramHeader)
    requires
        off + PROGRAM_HEADER_SIZE <= image.spec_len(),
    ensures
        r == spec_program_header_at(image.bytes@, off as int),
{
    ProgramHeader {
        p_type: image.quarter_word_at(off),
        p_flags: image.quarter_word_at(off + 4),
        p_offset: image.word_at_offset(off + 8),
        p_vaddr: image.word_at_offset(off + 16),
        p_paddr: image.word_at_offset(off + 24),
        p_filesz: image.word_at_offset(off + 32),
        p_memsz: image.word_at_offset(off + 40),
        p_align: image.word_at_offset(off + 48),
    }
}

/// Reads the program-header table of `count` entries at offset `off` from
/// the base.
pub fn read_program_header_table(image: &MemoryImage, off: u64, count: u16) -> (r: Result<
    Vec<ProgramHeader>,
    BootstrapError,
>)
    ensures
        match r {
            Ok(table) => {
                &&& off + PROGRAM_HEADER_SIZE * count <= image.spec_len()
                &&& table@ == spec_program_header_table(image.bytes@, off as int, count as int)
            },
            Err(e) => {
                &&& e == (BootstrapError::TruncatedImage)
                &&& off + PROGRAM_HEADER_SIZE * count > image.spec_len()
            },
        },
{
    let total: u64 = (count as u64) * PROGRAM_HEADER_SIZE;
    let end = match off.checked_add(total) {
        Some(e) => e,
        None => {
            return Err(BootstrapError::TruncatedImage);
        },
    };
    if end > image.len() as u64 {
        return Err(BootstrapError::TruncatedImage);
    }
    let mut table: Vec<ProgramHeader> = Vec::new();
    let mut i: u64 = 0;
    while i < count as u64
        invariant
            0 <= i <= count,
            off + PROGRAM_HEADER_SIZE * count <= image.spec_len(),
            table@.len() == i,
            forall|j: int|
                0 <= j < i ==> table@[j] == spec_program_header_at(
                    image.bytes@,
                    off + PROGRAM_HEADER_SIZE * j,
                ),
        decreases count - i,
    {
        let h = read_program_header(image, off + i * PROGRAM_HEADER_SIZE);
        table.push(h);
        i += 1;
    }
    proof {
        assert(table@ =~= spec_program_header_table(image.bytes@, off as int, count as int));
    }
    Ok(table)
}

/// The first entry of the table with the wanted kind, if any.
pub open spec fn spec_find_first(table: Seq<ProgramHeader>, kind: u32) -> Option<ProgramHeader>
    decreases table.len(),
{
    if table.len() == 0 {
        None
    } else if table[0].p_type == kind {
        Some(table[0])
    } else {
        spec_find_first(table.skip(1), kind)
    }
}

/// Scans the table for the first entry of the given kind.
pub fn find_first_program_header(table: &Vec<ProgramHeader>, kind: u32) -> (r: Option<
    ProgramHeader,
>)
    ensures
        r == spec_find_first(table@, kind),
{
    proof {
        assert(table@.skip(0) =~= table@);
    }
    let mut i: usize = 0;
    while i < table.len()
        invariant
            0 <= i <= table@.len(),
            spec_find_first(table@, kind) == spec_find_first(table@.skip(i as int), kind),
        decreases table@.len() - i,
    {
        if table[i].p_type == kind {
            proof {
                assert(table@.skip(i as int)[0] == table@[i as int]);
            }
            return Some(table[i]);
        }
        proof {
            assert(table@.skip(i as int).skip(1) =~= table@.skip(i + 1));
        }
        i += 1;
    }
    proof {
        assert(table@.skip(table@.len() as int) =~= Seq::<ProgramHeader>::empty());
    }
    None
}

/// The entry an assigning scan of the table leaves in hand: the last
/// entry with the wanted kind, if any.
pub open spec fn spec_find_last(table: Seq<ProgramHeader>, kind: u32) -> Option<ProgramHeader>
    decreases table.len(),
{
    if table.len() == 0 {
        None
    } else if table.last().p_type == kind {
        Some(table.last())
    } else {
        spec_find_last(table.drop_last(), kind)
    }
}

/// Scans the table for an entry of the given kind; later entries win.
pub fn find_program_header(table: &Vec<ProgramHeader>, kind: u32) -> (r: Option<ProgramHeader>)
    ensures
        r == spec_find_last(table@, kind),
{
    let mut found: Option<ProgramHeader> = None;
    let mut i: usize = 0;
    while i < table.len()
        invariant
            0 <= i <= table@.len(),
            found == spec_find_last(table@.take(i as int), kind),
        decreases table@.len() - i,
    {
        if table[i].p_type == kind {
            found = Some(table[i]);
        }
        proof {
            let t = table@.take(i + 1);
            assert(t.drop_last() =~= table@.take(i as int));
            assert(t.last() == table@[i as int]);
        }
        i += 1;
    }
    proof {
        assert(table@.take(table@.len() as int) =~= table@);
    }
    found
}

} // verus!
