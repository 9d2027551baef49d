//! The ELF file header.
//!
//! The bootstrap reads four fields of the 64-byte ELF header at the start
//! of the image: the image kind (which must be `ET_DYN` for a
//! position-independent object) and the location, entry size and entry
//! count of the program-header table.

use vstd::prelude::*;
use crate::bytes::{half_at, word_at};
use crate::image::MemoryImage;
use crate::errors::BootstrapError;

verus! {

/// Image kind of a position-independent shared object.
pub const ET_DYN: u16 = 3;

/// Size in bytes of the ELF header on 64-bit ELF.
pub const ELF_HEADER_SIZE: u64 = 64;

/// The fields of the ELF header that the bootstrap reads.
#[derive(Clone, Copy, PartialEq, Eq, Structural, Debug)]
pub struct ElfHeader {
    /// Image kind; `ET_DYN` for a shared object.
    pub e_type: u16,
    /// File offset of the program-header table.
    pub e_phoff: u64,
    /// Size in bytes of one program-header entry.
    pub e_phentsize: u16,
    /// Number of program-header entries.
    pub e_phnum: u16,
}

/// The header fields as stored at the start of the image: `e_type` at
/// offset 16, `e_phoff` at 32, `e_phentsize` at 54 and `e_phnum` at 56,
/// all little-endian.
pub open spec fn spec_elf_header(s: Seq<u8>) -> ElfHeader {
    ElfHeader {
        e_type: half_at(s, 16),
        e_phoff: word_at(s, 32),
        e_phentsize: half_at(s, 54),
        e_phnum: half_at(s, 56),
    }
}

/// Reads the ELF header at the very start of the image.
pub fn read_elf_header(image: &MemoryImage) -> (r: Result<ElfHeader, BootstrapError>)
    ensures
        match r {
            Ok(h) => {
                &&& image.spec_len() >= ELF_HEADER_SIZE
                &&& h == spec_elf_header(image.bytes@)
            },
            Err(e) => {
                &&& e == (BootstrapError::TruncatedImage)
                &&& image.spec_len() < ELF_HEADER_SIZE
            },
        },
{
    if image.len() < 64 {
        return Err(BootstrapError::TruncatedImage);
    }
    let e_type = image.half_word_at(16);
    let e_phoff = image.word_at_offset(32);
    let e_phentsize = image.half_word_at(54);
    let e_phnum = image.half_word_at(56);
    Ok(ElfHeader { e_type, e_phoff, e_phentsize, e_phnum })
}

} // verus!
