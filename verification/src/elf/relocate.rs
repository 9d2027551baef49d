//! RELA relocation records.
//!
//! A RELA record names a target word (`r_offset`, relative to the image
//! base), a packed symbol-index/type field (`r_info`), and an explicit
//! signed addend. On 64-bit ELF the upper 32 bits of `r_info` are the
//! symbol index and the lower 32 bits the relocation type.

use vstd::prelude::*;
use crate::bytes::word_at;
use crate::image::MemoryImage;
use crate::elf::symbol::{Symbol, SymbolTable};
use crate::errors::BootstrapError;

verus! {

/// A shared object the relocator can work on: it knows its image base,
/// its RELA records, and the symbols those records may name.
pub trait Relocatable {
    /// The image base B of the relocation formulae.
    spec fn spec_base(&self) -> u64;

    /// The symbol records relocations may name, in index order.
    spec fn spec_symbols(&self) -> Seq<Symbol>;

    /// The RELA records to apply, in table order.
    spec fn spec_relas(&self) -> Seq<Rela>;

    /// The image base.
    fn base(&self) -> (r: u64)
        ensures
            r == self.spec_base(),
    ;

    /// The symbol at `index`, or `None` where the index lies outside the
    /// object's symbol table.
    fn symbol(&self, index: usize) -> (r: Option<Symbol>)
        ensures
            match r {
                Some(sym) => index < self.spec_symbols().len() && sym == self.spec_symbols()[index as int],
                None => index >= self.spec_symbols().len(),
            },
    ;

    /// The object's relocation tables.
    fn relocation_slices(&self) -> (r: &RelocationSlices)
        ensures
            r.rela_slice@ == self.spec_relas(),
    ;

    /// The object's symbol table.
    fn symbol_table(&self) -> (r: &SymbolTable)
        ensures
            r.symbols@ == self.spec_symbols(),
    ;
}

/// Size in bytes of one RELA record in the file image.
pub const RELA_RECORD_SIZE: u64 = 24;

/// An ELF relocation entry with an addend.
#[derive(Clone, Copy, PartialEq, Eq, Structural, Debug)]
pub struct Rela {
    /// Target address of the relocation, relative to the image base.
    pub r_offset: u64,
    /// Packed symbol index (upper half) and relocation type (lower half).
    pub r_info: u64,
    /// Constant addend used to compute the stored value.
    pub r_addend: i64,
}

/// The symbol index packed into an `r_info` field.
pub open spec fn spec_r_sym(info: u64) -> u32 {
    (info >> 32) as u32
}

/// The relocation type packed into an `r_info` field.
pub open spec fn spec_r_type(info: u64) -> u32 {
    (info & 0xFFFF_FFFF) as u32
}

impl Rela {
    /// Extracts the symbol table index from the `r_info` field.
    pub fn r_sym(&self) -> (r: u32)
        ensures
            r == spec_r_sym(self.r_info),
            r == self.r_info >> 32,
    {
        let info = self.r_info;
        proof {
            assert(((info >> 32) as u32) as u64 == info >> 32) by (bit_vector);
        }
        (info >> 32) as u32
    }

    /// Extracts the relocation type from the `r_info` field.
    pub fn r_type(&self) -> (r: u32)
        ensures
            r == spec_r_type(self.r_info),
            r == self.r_info & 0xFFFF_FFFF,
    {
        let info = self.r_info;
        proof {
            assert(((info & 0xFFFF_FFFF) as u32) as u64 == info & 0xFFFF_FFFF) by (bit_vector);
        }
        (info & 0xFFFF_FFFF) as u32
    }
}

/// The RELA record stored at byte offset `off`: three consecutive
/// little-endian machine words (the addend read as a two's-complement
/// signed value).
pub open spec fn spec_rela_at(s: Seq<u8>, off: int) -> Rela {
    Rela {
        r_offset: word_at(s, off),
        r_info: word_at(s, off + 8),
        r_addend: word_at(s, off + 16) as i64,
    }
}

/// The table of `count` RELA records starting at byte offset `off`.
pub open spec fn spec_rela_table(s: Seq<u8>, off: int, count: int) -> Seq<Rela> {
    Seq::new(count as nat, |i: int| spec_rela_at(s, off + RELA_RECORD_SIZE * i))
}

/// Reads one RELA record from the image at offset `off` from the base.
pub fn read_rela(image: &MemoryImage, off: u64) -> (r: Rela)
    requires
        off + RELA_RECORD_SIZE <= image.spec_len(),
    ensures
        r == spec_rela_at(image.bytes@, off as int),
{
    let r_offset = image.word_at_offset(off);
    let r_info = image.word_at_offset(off + 8);
    let r_addend = image.word_at_offset(off + 16) as i64;
    Rela { r_offset, r_info, r_addend }
}

/// Reads the whole RELA table of `count` records at offset `off` from the
/// base. The result is a function of the image bytes alone, so reading the
/// table a second time yields an equal sequence.
pub fn read_rela_table(image: &MemoryImage, off: u64, count: u64) -> (r: Result<
    Vec<Rela>,
    BootstrapError,
>)
    ensures
        match r {
            Ok(relas) => {
                &&& off + RELA_RECORD_SIZE * count <= image.spec_len()
                &&& relas@ == spec_rela_table(image.bytes@, off as int, count as int)
            },
            Err(e) => {
                &&& e == (BootstrapError::TruncatedImage)
                &&& off + RELA_RECORD_SIZE * count > image.spec_len()
            },
        },
{
    let total = match count.checked_mul(RELA_RECORD_SIZE) {
        Some(t) => t,
        None => {
            return Err(BootstrapError::TruncatedImage);
        },
    };
    let end = match off.checked_add(total) {
        Some(e) => e,
        None => {
            return Err(BootstrapError::TruncatedImage);
        },
    };
    if end > image.len() as u64 {
        return Err(BootstrapError::TruncatedImage);
    }
    let mut relas: Vec<Rela> = Vec::new();
    let mut i: u64 = 0;
    while i < count
        invariant
            0 <= i <= count,
            off + RELA_RECORD_SIZE * count <= image.spec_len(),
            relas@.len() == i,
            forall|j: int|
                0 <= j < i ==> relas@[j] == spec_rela_at(
                    image.bytes@,
                    off + RELA_RECORD_SIZE * j,
                ),
        decreases count - i,
    {
        let rec = read_rela(image, off + i * RELA_RECORD_SIZE);
        relas.push(rec);
        i += 1;
    }
    proof {
        assert(relas@ =~= spec_rela_table(image.bytes@, off as int, count as int));
    }
    Ok(relas)
}

/// The relocation tables of a shared object. The bootstrap needs only
/// the RELA slice.
#[derive(Clone)]
pub struct RelocationSlices {
    /// The RELA records, in table order.
    pub rela_slice: Vec<Rela>,
}

} // verus!
