//! Symbols and the symbol table.
//!
//! The relocator needs one field of a symbol record: `st_value`, the
//! symbol's unrelocated virtual address. The table's length is not stored
//! in the file; it is implied by the largest index the relocation records
//! use, so the descriptor assembly materializes exactly that many records.

use vstd::prelude::*;
use crate::bytes::{quarter_at, half_at, word_at};
use crate::image::MemoryImage;
use crate::errors::BootstrapError;

verus! {

/// Size in bytes of one symbol record on 64-bit ELF.
pub const SYMBOL_RECORD_SIZE: u64 = 24;

/// One symbol record, in the conventional 64-bit ELF layout.
#[derive(Clone, Copy, PartialEq, Eq, Structural, Debug)]
pub struct Symbol {
    /// String-table offset of the symbol's name.
    pub st_name: u32,
    /// Binding and kind.
    pub st_info: u8,
    /// Visibility.
    pub st_other: u8,
    /// Section index.
    pub st_shndx: u16,
    /// Unrelocated virtual address of the symbol.
    pub st_value: u64,
    /// Size of the object the symbol names.
    pub st_size: u64,
}

/// The symbol record stored at byte offset `off`.
pub open spec fn spec_symbol_at(s: Seq<u8>, off: int) -> Symbol {
    Symbol {
        st_name: quarter_at(s, off),
        st_info: s[off + 4],
        st_other: s[off + 5],
        st_shndx: half_at(s, off + 6),
        st_value: word_at(s, off + 8),
        st_size: word_at(s, off + 16),
    }
}

/// The table of `count` symbol records starting at byte offset `off`.
pub open spec fn spec_symbol_table(s: Seq<u8>, off: int, count: int) -> Seq<Symbol> {
    Seq::new(count as nat, |i: int| spec_symbol_at(s, off + SYMBOL_RECORD_SIZE * i))
}

/// Reads one symbol record at offset `off` from the base.
pub fn read_symbol(image: &MemoryImage, off: u64) -> (r: Symbol)
    requires
        off + SYMBOL_RECORD_SIZE <= image.spec_len(),
    ensures
        r == spec_symbol_at(image.bytes@, off as int),
{
    Symbol {
        st_name: image.quarter_word_at(off),
        st_info: image.byte_at(off + 4),
        st_other: image.byte_at(off + 5),
        st_shndx: image.half_word_at(off + 6),
        st_value: image.word_at_offset(off + 8),
        st_size: image.word_at_offset(off + 16),
    }
}

/// Reads `count` symbol records at offset `off` from the base.
pub fn read_symbol_table(image: &MemoryImage, off: u64, count: u64) -> (r: Result<
    Vec<Symbol>,
    BootstrapError,
>)
    ensures
        match r {
            Ok(symbols) => {
                &&& off + SYMBOL_RECORD_SIZE * count <= image.spec_len()
                &&& symbols@ == spec_symbol_table(image.bytes@, off as int, count as int)
            },
            Err(e) => {
                &&& e == (BootstrapError::TruncatedImage)
                &&& off + SYMBOL_RECORD_SIZE * count > image.spec_len()
            },
        },
{
    let total = match count.checked_mul(SYMBOL_RECORD_SIZE) {
        Some(t) => t,
        None => {
            return Err(BootstrapError::TruncatedImage);
        },
    };
    let end = match off.checked_add(total) {
        Some(e) => e,
        None => {
            return Err(BootstrapError::TruncatedImage);
        },
    };
    if end > image.len() as u64 {
        return Err(BootstrapError::TruncatedImage);
    }
    let mut symbols: Vec<Symbol> = Vec::new();
    let mut i: u64 = 0;
    while i < count
        invariant
            0 <= i <= count,
            off + SYMBOL_RECORD_SIZE * count <= image.spec_len(),
            symbols@.len() == i,
            forall|j: int|
                0 <= j < i ==> symbols@[j] == spec_symbol_at(
                    image.bytes@,
                    off + SYMBOL_RECORD_SIZE * j,
                ),
        decreases count - i,
    {
        let sym = read_symbol(image, off + i * SYMBOL_RECORD_SIZE);
        symbols.push(sym);
        i += 1;
    }
    proof {
        assert(symbols@ =~= spec_symbol_table(image.bytes@, off as int, count as int));
    }
    Ok(symbols)
}

/// The symbol table a descriptor hands to the relocator.
#[derive(Clone)]
pub struct SymbolTable {
    /// The symbol records, in index order.
    pub symbols: Vec<Symbol>,
}

impl SymbolTable {
    /// Initializes a symbol table from the records read out of the image.
    pub fn new(symbols: Vec<Symbol>) -> (r: SymbolTable)
        ensures
            r.symbols@ == symbols@,
    {
        SymbolTable { symbols }
    }

    /// The symbol at `index`, or `None` where the index lies outside the
    /// materialized table.
    pub fn get(&self, index: usize) -> (r: Option<Symbol>)
        ensures
            match r {
                Some(sym) => index < self.symbols@.len() && sym == self.symbols@[index as int],
                None => index >= self.symbols@.len(),
            },
    {
        if index < self.symbols.len() {
            Some(self.symbols[index])
        } else {
            None
        }
    }

    /// Extracts the records, consuming the table.
    pub fn into_inner(self) -> (r: Vec<Symbol>)
        ensures
            r@ == self.symbols@,
    {
        self.symbols
    }
}

} // verus!
