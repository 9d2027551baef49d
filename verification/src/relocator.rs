//! The relocator.
//!
//! Applies each supported x86-64 RELA record against the image, in table
//! order. With B the image base, A the record's addend, S the named
//! symbol's `st_value` and P = B + `r_offset` the target, the stored word
//! is:
//!
//! | type                | stored at P          |
//! |---------------------|----------------------|
//! | `R_X86_64_NONE`     | nothing              |
//! | `R_X86_64_64`       | S + B + A            |
//! | `R_X86_64_GLOB_DAT` | S + B                |
//! | `R_X86_64_JUMP_SLOT`| S + B                |
//! | `R_X86_64_RELATIVE` | B + A                |
//! | `R_X86_64_IRELATIVE`| the value returned by the resolver at B + A |
//!
//! all arithmetic wrapping at the machine-word width. Any other type is
//! fatal. An `IRELATIVE` record calls arbitrary code inside the image;
//! that call cannot happen inside the model, so the relocator stops at
//! such a record and reports the resolver's address: the caller makes the
//! call, stores the returned word at the target itself, and resumes the
//! table one record further on.

use vstd::prelude::*;
use vstd::wrapping::u64_specs;
use crate::bytes::{word_at, store_word_seq, lemma_store_word_len, lemma_store_word_read_back, lemma_store_word_frame_word};
use crate::image::MemoryImage;
use crate::elf::relocate::{Rela, Relocatable, spec_r_sym, spec_r_type};
use crate::elf::symbol::Symbol;
use crate::errors::BootstrapError;

verus! {

/// No operation.
pub const R_X86_64_NONE: u32 = 0;

/// Store S + B + A.
pub const R_X86_64_64: u32 = 1;

/// Store S + B.
pub const R_X86_64_GLOB_DAT: u32 = 6;

/// Store S + B.
pub const R_X86_64_JUMP_SLOT: u32 = 7;

/// Store B + A.
pub const R_X86_64_RELATIVE: u32 = 8;

/// Store the word returned by the resolver function at B + A.
pub const R_X86_64_IRELATIVE: u32 = 37;

/// Relocation types whose stored value names a symbol.
pub open spec fn spec_uses_symbol(t: u32) -> bool {
    t == R_X86_64_64 || t == R_X86_64_GLOB_DAT || t == R_X86_64_JUMP_SLOT
}

/// Relocation types the relocator stores by itself, without calling into
/// the image.
pub open spec fn spec_direct_store(t: u32) -> bool {
    spec_uses_symbol(t) || t == R_X86_64_RELATIVE
}

/// Relocation types the relocator applies at all.
pub open spec fn spec_supported(t: u32) -> bool {
    t == R_X86_64_NONE || spec_direct_store(t) || t == R_X86_64_IRELATIVE
}

/// The word a direct-store record stores, per the table above.
pub open spec fn spec_rela_value(r: Rela, base: u64, symbols: Seq<Symbol>) -> u64
    recommends
        spec_direct_store(spec_r_type(r.r_info)),
{
    let t = spec_r_type(r.r_info);
    if t == R_X86_64_64 {
        u64_specs::wrapping_add_signed(
            u64_specs::wrapping_add(symbols[spec_r_sym(r.r_info) as int].st_value, base),
            r.r_addend,
        )
    } else if t == R_X86_64_RELATIVE {
        u64_specs::wrapping_add_signed(base, r.r_addend)
    } else {
        u64_specs::wrapping_add(symbols[spec_r_sym(r.r_info) as int].st_value, base)
    }
}

/// The record's side conditions in an image of `len` bytes: its target
/// word lies inside the image, and any symbol it names lies inside the
/// symbol table.
pub open spec fn spec_rela_fits(r: Rela, len: int, symbols: Seq<Symbol>) -> bool {
    &&& (spec_direct_store(spec_r_type(r.r_info)) ==> r.r_offset + 8 <= len)
    &&& (spec_uses_symbol(spec_r_type(r.r_info)) ==> spec_r_sym(r.r_info) < symbols.len())
}

/// The record is one the relocator finishes by itself and its side
/// conditions hold.
pub open spec fn spec_rela_applies(r: Rela, len: int, symbols: Seq<Symbol>) -> bool {
    &&& spec_r_type(r.r_info) == R_X86_64_NONE || spec_direct_store(spec_r_type(r.r_info))
    &&& spec_rela_fits(r, len, symbols)
}

/// How many symbol records the table's records can name: one past the
/// largest symbol index any symbol-naming record carries, or zero where
/// none does. The file does not store the symbol table's length; this
/// bound is what descriptor assembly materializes.
pub open spec fn spec_required_symbol_count(relas: Seq<Rela>) -> int
    decreases relas.len(),
{
    if relas.len() == 0 {
        0
    } else {
        let rest = spec_required_symbol_count(relas.drop_last());
        let last = relas.last();
        if spec_uses_symbol(spec_r_type(last.r_info)) && spec_r_sym(last.r_info) + 1 > rest {
            spec_r_sym(last.r_info) + 1
        } else {
            rest
        }
    }
}

/// Computes how many symbol records the table's records can name.
pub fn required_symbol_count(relas: &Vec<Rela>) -> (r: u64)
    ensures
        r == spec_required_symbol_count(relas@),
{
    let mut count: u64 = 0;
    let mut i: usize = 0;
    while i < relas.len()
        invariant
            0 <= i <= relas@.len(),
            count == spec_required_symbol_count(relas@.take(i as int)),
            count <= 0x1_0000_0000,
        decreases relas@.len() - i,
    {
        let r = relas[i];
        let t = r.r_type();
        if t == R_X86_64_64 || t == R_X86_64_GLOB_DAT || t == R_X86_64_JUMP_SLOT {
            let needed = r.r_sym() as u64 + 1;
            if needed > count {
                count = needed;
            }
        }
        proof {
            let tk = relas@.take(i + 1);
            assert(tk.drop_last() =~= relas@.take(i as int));
            assert(tk.last() == relas@[i as int]);
        }
        i += 1;
    }
    proof {
        assert(relas@.take(relas@.len() as int) =~= relas@);
    }
    count
}

/// Memory after one record: a direct store writes its word, every other
/// record leaves memory unchanged.
pub open spec fn spec_apply_one(s: Seq<u8>, r: Rela, base: u64, symbols: Seq<Symbol>) -> Seq<u8> {
    if spec_direct_store(spec_r_type(r.r_info)) && spec_rela_fits(r, s.len() as int, symbols) {
        store_word_seq(s, r.r_offset as int, spec_rela_value(r, base, symbols))
    } else {
        s
    }
}

/// Memory after the records with indices in `[from, to)`, applied in
/// table order.
pub open spec fn spec_apply_range(
    s: Seq<u8>,
    relas: Seq<Rela>,
    base: u64,
    symbols: Seq<Symbol>,
    from: int,
    to: int,
) -> Seq<u8>
    decreases to - from,
{
    if from >= to {
        s
    } else {
        spec_apply_range(
            spec_apply_one(s, relas[from], base, symbols),
            relas,
            base,
            symbols,
            from + 1,
            to,
        )
    }
}

/// One record never changes the length of memory.
pub proof fn lemma_apply_one_len(s: Seq<u8>, r: Rela, base: u64, symbols: Seq<Symbol>)
    ensures
        spec_apply_one(s, r, base, symbols).len() == s.len(),
{
    if spec_direct_store(spec_r_type(r.r_info)) && spec_rela_fits(r, s.len() as int, symbols) {
        lemma_store_word_len(s, r.r_offset as int, spec_rela_value(r, base, symbols));
    }
}

/// A range of records never changes the length of memory.
pub proof fn lemma_apply_range_len(
    s: Seq<u8>,
    relas: Seq<Rela>,
    base: u64,
    symbols: Seq<Symbol>,
    from: int,
    to: int,
)
    ensures
        spec_apply_range(s, relas, base, symbols, from, to).len() == s.len(),
    decreases to - from,
{
    if from < to {
        lemma_apply_one_len(s, relas[from], base, symbols);
        lemma_apply_range_len(
            spec_apply_one(s, relas[from], base, symbols),
            relas,
            base,
            symbols,
            from + 1,
            to,
        );
    }
}

/// Extending a range by its next record applies that record to the
/// range's result.
pub proof fn lemma_apply_range_snoc(
    s: Seq<u8>,
    relas: Seq<Rela>,
    base: u64,
    symbols: Seq<Symbol>,
    from: int,
    to: int,
)
    requires
        0 <= from <= to < relas.len(),
    ensures
        spec_apply_range(s, relas, base, symbols, from, to + 1) == spec_apply_one(
            spec_apply_range(s, relas, base, symbols, from, to),
            relas[to],
            base,
            symbols,
        ),
    decreases to - from,
{
    let stepped = spec_apply_one(s, relas[from], base, symbols);
    if from < to {
        lemma_apply_range_snoc(stepped, relas, base, symbols, from + 1, to);
    } else {
        assert(spec_apply_range(s, relas, base, symbols, from, to + 1) == spec_apply_range(
            stepped,
            relas,
            base,
            symbols,
            from + 1,
            to + 1,
        ));
        assert(spec_apply_range(stepped, relas, base, symbols, from + 1, to + 1) == stepped);
        assert(spec_apply_range(s, relas, base, symbols, from, to) == s);
    }
}

/// A range splits at any midpoint.
pub proof fn lemma_apply_range_split(
    s: Seq<u8>,
    relas: Seq<Rela>,
    base: u64,
    symbols: Seq<Symbol>,
    from: int,
    mid: int,
    to: int,
)
    requires
        from <= mid <= to,
    ensures
        spec_apply_range(s, relas, base, symbols, from, to) == spec_apply_range(
            spec_apply_range(s, relas, base, symbols, from, mid),
            relas,
            base,
            symbols,
            mid,
            to,
        ),
    decreases mid - from,
{
    if from < mid {
        lemma_apply_range_split(
            spec_apply_one(s, relas[from], base, symbols),
            relas,
            base,
            symbols,
            from + 1,
            mid,
            to,
        );
    }
}

/// A record whose store is disjoint from the word at `off` leaves that
/// word unchanged.
proof fn lemma_apply_one_frame(
    s: Seq<u8>,
    r: Rela,
    base: u64,
    symbols: Seq<Symbol>,
    off: int,
)
    requires
        0 <= off,
        off + 8 <= s.len(),
        spec_direct_store(spec_r_type(r.r_info)) && spec_rela_fits(r, s.len() as int, symbols)
            ==> (r.r_offset + 8 <= off || off + 8 <= r.r_offset),
    ensures
        word_at(spec_apply_one(s, r, base, symbols), off) == word_at(s, off),
{
    if spec_direct_store(spec_r_type(r.r_info)) && spec_rela_fits(r, s.len() as int, symbols) {
        lemma_store_word_frame_word(s, r.r_offset as int, spec_rela_value(r, base, symbols), off);
    }
}

/// A range of records none of whose stores touches the word at `off`
/// leaves that word unchanged.
pub proof fn lemma_apply_range_frame(
    s: Seq<u8>,
    relas: Seq<Rela>,
    base: u64,
    symbols: Seq<Symbol>,
    from: int,
    to: int,
    off: int,
)
    requires
        0 <= off,
        off + 8 <= s.len(),
        forall|j: int|
            from <= j < to && spec_direct_store(spec_r_type(#[trigger] relas[j].r_info))
                && spec_rela_fits(relas[j], s.len() as int, symbols) ==> (relas[j].r_offset + 8
                <= off || off + 8 <= relas[j].r_offset),
    ensures
        word_at(spec_apply_range(s, relas, base, symbols, from, to), off) == word_at(s, off),
    decreases to - from,
{
    if from < to {
        lemma_apply_one_len(s, relas[from], base, symbols);
        lemma_apply_one_frame(s, relas[from], base, symbols, off);
        lemma_apply_range_frame(
            spec_apply_one(s, relas[from], base, symbols),
            relas,
            base,
            symbols,
            from + 1,
            to,
            off,
        );
    }
}

/// No other record of the table stores into record `i`'s target word.
pub open spec fn spec_target_undisturbed(
    relas: Seq<Rela>,
    i: int,
    len: int,
    symbols: Seq<Symbol>,
) -> bool {
    forall|j: int|
        0 <= j < relas.len() && j != i && spec_direct_store(
            spec_r_type(#[trigger] relas[j].r_info),
        ) && spec_rela_fits(relas[j], len, symbols) ==> (relas[j].r_offset + 8
            <= relas[i].r_offset || relas[i].r_offset + 8 <= relas[j].r_offset)
}

/// After the whole table is applied, the target word of a direct-store
/// record whose target no other record disturbs holds that record's
/// value.
pub proof fn lemma_relocation_word(
    s: Seq<u8>,
    relas: Seq<Rela>,
    base: u64,
    symbols: Seq<Symbol>,
    i: int,
)
    requires
        0 <= i < relas.len(),
        spec_direct_store(spec_r_type(relas[i].r_info)),
        spec_rela_fits(relas[i], s.len() as int, symbols),
        spec_target_undisturbed(relas, i, s.len() as int, symbols),
    ensures
        word_at(
            spec_apply_range(s, relas, base, symbols, 0, relas.len() as int),
            relas[i].r_offset as int,
        ) == spec_rela_value(relas[i], base, symbols),
{
    let len = relas.len() as int;
    let off = relas[i].r_offset as int;
    let s_before = spec_apply_range(s, relas, base, symbols, 0, i);
    lemma_apply_range_len(s, relas, base, symbols, 0, i);
    lemma_apply_range_snoc(s, relas, base, symbols, 0, i);
    let s_after = spec_apply_one(s_before, relas[i], base, symbols);
    assert(s_after == store_word_seq(s_before, off, spec_rela_value(relas[i], base, symbols)));
    lemma_store_word_read_back(s_before, off, spec_rela_value(relas[i], base, symbols));
    lemma_store_word_len(s_before, off, spec_rela_value(relas[i], base, symbols));
    lemma_apply_range_split(s, relas, base, symbols, 0, i + 1, len);
    lemma_apply_range_frame(s_after, relas, base, symbols, i + 1, len, off);
}

/// **Relocation correctness.** For every record of type
/// `R_X86_64_RELATIVE` at offset O with addend A whose target word no
/// other record disturbs, the machine word at B + O after relocation
/// equals B + A.
pub proof fn lemma_relative_relocation(
    s: Seq<u8>,
    relas: Seq<Rela>,
    base: u64,
    symbols: Seq<Symbol>,
    i: int,
)
    requires
        0 <= i < relas.len(),
        spec_r_type(relas[i].r_info) == R_X86_64_RELATIVE,
        relas[i].r_offset + 8 <= s.len(),
        spec_target_undisturbed(relas, i, s.len() as int, symbols),
    ensures
        word_at(
            spec_apply_range(s, relas, base, symbols, 0, relas.len() as int),
            relas[i].r_offset as int,
        ) == u64_specs::wrapping_add_signed(base, relas[i].r_addend),
{
    lemma_relocation_word(s, relas, base, symbols, i);
}

/// **Relocation correctness (symbolic).** For every record of type
/// `R_X86_64_64` referencing a symbol with `st_value` V whose target word
/// no other record disturbs, the machine word at B + O after relocation
/// equals V + B + A.
pub proof fn lemma_symbolic_relocation(
    s: Seq<u8>,
    relas: Seq<Rela>,
    base: u64,
    symbols: Seq<Symbol>,
    i: int,
)
    requires
        0 <= i < relas.len(),
        spec_r_type(relas[i].r_info) == R_X86_64_64,
        relas[i].r_offset + 8 <= s.len(),
        spec_r_sym(relas[i].r_info) < symbols.len(),
        spec_target_undisturbed(relas, i, s.len() as int, symbols),
    ensures
        word_at(
            spec_apply_range(s, relas, base, symbols, 0, relas.len() as int),
            relas[i].r_offset as int,
        ) == u64_specs::wrapping_add_signed(
            u64_specs::wrapping_add(symbols[spec_r_sym(relas[i].r_info) as int].st_value, base),
            relas[i].r_addend,
        ),
{
    lemma_relocation_word(s, relas, base, symbols, i);
}

/// How a pass over the relocation table ended, short of an error.
#[derive(Debug)]
pub enum RelocationOutcome {
    /// Every record from the starting index on has been applied.
    Complete,
    /// The pass stopped at the `IRELATIVE` record at `index`: the caller
    /// must call the resolver at address `resolver` (an indirect call
    /// into the image, outside this model), store the word it returns at
    /// image offset `target`, and resume the pass at `index + 1`.
    NeedsResolver { index: usize, resolver: u64, target: u64 },
}

/// Applies the records with indices `start..` against the image, in table
/// order, stopping at an `IRELATIVE` record. The image base is B.
pub fn apply_relocations_from(
    image: &mut MemoryImage,
    relas: &Vec<Rela>,
    symbols: &Vec<Symbol>,
    start: usize,
) -> (r: Result<RelocationOutcome, BootstrapError>)
    requires
        start <= relas@.len(),
    ensures
        final(image).base == old(image).base,
        final(image).spec_len() == old(image).spec_len(),
        match r {
            Ok(RelocationOutcome::Complete) => {
                &&& final(image).bytes@ == spec_apply_range(
                    old(image).bytes@,
                    relas@,
                    old(image).base,
                    symbols@,
                    start as int,
                    relas@.len() as int,
                )
                &&& forall|j: int|
                    start <= j < relas@.len() ==> spec_rela_applies(
                        #[trigger] relas@[j],
                        old(image).spec_len(),
                        symbols@,
                    )
            },
            Ok(RelocationOutcome::NeedsResolver { index, resolver, target }) => {
                &&& start <= index < relas@.len()
                &&& spec_r_type(relas@[index as int].r_info) == R_X86_64_IRELATIVE
                &&& resolver == u64_specs::wrapping_add_signed(
                    old(image).base,
                    relas@[index as int].r_addend,
                )
                &&& target == relas@[index as int].r_offset
                &&& final(image).bytes@ == spec_apply_range(
                    old(image).bytes@,
                    relas@,
                    old(image).base,
                    symbols@,
                    start as int,
                    index as int,
                )
                &&& forall|j: int|
                    start <= j < index ==> spec_rela_applies(
                        #[trigger] relas@[j],
                        old(image).spec_len(),
                        symbols@,
                    )
            },
            Err(e) => {
                exists|index: usize|
                    {
                        &&& start <= index < relas@.len()
                        &&& final(image).bytes@ == spec_apply_range(
                            old(image).bytes@,
                            relas@,
                            old(image).base,
                            symbols@,
                            start as int,
                            index as int,
                        )
                        &&& forall|j: int|
                            start <= j < index ==> spec_rela_applies(
                                #[trigger] relas@[j],
                                old(image).spec_len(),
                                symbols@,
                            )
                        &&& {
                            let t = spec_r_type(relas@[index as int].r_info);
                            match e {
                                BootstrapError::UnsupportedRelocation { index: ei, r_type } => {
                                    &&& ei == index
                                    &&& r_type == t
                                    &&& !spec_supported(t)
                                },
                                BootstrapError::RelocationOutOfBounds { index: ei } => {
                                    &&& ei == index
                                    &&& spec_direct_store(t)
                                    &&& relas@[index as int].r_offset + 8 > old(
                                        image,
                                    ).spec_len()
                                },
                                BootstrapError::SymbolIndexOutOfRange { index: ei } => {
                                    &&& ei == index
                                    &&& spec_uses_symbol(t)
                                    &&& relas@[index as int].r_offset + 8 <= old(
                                        image,
                                    ).spec_len()
                                    &&& spec_r_sym(relas@[index as int].r_info)
                                        >= symbols@.len()
                                },
                                _ => false,
                            }
                        }
                    }
            },
        },
{
    let base = image.base;
    let table_len = relas.len();
    let mut i: usize = start;
    while i < table_len
        invariant
            start <= i <= table_len,
            table_len == relas@.len(),
            base == old(image).base,
            image.base == old(image).base,
            image.spec_len() == old(image).spec_len(),
            image.bytes@ == spec_apply_range(
                old(image).bytes@,
                relas@,
                base,
                symbols@,
                start as int,
                i as int,
            ),
            forall|j: int|
                start <= j < i ==> spec_rela_applies(
                    #[trigger] relas@[j],
                    old(image).spec_len(),
                    symbols@,
                ),
        decreases table_len - i,
    {
        let r = relas[i];
        let t = r.r_type();
        proof {
            lemma_apply_range_snoc(
                old(image).bytes@,
                relas@,
                base,
                symbols@,
                start as int,
                i as int,
            );
        }
        if t == R_X86_64_NONE {
            // nothing stored; memory is unchanged
        } else if t == R_X86_64_RELATIVE || t == R_X86_64_64 || t == R_X86_64_GLOB_DAT || t
            == R_X86_64_JUMP_SLOT {
            if r.r_offset > u64::MAX - 8 || r.r_offset + 8 > image.len() as u64 {
                return Err(BootstrapError::RelocationOutOfBounds { index: i });
            }
            let value: u64;
            if t == R_X86_64_RELATIVE {
                value = base.wrapping_add_signed(r.r_addend);
            } else {
                let sym_index = r.r_sym() as usize;
                if sym_index >= symbols.len() {
                    return Err(BootstrapError::SymbolIndexOutOfRange { index: i });
                }
                let sym = symbols[sym_index];
                if t == R_X86_64_64 {
                    value = sym.st_value.wrapping_add(base).wrapping_add_signed(r.r_addend);
                } else {
                    value = sym.st_value.wrapping_add(base);
                }
            }
            let ghost bytes_before = image.bytes@;
            image.store_word_at_offset(r.r_offset, value);
            proof {
                lemma_store_word_len(bytes_before, r.r_offset as int, value);
                assert(value == spec_rela_value(relas@[i as int], base, symbols@));
                assert(spec_rela_fits(relas@[i as int], bytes_before.len() as int, symbols@));
                assert(image.bytes@ == spec_apply_one(bytes_before, relas@[i as int], base, symbols@));
            }
        } else if t == R_X86_64_IRELATIVE {
            return Ok(
                RelocationOutcome::NeedsResolver {
                    index: i,
                    resolver: base.wrapping_add_signed(r.r_addend),
                    target: r.r_offset,
                },
            );
        } else {
            return Err(BootstrapError::UnsupportedRelocation { index: i, r_type: t });
        }
        i += 1;
    }
    Ok(RelocationOutcome::Complete)
}

/// Applies a relocatable object's whole RELA table against the image, in
/// table order, stopping at an `IRELATIVE` record as
/// [`apply_relocations_from`] describes.
pub fn relocate<T: Relocatable>(object: &T, image: &mut MemoryImage) -> (r: Result<
    RelocationOutcome,
    BootstrapError,
>)
    requires
        object.spec_base() == old(image).base,
    ensures
        final(image).base == old(image).base,
        final(image).spec_len() == old(image).spec_len(),
        match r {
            Ok(RelocationOutcome::Complete) => {
                &&& final(image).bytes@ == spec_apply_range(
                    old(image).bytes@,
                    object.spec_relas(),
                    old(image).base,
                    object.spec_symbols(),
                    0,
                    object.spec_relas().len() as int,
                )
                &&& forall|j: int|
                    0 <= j < object.spec_relas().len() ==> spec_rela_applies(
                        #[trigger] object.spec_relas()[j],
                        old(image).spec_len(),
                        object.spec_symbols(),
                    )
            },
            Ok(RelocationOutcome::NeedsResolver { index, resolver, target }) => {
                &&& index < object.spec_relas().len()
                &&& spec_r_type(object.spec_relas()[index as int].r_info)
                    == R_X86_64_IRELATIVE
                &&& resolver == u64_specs::wrapping_add_signed(
                    old(image).base,
                    object.spec_relas()[index as int].r_addend,
                )
                &&& target == object.spec_relas()[index as int].r_offset
                &&& final(image).bytes@ == spec_apply_range(
                    old(image).bytes@,
                    object.spec_relas(),
                    old(image).base,
                    object.spec_symbols(),
                    0,
                    index as int,
                )
                &&& forall|j: int|
                    0 <= j < index ==> spec_rela_applies(
                        #[trigger] object.spec_relas()[j],
                        old(image).spec_len(),
                        object.spec_symbols(),
                    )
            },
            Err(e) => {
                exists|index: usize|
                    {
                        &&& index < object.spec_relas().len()
                        &&& final(image).bytes@ == spec_apply_range(
                            old(image).bytes@,
                            object.spec_relas(),
                            old(image).base,
                            object.spec_symbols(),
                            0,
                            index as int,
                        )
                        &&& {
                            let t = spec_r_type(object.spec_relas()[index as int].r_info);
                            match e {
                                BootstrapError::UnsupportedRelocation { index: ei, r_type } => {
                                    &&& ei == index
                                    &&& r_type == t
                                    &&& !spec_supported(t)
                                },
                                BootstrapError::RelocationOutOfBounds { index: ei } => {
                                    &&& ei == index
                                    &&& spec_direct_store(t)
                                    &&& object.spec_relas()[index as int].r_offset + 8 > old(
                                        image,
                                    ).spec_len()
                                },
                                BootstrapError::SymbolIndexOutOfRange { index: ei } => {
                                    &&& ei == index
                                    &&& spec_uses_symbol(t)
                                    &&& spec_r_sym(object.spec_relas()[index as int].r_info)
                                        >= object.spec_symbols().len()
                                },
                                _ => false,
                            }
                        }
                    }
            },
        },
{
    let slices = object.relocation_slices();
    let symbols = object.symbol_table();
    apply_relocations_from(image, &slices.rela_slice, &symbols.symbols, 0)
}

} // verus!
