//! The runtime's earliest self-relocation pass.
//!
//! Before anything else can run, the runtime walks its own program
//! headers, finds the dynamic array, and applies the `R_X86_64_RELATIVE`
//! records of its RELA table — the only kind its own link step emits.
//! Records of any other type are left untouched by this pass; the full
//! relocator handles them later for loaded objects.

use vstd::prelude::*;
use vstd::wrapping::u64_specs;
use crate::bytes::store_word_seq;
use crate::image::MemoryImage;
use crate::elf::dynamic_array::{DT_RELA, DT_RELASZ, DT_TEXTREL, read_dynamic_entries, find_dynamic_value, check_no_text_relocations, spec_dynamic_entries, spec_last_tag_value};
use crate::elf::program_header::{ProgramHeader, PT_DYNAMIC, spec_find_first, find_first_program_header};
use crate::elf::relocate::{Rela, RELA_RECORD_SIZE, read_rela_table, spec_rela_table, spec_r_type};
use crate::relocator::R_X86_64_RELATIVE;
use crate::static_pie::spec_build_error;
use crate::errors::BootstrapError;

verus! {

/// Memory after one record of the relative-only pass: a `RELATIVE`
/// record whose target lies inside the image stores B + A; every other
/// record leaves memory unchanged.
pub open spec fn spec_apply_relative_one(s: Seq<u8>, r: Rela, base: u64) -> Seq<u8> {
    if spec_r_type(r.r_info) == R_X86_64_RELATIVE && r.r_offset + 8 <= s.len() {
        store_word_seq(s, r.r_offset as int, u64_specs::wrapping_add_signed(base, r.r_addend))
    } else {
        s
    }
}

/// Memory after the relative-only pass over the records with indices in
/// `[from, to)`, in table order.
pub open spec fn spec_apply_relative_range(
    s: Seq<u8>,
    relas: Seq<Rela>,
    base: u64,
    from: int,
    to: int,
) -> Seq<u8>
    decreases to - from,
{
    if from >= to {
        s
    } else {
        spec_apply_relative_range(
            spec_apply_relative_one(s, relas[from], base),
            relas,
            base,
            from + 1,
            to,
        )
    }
}

/// Extending the relative-only pass by its next record applies that
/// record to the pass's result.
proof fn lemma_apply_relative_range_snoc(
    s: Seq<u8>,
    relas: Seq<Rela>,
    base: u64,
    from: int,
    to: int,
)
    requires
        0 <= from <= to < relas.len(),
    ensures
        spec_apply_relative_range(s, relas, base, from, to + 1) == spec_apply_relative_one(
            spec_apply_relative_range(s, relas, base, from, to),
            relas[to],
            base,
        ),
    decreases to - from,
{
    let stepped = spec_apply_relative_one(s, relas[from], base);
    if from < to {
        lemma_apply_relative_range_snoc(stepped, relas, base, from + 1, to);
    } else {
        assert(spec_apply_relative_range(stepped, relas, base, from + 1, to + 1) == stepped);
        assert(spec_apply_relative_range(s, relas, base, from, to) == s);
    }
}

/// Relocates the runtime's own image: finds the dynamic array through
/// the first `PT_DYNAMIC` header, reads the RELA table it names, and
/// applies the `RELATIVE` records in table order.
pub fn relocate_linker(image: &mut MemoryImage, program_header_table: &Vec<ProgramHeader>) -> (r:
    Result<(), BootstrapError>)
    ensures
        final(image).base == old(image).base,
        final(image).spec_len() == old(image).spec_len(),
        match r {
            Ok(()) => {
                let dynamic = spec_find_first(program_header_table@, PT_DYNAMIC);
                &&& dynamic is Some
                &&& {
                    let entries = spec_dynamic_entries(
                        old(image).bytes@,
                        dynamic.unwrap().p_vaddr as int,
                    );
                    &&& entries is Some
                    &&& {
                        let rela_address = spec_last_tag_value(entries.unwrap(), DT_RELA);
                        let rela_size = spec_last_tag_value(entries.unwrap(), DT_RELASZ);
                        let count = match rela_size {
                            Some(sz) => sz / RELA_RECORD_SIZE,
                            None => 0,
                        };
                        &&& (count > 0 ==> rela_address is Some)
                        &&& final(image).bytes@ == spec_apply_relative_range(
                            old(image).bytes@,
                            spec_rela_table(
                                old(image).bytes@,
                                match rela_address {
                                    Some(a) => a as int,
                                    None => 0,
                                },
                                count as int,
                            ),
                            old(image).base,
                            0,
                            count as int,
                        )
                    }
                }
            },
            Err(e) => {
                &&& final(image).bytes@ == old(image).bytes@
                &&& match e {
                    BootstrapError::MissingDynamicHeader => spec_find_first(
                        program_header_table@,
                        PT_DYNAMIC,
                    ) is None,
                    BootstrapError::TextRelocationsPresent => spec_find_first(
                        program_header_table@,
                        PT_DYNAMIC,
                    ) matches Some(d) && spec_dynamic_entries(
                        old(image).bytes@,
                        d.p_vaddr as int,
                    ) matches Some(en) && exists|j: int|
                        0 <= j < en.len() && (#[trigger] en[j]).d_tag == DT_TEXTREL,
                    _ => spec_find_first(program_header_table@, PT_DYNAMIC) matches Some(d)
                        && spec_build_error(e, old(image).bytes@, d.p_vaddr as int),
                }
            },
        },
{
    let dynamic = match find_first_program_header(program_header_table, PT_DYNAMIC) {
        Some(h) => h,
        None => {
            return Err(BootstrapError::MissingDynamicHeader);
        },
    };
    let entries = match read_dynamic_entries(image, dynamic.p_vaddr) {
        Ok(items) => items,
        Err(e) => {
            return Err(e);
        },
    };
    match check_no_text_relocations(&entries) {
        Ok(()) => (),
        Err(e) => {
            return Err(e);
        },
    }
    let rela_address = find_dynamic_value(&entries, DT_RELA);
    let rela_size = find_dynamic_value(&entries, DT_RELASZ);
    let count = match rela_size {
        Some(sz) => sz / RELA_RECORD_SIZE,
        None => 0,
    };
    if count == 0 {
        return Ok(());
    }
    let rela_offset = match rela_address {
        Some(a) => a,
        None => {
            return Err(BootstrapError::MissingRelaTable);
        },
    };
    let relas = match read_rela_table(image, rela_offset, count) {
        Ok(relas) => relas,
        Err(e) => {
            return Err(e);
        },
    };
    let ghost bytes_at_read = image.bytes@;
    let base = image.base;
    let mut i: usize = 0;
    let table_len = relas.len();
    while i < table_len
        invariant
            0 <= i <= table_len,
            table_len == relas@.len(),
            image.base == old(image).base,
            base == old(image).base,
            image.spec_len() == old(image).spec_len(),
            bytes_at_read == old(image).bytes@,
            image.bytes@ == spec_apply_relative_range(bytes_at_read, relas@, base, 0, i as int),
        decreases table_len - i,
    {
        let r = relas[i];
        let t = r.r_type();
        proof {
            lemma_apply_relative_range_snoc(bytes_at_read, relas@, base, 0, i as int);
        }
        if t == R_X86_64_RELATIVE {
            if r.r_offset <= u64::MAX - 8 && r.r_offset + 8 <= image.len() as u64 {
                let value = base.wrapping_add_signed(r.r_addend);
                let ghost bytes_before = image.bytes@;
                image.store_word_at_offset(r.r_offset, value);
                proof {
                    crate::bytes::lemma_store_word_len(bytes_before, r.r_offset as int, value);
                }
            }
        }
        i += 1;
    }
    Ok(())
}

} // verus!
