//! The entry path's decision core.
//!
//! The entry stub hands the raw stack pointer to the runtime, which must
//! decode the startup context, gather the auxiliary values, and assemble
//! its own descriptor: from the executable's program-header slice when
//! `AT_BASE` is null (the runtime is itself a static PIE), else from the
//! load address `AT_BASE` names. What follows — applying the relocations
//! and installing TLS — continues on the descriptor's own typed methods,
//! so that each step can only run after the one before it.

use vstd::prelude::*;
use crate::image::MemoryImage;
use crate::elf::header::spec_elf_header;
use crate::elf::program_header::{PROGRAM_HEADER_SIZE, PT_DYNAMIC, PT_PHDR, PT_TLS, spec_program_header_table, spec_find_last};
use crate::linux::startup::{StartupContext, spec_context_complete};
use crate::linux::auxiliary_vector::{AuxiliaryValues, spec_aux_field, spec_auxiliary_entries, spec_find_zero_word, AT_BASE, AT_PAGE_SIZE, AT_RANDOM, AT_PHDR, AT_PHENT, AT_PHNUM};
use vstd::wrapping::u64_specs;
use crate::static_pie::{StaticPie, Ingredients, spec_pie_matches, spec_build_error, spec_from_base_error};
use crate::errors::BootstrapError;

verus! {

/// The auxiliary entries of a decoded startup context.
pub open spec fn spec_context_entries(words: Seq<u64>) -> Seq<
    crate::linux::auxiliary_vector::AuxiliaryVectorItem,
> {
    spec_auxiliary_entries(
        words,
        spec_find_zero_word(words, words[0] + 2).unwrap() + 1,
    ).unwrap()
}

/// Decodes the startup context and assembles the runtime's own
/// descriptor, ready for relocation.
///
/// With a null `AT_BASE` the runtime is the executable: its program
/// headers are the slice `AT_PHDR` names inside the image, and the base
/// is recovered from `PT_PHDR`. Otherwise `AT_BASE` is the base and the
/// ELF header at it locates everything else.
pub fn gather_ingredients(
    image: &MemoryImage,
    stack_words: &Vec<u64>,
    stack_pointer: u64,
) -> (r: Result<(StaticPie<Ingredients>, AuxiliaryValues), BootstrapError>)
    ensures
        match r {
            Ok((pie, aux)) => {
                let entries = spec_context_entries(stack_words@);
                &&& stack_pointer % 16 == 0
                &&& spec_context_complete(stack_words@)
                &&& aux.base == spec_aux_field(entries, AT_BASE)
                &&& aux.page_size == spec_aux_field(entries, AT_PAGE_SIZE)
                &&& aux.random == spec_aux_field(entries, AT_RANDOM)
                &&& aux.program_header_pointer == spec_aux_field(entries, AT_PHDR)
                &&& aux.program_header_count == spec_aux_field(entries, AT_PHNUM)
                &&& pie.wf()
                &&& pie.base_address == image.base
                &&& (aux.base != 0 ==> aux.base == image.base)
                &&& {
                    let table = if spec_aux_field(entries, AT_BASE) == 0 {
                        spec_program_header_table(
                            image.bytes@,
                            spec_aux_field(entries, AT_PHDR) - image.base,
                            spec_aux_field(entries, AT_PHNUM) as int,
                        )
                    } else {
                        spec_program_header_table(
                            image.bytes@,
                            spec_elf_header(image.bytes@).e_phoff as int,
                            spec_elf_header(image.bytes@).e_phnum as int,
                        )
                    };
                    &&& spec_find_last(table, PT_DYNAMIC) is Some
                    &&& spec_pie_matches(
                        pie,
                        image.bytes@,
                        image.base,
                        spec_find_last(table, PT_DYNAMIC).unwrap().p_vaddr as int,
                        spec_find_last(table, PT_TLS),
                    )
                }
            },
            Err(BootstrapError::MisalignedStackPointer) => stack_pointer % 16 != 0,
            Err(BootstrapError::MissingArgumentTerminator) => {
                &&& stack_pointer % 16 == 0
                &&& stack_words@.len() >= 2
                &&& stack_words@[0] + 2 <= stack_words@.len()
                &&& stack_words@[1 + stack_words@[0]] != 0
            },
            Err(BootstrapError::TruncatedStartupContext) => {
                &&& stack_pointer % 16 == 0
                &&& {
                    ||| !spec_context_complete(stack_words@)
                    ||| (spec_context_complete(stack_words@) && spec_aux_field(
                        spec_context_entries(stack_words@),
                        AT_BASE,
                    ) == 0 && spec_aux_field(spec_context_entries(stack_words@), AT_PHNUM)
                        > 0xFFFF)
                }
            },
            Err(e) => {
                let entries = spec_context_entries(stack_words@);
                let aux_base = spec_aux_field(entries, AT_BASE);
                &&& stack_pointer % 16 == 0
                &&& spec_context_complete(stack_words@)
                &&& if aux_base == 0 {
                    let phdr = spec_aux_field(entries, AT_PHDR);
                    let phnum = spec_aux_field(entries, AT_PHNUM);
                    let phent = spec_aux_field(entries, AT_PHENT);
                    let table = spec_program_header_table(
                        image.bytes@,
                        phdr - image.base,
                        phnum as int,
                    );
                    match e {
                        BootstrapError::ProgramHeaderSizeMismatch => phent != 0 && phent
                            != PROGRAM_HEADER_SIZE,
                        BootstrapError::TruncatedImage => {
                            ||| phdr < image.base
                            ||| phdr - image.base + PROGRAM_HEADER_SIZE * phnum
                                > image.spec_len()
                            ||| (spec_find_last(table, PT_DYNAMIC) matches Some(d)
                                && spec_build_error(e, image.bytes@, d.p_vaddr as int))
                        },
                        BootstrapError::InconsistentImageBase => {
                            match spec_find_last(table, PT_PHDR) {
                                Some(p) => u64_specs::wrapping_sub(phdr, p.p_vaddr)
                                    != image.base,
                                None => image.base != 0,
                            }
                        },
                        BootstrapError::MissingDynamicHeader => spec_find_last(
                            table,
                            PT_DYNAMIC,
                        ) is None,
                        _ => spec_find_last(table, PT_DYNAMIC) matches Some(d)
                            && spec_build_error(e, image.bytes@, d.p_vaddr as int),
                    }
                } else {
                    match e {
                        BootstrapError::InconsistentImageBase => aux_base != image.base,
                        _ => spec_from_base_error(e, image.bytes@),
                    }
                }
            },
        },
{
    let context = match StartupContext::decode(stack_words, stack_pointer) {
        Ok(c) => c,
        Err(e) => {
            return Err(e);
        },
    };
    let aux = AuxiliaryValues::gather(&context.auxiliary_entries);

    let pie: StaticPie<Ingredients>;
    if aux.base == 0 {
        // The executable's program headers lie inside our own image.
        if aux.program_header_entry_size != 0 && aux.program_header_entry_size
            != PROGRAM_HEADER_SIZE {
            return Err(BootstrapError::ProgramHeaderSizeMismatch);
        }
        if aux.program_header_pointer < image.base {
            return Err(BootstrapError::TruncatedImage);
        }
        let table_offset = aux.program_header_pointer - image.base;
        if aux.program_header_count > 0xFFFF {
            return Err(BootstrapError::TruncatedStartupContext);
        }
        let table = match crate::elf::program_header::read_program_header_table(
            image,
            table_offset,
            aux.program_header_count as u16,
        ) {
            Ok(t) => t,
            Err(e) => {
                return Err(e);
            },
        };
        pie = match StaticPie::from_program_headers(
            image,
            &table,
            aux.program_header_pointer,
        ) {
            Ok(p) => p,
            Err(e) => {
                return Err(e);
            },
        };
    } else {
        if aux.base != image.base {
            return Err(BootstrapError::InconsistentImageBase);
        }
        pie = match StaticPie::from_base(image) {
            Ok(p) => p,
            Err(e) => {
                return Err(e);
            },
        };
    }
    Ok((pie, aux))
}

} // verus!
