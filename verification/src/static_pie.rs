//! The runtime as a statically relocatable position-independent
//! executable.
//!
//! A `StaticPie` gathers what self-relocation needs: the image base, the
//! RELA table, and the optional TLS template header. Its phantom state
//! parameter enforces the bootstrap's ordering: only
//! relocation turns `Ingredients` into `Baked`, and only a `Baked` value
//! can initialize thread-local storage, so TLS cannot be set up before
//! the image is relocated.

use vstd::prelude::*;
use core::marker::PhantomData;
use vstd::wrapping::u64_specs;
use crate::bytes::word_at;
use crate::image::MemoryImage;
use crate::elf::header::{ET_DYN, ELF_HEADER_SIZE, spec_elf_header, read_elf_header};
use crate::elf::program_header::{ProgramHeader, PROGRAM_HEADER_SIZE, PT_DYNAMIC, PT_PHDR, PT_TLS, spec_program_header_table, spec_find_last, read_program_header_table, find_program_header};
use crate::elf::dynamic_array::{DT_RELA, DT_RELASZ, DT_RELAENT, DT_SYMENT, spec_dynamic_entries, spec_last_tag_value, read_dynamic_entries, find_dynamic_value, check_entry_sizes};
use crate::elf::relocate::{Rela, Relocatable, RelocationSlices, RELA_RECORD_SIZE, spec_rela_table, read_rela_table, spec_r_type};
use crate::elf::symbol::{Symbol, SymbolTable};
use crate::elf::thread_local_storage::TCB_SIZE;
use crate::linux::page_size::{spec_is_power_of_two, spec_round_up, get_page_end};
use crate::thread_local_storage::{TlsRegion, spec_tcb_and_tls_align, spec_tls_block, initialize_thread_local_storage};
use crate::relocator::{RelocationOutcome, apply_relocations_from, spec_apply_range, spec_rela_applies, R_X86_64_IRELATIVE};
use crate::errors::BootstrapError;

verus! {

/// Rounds `address` up to the next multiple of `boundary`.
pub fn round_up_to_boundary(address: u64, boundary: u64) -> (r: u64)
    requires
        spec_is_power_of_two(boundary),
        address + boundary - 1 <= u64::MAX,
    ensures
        r == spec_round_up(address as int, boundary as int),
        r % boundary == 0,
        address <= r < address + boundary,
{
    get_page_end(address, boundary)
}

/// State of a `StaticPie` before its relocations are applied.
pub struct Ingredients;

/// State of a `StaticPie` after its relocations are applied.
pub struct Baked;

/// A statically relocatable position-independent executable: what the
/// runtime knows of its own image while it bootstraps itself.
pub struct StaticPie<T> {
    /// The image's load address.
    pub base_address: u64,
    /// The image's RELA records.
    pub relocation_slices: RelocationSlices,
    /// The `PT_TLS` header naming the TLS template, if the image has one.
    pub tls_program_header: Option<ProgramHeader>,
    /// The image's symbol table. A static PIE relocates itself without
    /// one: any record naming a symbol is a fatal error.
    pub symbol_table: SymbolTable,
    /// The bootstrap state: `Ingredients` before relocation, `Baked`
    /// after.
    pub phantom_data: PhantomData<T>,
}

impl<T> StaticPie<T> {
    /// A static PIE carries no symbols.
    pub open spec fn wf(&self) -> bool {
        self.symbol_table.symbols@.len() == 0
    }
}

impl Relocatable for StaticPie<Ingredients> {
    open spec fn spec_base(&self) -> u64 {
        self.base_address
    }

    open spec fn spec_symbols(&self) -> Seq<Symbol> {
        self.symbol_table.symbols@
    }

    open spec fn spec_relas(&self) -> Seq<Rela> {
        self.relocation_slices.rela_slice@
    }

    fn base(&self) -> u64 {
        self.base_address
    }

    fn symbol(&self, index: usize) -> Option<Symbol> {
        self.symbol_table.get(index)
    }

    fn relocation_slices(&self) -> &RelocationSlices {
        &self.relocation_slices
    }

    fn symbol_table(&self) -> &SymbolTable {
        &self.symbol_table
    }
}

/// What descriptor assembly reads out of the image once the dynamic
/// array at `dynamic_vaddr` is in hand: where the RELA table lies and
/// how many records it holds.
pub open spec fn spec_rela_location(bytes: Seq<u8>, dynamic_vaddr: int) -> (Option<u64>, int) {
    let entries = spec_dynamic_entries(bytes, dynamic_vaddr).unwrap();
    let rela_address = spec_last_tag_value(entries, DT_RELA);
    let count: int = match spec_last_tag_value(entries, DT_RELASZ) {
        Some(sz) => (sz as int) / (RELA_RECORD_SIZE as int),
        None => 0,
    };
    (rela_address, count)
}

/// The descriptor that assembly leaves in hand for an image whose
/// dynamic array lies at `dynamic_vaddr`: the image's base, the RELA
/// table the dynamic array names, the given TLS header, and no symbols.
pub open spec fn spec_pie_matches(
    pie: StaticPie<Ingredients>,
    bytes: Seq<u8>,
    base: u64,
    dynamic_vaddr: int,
    tls: Option<ProgramHeader>,
) -> bool {
    let loc = spec_rela_location(bytes, dynamic_vaddr);
    &&& spec_dynamic_entries(bytes, dynamic_vaddr) is Some
    &&& pie.wf()
    &&& pie.base_address == base
    &&& pie.tls_program_header == tls
    &&& (loc.1 > 0 ==> loc.0 is Some)
    &&& pie.relocation_slices.rela_slice@ == spec_rela_table(
        bytes,
        match loc.0 {
            Some(a) => a as int,
            None => 0,
        },
        if loc.0 is Some {
            loc.1
        } else {
            0
        },
    )
}

/// The defect behind each failure of descriptor assembly at the dynamic
/// array `dynamic_vaddr` names. Each error can be returned only when its
/// condition holds of the image.
pub open spec fn spec_build_error(e: BootstrapError, bytes: Seq<u8>, dynamic_vaddr: int) -> bool {
    let entries = spec_dynamic_entries(bytes, dynamic_vaddr);
    let loc = spec_rela_location(bytes, dynamic_vaddr);
    match e {
        BootstrapError::UnterminatedDynamicArray => entries is None,
        BootstrapError::RelaEntrySizeMismatch => {
            &&& entries is Some
            &&& exists|j: int|
                0 <= j < entries.unwrap().len() && (#[trigger] entries.unwrap()[j]).d_tag
                    == DT_RELAENT && entries.unwrap()[j].d_val != 24
        },
        BootstrapError::SymbolEntrySizeMismatch => {
            &&& entries is Some
            &&& exists|j: int|
                0 <= j < entries.unwrap().len() && (#[trigger] entries.unwrap()[j]).d_tag
                    == DT_SYMENT && entries.unwrap()[j].d_val != 24
        },
        BootstrapError::MissingRelaTable => loc.1 > 0 && loc.0 is None,
        BootstrapError::TruncatedImage => loc.0 is Some && loc.0.unwrap() + RELA_RECORD_SIZE
            * loc.1 > bytes.len(),
        _ => false,
    }
}

/// The defect behind each failure of assembling the descriptor from the
/// ELF header at the image base.
pub open spec fn spec_from_base_error(e: BootstrapError, bytes: Seq<u8>) -> bool {
    let header = spec_elf_header(bytes);
    let table = spec_program_header_table(bytes, header.e_phoff as int, header.e_phnum as int);
    match e {
        BootstrapError::NotSharedObject => bytes.len() >= ELF_HEADER_SIZE && header.e_type
            != ET_DYN,
        BootstrapError::ProgramHeaderSizeMismatch => bytes.len() >= ELF_HEADER_SIZE
            && header.e_phentsize != PROGRAM_HEADER_SIZE,
        BootstrapError::MissingDynamicHeader => spec_find_last(table, PT_DYNAMIC) is None,
        BootstrapError::TruncatedImage => {
            ||| bytes.len() < ELF_HEADER_SIZE
            ||| header.e_phoff + PROGRAM_HEADER_SIZE * header.e_phnum > bytes.len()
            ||| (spec_find_last(table, PT_DYNAMIC) matches Some(d) && spec_build_error(
                e,
                bytes,
                d.p_vaddr as int,
            ))
        },
        _ => spec_find_last(table, PT_DYNAMIC) matches Some(d) && spec_build_error(
            e,
            bytes,
            d.p_vaddr as int,
        ),
    }
}

impl StaticPie<Ingredients> {
    /// Assembles the descriptor once the dynamic array's location is
    /// known: gathers `DT_RELA` and `DT_RELASZ`, checks the declared
    /// entry sizes, and reads the RELA table out of the image.
    pub fn build(
        image: &MemoryImage,
        dynamic_program_header: &ProgramHeader,
        tls_program_header: Option<ProgramHeader>,
    ) -> (r: Result<StaticPie<Ingredients>, BootstrapError>)
        ensures
            match r {
                Ok(pie) => spec_pie_matches(
                    pie,
                    image.bytes@,
                    image.base,
                    dynamic_program_header.p_vaddr as int,
                    tls_program_header,
                ),
                Err(e) => spec_build_error(
                    e,
                    image.bytes@,
                    dynamic_program_header.p_vaddr as int,
                ),
            },
    {
        let entries = match read_dynamic_entries(image, dynamic_program_header.p_vaddr) {
            Ok(items) => items,
            Err(e) => {
                return Err(e);
            },
        };
        match check_entry_sizes(&entries) {
            Ok(()) => (),
            Err(e) => {
                return Err(e);
            },
        }
        let rela_address = find_dynamic_value(&entries, DT_RELA);
        let rela_size = find_dynamic_value(&entries, DT_RELASZ);
        let count = match rela_size {
            Some(sz) => sz / RELA_RECORD_SIZE,
            None => 0,
        };
        let rela_slice: Vec<Rela>;
        match rela_address {
            Some(a) => {
                rela_slice = match read_rela_table(image, a, count) {
                    Ok(relas) => relas,
                    Err(e) => {
                        return Err(e);
                    },
                };
            },
            None => {
                if count > 0 {
                    return Err(BootstrapError::MissingRelaTable);
                }
                rela_slice = Vec::new();
                proof {
                    assert(rela_slice@ =~= spec_rela_table(image.bytes@, 0, 0));
                }
            },
        }
        Ok(
            StaticPie {
                base_address: image.base,
                relocation_slices: RelocationSlices { rela_slice },
                tls_program_header,
                symbol_table: SymbolTable::new(Vec::new()),
                phantom_data: PhantomData,
            },
        )
    }

    /// Builds the descriptor from the image's own ELF header: reads the
    /// header at the base, walks the program-header table it names, and
    /// picks out `PT_DYNAMIC` and `PT_TLS`.
    pub fn from_base(image: &MemoryImage) -> (r: Result<StaticPie<Ingredients>, BootstrapError>)
        ensures
            match r {
                Ok(pie) => {
                    let header = spec_elf_header(image.bytes@);
                    let table = spec_program_header_table(
                        image.bytes@,
                        header.e_phoff as int,
                        header.e_phnum as int,
                    );
                    &&& image.spec_len() >= ELF_HEADER_SIZE
                    &&& header.e_type == ET_DYN
                    &&& header.e_phentsize == PROGRAM_HEADER_SIZE
                    &&& spec_find_last(table, PT_DYNAMIC) is Some
                    &&& spec_pie_matches(
                        pie,
                        image.bytes@,
                        image.base,
                        spec_find_last(table, PT_DYNAMIC).unwrap().p_vaddr as int,
                        spec_find_last(table, PT_TLS),
                    )
                },
                Err(e) => spec_from_base_error(e, image.bytes@),
            },
    {
        let header = match read_elf_header(image) {
            Ok(h) => h,
            Err(e) => {
                return Err(e);
            },
        };
        if header.e_type != ET_DYN {
            return Err(BootstrapError::NotSharedObject);
        }
        if header.e_phentsize != 56 {
            return Err(BootstrapError::ProgramHeaderSizeMismatch);
        }
        let table = match read_program_header_table(image, header.e_phoff, header.e_phnum) {
            Ok(t) => t,
            Err(e) => {
                return Err(e);
            },
        };
        let dynamic = match find_program_header(&table, PT_DYNAMIC) {
            Some(h) => h,
            None => {
                return Err(BootstrapError::MissingDynamicHeader);
            },
        };
        let tls = find_program_header(&table, PT_TLS);
        Self::build(image, &dynamic, tls)
    }

    /// Builds the descriptor from the executable's program-header slice,
    /// used when the runtime is itself the executable and `AT_BASE` is
    /// null: the image base is recovered as the table's address minus
    /// `PT_PHDR`'s `p_vaddr`, and must name the mapped image.
    pub fn from_program_headers(
        image: &MemoryImage,
        program_header_table: &Vec<ProgramHeader>,
        program_header_address: u64,
    ) -> (r: Result<StaticPie<Ingredients>, BootstrapError>)
        ensures
            match r {
                Ok(pie) => {
                    &&& match spec_find_last(program_header_table@, PT_PHDR) {
                        Some(phdr) => u64_specs::wrapping_sub(
                            program_header_address,
                            phdr.p_vaddr,
                        ) == image.base,
                        None => image.base == 0,
                    }
                    &&& spec_find_last(program_header_table@, PT_DYNAMIC) is Some
                    &&& spec_pie_matches(
                        pie,
                        image.bytes@,
                        image.base,
                        spec_find_last(program_header_table@, PT_DYNAMIC).unwrap().p_vaddr as int,
                        spec_find_last(program_header_table@, PT_TLS),
                    )
                },
                Err(BootstrapError::MissingDynamicHeader) => spec_find_last(
                    program_header_table@,
                    PT_DYNAMIC,
                ) is None,
                Err(BootstrapError::InconsistentImageBase) => {
                    match spec_find_last(program_header_table@, PT_PHDR) {
                        Some(phdr) => u64_specs::wrapping_sub(
                            program_header_address,
                            phdr.p_vaddr,
                        ) != image.base,
                        None => image.base != 0,
                    }
                },
                Err(e) => spec_find_last(program_header_table@, PT_DYNAMIC) matches Some(d)
                    && spec_build_error(e, image.bytes@, d.p_vaddr as int),
            },
    {
        let base: u64 = match find_program_header(program_header_table, PT_PHDR) {
            Some(phdr) => program_header_address.wrapping_sub(phdr.p_vaddr),
            None => 0,
        };
        if base != image.base {
            return Err(BootstrapError::InconsistentImageBase);
        }
        let dynamic = match find_program_header(program_header_table, PT_DYNAMIC) {
            Some(h) => h,
            None => {
                return Err(BootstrapError::MissingDynamicHeader);
            },
        };
        let tls = find_program_header(program_header_table, PT_TLS);
        Self::build(image, &dynamic, tls)
    }
}

/// How a relocation pass over a `StaticPie` ended: fully baked, or
/// paused at an `IRELATIVE` record whose resolver the caller must run.
pub enum Baking {
    /// Every record is applied; TLS initialization may proceed.
    Done(StaticPie<Baked>),
    /// The pass stopped at the `IRELATIVE` record at `index`: the caller
    /// must call the resolver at `resolver`, store the returned word at
    /// image offset `target`, and resume with `resume_baking` at
    /// `index + 1`.
    AwaitingResolver { pie: StaticPie<Ingredients>, index: usize, resolver: u64, target: u64 },
}

impl StaticPie<Ingredients> {
    /// Applies the records with indices `start..` of the descriptor's
    /// RELA table against the image, in table order.
    pub fn resume_baking(self, image: &mut MemoryImage, start: usize) -> (r: Result<
        Baking,
        BootstrapError,
    >)
        requires
            self.base_address == old(image).base,
            start <= self.relocation_slices.rela_slice@.len(),
        ensures
            final(image).base == old(image).base,
            final(image).spec_len() == old(image).spec_len(),
            match r {
                Ok(Baking::Done(pie)) => {
                    &&& pie.base_address == self.base_address
                    &&& pie.relocation_slices.rela_slice@
                        == self.relocation_slices.rela_slice@
                    &&& pie.tls_program_header == self.tls_program_header
                    &&& pie.symbol_table.symbols@ == self.symbol_table.symbols@
                    &&& final(image).bytes@ == spec_apply_range(
                        old(image).bytes@,
                        self.relocation_slices.rela_slice@,
                        old(image).base,
                        self.symbol_table.symbols@,
                        start as int,
                        self.relocation_slices.rela_slice@.len() as int,
                    )
                    &&& forall|j: int|
                        start <= j < self.relocation_slices.rela_slice@.len()
                            ==> spec_rela_applies(
                            #[trigger] self.relocation_slices.rela_slice@[j],
                            old(image).spec_len(),
                            self.symbol_table.symbols@,
                        )
                },
                Ok(Baking::AwaitingResolver { pie, index, resolver, target }) => {
                    &&& pie.base_address == self.base_address
                    &&& pie.relocation_slices.rela_slice@
                        == self.relocation_slices.rela_slice@
                    &&& pie.tls_program_header == self.tls_program_header
                    &&& pie.symbol_table.symbols@ == self.symbol_table.symbols@
                    &&& start <= index < self.relocation_slices.rela_slice@.len()
                    &&& spec_r_type(self.relocation_slices.rela_slice@[index as int].r_info)
                        == R_X86_64_IRELATIVE
                    &&& resolver == u64_specs::wrapping_add_signed(
                        old(image).base,
                        self.relocation_slices.rela_slice@[index as int].r_addend,
                    )
                    &&& target == self.relocation_slices.rela_slice@[index as int].r_offset
                    &&& final(image).bytes@ == spec_apply_range(
                        old(image).bytes@,
                        self.relocation_slices.rela_slice@,
                        old(image).base,
                        self.symbol_table.symbols@,
                        start as int,
                        index as int,
                    )
                },
                Err(e) => {
                    exists|index: usize|
                        {
                            &&& start <= index < self.relocation_slices.rela_slice@.len()
                            &&& final(image).bytes@ == spec_apply_range(
                                old(image).bytes@,
                                self.relocation_slices.rela_slice@,
                                old(image).base,
                                self.symbol_table.symbols@,
                                start as int,
                                index as int,
                            )
                            &&& {
                                let t = spec_r_type(
                                    self.relocation_slices.rela_slice@[index as int].r_info,
                                );
                                match e {
                                    BootstrapError::UnsupportedRelocation { index: ei, r_type } => {
                                        &&& ei == index
                                        &&& r_type == t
                                        &&& !crate::relocator::spec_supported(t)
                                    },
                                    BootstrapError::RelocationOutOfBounds { index: ei } => {
                                        &&& ei == index
                                        &&& crate::relocator::spec_direct_store(t)
                                        &&& self.relocation_slices.rela_slice@[index as int].r_offset
                                            + 8 > old(image).spec_len()
                                    },
                                    BootstrapError::SymbolIndexOutOfRange { index: ei } => {
                                        &&& ei == index
                                        &&& crate::relocator::spec_uses_symbol(t)
                                        &&& crate::elf::relocate::spec_r_sym(
                                            self.relocation_slices.rela_slice@[index as int].r_info,
                                        ) >= self.symbol_table.symbols@.len()
                                    },
                                    _ => false,
                                }
                            }
                        }
                },
            },
    {
        let outcome = apply_relocations_from(
            image,
            &self.relocation_slices.rela_slice,
            &self.symbol_table.symbols,
            start,
        );
        match outcome {
            Ok(RelocationOutcome::Complete) => Ok(
                Baking::Done(
                    StaticPie {
                        base_address: self.base_address,
                        relocation_slices: self.relocation_slices,
                        tls_program_header: self.tls_program_header,
                        symbol_table: self.symbol_table,
                        phantom_data: PhantomData,
                    },
                ),
            ),
            Ok(RelocationOutcome::NeedsResolver { index, resolver, target }) => Ok(
                Baking::AwaitingResolver { pie: self, index, resolver, target },
            ),
            Err(e) => Err(e),
        }
    }

    /// Applies the descriptor's whole RELA table against the image. Only
    /// this pass produces a `Baked` descriptor, so thread-local storage
    /// can never be initialized before relocation.
    pub fn relocate_to_oven(self, image: &mut MemoryImage) -> (r: Result<Baking, BootstrapError>)
        requires
            self.base_address == old(image).base,
        ensures
            final(image).base == old(image).base,
            final(image).spec_len() == old(image).spec_len(),
            match r {
                Ok(Baking::Done(pie)) => {
                    &&& pie.base_address == self.base_address
                    &&& pie.relocation_slices.rela_slice@
                        == self.relocation_slices.rela_slice@
                    &&& pie.tls_program_header == self.tls_program_header
                    &&& pie.symbol_table.symbols@ == self.symbol_table.symbols@
                    &&& final(image).bytes@ == spec_apply_range(
                        old(image).bytes@,
                        self.relocation_slices.rela_slice@,
                        old(image).base,
                        self.symbol_table.symbols@,
                        0,
                        self.relocation_slices.rela_slice@.len() as int,
                    )
                    &&& forall|j: int|
                        0 <= j < self.relocation_slices.rela_slice@.len()
                            ==> spec_rela_applies(
                            #[trigger] self.relocation_slices.rela_slice@[j],
                            old(image).spec_len(),
                            self.symbol_table.symbols@,
                        )
                },
                Ok(Baking::AwaitingResolver { pie, index, resolver, target }) => {
                    &&& pie.base_address == self.base_address
                    &&& pie.relocation_slices.rela_slice@
                        == self.relocation_slices.rela_slice@
                    &&& pie.tls_program_header == self.tls_program_header
                    &&& pie.symbol_table.symbols@ == self.symbol_table.symbols@
                    &&& index < self.relocation_slices.rela_slice@.len()
                    &&& spec_r_type(self.relocation_slices.rela_slice@[index as int].r_info)
                        == R_X86_64_IRELATIVE
                    &&& resolver == u64_specs::wrapping_add_signed(
                        old(image).base,
                        self.relocation_slices.rela_slice@[index as int].r_addend,
                    )
                    &&& target == self.relocation_slices.rela_slice@[index as int].r_offset
                    &&& final(image).bytes@ == spec_apply_range(
                        old(image).bytes@,
                        self.relocation_slices.rela_slice@,
                        old(image).base,
                        self.symbol_table.symbols@,
                        0,
                        index as int,
                    )
                },
                Err(e) => {
                    exists|index: usize|
                        {
                            &&& index < self.relocation_slices.rela_slice@.len()
                            &&& final(image).bytes@ == spec_apply_range(
                                old(image).bytes@,
                                self.relocation_slices.rela_slice@,
                                old(image).base,
                                self.symbol_table.symbols@,
                                0,
                                index as int,
                            )
                            &&& {
                                let t = spec_r_type(
                                    self.relocation_slices.rela_slice@[index as int].r_info,
                                );
                                match e {
                                    BootstrapError::UnsupportedRelocation { index: ei, r_type } => {
                                        &&& ei == index
                                        &&& r_type == t
                                        &&& !crate::relocator::spec_supported(t)
                                    },
                                    BootstrapError::RelocationOutOfBounds { index: ei } => {
                                        &&& ei == index
                                        &&& crate::relocator::spec_direct_store(t)
                                        &&& self.relocation_slices.rela_slice@[index as int].r_offset
                                            + 8 > old(image).spec_len()
                                    },
                                    BootstrapError::SymbolIndexOutOfRange { index: ei } => {
                                        &&& ei == index
                                        &&& crate::relocator::spec_uses_symbol(t)
                                        &&& crate::elf::relocate::spec_r_sym(
                                            self.relocation_slices.rela_slice@[index as int].r_info,
                                        ) >= self.symbol_table.symbols@.len()
                                    },
                                    _ => false,
                                }
                            }
                        }
                },
            },
    {
        self.resume_baking(image, 0)
    }
}

impl StaticPie<Baked> {
    /// Initializes the initial thread's TLS, or does nothing when the
    /// image has no `PT_TLS` segment: then no mapping is requested and
    /// the thread pointer is left untouched.
    ///
    /// `region_address` is the address the caller's anonymous mapping of
    /// [`tls_allocation_size`] bytes returned; it is unused when the
    /// image has no TLS template.
    ///
    /// [`tls_allocation_size`]: crate::thread_local_storage::tls_allocation_size
    pub fn allocate_tls_in_stomach(
        self,
        image: &MemoryImage,
        region_address: u64,
        pseudorandom_bytes: &Vec<u8>,
    ) -> (r: Option<TlsRegion>)
        requires
            match self.tls_program_header {
                Some(tls) => {
                    &&& tls.p_type == PT_TLS
                    &&& spec_is_power_of_two(tls.p_align)
                    &&& tls.p_filesz <= tls.p_memsz
                    &&& tls.p_offset + tls.p_filesz <= image.spec_len()
                    &&& pseudorandom_bytes@.len() >= 8
                    &&& tls.p_memsz + tls.p_align - 1 <= u64::MAX
                    &&& region_address % spec_tcb_and_tls_align(tls.p_align) == 0
                    &&& region_address + spec_tcb_and_tls_align(tls.p_align)
                        + spec_round_up(tls.p_memsz as int, tls.p_align as int) + TCB_SIZE
                        <= u64::MAX
                },
                None => true,
            },
        ensures
            match self.tls_program_header {
                Some(tls) => {
                    &&& r matches Some(region)
                    &&& {
                        let region = r.unwrap();
                        &&& region.region_address == region_address
                        &&& region.tcb_and_tls_align == spec_tcb_and_tls_align(tls.p_align)
                        &&& region.tls_blocks_size == spec_round_up(
                            tls.p_memsz as int,
                            tls.p_align as int,
                        )
                        &&& region.tls_block@ == spec_tls_block(image.bytes@, tls)
                        &&& forall|i: int|
                            0 <= i < tls.p_filesz ==> region.tls_block@[i] == image.bytes@[
                                tls.p_offset + i
                            ]
                        &&& forall|i: int|
                            tls.p_filesz <= i < tls.p_memsz ==> region.tls_block@[i] == 0
                        &&& region.tcb.thread_pointer_register == region.tcb_address()
                        &&& region.word_at_thread_pointer() == region.thread_pointer()
                        &&& region.tcb.dynamic_thread_vector == 0
                        &&& region.tcb._padding[0] == 0 && region.tcb._padding[1] == 0
                            && region.tcb._padding[2] == 0
                        &&& region.tcb.canary == word_at(pseudorandom_bytes@, 0)
                    }
                },
                None => r is None,
            },
    {
        let tls = match &self.tls_program_header {
            Some(tls) => *tls,
            None => {
                return None;
            },
        };
        Some(initialize_thread_local_storage(&tls, image, region_address, pseudorandom_bytes))
    }
}

} // verus!
