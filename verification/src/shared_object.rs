//! The shared-object descriptor.
//!
//! Everything the bootstrap keeps of an ELF image: its load address, its
//! RELA records, the symbol and string tables the dynamic array names,
//! the string-table offsets of the libraries it needs, and its optional
//! TLS template header. The descriptor is assembled either from the image
//! base (when the runtime is the executable's interpreter) or from the
//! executable's program-header slice (when the runtime is a static PIE),
//! and lives for the process's lifetime.

use vstd::prelude::*;
use vstd::wrapping::u64_specs;
use crate::image::MemoryImage;
use crate::elf::header::{ET_DYN, ELF_HEADER_SIZE, spec_elf_header, read_elf_header};
use crate::elf::program_header::{ProgramHeader, PROGRAM_HEADER_SIZE, PT_LOAD, PT_DYNAMIC, PT_PHDR, PT_TLS, spec_program_header_table, spec_find_last, read_program_header_table, find_program_header};
use crate::elf::dynamic_array::{DT_RELA, DT_RELASZ, DT_RELAENT, DT_SYMENT, DT_SYMTAB, DT_STRTAB, spec_dynamic_entries, spec_last_tag_value, spec_needed_values, read_dynamic_entries, find_dynamic_value, collect_needed, check_entry_sizes};
use crate::elf::relocate::{Rela, Relocatable, RelocationSlices, RELA_RECORD_SIZE, spec_rela_table, read_rela_table};
use crate::elf::symbol::{Symbol, SymbolTable, spec_symbol_table, read_symbol_table};
use crate::elf::string_table::StringTable;
use crate::linux::page_size::{spec_is_power_of_two, spec_round_up, get_page_start, get_page_end};
use crate::relocator::{spec_required_symbol_count, required_symbol_count};
use crate::errors::BootstrapError;

verus! {

/// The lowest virtual address any `PT_LOAD` segment starts at, or the
/// largest address where none exists.
pub open spec fn spec_min_load_address(table: Seq<ProgramHeader>) -> int
    decreases table.len(),
{
    if table.len() == 0 {
        u64::MAX as int
    } else {
        let rest = spec_min_load_address(table.drop_last());
        let last = table.last();
        if last.p_type == PT_LOAD && last.p_vaddr < rest {
            last.p_vaddr as int
        } else {
            rest
        }
    }
}

/// The highest virtual address any `PT_LOAD` segment reaches, or zero
/// where none exists.
pub open spec fn spec_max_load_end(table: Seq<ProgramHeader>) -> int
    decreases table.len(),
{
    if table.len() == 0 {
        0
    } else {
        let rest = spec_max_load_end(table.drop_last());
        let last = table.last();
        if last.p_type == PT_LOAD && last.p_vaddr + last.p_memsz > rest {
            last.p_vaddr + last.p_memsz
        } else {
            rest
        }
    }
}

/// The page-aligned virtual-address extent of the loadable segments: the
/// page start of the lowest `PT_LOAD` address and the page end of the
/// highest.
pub fn calculate_virtual_address_bounds(table: &Vec<ProgramHeader>, page_size: u64) -> (r: (
    u64,
    u64,
))
    requires
        spec_is_power_of_two(page_size),
        forall|j: int|
            0 <= j < table@.len() && (#[trigger] table@[j]).p_type == PT_LOAD ==> table@[j].p_vaddr
                + table@[j].p_memsz <= u64::MAX,
        spec_max_load_end(table@) + page_size - 1 <= u64::MAX,
    ensures
        r.0 == spec_min_load_address(table@) - spec_min_load_address(table@) % (page_size as int),
        r.1 == spec_round_up(spec_max_load_end(table@), page_size as int),
{
    let mut min_addr: u64 = u64::MAX;
    let mut max_addr: u64 = 0;
    let mut i: usize = 0;
    while i < table.len()
        invariant
            0 <= i <= table@.len(),
            forall|j: int|
                0 <= j < table@.len() && (#[trigger] table@[j]).p_type == PT_LOAD
                    ==> table@[j].p_vaddr + table@[j].p_memsz <= u64::MAX,
            min_addr == spec_min_load_address(table@.take(i as int)),
            max_addr == spec_max_load_end(table@.take(i as int)),
        decreases table@.len() - i,
    {
        let h = table[i];
        if h.p_type == PT_LOAD {
            if h.p_vaddr < min_addr {
                min_addr = h.p_vaddr;
            }
            if h.p_vaddr + h.p_memsz > max_addr {
                max_addr = h.p_vaddr + h.p_memsz;
            }
        }
        proof {
            let t = table@.take(i + 1);
            assert(t.drop_last() =~= table@.take(i as int));
            assert(t.last() == table@[i as int]);
        }
        i += 1;
    }
    proof {
        assert(table@.take(table@.len() as int) =~= table@);
    }
    (get_page_start(min_addr, page_size), get_page_end(max_addr, page_size))
}

/// Readable mapping protection.
pub const PROT_READ: u64 = 0x1;

/// Writable mapping protection.
pub const PROT_WRITE: u64 = 0x2;

/// Executable mapping protection.
pub const PROT_EXEC: u64 = 0x4;

/// Private copy-on-write mapping.
pub const MAP_PRIVATE: u64 = 0x2;

/// Mapping not backed by a file.
pub const MAP_ANONYMOUS: u64 = 0x20;

/// Mapping placed exactly at the requested address.
pub const MAP_FIXED: u64 = 0x10;

/// Executable segment flag in a program header.
pub const ELF_FLAG_EXEC: u32 = 0x1;

/// Readable segment flag in a program header.
pub const ELF_FLAG_READ: u32 = 0x2;

/// Writable segment flag in a program header.
pub const ELF_FLAG_WRITE: u32 = 0x4;

/// The mapping protection a segment's flags ask for.
pub open spec fn spec_protection_flags(p_flags: u32) -> u64 {
    (if p_flags & ELF_FLAG_EXEC != 0 {
        PROT_EXEC
    } else {
        0
    }) | (if p_flags & ELF_FLAG_READ != 0 {
        PROT_READ
    } else {
        0
    }) | (if p_flags & ELF_FLAG_WRITE != 0 {
        PROT_WRITE
    } else {
        0
    })
}

/// The file-backed mapping that loads one `PT_LOAD` segment: everything
/// the `mmap` and zero-fill calls need, computed from the header alone.
pub struct SegmentMapping {
    /// Page-aligned address the mapping is fixed at.
    pub segment_start: u64,
    /// Page-aligned file offset the mapping reads from.
    pub file_start: u64,
    /// Number of bytes mapped from the file.
    pub file_length: u64,
    /// Protection flags of the mapping.
    pub protection: u64,
    /// Address from which `p_memsz − p_filesz` trailing bytes are
    /// zeroed, where `p_memsz` exceeds `p_filesz`.
    pub zero_start: u64,
    /// Number of trailing bytes to zero.
    pub zero_length: u64,
}

/// Computes the mapping that loads one `PT_LOAD` segment of an image
/// based at `base`.
pub fn segment_mapping(header: &ProgramHeader, base: u64, page_size: u64) -> (r: SegmentMapping)
    requires
        header.p_type == PT_LOAD,
        spec_is_power_of_two(page_size),
        base + header.p_vaddr + header.p_memsz <= u64::MAX,
        header.p_filesz <= header.p_memsz,
        header.p_offset + header.p_filesz <= u64::MAX,
    ensures
        r.segment_start == (base + header.p_vaddr) - (base + header.p_vaddr) % (page_size as int),
        r.file_start == header.p_offset - (header.p_offset as int) % (page_size as int),
        r.file_length == header.p_offset + header.p_filesz - r.file_start,
        r.protection == spec_protection_flags(header.p_flags),
        r.zero_start == base + header.p_vaddr + header.p_filesz,
        r.zero_length == header.p_memsz - header.p_filesz,
{
    let segment_start = get_page_start(base + header.p_vaddr, page_size);
    let file_start = get_page_start(header.p_offset, page_size);
    let file_length = header.p_offset + header.p_filesz - file_start;
    let protection = (if header.p_flags & ELF_FLAG_EXEC != 0 {
        PROT_EXEC
    } else {
        0
    }) | (if header.p_flags & ELF_FLAG_READ != 0 {
        PROT_READ
    } else {
        0
    }) | (if header.p_flags & ELF_FLAG_WRITE != 0 {
        PROT_WRITE
    } else {
        0
    });
    SegmentMapping {
        segment_start,
        file_start,
        file_length,
        protection,
        zero_start: base + header.p_vaddr + header.p_filesz,
        zero_length: header.p_memsz - header.p_filesz,
    }
}

/// The descriptor that assembly leaves in hand for an image whose
/// dynamic array lies at `dynamic_vaddr`: the image's base, the RELA
/// table, the symbol records the table can name, the string table, the
/// `DT_NEEDED` list, and the given TLS header.
pub open spec fn spec_shared_object_matches(
    so: SharedObject,
    bytes: Seq<u8>,
    base: u64,
    dynamic_vaddr: int,
    tls: Option<ProgramHeader>,
) -> bool {
    let entries = spec_dynamic_entries(bytes, dynamic_vaddr).unwrap();
    let rela_address = spec_last_tag_value(entries, DT_RELA);
    let count: int = match spec_last_tag_value(entries, DT_RELASZ) {
        Some(sz) => (sz as int) / (RELA_RECORD_SIZE as int),
        None => 0,
    };
    let relas = spec_rela_table(
        bytes,
        match rela_address {
            Some(a) => a as int,
            None => 0,
        },
        if rela_address is Some {
            count
        } else {
            0
        },
    );
    let symbol_count = spec_required_symbol_count(relas);
    &&& spec_dynamic_entries(bytes, dynamic_vaddr) is Some
    &&& so.base == base
    &&& so.tls_program_header == tls
    &&& so.needed_libraries@ == spec_needed_values(entries)
    &&& (count > 0 ==> rela_address is Some && spec_last_tag_value(entries, DT_SYMTAB) is Some)
    &&& so.relocations.rela_slice@ == relas
    &&& so.symbol_table.symbols@ == (match spec_last_tag_value(entries, DT_SYMTAB) {
        Some(sa) => spec_symbol_table(bytes, sa as int, symbol_count),
        None => Seq::<Symbol>::empty(),
    })
    &&& so.string_table.bytes@ == (match spec_last_tag_value(entries, DT_STRTAB) {
        Some(sa) => bytes.skip(sa as int),
        None => Seq::<u8>::empty(),
    })
}

/// A shared object in memory.
pub struct SharedObject {
    /// The image's load address (load bias).
    pub base: u64,
    /// The image's RELA records.
    pub relocations: RelocationSlices,
    /// String-table offsets of the names of the libraries the object
    /// needs, in dynamic-array order.
    pub needed_libraries: Vec<u64>,
    /// The symbol records the RELA table can name.
    pub symbol_table: SymbolTable,
    /// The string table named by `DT_STRTAB`, up to the end of the image.
    pub string_table: StringTable,
    /// The `PT_TLS` header naming the TLS template, if the image has one.
    pub tls_program_header: Option<ProgramHeader>,
}

impl Relocatable for SharedObject {
    open spec fn spec_base(&self) -> u64 {
        self.base
    }

    open spec fn spec_symbols(&self) -> Seq<Symbol> {
        self.symbol_table.symbols@
    }

    open spec fn spec_relas(&self) -> Seq<Rela> {
        self.relocations.rela_slice@
    }

    fn base(&self) -> u64 {
        self.base
    }

    fn symbol(&self, index: usize) -> Option<Symbol> {
        self.symbol_table.get(index)
    }

    fn relocation_slices(&self) -> &RelocationSlices {
        &self.relocations
    }

    fn symbol_table(&self) -> &SymbolTable {
        &self.symbol_table
    }
}

/// The defect behind each failure of descriptor assembly at the dynamic
/// array `dynamic_vaddr` names. Each error can be returned only when its
/// condition holds of the image.
pub open spec fn spec_shared_build_error(
    e: BootstrapError,
    bytes: Seq<u8>,
    dynamic_vaddr: int,
) -> bool {
    let entries = spec_dynamic_entries(bytes, dynamic_vaddr);
    let gathered = entries.unwrap();
    let rela_address = spec_last_tag_value(gathered, DT_RELA);
    let count: int = match spec_last_tag_value(gathered, DT_RELASZ) {
        Some(sz) => (sz as int) / (RELA_RECORD_SIZE as int),
        None => 0,
    };
    let relas = spec_rela_table(
        bytes,
        match rela_address {
            Some(a) => a as int,
            None => 0,
        },
        if rela_address is Some {
            count
        } else {
            0
        },
    );
    match e {
        BootstrapError::UnterminatedDynamicArray => entries is None,
        BootstrapError::RelaEntrySizeMismatch => {
            &&& entries is Some
            &&& exists|j: int|
                0 <= j < gathered.len() && (#[trigger] gathered[j]).d_tag == DT_RELAENT
                    && gathered[j].d_val != 24
        },
        BootstrapError::SymbolEntrySizeMismatch => {
            &&& entries is Some
            &&& exists|j: int|
                0 <= j < gathered.len() && (#[trigger] gathered[j]).d_tag == DT_SYMENT
                    && gathered[j].d_val != 24
        },
        BootstrapError::MissingRelaTable => count > 0 && rela_address is None,
        BootstrapError::MissingSymbolTable => {
            &&& count > 0
            &&& rela_address is Some
            &&& spec_last_tag_value(gathered, DT_SYMTAB) is None
        },
        BootstrapError::TruncatedImage => {
            ||| (rela_address is Some && rela_address.unwrap() + RELA_RECORD_SIZE * count
                > bytes.len())
            ||| (spec_last_tag_value(gathered, DT_SYMTAB) is Some && spec_last_tag_value(
                gathered,
                DT_SYMTAB,
            ).unwrap() + 24 * spec_required_symbol_count(relas) > bytes.len())
            ||| (spec_last_tag_value(gathered, DT_STRTAB) is Some && spec_last_tag_value(
                gathered,
                DT_STRTAB,
            ).unwrap() > bytes.len())
        },
        _ => false,
    }
}

/// The defect behind each failure of assembling the descriptor from the
/// ELF header at the image base.
pub open spec fn spec_shared_new_error(e: BootstrapError, bytes: Seq<u8>) -> bool {
    let header = spec_elf_header(bytes);
    let table = spec_program_header_table(bytes, header.e_phoff as int, header.e_phnum as int);
    match e {
        BootstrapError::NotSharedObject => bytes.len() >= ELF_HEADER_SIZE && header.e_type
            != ET_DYN,
        BootstrapError::ProgramHeaderSizeMismatch => bytes.len() >= ELF_HEADER_SIZE
            && header.e_phentsize != PROGRAM_HEADER_SIZE,
        BootstrapError::MissingDynamicHeader => spec_find_last(table, PT_DYNAMIC) is None,
        BootstrapError::TruncatedImage => {
            ||| bytes.len() < ELF_HEADER_SIZE
            ||| header.e_phoff + PROGRAM_HEADER_SIZE * header.e_phnum > bytes.len()
            ||| (spec_find_last(table, PT_DYNAMIC) matches Some(d) && spec_shared_build_error(
                e,
                bytes,
                d.p_vaddr as int,
            ))
        },
        _ => spec_find_last(table, PT_DYNAMIC) matches Some(d) && spec_shared_build_error(
            e,
            bytes,
            d.p_vaddr as int,
        ),
    }
}

impl SharedObject {
    /// Assembles the descriptor once the dynamic array's location is
    /// known: gathers the RELA table, the symbol and string tables and
    /// the `DT_NEEDED` list, checking the declared entry sizes and the
    /// descriptor invariant that a non-empty RELA table comes with a
    /// RELA address and a symbol table.
    pub fn build(
        image: &MemoryImage,
        dynamic_program_header: &ProgramHeader,
        tls_program_header: Option<ProgramHeader>,
    ) -> (r: Result<SharedObject, BootstrapError>)
        ensures
            match r {
                Ok(so) => spec_shared_object_matches(
                    so,
                    image.bytes@,
                    image.base,
                    dynamic_program_header.p_vaddr as int,
                    tls_program_header,
                ),
                Err(e) => spec_shared_build_error(
                    e,
                    image.bytes@,
                    dynamic_program_header.p_vaddr as int,
                ),
            },
    {
        let entries = match read_dynamic_entries(image, dynamic_program_header.p_vaddr) {
            Ok(items) => items,
            Err(e) => {
                return Err(e);
            },
        };
        match check_entry_sizes(&entries) {
            Ok(()) => (),
            Err(e) => {
                return Err(e);
            },
        }
        let needed_libraries = collect_needed(&entries);
        let rela_address = find_dynamic_value(&entries, DT_RELA);
        let rela_size = find_dynamic_value(&entries, DT_RELASZ);
        let symbol_table_address = find_dynamic_value(&entries, DT_SYMTAB);
        let string_table_address = find_dynamic_value(&entries, DT_STRTAB);
        let count = match rela_size {
            Some(sz) => sz / RELA_RECORD_SIZE,
            None => 0,
        };
        let rela_slice: Vec<Rela>;
        match rela_address {
            Some(a) => {
                rela_slice = match read_rela_table(image, a, count) {
                    Ok(relas) => relas,
                    Err(e) => {
                        return Err(e);
                    },
                };
                if count > 0 && symbol_table_address.is_none() {
                    return Err(BootstrapError::MissingSymbolTable);
                }
            },
            None => {
                if count > 0 {
                    return Err(BootstrapError::MissingRelaTable);
                }
                rela_slice = Vec::new();
                proof {
                    assert(rela_slice@ =~= spec_rela_table(image.bytes@, 0, 0));
                }
            },
        }
        let symbol_count = required_symbol_count(&rela_slice);
        let symbols: Vec<Symbol>;
        match symbol_table_address {
            Some(sa) => {
                symbols = match read_symbol_table(image, sa, symbol_count) {
                    Ok(syms) => syms,
                    Err(e) => {
                        return Err(e);
                    },
                };
            },
            None => {
                symbols = Vec::new();
                proof {
                    assert(symbols@ =~= spec_symbol_table(
                        image.bytes@,
                        0,
                        spec_required_symbol_count(rela_slice@),
                    ).take(0));
                    assert(symbols@.len() == 0);
                }
            },
        }
        let string_bytes: Vec<u8>;
        match string_table_address {
            Some(sa) => {
                if sa > image.len() as u64 {
                    return Err(BootstrapError::TruncatedImage);
                }
                string_bytes = image.read_bytes(sa, image.len() as u64 - sa);
                proof {
                    assert(image.bytes@.subrange(sa as int, image.spec_len())
                        =~= image.bytes@.skip(sa as int));
                }
            },
            None => {
                string_bytes = Vec::new();
            },
        }
        Ok(
            SharedObject {
                base: image.base,
                relocations: RelocationSlices { rela_slice },
                needed_libraries,
                symbol_table: SymbolTable::new(symbols),
                string_table: StringTable::new(string_bytes),
                tls_program_header,
            },
        )
    }

    /// Builds the descriptor from the image's own ELF header at its load
    /// address.
    pub fn new(image: &MemoryImage) -> (r: Result<SharedObject, BootstrapError>)
        ensures
            match r {
                Ok(so) => {
                    let header = spec_elf_header(image.bytes@);
                    let table = spec_program_header_table(
                        image.bytes@,
                        header.e_phoff as int,
                        header.e_phnum as int,
                    );
                    &&& image.spec_len() >= ELF_HEADER_SIZE
                    &&& header.e_type == ET_DYN
                    &&& header.e_phentsize == PROGRAM_HEADER_SIZE
                    &&& spec_find_last(table, PT_DYNAMIC) is Some
                    &&& spec_shared_object_matches(
                        so,
                        image.bytes@,
                        image.base,
                        spec_find_last(table, PT_DYNAMIC).unwrap().p_vaddr as int,
                        spec_find_last(table, PT_TLS),
                    )
                },
                Err(e) => spec_shared_new_error(e, image.bytes@),
            },
    {
        let header = match read_elf_header(image) {
            Ok(h) => h,
            Err(e) => {
                return Err(e);
            },
        };
        if header.e_type != ET_DYN {
            return Err(BootstrapError::NotSharedObject);
        }
        if header.e_phentsize != 56 {
            return Err(BootstrapError::ProgramHeaderSizeMismatch);
        }
        let table = match read_program_header_table(image, header.e_phoff, header.e_phnum) {
            Ok(t) => t,
            Err(e) => {
                return Err(e);
            },
        };
        let dynamic = match find_program_header(&table, PT_DYNAMIC) {
            Some(h) => h,
            None => {
                return Err(BootstrapError::MissingDynamicHeader);
            },
        };
        let tls = find_program_header(&table, PT_TLS);
        Self::build(image, &dynamic, tls)
    }

    /// Builds the descriptor from the executable's program-header slice,
    /// recovering the image base as the slice's address minus `PT_PHDR`'s
    /// `p_vaddr`; the recovered base must name the mapped image.
    pub fn from_headers(
        image: &MemoryImage,
        program_header_table: &Vec<ProgramHeader>,
        program_header_address: u64,
    ) -> (r: Result<SharedObject, BootstrapError>)
        ensures
            match r {
                Ok(so) => {
                    &&& match spec_find_last(program_header_table@, PT_PHDR) {
                        Some(phdr) => u64_specs::wrapping_sub(
                            program_header_address,
                            phdr.p_vaddr,
                        ) == image.base,
                        None => image.base == 0,
                    }
                    &&& spec_find_last(program_header_table@, PT_DYNAMIC) is Some
                    &&& spec_shared_object_matches(
                        so,
                        image.bytes@,
                        image.base,
                        spec_find_last(program_header_table@, PT_DYNAMIC).unwrap().p_vaddr as int,
                        spec_find_last(program_header_table@, PT_TLS),
                    )
                },
                Err(BootstrapError::MissingDynamicHeader) => spec_find_last(
                    program_header_table@,
                    PT_DYNAMIC,
                ) is None,
                Err(BootstrapError::InconsistentImageBase) => {
                    match spec_find_last(program_header_table@, PT_PHDR) {
                        Some(phdr) => u64_specs::wrapping_sub(
                            program_header_address,
                            phdr.p_vaddr,
                        ) != image.base,
                        None => image.base != 0,
                    }
                },
                Err(e) => spec_find_last(program_header_table@, PT_DYNAMIC) matches Some(d)
                    && spec_shared_build_error(e, image.bytes@, d.p_vaddr as int),
            },
    {
        let base: u64 = match find_program_header(program_header_table, PT_PHDR) {
            Some(phdr) => program_header_address.wrapping_sub(phdr.p_vaddr),
            None => 0,
        };
        if base != image.base {
            return Err(BootstrapError::InconsistentImageBase);
        }
        let dynamic = match find_program_header(program_header_table, PT_DYNAMIC) {
            Some(h) => h,
            None => {
                return Err(BootstrapError::MissingDynamicHeader);
            },
        };
        let tls = find_program_header(program_header_table, PT_TLS);
        Self::build(image, &dynamic, tls)
    }
}

} // verus!
