use miros::bytes::{read_half, read_quarter, read_word, write_word};
use miros::elf::dynamic_array::{
    check_entry_sizes, collect_needed, find_dynamic_value, read_dynamic_entries,
    DynamicArrayItem, DynamicArrayIter, DT_NEEDED, DT_RELA, DT_RELAENT, DT_RELASZ, DT_STRTAB,
};
use miros::elf::header::read_elf_header;
use miros::elf::program_header::{
    find_first_program_header, find_program_header, read_program_header, ProgramHeader,
    PT_DYNAMIC, PT_LOAD,
};
use miros::elf::string_table::StringTable;
use miros::elf::symbol::{read_symbol, SymbolTable, Symbol};
use miros::errors::BootstrapError;
use miros::global_allocator::{Allocator, ThreadCache};
use miros::image::MemoryImage;
use miros::linux::page_size::{get_page_end, get_page_offset, get_page_start, is_power_of_two};
use miros::shared_object::{calculate_virtual_address_bounds, segment_mapping};
use miros::static_pie::round_up_to_boundary;

fn poke_word(bytes: &mut Vec<u8>, off: usize, value: u64) {
    write_word(bytes, off, value);
}

fn load_header(p_vaddr: u64, p_memsz: u64) -> ProgramHeader {
    ProgramHeader {
        p_type: PT_LOAD,
        p_flags: 0,
        p_offset: 0,
        p_vaddr,
        p_paddr: 0,
        p_filesz: p_memsz,
        p_memsz,
        p_align: 0x1000,
    }
}

#[test]
fn little_endian_readers_agree_with_the_stored_bytes() {
    let mut bytes = vec![0u8; 16];
    poke_word(&mut bytes, 0, 0x1122_3344_5566_7788);
    assert_eq!(read_word(&bytes, 0), 0x1122_3344_5566_7788);
    assert_eq!(read_quarter(&bytes, 0), 0x5566_7788);
    assert_eq!(read_half(&bytes, 0), 0x7788);
    assert_eq!(bytes[0], 0x88);
    assert_eq!(bytes[7], 0x11);
}

#[test]
fn elf_header_fields_are_read_from_their_offsets() {
    let mut bytes = vec![0u8; 64];
    bytes[16] = 3; // e_type = ET_DYN
    poke_word(&mut bytes, 32, 64); // e_phoff
    bytes[54] = 56; // e_phentsize
    bytes[56] = 2; // e_phnum
    let image = MemoryImage::new(0, bytes);
    let header = read_elf_header(&image).unwrap();
    assert_eq!(header.e_type, 3);
    assert_eq!(header.e_phoff, 64);
    assert_eq!(header.e_phentsize, 56);
    assert_eq!(header.e_phnum, 2);
}

#[test]
fn a_short_image_has_no_elf_header() {
    let image = MemoryImage::new(0, vec![0u8; 32]);
    assert_eq!(read_elf_header(&image).unwrap_err(), BootstrapError::TruncatedImage);
}

#[test]
fn program_header_fields_are_read_in_layout_order() {
    let mut bytes = vec![0u8; 56];
    bytes[0] = 7; // p_type = PT_TLS
    bytes[4] = 5; // p_flags
    poke_word(&mut bytes, 8, 0x100); // p_offset
    poke_word(&mut bytes, 16, 0x200); // p_vaddr
    poke_word(&mut bytes, 32, 0x10); // p_filesz
    poke_word(&mut bytes, 40, 0x20); // p_memsz
    poke_word(&mut bytes, 48, 0x8); // p_align
    let image = MemoryImage::new(0, bytes);
    let header = read_program_header(&image, 0);
    assert_eq!(header.p_type, 7);
    assert_eq!(header.p_flags, 5);
    assert_eq!(header.p_offset, 0x100);
    assert_eq!(header.p_vaddr, 0x200);
    assert_eq!(header.p_filesz, 0x10);
    assert_eq!(header.p_memsz, 0x20);
    assert_eq!(header.p_align, 0x8);
}

#[test]
fn header_scans_pick_first_and_last_matches() {
    let mut early = load_header(0x1000, 0x10);
    early.p_type = PT_DYNAMIC;
    let mut late = load_header(0x2000, 0x10);
    late.p_type = PT_DYNAMIC;
    let table = vec![early, load_header(0x3000, 0x10), late];
    assert_eq!(find_first_program_header(&table, PT_DYNAMIC).unwrap().p_vaddr, 0x1000);
    assert_eq!(find_program_header(&table, PT_DYNAMIC).unwrap().p_vaddr, 0x2000);
    assert!(find_program_header(&table, 99).is_none());
}

#[test]
fn dynamic_array_reads_until_the_null_tag() {
    let mut bytes = vec![0u8; 0x100];
    poke_word(&mut bytes, 0x10, DT_NEEDED);
    poke_word(&mut bytes, 0x18, 5);
    poke_word(&mut bytes, 0x20, DT_RELA);
    poke_word(&mut bytes, 0x28, 0x300);
    // DT_NULL terminator is already zero.
    let image = MemoryImage::new(0, bytes);
    let items = read_dynamic_entries(&image, 0x10).unwrap();
    assert_eq!(items.len(), 2);
    assert_eq!(items[0], DynamicArrayItem { d_tag: DT_NEEDED, d_val: 5 });
    assert_eq!(find_dynamic_value(&items, DT_RELA), Some(0x300));
    assert_eq!(find_dynamic_value(&items, DT_STRTAB), None);
    assert_eq!(collect_needed(&items), vec![5]);
}

#[test]
fn unterminated_dynamic_array_is_reported() {
    let mut bytes = vec![1u8; 0x20];
    poke_word(&mut bytes, 0, DT_NEEDED);
    let image = MemoryImage::new(0, bytes);
    assert_eq!(
        read_dynamic_entries(&image, 0).unwrap_err(),
        BootstrapError::UnterminatedDynamicArray
    );
}

#[test]
fn dynamic_entry_size_mismatches_are_caught() {
    let good = vec![DynamicArrayItem { d_tag: DT_RELAENT, d_val: 24 }];
    assert!(check_entry_sizes(&good).is_ok());
    let bad = vec![DynamicArrayItem { d_tag: DT_RELAENT, d_val: 16 }];
    assert_eq!(check_entry_sizes(&bad).unwrap_err(), BootstrapError::RelaEntrySizeMismatch);
}

#[test]
fn dynamic_iterator_can_be_walked_twice() {
    let items = vec![
        DynamicArrayItem { d_tag: DT_RELA, d_val: 1 },
        DynamicArrayItem { d_tag: DT_RELASZ, d_val: 2 },
    ];
    let mut first = DynamicArrayIter::new(items.clone());
    let mut first_pass = Vec::new();
    while let Some(item) = first.next() {
        first_pass.push(item);
    }
    let mut second = DynamicArrayIter::new(items.clone());
    let mut second_pass = Vec::new();
    while let Some(item) = second.next() {
        second_pass.push(item);
    }
    assert_eq!(first_pass, second_pass);
    assert_eq!(first_pass, items);
    // A drained iterator has nothing left; a fresh one returns its items.
    assert_eq!(first.into_inner(), items);
    assert_eq!(DynamicArrayIter::new(items.clone()).into_inner(), items);
}

#[test]
fn string_table_reads_null_terminated_strings() {
    let bytes = b"\0Hello\0World!\0Thanks\0for\0All\0the\0Fish\0".to_vec();
    let table = StringTable::new(bytes);
    assert_eq!(table.get(0), Some(Vec::new()));
    assert_eq!(table.get(1), Some(b"Hello".to_vec()));
    assert_eq!(table.get(3), Some(b"llo".to_vec()));
    assert_eq!(table.get(33), Some(b"Fish".to_vec()));
    assert_eq!(table.get(100), None);
    let unterminated = StringTable::new(b"abc".to_vec());
    assert_eq!(unterminated.get(0), None);
    assert_eq!(unterminated.into_inner(), b"abc".to_vec());
}

#[test]
fn symbols_are_read_and_indexed() {
    let mut bytes = vec![0u8; 48];
    poke_word(&mut bytes, 24 + 8, 0x800); // second record's st_value
    let image = MemoryImage::new(0, bytes);
    let symbol = read_symbol(&image, 24);
    assert_eq!(symbol.st_value, 0x800);

    let table = SymbolTable::new(vec![symbol]);
    assert_eq!(table.get(0).unwrap().st_value, 0x800);
    assert!(table.get(1).is_none());
    let inner: Vec<Symbol> = table.into_inner();
    assert_eq!(inner.len(), 1);
}

#[test]
fn page_arithmetic_masks_and_rounds() {
    assert!(is_power_of_two(4096));
    assert!(!is_power_of_two(0));
    assert!(!is_power_of_two(48));
    assert_eq!(get_page_start(0x1234, 0x1000), 0x1000);
    assert_eq!(get_page_offset(0x1234, 0x1000), 0x234);
    assert_eq!(get_page_end(0x1234, 0x1000), 0x2000);
    assert_eq!(get_page_end(0x2000, 0x1000), 0x2000);
    assert_eq!(round_up_to_boundary(33, 32), 64);
    assert_eq!(round_up_to_boundary(32, 32), 32);
}

#[test]
fn virtual_address_bounds_cover_the_load_segments() {
    let table = vec![
        load_header(0x1234, 0x100),
        {
            let mut h = load_header(0, 0);
            h.p_type = PT_DYNAMIC;
            h.p_vaddr = 0x9_0000;
            h
        },
        load_header(0x5000, 0x2345),
    ];
    let (low, high) = calculate_virtual_address_bounds(&table, 0x1000);
    assert_eq!(low, 0x1000);
    assert_eq!(high, 0x8000);
}

#[test]
fn segment_mapping_computes_the_fixed_mapping() {
    let mut h = load_header(0x1234, 0x300);
    h.p_offset = 0x2200;
    h.p_filesz = 0x100;
    h.p_flags = 0x1 | 0x2; // executable and readable
    let mapping = segment_mapping(&h, 0x40_000, 0x1000);
    assert_eq!(mapping.segment_start, 0x41_000);
    assert_eq!(mapping.file_start, 0x2000);
    assert_eq!(mapping.file_length, 0x2300 - 0x2000);
    assert_eq!(mapping.protection, 0x4 | 0x1);
    assert_eq!(mapping.zero_start, 0x40_000 + 0x1234 + 0x100);
    assert_eq!(mapping.zero_length, 0x200);
}

#[test]
fn allocator_rounds_layouts_to_the_page_size() {
    let mut allocator = Allocator::new();
    allocator.initialize(4096);
    assert_eq!(allocator.page_size, 4096);
    assert_eq!(allocator.align_layout_to_page_size(10, 8), 4096);
    assert_eq!(allocator.align_layout_to_page_size(5000, 8), 8192);
    assert_eq!(allocator.align_layout_to_page_size(4096, 4096), 4096);
    let _cache = ThreadCache::new();
}
