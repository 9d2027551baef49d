use miros::bytes::write_word;
use miros::image::MemoryImage;
use miros::linux::relocate::relocate_linker;
use miros::linux::rust_start::gather_ingredients;
use miros::relocator::{relocate, RelocationOutcome};
use miros::shared_object::SharedObject;
use miros::static_pie::{Baking, StaticPie};

const AT_PHDR_TAG: u64 = 3;
const AT_PHENT_TAG: u64 = 4;
const AT_PHNUM_TAG: u64 = 5;
const AT_PAGE_SIZE_TAG: u64 = 6;
const AT_RANDOM_TAG: u64 = 25;

fn put_word(bytes: &mut Vec<u8>, off: usize, value: u64) {
    write_word(bytes, off, value);
}

fn put_half(bytes: &mut Vec<u8>, off: usize, value: u16) {
    bytes[off] = (value & 0xFF) as u8;
    bytes[off + 1] = (value >> 8) as u8;
}

fn put_quarter(bytes: &mut Vec<u8>, off: usize, value: u32) {
    for k in 0..4 {
        bytes[off + k] = ((value >> (8 * k)) & 0xFF) as u8;
    }
}

/// A toy image: ELF header, program headers at offset 64, dynamic array
/// at 0x100, RELA table at 0x200, symbols at 0x300, strings at 0x380.
fn toy_image_bytes(program_headers: &[(u32, u64)], dynamic: &[(u64, u64)]) -> Vec<u8> {
    let mut bytes = vec![0u8; 0x1100];
    put_half(&mut bytes, 16, 3); // ET_DYN
    put_word(&mut bytes, 32, 64); // e_phoff
    put_half(&mut bytes, 54, 56); // e_phentsize
    put_half(&mut bytes, 56, program_headers.len() as u16);
    for (i, (p_type, p_vaddr)) in program_headers.iter().enumerate() {
        let off = 64 + 56 * i;
        put_quarter(&mut bytes, off, *p_type);
        put_word(&mut bytes, off + 16, *p_vaddr);
    }
    for (i, (tag, value)) in dynamic.iter().enumerate() {
        let off = 0x100 + 16 * i;
        put_word(&mut bytes, off, *tag);
        put_word(&mut bytes, off + 8, *value);
    }
    bytes
}

fn put_rela(bytes: &mut Vec<u8>, off: usize, r_offset: u64, r_info: u64, r_addend: i64) {
    put_word(bytes, off, r_offset);
    put_word(bytes, off + 8, r_info);
    put_word(bytes, off + 16, r_addend as u64);
}

#[test]
fn static_pie_bootstraps_from_its_own_header() {
    let mut bytes = toy_image_bytes(
        &[(2, 0x100)],
        &[(7, 0x200), (8, 24), (9, 24)],
    );
    put_rela(&mut bytes, 0x200, 0x1000, 8, 0x200);
    let mut image = MemoryImage::new(0x40_000, bytes);

    let pie = StaticPie::from_base(&image).unwrap();
    assert_eq!(pie.base_address, 0x40_000);
    assert_eq!(pie.relocation_slices.rela_slice.len(), 1);
    assert!(pie.tls_program_header.is_none());

    match pie.relocate_to_oven(&mut image).unwrap() {
        Baking::Done(baked) => {
            assert_eq!(image.word_at_offset(0x1000), 0x40_200);
            // No PT_TLS: TLS initialization does nothing.
            let region = baked.allocate_tls_in_stomach(&image, 0, &vec![0u8; 16]);
            assert!(region.is_none());
        },
        Baking::AwaitingResolver { .. } => panic!("no IRELATIVE record was given"),
    }
}

#[test]
fn static_pie_invocation_recovers_the_base_from_the_headers() {
    // AT_BASE is null and AT_PHDR points at a slice holding PT_PHDR with
    // p_vaddr = 0x40; the computed base is AT_PHDR - 0x40.
    let base = 0x40_000u64;
    let mut bytes = toy_image_bytes(
        &[(6, 0x40), (2, 0x100)],
        &[(7, 0x200), (8, 24)],
    );
    put_rela(&mut bytes, 0x200, 0x1000, 8, 0x200);
    let mut image = MemoryImage::new(base, bytes);

    let mut words = vec![0u64, 0]; // argc = 0, argv terminator
    words.push(0); // environment terminator
    for (tag, value) in [
        (AT_PHDR_TAG, base + 0x40),
        (AT_PHENT_TAG, 56),
        (AT_PHNUM_TAG, 2),
        (AT_PAGE_SIZE_TAG, 4096),
        (AT_RANDOM_TAG, 0x9999),
        (0, 0),
    ] {
        words.push(tag);
        words.push(value);
    }

    let (pie, aux) = gather_ingredients(&image, &words, 0x7FFF_FF00).unwrap();
    assert_eq!(aux.base, 0);
    assert_eq!(aux.random, 0x9999);
    assert_eq!(aux.page_size, 4096);
    assert_eq!(pie.base_address, (base + 0x40) - 0x40);

    // Relocation and TLS proceed normally afterwards.
    match pie.relocate_to_oven(&mut image).unwrap() {
        Baking::Done(_) => assert_eq!(image.word_at_offset(0x1000), base + 0x200),
        Baking::AwaitingResolver { .. } => panic!("no IRELATIVE record was given"),
    }
}

#[test]
fn shared_object_gathers_symbols_strings_and_needed_libraries() {
    let mut bytes = toy_image_bytes(
        &[(2, 0x100)],
        &[(1, 1), (7, 0x200), (8, 48), (9, 24), (6, 0x300), (5, 0x380), (11, 24)],
    );
    // Two records: a RELATIVE one and a JUMP_SLOT against symbol 1.
    put_rela(&mut bytes, 0x200, 0x1000, 8, 0x40);
    put_rela(&mut bytes, 0x218, 0x1008, (1u64 << 32) | 7, 0);
    // Symbol 1 has st_value 0x800 (records are 24 bytes; st_value at +8).
    put_word(&mut bytes, 0x300 + 24 + 8, 0x800);
    // Strings: "\0libc.so\0".
    let strings = b"\0libc.so\0";
    for (i, b) in strings.iter().enumerate() {
        bytes[0x380 + i] = *b;
    }
    let mut image = MemoryImage::new(0x50_000, bytes);

    let so = SharedObject::new(&image).unwrap();
    assert_eq!(so.base, 0x50_000);
    assert_eq!(so.needed_libraries, vec![1]);
    assert_eq!(so.relocations.rela_slice.len(), 2);
    assert_eq!(so.symbol_table.get(1).unwrap().st_value, 0x800);
    assert_eq!(so.string_table.get(1).unwrap(), b"libc.so".to_vec());

    let outcome = relocate(&so, &mut image).unwrap();
    assert!(matches!(outcome, RelocationOutcome::Complete));
    assert_eq!(image.word_at_offset(0x1000), 0x50_040);
    assert_eq!(image.word_at_offset(0x1008), 0x50_800);
}

#[test]
fn reading_the_rela_table_twice_yields_equal_sequences() {
    let mut bytes = toy_image_bytes(&[(2, 0x100)], &[(7, 0x200), (8, 48)]);
    put_rela(&mut bytes, 0x200, 0x1000, 8, 0x40);
    put_rela(&mut bytes, 0x218, 0x1008, 8, 0x80);
    let image = MemoryImage::new(0x40_000, bytes);
    let first = miros::elf::relocate::read_rela_table(&image, 0x200, 2).unwrap();
    let second = miros::elf::relocate::read_rela_table(&image, 0x200, 2).unwrap();
    assert_eq!(first, second);
}

#[test]
fn linker_self_relocation_applies_only_relative_records() {
    let mut bytes = toy_image_bytes(
        &[(2, 0x100)],
        &[(7, 0x200), (8, 48)],
    );
    put_rela(&mut bytes, 0x200, 0x1000, 8, 0x20);
    put_rela(&mut bytes, 0x218, 0x1008, (1u64 << 32) | 7, 0x30);
    let mut image = MemoryImage::new(0x40_000, bytes);

    let table = vec![miros::elf::program_header::ProgramHeader {
        p_type: 2,
        p_flags: 0,
        p_offset: 0,
        p_vaddr: 0x100,
        p_paddr: 0,
        p_filesz: 0,
        p_memsz: 0,
        p_align: 0,
    }];
    relocate_linker(&mut image, &table).unwrap();
    assert_eq!(image.word_at_offset(0x1000), 0x40_020);
    // The non-RELATIVE record is left for the full relocator.
    assert_eq!(image.word_at_offset(0x1008), 0);
}

#[test]
fn missing_rela_address_with_nonzero_size_is_fatal() {
    let bytes = toy_image_bytes(&[(2, 0x100)], &[(8, 24)]);
    let image = MemoryImage::new(0x40_000, bytes);
    let err = match StaticPie::from_base(&image) {
        Err(e) => e,
        Ok(_) => panic!("expected an error"),
    };
    assert_eq!(err, miros::errors::BootstrapError::MissingRelaTable);
    assert!(err.message().contains("RELASZ"));
}

#[test]
fn an_image_that_is_not_et_dyn_is_rejected() {
    let mut bytes = toy_image_bytes(&[(2, 0x100)], &[]);
    put_half(&mut bytes, 16, 2); // ET_EXEC
    let image = MemoryImage::new(0x40_000, bytes);
    let err = match StaticPie::from_base(&image) {
        Err(e) => e,
        Ok(_) => panic!("expected an error"),
    };
    assert_eq!(err, miros::errors::BootstrapError::NotSharedObject);
}

#[test]
fn an_image_without_pt_dynamic_is_rejected() {
    let bytes = toy_image_bytes(&[(1, 0x0)], &[]);
    let image = MemoryImage::new(0x40_000, bytes);
    let err = match StaticPie::from_base(&image) {
        Err(e) => e,
        Ok(_) => panic!("expected an error"),
    };
    assert_eq!(err, miros::errors::BootstrapError::MissingDynamicHeader);
}

#[test]
fn a_wrong_program_header_entry_size_is_rejected() {
    let mut bytes = toy_image_bytes(&[(2, 0x100)], &[]);
    put_half(&mut bytes, 54, 64); // e_phentsize
    let image = MemoryImage::new(0x40_000, bytes);
    let err = match StaticPie::from_base(&image) {
        Err(e) => e,
        Ok(_) => panic!("expected an error"),
    };
    assert_eq!(err, miros::errors::BootstrapError::ProgramHeaderSizeMismatch);
}

#[test]
fn a_wrong_symbol_entry_size_is_rejected() {
    let bytes = toy_image_bytes(&[(2, 0x100)], &[(11, 16)]);
    let image = MemoryImage::new(0x40_000, bytes);
    let err = match SharedObject::new(&image) {
        Err(e) => e,
        Ok(_) => panic!("expected an error"),
    };
    assert_eq!(err, miros::errors::BootstrapError::SymbolEntrySizeMismatch);
}

#[test]
fn relocations_without_a_symbol_table_are_rejected() {
    let mut bytes = toy_image_bytes(&[(2, 0x100)], &[(7, 0x200), (8, 24)]);
    put_rela(&mut bytes, 0x200, 0x1000, 8, 0);
    let image = MemoryImage::new(0x40_000, bytes);
    let err = match SharedObject::new(&image) {
        Err(e) => e,
        Ok(_) => panic!("expected an error"),
    };
    assert_eq!(err, miros::errors::BootstrapError::MissingSymbolTable);
}

#[test]
fn a_base_that_differs_from_the_load_address_is_rejected() {
    let bytes = toy_image_bytes(&[(2, 0x100)], &[(9, 24)]);
    let image = MemoryImage::new(0x40_000, bytes);
    let mut words = vec![0u64, 0, 0];
    for (tag, value) in [(7u64, 0x50_000), (0, 0)] {
        words.push(tag);
        words.push(value);
    }
    let err = match gather_ingredients(&image, &words, 0x7FFF_FF00) {
        Err(e) => e,
        Ok(_) => panic!("expected an error"),
    };
    assert_eq!(err, miros::errors::BootstrapError::InconsistentImageBase);
}

#[test]
fn an_empty_relocation_table_bakes_without_stores() {
    let bytes = toy_image_bytes(&[(2, 0x100)], &[(9, 24)]);
    let mut image = MemoryImage::new(0x40_000, bytes.clone());
    let pie = StaticPie::from_base(&image).unwrap();
    assert_eq!(pie.relocation_slices.rela_slice.len(), 0);
    match pie.relocate_to_oven(&mut image).unwrap() {
        Baking::Done(_) => (),
        Baking::AwaitingResolver { .. } => panic!("no records were given"),
    }
    assert_eq!(image.bytes, bytes);
}

#[test]
fn text_relocations_stop_the_self_relocation_pass() {
    let bytes = toy_image_bytes(&[(2, 0x100)], &[(22, 0), (7, 0x200), (8, 24)]);
    let mut image = MemoryImage::new(0x40_000, bytes.clone());
    let table = vec![miros::elf::program_header::ProgramHeader {
        p_type: 2,
        p_flags: 0,
        p_offset: 0,
        p_vaddr: 0x100,
        p_paddr: 0,
        p_filesz: 0,
        p_memsz: 0,
        p_align: 0,
    }];
    let err = match relocate_linker(&mut image, &table) {
        Err(e) => e,
        Ok(_) => panic!("expected an error"),
    };
    assert_eq!(err, miros::errors::BootstrapError::TextRelocationsPresent);
    assert!(err.message().contains("text relocations"));
    // Nothing was stored.
    assert_eq!(image.bytes, bytes);
}
