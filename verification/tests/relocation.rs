use miros::elf::relocate::Rela;
use miros::elf::symbol::Symbol;
use miros::errors::{BootstrapError, FATAL_EXIT_CODE};
use miros::image::MemoryImage;
use miros::relocator::{apply_relocations_from, required_symbol_count, RelocationOutcome};

fn plain_symbol(st_value: u64) -> Symbol {
    Symbol { st_name: 0, st_info: 0, st_other: 0, st_shndx: 0, st_value, st_size: 0 }
}

fn image_of_zeros(base: u64, len: usize) -> MemoryImage {
    MemoryImage::new(base, vec![0u8; len])
}

fn word_in(image: &MemoryImage, off: u64) -> u64 {
    image.word_at_offset(off)
}

#[test]
fn bare_relative_record_stores_base_plus_addend() {
    // Base B = 0x40_000, one RELATIVE record {r_offset: 0x1000, r_addend: 0x200}.
    let mut image = image_of_zeros(0x40_000, 0x1100);
    let relas = vec![Rela { r_offset: 0x1000, r_info: 8, r_addend: 0x200 }];
    let symbols: Vec<Symbol> = Vec::new();
    let outcome = apply_relocations_from(&mut image, &relas, &symbols, 0).unwrap();
    assert!(matches!(outcome, RelocationOutcome::Complete));
    assert_eq!(word_in(&image, 0x1000), 0x40_200);
}

#[test]
fn jump_slot_record_stores_symbol_value_plus_base() {
    // Symbol table = [_, {st_value: 0x800}], record {r_offset: 0x3000,
    // r_info: (1 << 32) | 7}, base 0x50_000.
    let mut image = image_of_zeros(0x50_000, 0x3100);
    let relas = vec![Rela { r_offset: 0x3000, r_info: (1u64 << 32) | 7, r_addend: 0 }];
    let symbols = vec![plain_symbol(0), plain_symbol(0x800)];
    let outcome = apply_relocations_from(&mut image, &relas, &symbols, 0).unwrap();
    assert!(matches!(outcome, RelocationOutcome::Complete));
    assert_eq!(word_in(&image, 0x3000), 0x50_800);
}

#[test]
fn symbolic_record_adds_addend() {
    let mut image = image_of_zeros(0x10_000, 0x120);
    let relas = vec![Rela { r_offset: 0x100, r_info: (1u64 << 32) | 1, r_addend: 0x30 }];
    let symbols = vec![plain_symbol(0), plain_symbol(0x500)];
    apply_relocations_from(&mut image, &relas, &symbols, 0).unwrap();
    assert_eq!(word_in(&image, 0x100), 0x10_530);
}

#[test]
fn glob_dat_record_ignores_addend() {
    let mut image = image_of_zeros(0x10_000, 0x120);
    let relas = vec![Rela { r_offset: 0x100, r_info: (1u64 << 32) | 6, r_addend: 0x77 }];
    let symbols = vec![plain_symbol(0), plain_symbol(0x500)];
    apply_relocations_from(&mut image, &relas, &symbols, 0).unwrap();
    assert_eq!(word_in(&image, 0x100), 0x10_500);
}

#[test]
fn negative_addend_wraps() {
    let mut image = image_of_zeros(0x40_000, 0x1100);
    let relas = vec![Rela { r_offset: 0x1000, r_info: 8, r_addend: -0x100 }];
    let symbols: Vec<Symbol> = Vec::new();
    apply_relocations_from(&mut image, &relas, &symbols, 0).unwrap();
    assert_eq!(word_in(&image, 0x1000), 0x3FF00);
}

#[test]
fn none_record_stores_nothing() {
    let mut image = image_of_zeros(0x40_000, 0x1100);
    let relas = vec![Rela { r_offset: 0x1000, r_info: 0, r_addend: 0x200 }];
    let symbols: Vec<Symbol> = Vec::new();
    let outcome = apply_relocations_from(&mut image, &relas, &symbols, 0).unwrap();
    assert!(matches!(outcome, RelocationOutcome::Complete));
    assert_eq!(word_in(&image, 0x1000), 0);
}

#[test]
fn unknown_relocation_is_fatal() {
    // A record of type 99 must fail, and the diagnostic names it; the
    // process exits with code 101.
    let mut image = image_of_zeros(0x40_000, 0x1100);
    let relas = vec![Rela { r_offset: 0x1000, r_info: 99, r_addend: 0 }];
    let symbols: Vec<Symbol> = Vec::new();
    let err = apply_relocations_from(&mut image, &relas, &symbols, 0).unwrap_err();
    assert_eq!(err, BootstrapError::UnsupportedRelocation { index: 0, r_type: 99 });
    assert!(err.message().contains("unsupported relocation"));
    assert_eq!(FATAL_EXIT_CODE, 101);
    // Nothing was stored for the offending record.
    assert_eq!(word_in(&image, 0x1000), 0);
}

#[test]
fn records_before_the_unknown_one_are_applied() {
    let mut image = image_of_zeros(0x40_000, 0x1100);
    let relas = vec![
        Rela { r_offset: 0x1000, r_info: 8, r_addend: 0x10 },
        Rela { r_offset: 0x1008, r_info: 99, r_addend: 0 },
    ];
    let symbols: Vec<Symbol> = Vec::new();
    let err = apply_relocations_from(&mut image, &relas, &symbols, 0).unwrap_err();
    assert_eq!(err, BootstrapError::UnsupportedRelocation { index: 1, r_type: 99 });
    assert_eq!(word_in(&image, 0x1000), 0x40_010);
}

#[test]
fn out_of_bounds_target_is_reported() {
    let mut image = image_of_zeros(0x40_000, 0x20);
    let relas = vec![Rela { r_offset: 0x1000, r_info: 8, r_addend: 0 }];
    let symbols: Vec<Symbol> = Vec::new();
    let err = apply_relocations_from(&mut image, &relas, &symbols, 0).unwrap_err();
    assert_eq!(err, BootstrapError::RelocationOutOfBounds { index: 0 });
}

#[test]
fn missing_symbol_is_reported() {
    let mut image = image_of_zeros(0x40_000, 0x1100);
    let relas = vec![Rela { r_offset: 0x1000, r_info: (5u64 << 32) | 7, r_addend: 0 }];
    let symbols = vec![plain_symbol(0)];
    let err = apply_relocations_from(&mut image, &relas, &symbols, 0).unwrap_err();
    assert_eq!(err, BootstrapError::SymbolIndexOutOfRange { index: 0 });
}

#[test]
fn irelative_record_pauses_for_the_resolver() {
    // The relocator cannot call code inside the image: it reports the
    // resolver address B + A and the target, and resumes past the record
    // once the caller has stored the resolver's return value.
    let mut image = image_of_zeros(0x40_000, 0x1100);
    let relas = vec![
        Rela { r_offset: 0x1000, r_info: 37, r_addend: 0x500 },
        Rela { r_offset: 0x1008, r_info: 8, r_addend: 0x20 },
    ];
    let symbols: Vec<Symbol> = Vec::new();
    let outcome = apply_relocations_from(&mut image, &relas, &symbols, 0).unwrap();
    match outcome {
        RelocationOutcome::NeedsResolver { index, resolver, target } => {
            assert_eq!(index, 0);
            assert_eq!(resolver, 0x40_500);
            assert_eq!(target, 0x1000);
            // The caller would call the resolver; pretend it returned
            // 0xABCD and store that word, then resume.
            image.store_word_at_offset(target, 0xABCD);
            let rest = apply_relocations_from(&mut image, &relas, &symbols, index + 1).unwrap();
            assert!(matches!(rest, RelocationOutcome::Complete));
        },
        RelocationOutcome::Complete => panic!("expected a resolver pause"),
    }
    assert_eq!(word_in(&image, 0x1000), 0xABCD);
    assert_eq!(word_in(&image, 0x1008), 0x40_020);
}

#[test]
fn r_sym_and_r_type_unpack_r_info() {
    let rela = Rela { r_offset: 0, r_info: (7u64 << 32) | 8, r_addend: 0 };
    assert_eq!(rela.r_sym(), 7);
    assert_eq!(rela.r_type(), 8);
    let rela = Rela { r_offset: 0, r_info: u64::MAX, r_addend: 0 };
    assert_eq!(rela.r_sym(), u32::MAX);
    assert_eq!(rela.r_type(), u32::MAX);
}

#[test]
fn required_symbol_count_is_one_past_the_largest_index() {
    let relas = vec![
        Rela { r_offset: 0, r_info: 8, r_addend: 0 },
        Rela { r_offset: 8, r_info: (3u64 << 32) | 7, r_addend: 0 },
        Rela { r_offset: 16, r_info: (1u64 << 32) | 1, r_addend: 0 },
    ];
    assert_eq!(required_symbol_count(&relas), 4);
    let none: Vec<Rela> = Vec::new();
    assert_eq!(required_symbol_count(&none), 0);
}

#[test]
fn later_records_overwrite_earlier_stores() {
    let mut image = image_of_zeros(0x40_000, 0x1100);
    let relas = vec![
        Rela { r_offset: 0x1000, r_info: 8, r_addend: 0x10 },
        Rela { r_offset: 0x1000, r_info: 8, r_addend: 0x20 },
    ];
    let symbols: Vec<Symbol> = Vec::new();
    apply_relocations_from(&mut image, &relas, &symbols, 0).unwrap();
    assert_eq!(word_in(&image, 0x1000), 0x40_020);
}
