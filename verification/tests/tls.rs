use miros::elf::program_header::{ProgramHeader, PT_TLS};
use miros::elf::relocate::RelocationSlices;
use miros::elf::symbol::SymbolTable;
use miros::elf::thread_local_storage::{TCB_ALIGN, TCB_SIZE};
use miros::image::MemoryImage;
use miros::static_pie::{Baked, StaticPie};
use miros::thread_local_storage::{
    initialize_thread_local_storage, tls_allocation_size, Lachesis,
};
use core::marker::PhantomData;

fn tls_header(p_offset: u64, p_filesz: u64, p_memsz: u64, p_align: u64) -> ProgramHeader {
    ProgramHeader {
        p_type: PT_TLS,
        p_flags: 0,
        p_offset,
        p_vaddr: 0,
        p_paddr: 0,
        p_filesz,
        p_memsz,
        p_align,
    }
}

fn baked_pie(base: u64, tls: Option<ProgramHeader>) -> StaticPie<Baked> {
    StaticPie {
        base_address: base,
        relocation_slices: RelocationSlices { rela_slice: Vec::new() },
        tls_program_header: tls,
        symbol_table: SymbolTable::new(Vec::new()),
        phantom_data: PhantomData,
    }
}

fn random_bytes() -> Vec<u8> {
    (1u8..=16).collect()
}

#[test]
fn tcb_constants_describe_the_layout() {
    assert_eq!(TCB_SIZE, 48);
    assert_eq!(TCB_ALIGN, 8);
}

#[test]
fn no_tls_header_means_no_allocation() {
    // Without PT_TLS the initializer performs no mapping and no thread
    // pointer installation.
    let image = MemoryImage::new(0x40_000, vec![0u8; 64]);
    let pie = baked_pie(0x40_000, None);
    let region = pie.allocate_tls_in_stomach(&image, 0, &random_bytes());
    assert!(region.is_none());
}

#[test]
fn tls_block_copies_template_and_zeroes_the_rest() {
    // PT_TLS with p_filesz = 16, p_memsz = 32, p_align = 32.
    let mut bytes = vec![0u8; 0x100];
    for i in 0..16 {
        bytes[0x40 + i] = (i as u8) + 1;
    }
    let image = MemoryImage::new(0x40_000, bytes);
    let tls = tls_header(0x40, 16, 32, 32);
    let region_address = 0x7000_0000u64;
    let region = initialize_thread_local_storage(&tls, &image, region_address, &random_bytes());

    for i in 0..16 {
        assert_eq!(region.tls_block[i], (i as u8) + 1);
    }
    for i in 16..32 {
        assert_eq!(region.tls_block[i], 0);
    }
    // The TCB sits at offset max(p_align, TCB alignment) + rounded block
    // size: max(32, 8) + 32 = 64.
    assert_eq!(region.tcb_and_tls_align, 32);
    assert_eq!(region.tls_blocks_size, 32);
    let tcb_address = region_address + 64;
    assert_eq!(region.tcb.thread_pointer_register, tcb_address);
    // The word a load from the thread pointer yields is the thread
    // pointer itself.
    assert_eq!(region.tcb.thread_pointer_register, tcb_address);
    assert_eq!(region.tcb.dynamic_thread_vector, 0);
    assert_eq!(region.tcb._padding, [0, 0, 0]);
}

#[test]
fn canary_is_the_first_word_of_the_random_bytes() {
    let image = MemoryImage::new(0x40_000, vec![7u8; 0x100]);
    let tls = tls_header(0, 8, 8, 8);
    let random = random_bytes();
    let region = initialize_thread_local_storage(&tls, &image, 0x1000, &random);
    let expected = u64::from_le_bytes([1, 2, 3, 4, 5, 6, 7, 8]);
    assert_eq!(region.tcb.canary, expected);
}

#[test]
fn allocation_size_sums_pad_blocks_and_tcb() {
    let tls = tls_header(0, 16, 33, 32);
    // pad = max(32, 8) = 32; blocks = round_up(33, 32) = 64; TCB = 48.
    assert_eq!(tls_allocation_size(&tls), 32 + 64 + 48);
}

#[test]
fn baked_pie_with_tls_builds_the_region() {
    let mut bytes = vec![0u8; 0x100];
    bytes[0x20] = 0xEE;
    let image = MemoryImage::new(0x40_000, bytes);
    let tls = tls_header(0x20, 1, 4, 8);
    let pie = baked_pie(0x40_000, Some(tls));
    let region = pie
        .allocate_tls_in_stomach(&image, 0x9000, &random_bytes())
        .expect("a TLS region");
    assert_eq!(region.tls_block, vec![0xEE, 0, 0, 0]);
    assert_eq!(region.tcb_and_tls_align, 8);
    assert_eq!(region.tls_blocks_size, 8);
    assert_eq!(region.tcb.thread_pointer_register, 0x9000 + 8 + 8);
}

#[test]
fn lachesis_measures_every_module() {
    let mut lachesis = Lachesis::new(random_bytes());
    let first_id = lachesis.push(vec![0xAA, 0xBB], tls_header(0, 2, 8, 8));
    let second_id = lachesis.push(vec![0xCC], tls_header(0, 1, 4, 16));
    assert_eq!(first_id, 1);
    assert_eq!(second_id, 2);

    let region_address = 0x2_0000u64;
    let region = lachesis.allocate(region_address);

    // Blocks: first at round_up(region + 8, 8) = region + 8; second at
    // round_up(region + 8 + 8, 16) = region + 16.
    assert_eq!(region.block_addresses, vec![region_address + 8, region_address + 16]);
    assert_eq!(region.tls_blocks[0], vec![0xAA, 0xBB, 0, 0, 0, 0, 0, 0]);
    assert_eq!(region.tls_blocks[1], vec![0xCC, 0, 0, 0]);
    // Reserved room: round_up(8, 8) + round_up(4, 16) = 8 + 16.
    assert_eq!(region.tls_blocks_size, 24);
    // TCB after pad and blocks; its vector pointer addresses the DTV's
    // generation word.
    let tcb_address = region_address + 8 + 24;
    assert_eq!(region.tcb.thread_pointer_register, tcb_address);
    assert_eq!(region.tcb.dynamic_thread_vector, tcb_address + 48 + 8);
    // DTV: [module count, generation, addr, gen, addr, gen].
    assert_eq!(
        region.dynamic_thread_vector,
        vec![2, 0, region_address + 8, 0, region_address + 16, 0]
    );
    let expected_canary = u64::from_le_bytes([1, 2, 3, 4, 5, 6, 7, 8]);
    assert_eq!(region.tcb.canary, expected_canary);
}
