//! The TLS initializer.
//!
//! When the image carries a `PT_TLS` segment, the bootstrap lays out one
//! anonymous read-write mapping as
//!
//! ```text
//! | alignment pad | static TLS block(s) | Thread Control Block |
//! ```
//!
//! the TLS block aligned to the template's `p_align`, its first
//! `p_filesz` bytes copied from the template image and the rest zeroed,
//! and the thread-pointer register installed to address the TCB. The
//! mapping itself and the `arch_prctl` call are raw syscalls outside the
//! model; the functions here take the address the mapping returned and
//! produce the exact bytes and fields the initializer writes through it.

use vstd::prelude::*;
use crate::bytes::{word_at, read_word};
use crate::image::MemoryImage;
use crate::elf::program_header::{ProgramHeader, PT_TLS};
use crate::elf::thread_local_storage::{ThreadControlBlock, TCB_SIZE, TCB_ALIGN};
use crate::linux::page_size::{spec_is_power_of_two, spec_round_up};
use crate::static_pie::round_up_to_boundary;

verus! {

/// The alignment of the whole region: the TLS template's alignment, or
/// the TCB's where that is larger.
pub open spec fn spec_tcb_and_tls_align(p_align: u64) -> u64 {
    if p_align > TCB_ALIGN {
        p_align
    } else {
        TCB_ALIGN
    }
}

/// The bytes of the initialized TLS block: the template's `p_filesz`
/// bytes, then zeros up to `p_memsz`.
pub open spec fn spec_tls_block(template: Seq<u8>, tls: ProgramHeader) -> Seq<u8> {
    Seq::new(
        tls.p_memsz as nat,
        |i: int|
            if i < tls.p_filesz {
                template[tls.p_offset + i]
            } else {
                0u8
            },
    )
}

/// The initial thread's static TLS region, as the values the initializer
/// writes into the mapping at `region_address`.
pub struct TlsRegion {
    /// The address the anonymous mapping returned.
    pub region_address: u64,
    /// Alignment of the region: `max(p_align, TCB alignment)`.
    pub tcb_and_tls_align: u64,
    /// Size of the TLS blocks, `p_memsz` rounded up to `p_align`.
    pub tls_blocks_size: u64,
    /// The bytes of the TLS block, `p_memsz` of them.
    pub tls_block: Vec<u8>,
    /// The Thread Control Block placed after the TLS blocks.
    pub tcb: ThreadControlBlock,
}

impl TlsRegion {
    /// The address of the TLS block: the region plus its alignment pad.
    pub open spec fn tls_block_address(&self) -> int {
        self.region_address + self.tcb_and_tls_align
    }

    /// The address of the TCB, directly after the TLS blocks.
    pub open spec fn tcb_address(&self) -> int {
        self.region_address + self.tcb_and_tls_align + self.tls_blocks_size
    }

    /// The value installed in the thread-pointer register: the TCB's
    /// address.
    pub open spec fn thread_pointer(&self) -> int {
        self.tcb_address()
    }

    /// The machine word a load from the thread pointer yields after
    /// installation: the TCB's first field.
    pub open spec fn word_at_thread_pointer(&self) -> u64 {
        self.tcb.thread_pointer_register
    }
}

/// The size of the mapping the TLS initializer requests: alignment pad,
/// rounded TLS block, and the TCB.
pub fn tls_allocation_size(tls: &ProgramHeader) -> (r: u64)
    requires
        spec_is_power_of_two(tls.p_align),
        tls.p_memsz + tls.p_align - 1 <= u64::MAX,
        spec_tcb_and_tls_align(tls.p_align) + spec_round_up(
            tls.p_memsz as int,
            tls.p_align as int,
        ) + TCB_SIZE <= u64::MAX,
    ensures
        r == spec_tcb_and_tls_align(tls.p_align) + spec_round_up(
            tls.p_memsz as int,
            tls.p_align as int,
        ) + TCB_SIZE,
{
    let tcb_and_tls_align = if tls.p_align > TCB_ALIGN {
        tls.p_align
    } else {
        TCB_ALIGN
    };
    let tls_blocks_size = round_up_to_boundary(tls.p_memsz, tls.p_align);
    tcb_and_tls_align + tls_blocks_size + TCB_SIZE
}

/// Builds the initial thread's TLS region inside the mapping at
/// `region_address`: copies `p_filesz` template bytes out of the image,
/// zeroes the block up to `p_memsz`, and fills the TCB with its
/// self-pointer, a null dynamic-thread-vector pointer, zero padding, and
/// a canary drawn from the first machine word of the `AT_RANDOM` bytes.
pub fn initialize_thread_local_storage(
    tls: &ProgramHeader,
    image: &MemoryImage,
    region_address: u64,
    pseudorandom_bytes: &Vec<u8>,
) -> (r: TlsRegion)
    requires
        tls.p_type == PT_TLS,
        spec_is_power_of_two(tls.p_align),
        tls.p_filesz <= tls.p_memsz,
        tls.p_offset + tls.p_filesz <= image.spec_len(),
        pseudorandom_bytes@.len() >= 8,
        tls.p_memsz + tls.p_align - 1 <= u64::MAX,
        region_address % spec_tcb_and_tls_align(tls.p_align) == 0,
        region_address + spec_tcb_and_tls_align(tls.p_align) + spec_round_up(
            tls.p_memsz as int,
            tls.p_align as int,
        ) + TCB_SIZE <= u64::MAX,
    ensures
        r.region_address == region_address,
        r.tcb_and_tls_align == spec_tcb_and_tls_align(tls.p_align),
        r.tls_blocks_size == spec_round_up(tls.p_memsz as int, tls.p_align as int),
        r.tls_block@.len() == tls.p_memsz,
        r.tls_block@ == spec_tls_block(image.bytes@, *tls),
        forall|i: int|
            0 <= i < tls.p_filesz ==> r.tls_block@[i] == image.bytes@[tls.p_offset + i],
        forall|i: int| tls.p_filesz <= i < tls.p_memsz ==> r.tls_block@[i] == 0,
        r.tcb.thread_pointer_register == r.tcb_address(),
        r.word_at_thread_pointer() == r.thread_pointer(),
        r.tcb.dynamic_thread_vector == 0,
        r.tcb._padding[0] == 0 && r.tcb._padding[1] == 0 && r.tcb._padding[2] == 0,
        r.tcb.canary == word_at(pseudorandom_bytes@, 0),
{
    let tcb_and_tls_align = if tls.p_align > TCB_ALIGN {
        tls.p_align
    } else {
        TCB_ALIGN
    };
    let tls_blocks_size = round_up_to_boundary(tls.p_memsz, tls.p_align);

    let mut tls_block = image.read_bytes(tls.p_offset, tls.p_filesz);
    let mut i: u64 = tls.p_filesz;
    while i < tls.p_memsz
        invariant
            tls.p_filesz <= i <= tls.p_memsz,
            tls_block@.len() == i,
            forall|j: int|
                0 <= j < tls.p_filesz ==> tls_block@[j] == image.bytes@[tls.p_offset + j],
            forall|j: int| tls.p_filesz <= j < i ==> tls_block@[j] == 0,
        decreases tls.p_memsz - i,
    {
        tls_block.push(0);
        i += 1;
    }

    let tcb_address = region_address + tcb_and_tls_align + tls_blocks_size;
    let canary = read_word(pseudorandom_bytes, 0);
    let tcb = ThreadControlBlock {
        thread_pointer_register: tcb_address,
        dynamic_thread_vector: 0,
        _padding: [0, 0, 0],
        canary,
    };
    let r = TlsRegion {
        region_address,
        tcb_and_tls_align,
        tls_blocks_size,
        tls_block,
        tcb,
    };
    proof {
        assert(r.tls_block@ =~= spec_tls_block(image.bytes@, *tls));
    }
    r
}

/// One loaded object's TLS template: the `p_filesz` template bytes read
/// out of its image, and the `PT_TLS` header describing the block.
pub struct LachesisModule {
    /// The template bytes, `p_filesz` of them.
    pub template: Vec<u8>,
    /// The module's `PT_TLS` program header.
    pub header: ProgramHeader,
}

/// The bytes of one module's initialized TLS block: its template, then
/// zeros up to `p_memsz`.
pub open spec fn spec_module_block(template: Seq<u8>, header: ProgramHeader) -> Seq<u8> {
    Seq::new(
        header.p_memsz as nat,
        |i: int|
            if i < header.p_filesz {
                template[i]
            } else {
                0u8
            },
    )
}

/// A module's well-formedness for TLS allocation.
pub open spec fn spec_module_wf(m: LachesisModule) -> bool {
    &&& m.header.p_type == PT_TLS
    &&& spec_is_power_of_two(m.header.p_align)
    &&& m.header.p_filesz <= m.header.p_memsz
    &&& m.template@.len() == m.header.p_filesz
}

/// An upper bound on the addresses the block layout walks past: each
/// module consumes at most its alignment plus its memory size.
pub open spec fn spec_lachesis_footprint(modules: Seq<LachesisModule>) -> int
    decreases modules.len(),
{
    if modules.len() == 0 {
        0
    } else {
        spec_lachesis_footprint(modules.drop_last()) + modules.last().header.p_align
            + modules.last().header.p_memsz
    }
}

/// The sum of the modules' block sizes, each rounded up to its own
/// alignment: the room the allocation reserves for the blocks.
pub open spec fn spec_lachesis_blocks_size(modules: Seq<LachesisModule>) -> int
    decreases modules.len(),
{
    if modules.len() == 0 {
        0
    } else {
        spec_lachesis_blocks_size(modules.drop_last()) + spec_round_up(
            modules.last().header.p_memsz as int,
            modules.last().header.p_align as int,
        )
    }
}

/// The footprint is never negative.
proof fn lemma_footprint_nonneg(modules: Seq<LachesisModule>)
    ensures
        spec_lachesis_footprint(modules) >= 0,
    decreases modules.len(),
{
    if modules.len() > 0 {
        lemma_footprint_nonneg(modules.drop_last());
    }
}

/// A prefix of the modules never has the larger footprint.
proof fn lemma_footprint_take(modules: Seq<LachesisModule>, m: int)
    requires
        0 <= m <= modules.len(),
    ensures
        spec_lachesis_footprint(modules.take(m)) <= spec_lachesis_footprint(modules),
    decreases modules.len() - m,
{
    if m < modules.len() {
        lemma_footprint_take(modules.drop_last(), m);
        assert(modules.drop_last().take(m) =~= modules.take(m));
        assert(spec_lachesis_footprint(modules) >= spec_lachesis_footprint(modules.drop_last()));
    } else {
        assert(modules.take(m) =~= modules);
    }
}

/// The static TLS region for every loaded module's template, as the
/// values written into the mapping at `region_address`:
///
/// ```text
/// | pad | TLS blocks, each aligned to its p_align | TCB | DTV |
/// ```
///
/// The dynamic thread vector holds the module count and a generation
/// word, then an address word and a generation word per module.
pub struct LachesisRegion {
    /// The address the anonymous mapping returned.
    pub region_address: u64,
    /// Room reserved for the TLS blocks: the sum of the rounded block
    /// sizes.
    pub tls_blocks_size: u64,
    /// Each module's initialized block bytes, in push order.
    pub tls_blocks: Vec<Vec<u8>>,
    /// Each module's block address, in push order.
    pub block_addresses: Vec<u64>,
    /// The dynamic thread vector's words.
    pub dynamic_thread_vector: Vec<u64>,
    /// The Thread Control Block placed after the TLS blocks.
    pub tcb: ThreadControlBlock,
}

impl LachesisRegion {
    /// The address of the TCB, after the alignment pad and the blocks.
    pub open spec fn tcb_address(&self) -> int {
        self.region_address + TCB_ALIGN + self.tls_blocks_size
    }

    /// The address of the dynamic thread vector, after the TCB.
    pub open spec fn dtv_address(&self) -> int {
        self.tcb_address() + TCB_SIZE
    }

    /// The value installed in the thread-pointer register.
    pub open spec fn thread_pointer(&self) -> int {
        self.tcb_address()
    }
}

/// Measures the static TLS each loaded object asked for, then lays the
/// whole region out in one allocation. The name is first used by dryad,
/// an earlier dynamic linker written in Rust, after the middle of the
/// Three Fates, who measures each thread of life.
pub struct Lachesis {
    /// The sixteen `AT_RANDOM` bytes the canary is drawn from.
    pub pseudorandom_bytes: Vec<u8>,
    /// The modules' TLS templates, in push order.
    pub tls_program_headers: Vec<LachesisModule>,
}

impl Lachesis {
    /// Starts measuring, with the canary's source bytes in hand.
    pub fn new(pseudorandom_bytes: Vec<u8>) -> (r: Lachesis)
        ensures
            r.pseudorandom_bytes@ == pseudorandom_bytes@,
            r.tls_program_headers@.len() == 0,
    {
        Lachesis { pseudorandom_bytes, tls_program_headers: Vec::new() }
    }

    /// Registers one module's TLS template; returns the module count so
    /// far, which serves as the module's TLS id.
    pub fn push(&mut self, template: Vec<u8>, tls_program_header: ProgramHeader) -> (r: usize)
        requires
            tls_program_header.p_type == PT_TLS,
            template@.len() == tls_program_header.p_filesz,
            old(self).tls_program_headers@.len() < usize::MAX,
        ensures
            final(self).pseudorandom_bytes@ == old(self).pseudorandom_bytes@,
            final(self).tls_program_headers@ == old(self).tls_program_headers@.push(
                LachesisModule { template, header: tls_program_header },
            ),
            r == old(self).tls_program_headers@.len() + 1,
    {
        self.tls_program_headers.push(
            LachesisModule { template, header: tls_program_header },
        );
        self.tls_program_headers.len()
    }

    /// Lays out and fills the whole static TLS region inside the mapping
    /// at `region_address`: each block aligned to its own `p_align` and
    /// filled from its template, the TCB after the blocks with its
    /// self-pointer and canary, and the dynamic thread vector after the
    /// TCB, the TCB's vector pointer addressing its first generation
    /// word.
    pub fn allocate(self, region_address: u64) -> (r: LachesisRegion)
        requires
            self.pseudorandom_bytes@.len() >= 8,
            forall|m: int|
                0 <= m < self.tls_program_headers@.len() ==> spec_module_wf(
                    #[trigger] self.tls_program_headers@[m],
                ),
            2 + 2 * self.tls_program_headers@.len() <= usize::MAX,
            region_address + TCB_ALIGN + spec_lachesis_footprint(self.tls_program_headers@)
                + TCB_SIZE + 16 + 16 * self.tls_program_headers@.len() <= u64::MAX,
        ensures
            r.region_address == region_address,
            r.tls_blocks_size == spec_lachesis_blocks_size(self.tls_program_headers@),
            r.tls_blocks@.len() == self.tls_program_headers@.len(),
            forall|m: int|
                0 <= m < self.tls_program_headers@.len() ==> (#[trigger] r.tls_blocks@[m])@
                    == spec_module_block(
                    self.tls_program_headers@[m].template@,
                    self.tls_program_headers@[m].header,
                ),
            r.block_addresses@.len() == self.tls_program_headers@.len(),
            self.tls_program_headers@.len() > 0 ==> r.block_addresses@[0] == spec_round_up(
                region_address + TCB_ALIGN,
                self.tls_program_headers@[0].header.p_align as int,
            ),
            forall|m: int|
                1 <= m < self.tls_program_headers@.len() ==> r.block_addresses@[m]
                    == spec_round_up(
                    #[trigger] r.block_addresses@[m - 1]
                        + self.tls_program_headers@[m - 1].header.p_memsz,
                    self.tls_program_headers@[m].header.p_align as int,
                ),
            forall|m: int|
                0 <= m < self.tls_program_headers@.len() ==> (#[trigger] r.block_addresses@[m])
                    % self.tls_program_headers@[m].header.p_align == 0,
            r.dynamic_thread_vector@.len() == 2 + 2 * self.tls_program_headers@.len(),
            r.dynamic_thread_vector@[0] == self.tls_program_headers@.len(),
            r.dynamic_thread_vector@[1] == 0,
            forall|m: int|
                0 <= m < self.tls_program_headers@.len() ==> r.dynamic_thread_vector@[2 + 2 * m]
                    == #[trigger] r.block_addresses@[m] && r.dynamic_thread_vector@[3 + 2 * m]
                    == 0,
            r.tcb.thread_pointer_register == r.tcb_address(),
            r.tcb.dynamic_thread_vector == r.dtv_address() + 8,
            r.tcb._padding[0] == 0 && r.tcb._padding[1] == 0 && r.tcb._padding[2] == 0,
            r.tcb.canary == word_at(self.pseudorandom_bytes@, 0),
    {
        let module_count = self.tls_program_headers.len();
        let ghost modules = self.tls_program_headers@;
        proof {
            lemma_footprint_nonneg(modules);
            assert(modules.take(0) =~= Seq::<LachesisModule>::empty());
        }

        let mut tls_blocks: Vec<Vec<u8>> = Vec::new();
        let mut block_addresses: Vec<u64> = Vec::new();
        let mut tls_blocks_size: u64 = 0;
        let mut cursor: u64 = region_address + TCB_ALIGN;
        let mut m: usize = 0;
        while m < module_count
            invariant
                0 <= m <= module_count,
                module_count == modules.len(),
                self.tls_program_headers@ == modules,
                forall|j: int| 0 <= j < modules.len() ==> spec_module_wf(#[trigger] modules[j]),
                region_address + TCB_ALIGN + spec_lachesis_footprint(modules) <= u64::MAX,
                cursor <= region_address + TCB_ALIGN + spec_lachesis_footprint(
                    modules.take(m as int),
                ),
                region_address + TCB_ALIGN <= cursor,
                tls_blocks_size == spec_lachesis_blocks_size(modules.take(m as int)),
                tls_blocks_size <= spec_lachesis_footprint(modules.take(m as int)),
                tls_blocks@.len() == m,
                forall|j: int|
                    0 <= j < m ==> (#[trigger] tls_blocks@[j])@ == spec_module_block(
                        modules[j].template@,
                        modules[j].header,
                    ),
                block_addresses@.len() == m,
                m > 0 ==> block_addresses@[0] == spec_round_up(
                    region_address + TCB_ALIGN,
                    modules[0].header.p_align as int,
                ),
                forall|j: int|
                    1 <= j < m ==> block_addresses@[j] == spec_round_up(
                        #[trigger] block_addresses@[j - 1] + modules[j - 1].header.p_memsz,
                        modules[j].header.p_align as int,
                    ),
                forall|j: int|
                    0 <= j < m ==> (#[trigger] block_addresses@[j]) % modules[j].header.p_align
                        == 0,
                m > 0 ==> cursor == block_addresses@[m - 1] + modules[m - 1].header.p_memsz,
            decreases module_count - m,
        {
            proof {
                lemma_footprint_take(modules, m as int);
                lemma_footprint_take(modules, m + 1);
                let t = modules.take(m + 1);
                assert(t.drop_last() =~= modules.take(m as int));
                assert(t.last() == modules[m as int]);
            }
            let module = &self.tls_program_headers[m];
            let start = round_up_to_boundary(cursor, module.header.p_align);

            let mut block: Vec<u8> = Vec::new();
            let mut i: usize = 0;
            while i < module.template.len()
                invariant
                    0 <= i <= module.template@.len(),
                    block@ == module.template@.take(i as int),
                decreases module.template@.len() - i,
            {
                block.push(module.template[i]);
                proof {
                    assert(block@ =~= module.template@.take(i + 1));
                }
                i += 1;
            }
            proof {
                assert(module.template@.take(module.template@.len() as int)
                    =~= module.template@);
            }
            let mut z: u64 = module.header.p_filesz;
            while z < module.header.p_memsz
                invariant
                    module.header.p_filesz <= z <= module.header.p_memsz,
                    block@.len() == z,
                    forall|j: int|
                        0 <= j < module.header.p_filesz ==> block@[j] == module.template@[j],
                    forall|j: int| module.header.p_filesz <= j < z ==> block@[j] == 0,
                decreases module.header.p_memsz - z,
            {
                block.push(0);
                z += 1;
            }
            proof {
                assert(block@ =~= spec_module_block(module.template@, module.header));
            }
            tls_blocks.push(block);
            block_addresses.push(start);
            let rounded = round_up_to_boundary(module.header.p_memsz, module.header.p_align);
            tls_blocks_size = tls_blocks_size + rounded;
            cursor = start + module.header.p_memsz;
            m += 1;
        }
        proof {
            assert(modules.take(modules.len() as int) =~= modules);
        }

        let tcb_address = region_address + TCB_ALIGN + tls_blocks_size;
        let dtv_address = tcb_address + TCB_SIZE;

        let mut dynamic_thread_vector: Vec<u64> = Vec::new();
        dynamic_thread_vector.push(module_count as u64);
        dynamic_thread_vector.push(0);
        let mut d: usize = 0;
        while d < module_count
            invariant
                0 <= d <= module_count,
                module_count == modules.len(),
                block_addresses@.len() == module_count,
                dynamic_thread_vector@.len() == 2 + 2 * d,
                dynamic_thread_vector@[0] == modules.len(),
                dynamic_thread_vector@[1] == 0,
                forall|j: int|
                    0 <= j < d ==> dynamic_thread_vector@[2 + 2 * j]
                        == #[trigger] block_addresses@[j] && dynamic_thread_vector@[3 + 2 * j]
                        == 0,
            decreases module_count - d,
        {
            let ghost dtv_before = dynamic_thread_vector@;
            dynamic_thread_vector.push(block_addresses[d]);
            dynamic_thread_vector.push(0);
            proof {
                assert forall|j: int| 0 <= j < d + 1 implies dynamic_thread_vector@[2 + 2 * j]
                    == #[trigger] block_addresses@[j] && dynamic_thread_vector@[3 + 2 * j]
                    == 0 by {
                    if j < d {
                        assert(dynamic_thread_vector@[2 + 2 * j] == dtv_before[2 + 2 * j]);
                        assert(dynamic_thread_vector@[3 + 2 * j] == dtv_before[3 + 2 * j]);
                    } else {
                        assert(dynamic_thread_vector@[2 + 2 * j] == dtv_before.push(
                            block_addresses@[d as int],
                        )[2 + 2 * d]);
                    }
                }
            }
            d += 1;
        }

        let canary = read_word(&self.pseudorandom_bytes, 0);
        let tcb = ThreadControlBlock {
            thread_pointer_register: tcb_address,
            dynamic_thread_vector: dtv_address + 8,
            _padding: [0, 0, 0],
            canary,
        };
        LachesisRegion {
            region_address,
            tls_blocks_size,
            tls_blocks,
            block_addresses,
            dynamic_thread_vector,
            tcb,
        }
    }
}

} // verus!
