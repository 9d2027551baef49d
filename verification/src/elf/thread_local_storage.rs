//! The Thread Control Block.
//!
//! A fixed-layout header placed immediately after the static TLS blocks.
//! The x86-64 ABI requires its first word to point at the TCB itself, so
//! that a load from `fs:0` yields the thread pointer. The remaining fields
//! are the dynamic-thread-vector pointer (null while only the initial
//! thread's static TLS exists), reserved padding, and a stack canary drawn
//! from the kernel's `AT_RANDOM` bytes.

use vstd::prelude::*;

verus! {

/// Size in bytes of the Thread Control Block: four words of fields after
/// the zero-sized anchor the thread pointer addresses, plus the canary.
pub const TCB_SIZE: u64 = 48;

/// Alignment of the Thread Control Block.
pub const TCB_ALIGN: u64 = 8;

/// The Thread Control Block, with each stored word held as the value the
/// initializer writes to it.
#[derive(Clone, Copy, Debug)]
pub struct ThreadControlBlock {
    /// Self-pointer stored at offset 0: the address of the TCB itself.
    pub thread_pointer_register: u64,
    /// Address of the dynamic thread vector; null in the static case.
    pub dynamic_thread_vector: u64,
    /// Reserved padding words, written as zero.
    pub _padding: [u64; 3],
    /// Stack canary: the first machine word of the `AT_RANDOM` bytes.
    pub canary: u64,
}

} // verus!
