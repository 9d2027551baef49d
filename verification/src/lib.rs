//! A verified model of a freestanding dynamic linker/loader for ELF shared
//! objects on Linux/x86-64.
//!
//! The kernel maps an ELF image and hands control to an entry stub with the
//! raw stack pointer; the runtime must then decode the startup context,
//! discover its own ELF metadata, apply x86-64 relocations in place, and
//! build the initial thread's TLS block and Thread Control Block.
//!
//! Machine memory is modelled explicitly: the mapped image is a byte vector
//! together with its load address ([`image::MemoryImage`]), and the startup
//! stack is a vector of machine words. Every parsing, relocation and layout
//! step is a verified function over that model; the raw syscall and
//! inline-assembly primitives that a real bootstrap needs live outside the
//! library and are represented here only by the values they produce (the
//! address an anonymous mapping returned, the words found on the stack).

pub mod bytes;
pub mod elf;
pub mod errors;
pub mod global_allocator;
pub mod image;
pub mod linux;
pub mod relocator;
pub mod shared_object;
pub mod static_pie;
pub mod thread_local_storage;
