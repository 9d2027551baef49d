//! Typed views over the ELF structures the bootstrap reads: the ELF
//! header, the program-header table, the dynamic array, the relocation
//! table, the symbol table, the string table, and the Thread Control
//! Block the TLS initializer lays out.

pub mod dynamic_array;
pub mod header;
pub mod program_header;
pub mod relocate;
pub mod string_table;
pub mod symbol;
pub mod thread_local_storage;
