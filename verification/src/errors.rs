//! Bootstrap failures.
//!
//! The runtime runs before any panic machinery or unwinder exists, so every
//! failure is fatal: the real process writes one diagnostic line to stderr
//! and exits with code 101. The library reports the same conditions as
//! values; the unverified shell around it prints the diagnostic and exits.

use vstd::prelude::*;
use vstd::string::StringExecFns;

verus! {

/// Exit code of a failed bootstrap.
pub const FATAL_EXIT_CODE: u8 = 101;

/// A fatal condition met while bootstrapping.
///
/// Structural failures (a misaligned stack, a missing `PT_DYNAMIC`, a null
/// RELA pointer beside a non-zero `DT_RELASZ`, an unknown relocation type)
/// are fatal in every build of the runtime; the entry-size mismatches are
/// the invariants a debug build checks.
#[derive(Clone, Copy, PartialEq, Eq, Structural, Debug)]
pub enum BootstrapError {
    /// The kernel-supplied stack pointer is not 16-byte aligned.
    MisalignedStackPointer,
    /// The word after the last argument pointer is not null.
    MissingArgumentTerminator,
    /// The startup context ends before its null terminators or `AT_NULL`.
    TruncatedStartupContext,
    /// A structure lies outside the mapped image.
    TruncatedImage,
    /// The ELF header does not mark the image `ET_DYN`.
    NotSharedObject,
    /// `e_phentsize` differs from the size of a program header record.
    ProgramHeaderSizeMismatch,
    /// No `PT_DYNAMIC` entry is present in the program-header table.
    MissingDynamicHeader,
    /// The dynamic array ends without a `DT_NULL` terminator.
    UnterminatedDynamicArray,
    /// `DT_RELASZ` is non-zero but no `DT_RELA` address was given.
    MissingRelaTable,
    /// `DT_RELAENT` differs from the size of a RELA record.
    RelaEntrySizeMismatch,
    /// `DT_SYMENT` differs from the size of a symbol record.
    SymbolEntrySizeMismatch,
    /// A relocation references a symbol but no `DT_SYMTAB` address was given.
    MissingSymbolTable,
    /// `AT_BASE` or `PT_PHDR` names a load address other than the image's.
    InconsistentImageBase,
    /// The dynamic array marks relocations against read-only text, which
    /// the self-relocation pass does not handle.
    TextRelocationsPresent,
    /// A relocation record carries a type the relocator does not apply.
    UnsupportedRelocation { index: usize, r_type: u32 },
    /// A relocation record's target word lies outside the image.
    RelocationOutOfBounds { index: usize },
    /// A relocation record's symbol index lies outside the symbol table.
    SymbolIndexOutOfRange { index: usize },
}

/// The one-line reason a diagnostic names for each failure.
pub open spec fn spec_message(e: BootstrapError) -> Seq<char> {
    match e {
        BootstrapError::MisalignedStackPointer => "misaligned stack pointer"@,
        BootstrapError::MissingArgumentTerminator => "argument vector is not null-terminated"@,
        BootstrapError::TruncatedStartupContext => "startup context is truncated"@,
        BootstrapError::TruncatedImage => "structure lies outside the image"@,
        BootstrapError::NotSharedObject => "image is not a shared object"@,
        BootstrapError::ProgramHeaderSizeMismatch => "program header entry size mismatch"@,
        BootstrapError::MissingDynamicHeader => "no PT_DYNAMIC program header"@,
        BootstrapError::UnterminatedDynamicArray => "dynamic array is not terminated"@,
        BootstrapError::MissingRelaTable => "null RELA pointer with non-zero RELASZ"@,
        BootstrapError::RelaEntrySizeMismatch => "RELA entry size mismatch"@,
        BootstrapError::SymbolEntrySizeMismatch => "symbol entry size mismatch"@,
        BootstrapError::MissingSymbolTable => "relocations name symbols but no symbol table"@,
        BootstrapError::InconsistentImageBase => "computed base differs from the load address"@,
        BootstrapError::TextRelocationsPresent => "text relocations are not supported"@,
        BootstrapError::UnsupportedRelocation { .. } => "unsupported relocation"@,
        BootstrapError::RelocationOutOfBounds { .. } => "relocation target outside the image"@,
        BootstrapError::SymbolIndexOutOfRange { .. } => "symbol index outside the symbol table"@,
    }
}

impl BootstrapError {
    /// The text of the diagnostic line written for this failure.
    pub fn message(&self) -> (r: String)
        ensures
            r@ == spec_message(*self),
    {
        match self {
            BootstrapError::MisalignedStackPointer => String::from_str("misaligned stack pointer"),
            BootstrapError::MissingArgumentTerminator => String::from_str(
                "argument vector is not null-terminated",
            ),
            BootstrapError::TruncatedStartupContext => String::from_str(
                "startup context is truncated",
            ),
            BootstrapError::TruncatedImage => String::from_str("structure lies outside the image"),
            BootstrapError::NotSharedObject => String::from_str("image is not a shared object"),
            BootstrapError::ProgramHeaderSizeMismatch => String::from_str(
                "program header entry size mismatch",
            ),
            BootstrapError::MissingDynamicHeader => String::from_str(
                "no PT_DYNAMIC program header",
            ),
            BootstrapError::UnterminatedDynamicArray => String::from_str(
                "dynamic array is not terminated",
            ),
            BootstrapError::MissingRelaTable => String::from_str(
                "null RELA pointer with non-zero RELASZ",
            ),
            BootstrapError::RelaEntrySizeMismatch => String::from_str("RELA entry size mismatch"),
            BootstrapError::SymbolEntrySizeMismatch => String::from_str(
                "symbol entry size mismatch",
            ),
            BootstrapError::MissingSymbolTable => String::from_str(
                "relocations name symbols but no symbol table",
            ),
            BootstrapError::InconsistentImageBase => String::from_str(
                "computed base differs from the load address",
            ),
            BootstrapError::TextRelocationsPresent => String::from_str(
                "text relocations are not supported",
            ),
            BootstrapError::UnsupportedRelocation { .. } => String::from_str(
                "unsupported relocation",
            ),
            BootstrapError::RelocationOutOfBounds { .. } => String::from_str(
                "relocation target outside the image",
            ),
            BootstrapError::SymbolIndexOutOfRange { .. } => String::from_str(
                "symbol index outside the symbol table",
            ),
        }
    }
}

} // verus!
