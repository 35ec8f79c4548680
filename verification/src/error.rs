//! The ways in which surgical linking can fail.

use vstd::prelude::*;

verus! {

/// Why a pass was abandoned. No output is usable after any of these.
#[derive(Debug, Clone, Copy, PartialEq, Eq, Structural)]
pub enum LinkError {
    /// A header, a table or a patch site does not lie inside the file.
    OutOfBounds,
    /// An address computation does not fit in 64 bits.
    ArithmeticOverflow,
    /// The load alignment of the executable is zero.
    ZeroAlignment,
    /// The input could not be read as an object file.
    InvalidObject,
    /// A required section (dynamic table, dynamic string table, symbol table,
    /// dynamic symbol table, procedure linkage table) is missing.
    MissingSection,
    /// A section that must be patched byte by byte is compressed.
    CompressedSection,
    /// The executable carries no dynamic relocations, so there is nothing to link.
    NoDynamicRelocations,
    /// The placeholder library is not listed as a dependency of the executable.
    SharedLibNotFound,
    /// A name in the dynamic string table is not valid text.
    InvalidName,
    /// A far branch was found in the code of the host.
    UnsupportedBranch,
    /// A branch to an application function has an operand of unsupported width.
    UnsupportedOperand,
    /// The instruction decoder made no progress.
    UndecodableInstruction,
    /// The executable is not a 64-bit little-endian ELF file.
    UnsupportedFormat,
    /// Big-endian hosts are not implemented.
    BigEndianUnsupported,
    /// The object has no code sections.
    NoTextSections,
    /// A section that occupies file space has different sizes on disk and in memory.
    SectionSizeMismatch,
    /// A relocation does not refer to a symbol.
    UnsupportedRelocationTarget,
    /// A relocation is neither relative, PLT-relative nor absolute.
    UnsupportedRelocationKind,
    /// A relocation is neither 32 nor 64 bits wide.
    UnsupportedRelocationSize,
    /// A relocation refers to a symbol that neither the application nor the host defines.
    UndefinedSymbol,
    /// The application does not define a function that the host requires.
    MissingAppFunction,
    /// A patch site is neither 4 nor 8 bytes wide.
    UnsupportedSurgerySize,
    /// A load-time relocation of the host has a negative addend.
    NegativeAddend,
    /// A patch site was found for a name that has no list of patch sites.
    UnknownSymbol,
    /// No segment of the executable is loaded from file offset zero; most
    /// likely the wrong file was given as the executable.
    NoLoadAtZero,
}

impl LinkError {
    /// True for failures that the user can act on (a wrong file was
    /// supplied); false for inputs whose shape this library does not support.
    pub open spec fn user_actionable(self) -> bool {
        self == LinkError::NoLoadAtZero
    }

    /// True for failures that the user can act on.
    pub fn is_user_error(&self) -> (r: bool)
        ensures
            r == self.user_actionable(),
    {
        match self {
            LinkError::NoLoadAtZero => true,
            _ => false,
        }
    }
}

} // verus!
