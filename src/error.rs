use vstd::prelude::*;

verus! {

/// Why a buffer could not be decoded. Every error aborts the whole parse.
#[derive(Debug, Clone, Copy, PartialEq, Eq, Structural)]
pub enum ParseError {
    /// A magic number, a version or a tag does not have an accepted value.
    FormatError,
    /// A declared length disagrees with a fixed or required size.
    SizeMismatch,
    /// Fewer bytes remain than a read needs.
    TruncatedInput,
    /// A symbol-table index has no symbol name behind it.
    UnresolvedSymbol,
    /// A fatbinary entry is neither textual code nor an ELF image.
    UnsupportedEntryKind,
}

} // verus!
