use vstd::prelude::*;

verus! {

/// Why a font could not be decoded. Every failure aborts the whole load.
#[derive(Debug, Clone, Copy, PartialEq, Eq, Structural)]
pub enum FontError {
    /// The underlying byte source could not be read.
    IoFailure,
    /// A table ends before its fixed layout does.
    TruncatedTable,
    /// The table directory does not fit in the source, or lacks a table the
    /// decoder needs.
    MalformedDirectory,
    /// The `cmap` version is not 0.
    UnsupportedCmapVersion,
    /// No `cmap` encoding record has a supported platform and encoding.
    NoSupportedEncoding,
    /// The selected `cmap` subtable is not in format 4.
    UnsupportedCmapFormat,
}

} // verus!
