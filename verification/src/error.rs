//! The failures that the library reports to its callers.

use vstd::prelude::*;

verus! {

/// Why an operation of the library could not deliver its result.
#[derive(Clone, Copy, Debug, PartialEq, Eq, Structural)]
pub enum ValetError {
    /// A file that was asked for does not exist.
    NotFound,
    /// A file exists but could not be read.
    IoError,
    /// A document is not JSON, or not of the shape that is expected of it.
    FormatError,
    /// A picture file could not be read or decoded into a raster.
    DecodeError,
    /// A picture was decoded, but its width differs from its height.
    NotSquare,
}

/// What became of an attempt to read a whole file. The caller performs the
/// read and reports its outcome with one of these values.
#[derive(Debug)]
pub enum FileOutcome {
    /// The file was read; these are its bytes.
    Contents(Vec<u8>),
    /// The file does not exist.
    Missing,
    /// The file exists but reading it failed.
    Unreadable,
}

} // verus!
