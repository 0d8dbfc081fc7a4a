//! Error types for ROOT file operations.

use vstd::prelude::*;

verus! {

/// Errors that can occur when working with ROOT files.
///
/// Every decoder function reports failure through one of these variants:
/// - `Io`: an underlying file read or seek failed (raised by callers that
///   perform I/O; the in-memory decoder itself never raises it),
/// - `InvalidFormat`: magic mismatch, a short read, a structural byte-count
///   mismatch, invalid UTF-8 in a string field, or a missing NUL terminator
///   within a C-string cap,
/// - `UnsupportedVersion`: a version word above the decoder's tested range,
/// - `KeyNotFound`: a requested object name has no directory entry,
/// - `ParseError`: an envelope byte count that disagrees with the body length,
///   inconsistent class-tag high bits, or a class-name table back-reference
///   that resolves to no entry,
/// - `CompressionError`: the decompressor rejected a block,
/// - `DataTypeError`: an element descriptor carries a type code this decoder
///   does not implement.
#[derive(Debug, Clone, PartialEq, Eq)]
pub enum RootError {
    Io(String),
    InvalidFormat(String),
    UnsupportedVersion(u32),
    KeyNotFound(String),
    ParseError(String),
    CompressionError(String),
    DataTypeError(String),
}

} // verus!
