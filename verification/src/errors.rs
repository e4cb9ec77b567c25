//! Errors of the library.
use vstd::prelude::*;
use vstd::utf8::{decode_utf8, valid_utf8};

use crate::utils::str_from_utf8;

verus! {

/// Why a byte buffer could not be read as a nul-terminated C string.
#[derive(Debug, PartialEq, Eq)]
pub enum NulTermination {
    /// A nul byte was found before the end of the buffer, at this position.
    InteriorNul(usize),
    /// The buffer does not end with a nul byte.
    NotNulTerminated,
}

/// Where UTF-8 decoding stopped.
#[derive(Debug, PartialEq, Eq)]
pub struct Utf8Failure {
    /// Length of the longest prefix that is valid UTF-8.
    pub valid_up_to: usize,
    /// Length of the invalid sequence that follows it, or `None` when the
    /// input ended in the middle of a character.
    pub error_len: Option<usize>,
}

/// Errors met while moving strings across the C interface.
#[derive(Debug, PartialEq, Eq)]
pub enum FFIError {
    /// A string handed to C holds a nul byte at this position.
    Null(usize),
    /// A C string could not be turned into a Rust string.
    IntoString(Utf8Failure),
    /// A byte vector is not a valid C string.
    FromVec(NulTermination),
    /// A byte slice is not a valid C string.
    FromBytes(NulTermination),
    /// A C string is not valid UTF-8.
    Utf8Error(Utf8Failure),
}

/// An error reported by the CGNS library, with the message it gave.
#[derive(Debug, PartialEq, Eq)]
pub struct CGNSLibraryError(pub String);

/// What stands for a library message that is not valid UTF-8.
pub const UNREADABLE_MESSAGE: &'static str = "could not read CGNS error";

impl CGNSLibraryError {
    /// The error whose message the library wrote as the bytes `message`
    /// (its C string, without the nul byte); a message that is not valid
    /// UTF-8 is replaced by [`UNREADABLE_MESSAGE`].
    pub fn from_message_bytes(message: &[u8]) -> (r: Self)
        ensures
            valid_utf8(message@) ==> r.0@ == decode_utf8(message@),
            !valid_utf8(message@) ==> r.0@ == UNREADABLE_MESSAGE@,
    {
        match str_from_utf8(message) {
            Ok(s) => CGNSLibraryError(s.to_owned()),
            Err(_) => CGNSLibraryError(UNREADABLE_MESSAGE.to_owned()),
        }
    }

    /// The message of the library.
    pub fn msg(&self) -> (r: &str)
        ensures
            r@ == self.0@,
    {
        self.0.as_str()
    }
}

/// Errors found by the library itself in what it was asked to do.
#[derive(Debug, PartialEq, Eq)]
pub enum OtherError {
    /// A zone of this type cannot have a size for this index dimension.
    UnsupportedZone { zone_type: u32, dim: i32 },
    /// The offsets buffer has `len` entries; the section holds `size` elements.
    OffsetBufferLength { len: usize, size: i64 },
    /// The section needs an offsets buffer and none was given.
    MissingOffsetBuffer,
    /// The connectivity buffer has `len` entries instead of `expected`.
    ConnectivityBufferLength { len: usize, expected: i64 },
    /// Offsets can only be rebuilt for `MIXED`, `NGON_n` and `NFACE_n` sections.
    InvalidElementTypeForOffsets { elem_type: u32 },
    /// A `MIXED` connectivity names an element type that has no size.
    InvalidMixedElement { value: i64 },
    /// Only the first `GridCoordinates_t` node can have its children read.
    SingleGridCoordinates,
}

/// Every error of the library.
#[derive(Debug, PartialEq, Eq)]
pub enum CGNSError {
    /// Errors coming from the CGNS MLL
    CGNSLibError(CGNSLibraryError),
    /// Error during FFI type conversion
    FFIError(FFIError),
    /// Errors found by the library itself
    Other(OtherError),
}

} // verus!
