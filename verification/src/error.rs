//! The errors of the pager.

use vstd::prelude::*;

verus! {

/// `std::io::Error`, carried through as an opaque value. Nothing is claimed
/// of what it holds.
#[verifier::external_type_specification]
#[verifier::external_body]
pub struct ExIoError(std::io::Error);

/// Everything that can go wrong while opening a store or moving a page.
#[derive(Debug)]
pub enum DBError {
    /// An underlying read, write, seek or open failed.
    Io(std::io::Error),
    /// A page size differs from the one that is required.
    InvalidPageSize { expected: u64, got: usize },
    /// The file does not start with the format's identifier.
    InvalidMagic,
    /// The header names a format version that is not supported.
    InvalidVersion,
    /// The header's page count is zero or claims more than the file holds.
    InvalidTotalPages,
    /// The file is too short to hold a header page.
    CorruptedFile,
    /// An existing store was asked for and the file does not exist.
    FileNotFound,
}

} // verus!
