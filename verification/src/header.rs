//! The header: the record at the start of the first page.
//!
//! Layout, all integers little-endian:
//!
//! | bytes  | field                                   |
//! |--------|-----------------------------------------|
//! | 0..8   | the identifier `"BDBEE\0\0\0"`          |
//! | 8..16  | format version                          |
//! | 16..24 | page size in bytes                      |
//! | 24..32 | number of pages, the header page among them |
//!
//! The rest of the first page is zero.

use vstd::prelude::*;
use crate::bytes::{le_byte, le_u64, read_u64_le, write_u64_le};
use crate::error::DBError;

verus! {

/// Number of bytes that the header's fields take.
pub const HEADER_LEN: usize = 32;

/// The one format version that is supported.
pub const FORMAT_VERSION: u64 = 1;

/// The identifier that every store begins with: `"BDBEE\0\0\0"`.
pub open spec fn magic() -> Seq<u8> {
    seq![0x42u8, 0x44u8, 0x42u8, 0x45u8, 0x45u8, 0u8, 0u8, 0u8]
}

/// A header as it stands in a file, valid or not.
#[derive(Debug, Clone, Copy)]
pub struct Header {
    pub magic: [u8; 8],
    pub version: u64,
    pub page_size: u64,
    pub total_pages: u64,
}

/// The mathematical value of a `Header`.
pub struct HeaderView {
    pub magic: Seq<u8>,
    pub version: u64,
    pub page_size: u64,
    pub total_pages: u64,
}

impl View for Header {
    type V = HeaderView;

    open spec fn view(&self) -> HeaderView {
        HeaderView {
            magic: self.magic@,
            version: self.version,
            page_size: self.page_size,
            total_pages: self.total_pages,
        }
    }
}

impl HeaderView {
    /// The header of a store that was just created with pages of
    /// `page_size` bytes: it holds the header page and nothing else.
    pub open spec fn fresh(page_size: u64) -> HeaderView {
        HeaderView { magic: magic(), version: FORMAT_VERSION, page_size, total_pages: 1 }
    }

    /// Byte `i` of the first page of a store with this header.
    pub open spec fn byte_at(self, i: int) -> u8 {
        if i < 8 {
            self.magic[i]
        } else if i < 16 {
            le_byte(self.version, i - 8)
        } else if i < 24 {
            le_byte(self.page_size, i - 16)
        } else if i < 32 {
            le_byte(self.total_pages, i - 24)
        } else {
            0
        }
    }

    /// The first `len` bytes of the first page: the fields, then zeros.
    pub open spec fn image(self, len: int) -> Seq<u8> {
        Seq::new(len as nat, |i: int| self.byte_at(i))
    }

    /// The header that the first `HEADER_LEN` bytes of `b` spell.
    pub open spec fn parse(b: Seq<u8>) -> HeaderView {
        HeaderView {
            magic: b.subrange(0, 8),
            version: le_u64(b, 8) as u64,
            page_size: le_u64(b, 16) as u64,
            total_pages: le_u64(b, 24) as u64,
        }
    }

    /// Whether a store with this header may be used with pages of
    /// `requested` bytes, given that its file holds `file_len` bytes; if not,
    /// the first rule that it breaks, in the order identifier, version, page
    /// size, page count.
    pub open spec fn check(self, requested: u64, file_len: u64) -> Result<(), DBError> {
        if self.magic != magic() {
            Err(DBError::InvalidMagic)
        } else if self.version != FORMAT_VERSION {
            Err(DBError::InvalidVersion)
        } else if self.page_size != requested {
            Err(DBError::InvalidPageSize { expected: requested, got: self.page_size as usize })
        } else if self.total_pages < 1 || self.total_pages * self.page_size > file_len {
            Err(DBError::InvalidTotalPages)
        } else {
            Ok(())
        }
    }
}

impl Header {
    /// The header of a store that was just created.
    pub fn new(page_size: u64) -> (h: Header)
        ensures
            h@ == HeaderView::fresh(page_size),
    {
        let h = Header {
            magic: [0x42u8, 0x44u8, 0x42u8, 0x45u8, 0x45u8, 0u8, 0u8, 0u8],
            version: FORMAT_VERSION,
            page_size,
            total_pages: 1,
        };
        assert(h.magic@ =~= magic());
        h
    }

    /// The first `len` bytes of the first page of a store with this header.
    /// `len` covers the fields and is no more than memory can hold.
    pub fn encode(&self, len: usize) -> (out: Vec<u8>)
        requires
            HEADER_LEN <= len <= isize::MAX,
        ensures
            out@ == self@.image(len as int),
    {
        let mut out: Vec<u8> = vec![0u8; len];
        let mut i: usize = 0;
        while i < 8
            invariant
                i <= 8,
                out@.len() == len,
                len >= HEADER_LEN,
                forall|k: int| 0 <= k < i ==> out@[k] == self.magic@[k],
                forall|k: int| i <= k < len ==> out@[k] == 0u8,
            decreases 8 - i,
        {
            out.set(i, self.magic[i]);
            i += 1;
        }
        write_u64_le(&mut out, 8, self.version);
        write_u64_le(&mut out, 16, self.page_size);
        write_u64_le(&mut out, 24, self.total_pages);
        assert forall|k: int| 0 <= k < len implies out@[k] == self@.byte_at(k) by {
            if 8 <= k < 16 {
                assert(out@[8 + (k - 8)] == le_byte(self.version, k - 8));
            } else if 16 <= k < 24 {
                assert(out@[16 + (k - 16)] == le_byte(self.page_size, k - 16));
            } else if 24 <= k < 32 {
                assert(out@[24 + (k - 24)] == le_byte(self.total_pages, k - 24));
            }
        }
        assert(out@ =~= self@.image(len as int));
        out
    }

    /// Reads a header from the start of `bytes`, without judging it.
    /// Fewer than `HEADER_LEN` bytes cannot hold one.
    pub fn decode(bytes: &[u8]) -> (r: Result<Header, DBError>)
        ensures
            bytes@.len() < HEADER_LEN ==> r == Err::<Header, DBError>(DBError::CorruptedFile),
            bytes@.len() >= HEADER_LEN ==> r.is_ok() && r.unwrap()@ == HeaderView::parse(bytes@),
    {
        if bytes.len() < HEADER_LEN {
            return Err(DBError::CorruptedFile);
        }
        let h = Header {
            magic: [
                bytes[0],
                bytes[1],
                bytes[2],
                bytes[3],
                bytes[4],
                bytes[5],
                bytes[6],
                bytes[7],
            ],
            version: read_u64_le(bytes, 8),
            page_size: read_u64_le(bytes, 16),
            total_pages: read_u64_le(bytes, 24),
        };
        assert(h.magic@ =~= bytes@.subrange(0, 8));
        Ok(h)
    }

    /// Judges a header that was read from a file of `file_len` bytes, for a
    /// caller that wants pages of `requested` bytes.
    pub fn validate(&self, requested: u64, file_len: u64) -> (r: Result<(), DBError>)
        ensures
            r == self@.check(requested, file_len),
    {
        if !(self.magic[0] == 0x42 && self.magic[1] == 0x44 && self.magic[2] == 0x42
            && self.magic[3] == 0x45 && self.magic[4] == 0x45 && self.magic[5] == 0
            && self.magic[6] == 0 && self.magic[7] == 0) {
            assert(self.magic@ != magic());
            return Err(DBError::InvalidMagic);
        }
        assert(self.magic@ =~= magic());
        if self.version != FORMAT_VERSION {
            return Err(DBError::InvalidVersion);
        }
        if self.page_size != requested {
            return Err(
                DBError::InvalidPageSize {
                    expected: requested,
                    got: #[verifier::truncate]
                    (self.page_size as usize),
                },
            );
        }
        if self.total_pages < 1 {
            return Err(DBError::InvalidTotalPages);
        }
        match self.total_pages.checked_mul(self.page_size) {
            Some(needed) => {
                if needed > file_len {
                    Err(DBError::InvalidTotalPages)
                } else {
                    Ok(())
                }
            },
            None => Err(DBError::InvalidTotalPages),
        }
    }
}

} // verus!
