//! The pager: the handle on an open store.
//!
//! Pages are numbered from 1. Page 1 is the header page and starts at offset
//! 0; page `n` starts at offset `(n - 1) * page_size`. The pager does not
//! hold the file. `open` is given what the caller observed of the file and
//! says whether a handle results and what must be written first;
//! `read_page` and `write_page` say which region of the file a transfer
//! concerns. Neither of the two compares the page number with the
//! page count, and neither changes the page count.

use vstd::prelude::*;
use crate::error::DBError;
use crate::header::{Header, HeaderView, HEADER_LEN};

verus! {

/// What the caller of `open` intends.
#[derive(Debug, Clone, Copy, PartialEq, Eq, Structural)]
pub enum OpenMode {
    /// A store that does not exist yet may be created.
    Create,
    /// The store must exist already.
    Open,
}

/// A region of the file: `len` bytes starting at `offset`.
#[derive(Debug, Clone, Copy, PartialEq, Eq, Structural)]
pub struct PageSpan {
    pub offset: u64,
    pub len: u64,
}

/// The handle on an open store. Every pager stems from a header that was
/// either built afresh or read and found valid.
#[derive(Debug)]
pub struct Pager {
    page_size: u64,
    total_pages: u64,
}

/// What `open` hands back on success.
#[derive(Debug)]
pub struct Opened {
    /// The handle.
    pub pager: Pager,
    /// For a store that was just created, its first page: the caller writes
    /// it at offset 0 and flushes it before using the handle. `None` for a
    /// store that existed.
    pub header_page: Option<Vec<u8>>,
}

/// Offset of page `page_id` in a file of pages of `page_size` bytes.
pub open spec fn page_offset(page_id: u64, page_size: u64) -> int {
    (page_id - 1) * page_size
}

/// Whether page `page_id` has an offset that a file can be positioned at.
pub open spec fn addressable(page_id: u64, page_size: u64) -> bool {
    page_id >= 1 && page_offset(page_id, page_size) <= u64::MAX
}

/// The region that page `page_id` occupies.
pub open spec fn span_of(page_id: u64, page_size: u64) -> PageSpan {
    PageSpan { offset: page_offset(page_id, page_size) as u64, len: page_size }
}

/// Whether opening looks for a header in the file: it holds at least one
/// page, and a page is large enough for a header.
pub open spec fn reads_header(file_len: u64, page_size: u64) -> bool {
    file_len != 0 && file_len >= page_size && page_size >= HEADER_LEN
}

/// The outcome of opening a store: the header that the handle rests on, or
/// the error.
///
/// `exists` says whether the file was there, `file_len` how many bytes it
/// held (0 where it was not there), and `first_page` what stood at its
/// start. `first_page` counts only where `reads_header` holds.
///
/// | file          | length               | mode   | outcome                      |
/// |---------------|----------------------|--------|------------------------------|
/// | missing       | 0                    | Create | a fresh header               |
/// | missing       | 0                    | Open   | `FileNotFound`               |
/// | there         | 0                    | any    | `CorruptedFile`              |
/// | any           | under one page       | any    | `CorruptedFile`              |
/// | any           | one page or more     | any    | the header read, if valid    |
///
/// A page of fewer than `HEADER_LEN` bytes cannot hold a header: such a
/// store is not created (`InvalidPageSize`, with the least page size as
/// `expected`), and a file is not taken for one (`CorruptedFile`).
pub open spec fn open_outcome(
    exists: bool,
    file_len: u64,
    first_page: Seq<u8>,
    page_size: u64,
    mode: OpenMode,
) -> Result<HeaderView, DBError> {
    if file_len == 0 {
        if exists {
            Err(DBError::CorruptedFile)
        } else if mode == OpenMode::Open {
            Err(DBError::FileNotFound)
        } else if page_size < HEADER_LEN {
            Err(DBError::InvalidPageSize { expected: HEADER_LEN as u64, got: page_size as usize })
        } else {
            Ok(HeaderView::fresh(page_size))
        }
    } else if !reads_header(file_len, page_size) || first_page.len() < HEADER_LEN {
        Err(DBError::CorruptedFile)
    } else {
        match HeaderView::parse(first_page).check(page_size, file_len) {
            Ok(()) => Ok(HeaderView::parse(first_page)),
            Err(e) => Err(e),
        }
    }
}

/// `std::io::Error::from` on `ErrorKind::InvalidInput`: an I/O error for a
/// position that no file has. Nothing is claimed of the value.
#[verifier::external_body]
fn position_error() -> std::io::Error {
    std::io::Error::from(std::io::ErrorKind::InvalidInput)
}

/// The region that page `page_id` occupies in a file of pages of
/// `page_size` bytes, or `None` where the page has no offset.
pub fn page_span(page_id: u64, page_size: u64) -> (r: Option<PageSpan>)
    ensures
        r == if addressable(page_id, page_size) {
            Some(span_of(page_id, page_size))
        } else {
            None
        },
{
    if page_id == 0 {
        return None;
    }
    match (page_id - 1).checked_mul(page_size) {
        Some(offset) => Some(PageSpan { offset, len: page_size }),
        None => None,
    }
}

impl Pager {
    #[verifier::type_invariant]
    spec fn inv(&self) -> bool {
        self.page_size >= HEADER_LEN && self.total_pages >= 1
    }

    /// The page size of the store.
    pub closed spec fn spec_page_size(&self) -> u64 {
        self.page_size
    }

    /// The number of pages that the header gave when the store was opened.
    pub closed spec fn spec_total_pages(&self) -> u64 {
        self.total_pages
    }

    /// The page size of the store, in bytes.
    #[verifier::when_used_as_spec(spec_page_size)]
    pub fn page_size(&self) -> (n: u64)
        ensures
            n == self.page_size(),
            n >= HEADER_LEN,
    {
        proof {
            use_type_invariant(self);
        }
        self.page_size
    }

    /// The number of pages, the header page among them, as read when the
    /// store was opened.
    #[verifier::when_used_as_spec(spec_total_pages)]
    pub fn total_pages(&self) -> (n: u64)
        ensures
            n == self.total_pages(),
            n >= 1,
    {
        proof {
            use_type_invariant(self);
        }
        self.total_pages
    }

    /// Whether `open` needs the first page of a file of `file_len` bytes.
    /// Where it does not, the caller need not read the file.
    pub fn reads_first_page(file_len: u64, page_size: u64) -> (b: bool)
        ensures
            b == reads_header(file_len, page_size),
    {
        file_len != 0 && file_len >= page_size && page_size >= HEADER_LEN as u64
    }

    /// Opens a store, given what was observed of its file: whether it
    /// exists, its length in bytes (0 if it does not exist), and, where
    /// `reads_first_page` says so, the `page_size` bytes at its start
    /// (`first_page` is not looked at otherwise).
    ///
    /// The outcome is `open_outcome`. On success the handle has the page
    /// size asked for and the header's page count; for a store that was
    /// just created, the page to write comes with it. A page must be small
    /// enough to be held in memory.
    pub fn open(
        exists: bool,
        file_len: u64,
        first_page: &[u8],
        page_size: u64,
        mode: OpenMode,
    ) -> (r: Result<Opened, DBError>)
        requires
            page_size <= isize::MAX,
        ensures
            match open_outcome(exists, file_len, first_page@, page_size, mode) {
                Ok(h) => {
                    &&& r.is_ok()
                    &&& r.unwrap().pager.page_size() == page_size
                    &&& r.unwrap().pager.total_pages() == h.total_pages
                    &&& file_len == 0 ==> r.unwrap().header_page.is_some()
                        && r.unwrap().header_page.unwrap()@ == h.image(page_size as int)
                    &&& file_len != 0 ==> r.unwrap().header_page.is_none()
                },
                Err(e) => r == Err::<Opened, DBError>(e),
            },
    {
        if file_len == 0 {
            if exists {
                return Err(DBError::CorruptedFile);
            }
            if mode == OpenMode::Open {
                return Err(DBError::FileNotFound);
            }
            if page_size < HEADER_LEN as u64 {
                return Err(
                    DBError::InvalidPageSize {
                        expected: HEADER_LEN as u64,
                        got: page_size as usize,
                    },
                );
            }
            let header = Header::new(page_size);
            let page = header.encode(page_size as usize);
            return Ok(Opened { pager: Pager { page_size, total_pages: 1 }, header_page: Some(page) });
        }
        if !Self::reads_first_page(file_len, page_size) {
            return Err(DBError::CorruptedFile);
        }
        let header = match Header::decode(first_page) {
            Ok(h) => h,
            Err(e) => { return Err(e); },
        };
        match header.validate(page_size, file_len) {
            Ok(()) => Ok(
                Opened {
                    pager: Pager { page_size, total_pages: header.total_pages },
                    header_page: None,
                },
            ),
            Err(e) => Err(e),
        }
    }

    /// The region to read for page `page_id`: `page_size` bytes at
    /// `page_offset`. The caller reads all of it or fails. A page number
    /// that has no offset gives an I/O error.
    pub fn read_page(&self, page_id: u64) -> (r: Result<PageSpan, DBError>)
        ensures
            addressable(page_id, self.page_size()) ==> r == Ok::<PageSpan, DBError>(
                span_of(page_id, self.page_size()),
            ),
            !addressable(page_id, self.page_size()) ==> r matches Err(DBError::Io(_)),
    {
        match page_span(page_id, self.page_size) {
            Some(span) => Ok(span),
            None => Err(DBError::Io(position_error())),
        }
    }

    /// The region that `data` is to overwrite as page `page_id`. `data`
    /// must be exactly one page: any other length is refused first, and
    /// then nothing is to be written. A page number that has no offset
    /// gives an I/O error.
    pub fn write_page(&self, page_id: u64, data: &[u8]) -> (r: Result<PageSpan, DBError>)
        ensures
            data@.len() != self.page_size() ==> r == Err::<PageSpan, DBError>(
                DBError::InvalidPageSize { expected: self.page_size(), got: data@.len() as usize },
            ),
            data@.len() == self.page_size() && addressable(page_id, self.page_size()) ==> r
                == Ok::<PageSpan, DBError>(span_of(page_id, self.page_size())),
            data@.len() == self.page_size() && !addressable(page_id, self.page_size())
                ==> r matches Err(DBError::Io(_)),
    {
        if data.len() as u64 != self.page_size {
            return Err(DBError::InvalidPageSize { expected: self.page_size, got: data.len() });
        }
        match page_span(page_id, self.page_size) {
            Some(span) => Ok(span),
            None => Err(DBError::Io(position_error())),
        }
    }
}

} // verus!
