//! What holds of the format and of the pager as a whole.
//!
//! The statements on files speak of a file as a sequence of bytes:
//! `written` is the file after a write, `region` what a read returns.

use vstd::prelude::*;
use crate::bytes::{le_bytes, le_u64, lemma_le_bytes_of_le_u64, lemma_le_round_trip};
use crate::error::DBError;
use crate::header::{magic, HeaderView, FORMAT_VERSION, HEADER_LEN};
use crate::pager::{addressable, open_outcome, page_offset, reads_header, OpenMode};

verus! {

/// The file `file` after `data` was written at `offset`. A write past the
/// end extends the file; what lies between the old end and the write is
/// zero.
pub open spec fn written(file: Seq<u8>, offset: int, data: Seq<u8>) -> Seq<u8> {
    let end = if file.len() >= offset + data.len() {
        file.len() as int
    } else {
        offset + data.len()
    };
    Seq::new(
        end as nat,
        |i: int|
            if offset <= i < offset + data.len() {
                data[i - offset]
            } else if i < file.len() {
                file[i]
            } else {
                0u8
            },
    )
}

/// The `len` bytes of `file` that start at `offset`.
pub open spec fn region(file: Seq<u8>, offset: int, len: int) -> Seq<u8> {
    file.subrange(offset, offset + len)
}

/// A header with an identifier of eight bytes is read back from any image
/// of it that holds all its fields.
pub proof fn parse_of_image(h: HeaderView, len: int)
    requires
        h.magic.len() == 8,
        len >= HEADER_LEN,
    ensures
        HeaderView::parse(h.image(len)) == h,
{
    let img = h.image(len);
    assert(img.subrange(0, 8) =~= h.magic);
    lemma_le_round_trip(h.version);
    lemma_le_round_trip(h.page_size);
    lemma_le_round_trip(h.total_pages);
    assert(le_u64(img, 8) == le_u64(le_bytes(h.version), 0));
    assert(le_u64(img, 16) == le_u64(le_bytes(h.page_size), 0));
    assert(le_u64(img, 24) == le_u64(le_bytes(h.total_pages), 0));
}

/// Reading a header loses nothing: the image of what was read is what
/// stood in the file.
pub proof fn image_of_parse(b: Seq<u8>)
    requires
        b.len() >= HEADER_LEN,
    ensures
        HeaderView::parse(b).image(HEADER_LEN as int) == b.subrange(0, HEADER_LEN as int),
{
    let h = HeaderView::parse(b);
    lemma_le_bytes_of_le_u64(b, 8);
    lemma_le_bytes_of_le_u64(b, 16);
    lemma_le_bytes_of_le_u64(b, 24);
    assert forall|k: int| 0 <= k < 32 implies h.byte_at(k) == b[k] by {
        if k < 8 {
        } else if k < 16 {
            assert(le_bytes(h.version)[k - 8] == b.subrange(8, 16)[k - 8]);
        } else if k < 24 {
            assert(le_bytes(h.page_size)[k - 16] == b.subrange(16, 24)[k - 16]);
        } else {
            assert(le_bytes(h.total_pages)[k - 24] == b.subrange(24, 32)[k - 24]);
        }
    }
    assert(h.image(HEADER_LEN as int) =~= b.subrange(0, HEADER_LEN as int));
}

/// Every store that opens rests on a valid header: it carries the
/// identifier and the supported version, its page size is the one asked
/// for and holds the header, and its pages, at least one, lie within the
/// file. A store that was just created has one page.
pub proof fn opened_header_is_valid(
    exists: bool,
    file_len: u64,
    first_page: Seq<u8>,
    page_size: u64,
    mode: OpenMode,
)
    requires
        open_outcome(exists, file_len, first_page, page_size, mode).is_ok(),
    ensures
        ({
            let h = open_outcome(exists, file_len, first_page, page_size, mode).unwrap();
            &&& h.magic == magic()
            &&& h.version == FORMAT_VERSION
            &&& h.page_size == page_size
            &&& page_size >= HEADER_LEN
            &&& h.total_pages >= 1
            &&& file_len == 0 ==> h.total_pages == 1 && !exists && mode == OpenMode::Create
            &&& file_len != 0 ==> h.total_pages * page_size <= file_len
        }),
{
}

/// Opening never fails with an I/O error of its own making: each failure
/// is one of the kinds that the format defines.
pub proof fn open_fails_in_kind(
    exists: bool,
    file_len: u64,
    first_page: Seq<u8>,
    page_size: u64,
    mode: OpenMode,
)
    ensures
        !(open_outcome(exists, file_len, first_page, page_size, mode) matches Err(DBError::Io(_))),
{
}

/// Creating a store where no file is succeeds for every page size that
/// holds the header. The file then is one page long, and opening it again
/// with the same page size, in either mode, succeeds with a page count of 1.
pub proof fn create_then_reopen(page_size: u64, unread: Seq<u8>, mode: OpenMode)
    requires
        page_size >= HEADER_LEN,
    ensures
        open_outcome(false, 0, unread, page_size, OpenMode::Create) == Ok::<HeaderView, DBError>(
            HeaderView::fresh(page_size),
        ),
        HeaderView::fresh(page_size).image(page_size as int).len() == page_size,
        open_outcome(
            true,
            page_size,
            HeaderView::fresh(page_size).image(page_size as int),
            page_size,
            mode,
        ) == Ok::<HeaderView, DBError>(HeaderView::fresh(page_size)),
        HeaderView::fresh(page_size).total_pages == 1,
{
    parse_of_image(HeaderView::fresh(page_size), page_size as int);
}

/// Opening a store whose file does not exist, without leave to create it,
/// fails with `FileNotFound`, whatever the page size.
pub proof fn open_missing_file(first_page: Seq<u8>, page_size: u64)
    ensures
        open_outcome(false, 0, first_page, page_size, OpenMode::Open) == Err::<
            HeaderView,
            DBError,
        >(DBError::FileNotFound),
{
}

/// A file that exists and is empty is corrupted, whatever the page size
/// and the mode.
pub proof fn open_empty_file(first_page: Seq<u8>, page_size: u64, mode: OpenMode)
    ensures
        open_outcome(true, 0, first_page, page_size, mode) == Err::<HeaderView, DBError>(
            DBError::CorruptedFile,
        ),
{
}

/// A store created with one page size is not opened with another: a file
/// of at least one requested page that starts with a header of the right
/// identifier and version and of another page size is refused with
/// `InvalidPageSize`, which names the requested size and the stored one.
pub proof fn open_with_other_page_size(
    exists: bool,
    file_len: u64,
    first_page: Seq<u8>,
    requested: u64,
    mode: OpenMode,
)
    requires
        reads_header(file_len, requested),
        first_page.len() >= HEADER_LEN,
        HeaderView::parse(first_page).magic == magic(),
        HeaderView::parse(first_page).version == FORMAT_VERSION,
        HeaderView::parse(first_page).page_size != requested,
    ensures
        open_outcome(exists, file_len, first_page, requested, mode) == Err::<HeaderView, DBError>(
            DBError::InvalidPageSize {
                expected: requested,
                got: HeaderView::parse(first_page).page_size as usize,
            },
        ),
{
}

/// A file of at least one page whose first eight bytes are not the
/// identifier is refused with `InvalidMagic`, in either mode and whatever
/// the rest of it holds.
pub proof fn open_with_corrupted_magic(
    exists: bool,
    file_len: u64,
    first_page: Seq<u8>,
    page_size: u64,
    mode: OpenMode,
)
    requires
        reads_header(file_len, page_size),
        first_page.len() >= HEADER_LEN,
        first_page.subrange(0, 8) != magic(),
    ensures
        open_outcome(exists, file_len, first_page, page_size, mode) == Err::<HeaderView, DBError>(
            DBError::InvalidMagic,
        ),
{
}

/// A store that was valid at `old_len` bytes and is cut to `new_len`
/// bytes, fewer than its pages take but at least one page, is refused with
/// `InvalidTotalPages`.
pub proof fn open_truncated_file(
    exists: bool,
    old_len: u64,
    new_len: u64,
    first_page: Seq<u8>,
    page_size: u64,
    mode: OpenMode,
)
    requires
        reads_header(new_len, page_size),
        first_page.len() >= HEADER_LEN,
        HeaderView::parse(first_page).check(page_size, old_len).is_ok(),
        new_len < HeaderView::parse(first_page).total_pages * page_size,
    ensures
        open_outcome(exists, new_len, first_page, page_size, mode) == Err::<HeaderView, DBError>(
            DBError::InvalidTotalPages,
        ),
{
}

/// What is written as a page is what is read as that page afterwards.
pub proof fn write_then_read(file: Seq<u8>, page_id: u64, page_size: u64, data: Seq<u8>)
    requires
        addressable(page_id, page_size),
        data.len() == page_size,
    ensures
        region(
            written(file, page_offset(page_id, page_size), data),
            page_offset(page_id, page_size),
            page_size as int,
        ) == data,
{
    let off = page_offset(page_id, page_size);
    assert(off >= 0) by (nonlinear_arith)
        requires
            off == (page_id - 1) * page_size,
            page_id >= 1,
    ;
    assert(region(written(file, off, data), off, page_size as int) =~= data);
}

/// Writing a page leaves every other page of the file as it was.
pub proof fn write_keeps_other_pages(
    file: Seq<u8>,
    page_id: u64,
    other: u64,
    page_size: u64,
    data: Seq<u8>,
)
    requires
        addressable(page_id, page_size),
        addressable(other, page_size),
        other != page_id,
        data.len() == page_size,
        page_offset(other, page_size) + page_size <= file.len(),
    ensures
        region(
            written(file, page_offset(page_id, page_size), data),
            page_offset(other, page_size),
            page_size as int,
        ) == region(file, page_offset(other, page_size), page_size as int),
{
    let off = page_offset(page_id, page_size);
    let off2 = page_offset(other, page_size);
    assert(off >= 0 && off2 >= 0 && (off2 + page_size <= off || off + page_size <= off2))
        by (nonlinear_arith)
        requires
            off == (page_id - 1) * page_size,
            off2 == (other - 1) * page_size,
            page_id >= 1,
            other >= 1,
            other != page_id,
    ;
    assert(region(written(file, off, data), off2, page_size as int) =~= region(
        file,
        off2,
        page_size as int,
    ));
}

} // verus!
