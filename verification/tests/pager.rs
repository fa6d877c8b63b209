use bdbee::error::DBError;
use bdbee::header::Header;
use bdbee::pager::{page_span, OpenMode, PageSpan, Pager};

fn created(page_size: u64) -> (Pager, Vec<u8>) {
    let opened = Pager::open(false, 0, &[], page_size, OpenMode::Create).unwrap();
    let page = opened.header_page.unwrap();
    (opened.pager, page)
}

fn apply_write(file: &mut Vec<u8>, span: PageSpan, data: &[u8]) {
    let start = span.offset as usize;
    let end = start + data.len();
    if file.len() < end {
        file.resize(end, 0);
    }
    file[start..end].copy_from_slice(data);
}

fn apply_read(file: &[u8], span: PageSpan) -> Vec<u8> {
    file[span.offset as usize..(span.offset + span.len) as usize].to_vec()
}

#[test]
fn create_on_a_missing_file_gives_one_header_page() {
    for page_size in [32u64, 33, 512, 4096, 65536] {
        let (pager, page) = created(page_size);
        assert_eq!(pager.page_size(), page_size);
        assert_eq!(pager.total_pages(), 1);
        assert_eq!(page.len() as u64, page_size);
        assert_eq!(page, Header::new(page_size).encode(page_size as usize));
    }
}

#[test]
fn created_store_opens_again_with_one_page() {
    for page_size in [33u64, 4096, 8192] {
        let (_, file) = created(page_size);
        for mode in [OpenMode::Open, OpenMode::Create] {
            let opened = Pager::open(true, file.len() as u64, &file, page_size, mode).unwrap();
            assert!(opened.header_page.is_none());
            assert_eq!(opened.pager.page_size(), page_size);
            assert_eq!(opened.pager.total_pages(), 1);
        }
    }
}

#[test]
fn open_on_a_missing_file_is_file_not_found() {
    for page_size in [0u64, 1, 31, 32, 4096, u32::MAX as u64] {
        assert!(matches!(
            Pager::open(false, 0, &[], page_size, OpenMode::Open),
            Err(DBError::FileNotFound)
        ));
    }
}

#[test]
fn open_on_an_empty_file_is_corrupted() {
    for page_size in [0u64, 1, 31, 32, 4096] {
        assert!(matches!(
            Pager::open(true, 0, &[], page_size, OpenMode::Open),
            Err(DBError::CorruptedFile)
        ));
        assert!(matches!(
            Pager::open(true, 0, &[], page_size, OpenMode::Create),
            Err(DBError::CorruptedFile)
        ));
    }
}

#[test]
fn open_on_a_file_shorter_than_a_page_is_corrupted() {
    let (_, file) = created(4096);
    for mode in [OpenMode::Open, OpenMode::Create] {
        assert!(matches!(
            Pager::open(true, 4095, &file[..4095], 4096, mode),
            Err(DBError::CorruptedFile)
        ));
        assert!(matches!(Pager::open(true, 1, &file[..1], 4096, mode), Err(DBError::CorruptedFile)));
    }
}

#[test]
fn create_with_a_page_too_small_for_the_header_is_refused() {
    assert!(matches!(
        Pager::open(false, 0, &[], 31, OpenMode::Create),
        Err(DBError::InvalidPageSize { expected: 32, got: 31 })
    ));
    assert!(matches!(
        Pager::open(false, 0, &[], 0, OpenMode::Create),
        Err(DBError::InvalidPageSize { expected: 32, got: 0 })
    ));
}

#[test]
fn open_with_a_page_too_small_for_the_header_is_corrupted() {
    let (_, file) = created(4096);
    assert!(matches!(
        Pager::open(true, 4096, &file[..16], 16, OpenMode::Open),
        Err(DBError::CorruptedFile)
    ));
    assert!(matches!(
        Pager::open(true, 4096, &file, 16, OpenMode::Open),
        Err(DBError::CorruptedFile)
    ));
}

#[test]
fn open_with_too_few_bytes_read_is_corrupted() {
    let (_, file) = created(4096);
    assert!(matches!(
        Pager::open(true, 4096, &file[..31], 4096, OpenMode::Open),
        Err(DBError::CorruptedFile)
    ));
}

#[test]
fn open_with_another_page_size_names_both_sizes() {
    let (pager, page) = created(4096);
    let mut file = page;
    let span = pager.write_page(2, &[7u8; 4096]).unwrap();
    apply_write(&mut file, span, &[7u8; 4096]);
    assert_eq!(file.len(), 8192);
    for mode in [OpenMode::Open, OpenMode::Create] {
        assert!(matches!(
            Pager::open(true, 8192, &file[..8192], 8192, mode),
            Err(DBError::InvalidPageSize { expected: 8192, got: 4096 })
        ));
    }
}

#[test]
fn open_of_a_one_page_store_with_a_larger_page_size_is_corrupted() {
    let (_, file) = created(4096);
    assert!(matches!(
        Pager::open(true, 4096, &file, 8192, OpenMode::Open),
        Err(DBError::CorruptedFile)
    ));
}

#[test]
fn open_with_corrupted_magic_is_invalid_magic() {
    let (_, mut file) = created(4096);
    file[3] ^= 0xff;
    for mode in [OpenMode::Open, OpenMode::Create] {
        assert!(matches!(Pager::open(true, 4096, &file, 4096, mode), Err(DBError::InvalidMagic)));
    }
}

#[test]
fn open_with_another_version_is_invalid_version() {
    let (_, mut file) = created(4096);
    file[8] = 2;
    assert!(matches!(
        Pager::open(true, 4096, &file, 4096, OpenMode::Open),
        Err(DBError::InvalidVersion)
    ));
}

#[test]
fn open_of_a_truncated_store_is_invalid_total_pages() {
    let header = Header { magic: *b"BDBEE\0\0\0", version: 1, page_size: 4096, total_pages: 3 };
    let first = header.encode(4096);
    let opened = Pager::open(true, 3 * 4096, &first, 4096, OpenMode::Open).unwrap();
    assert_eq!(opened.pager.total_pages(), 3);
    for len in [3 * 4096 - 1, 2 * 4096, 4096] {
        assert!(matches!(
            Pager::open(true, len, &first, 4096, OpenMode::Open),
            Err(DBError::InvalidTotalPages)
        ));
    }
    assert!(matches!(
        Pager::open(true, 100, &first[..100], 4096, OpenMode::Open),
        Err(DBError::CorruptedFile)
    ));
}

#[test]
fn open_with_a_page_count_of_zero_is_invalid_total_pages() {
    let header = Header { magic: *b"BDBEE\0\0\0", version: 1, page_size: 4096, total_pages: 0 };
    assert!(matches!(
        Pager::open(true, 4096, &header.encode(4096), 4096, OpenMode::Open),
        Err(DBError::InvalidTotalPages)
    ));
}

#[test]
fn page_span_counts_pages_from_one() {
    assert_eq!(page_span(1, 4096), Some(PageSpan { offset: 0, len: 4096 }));
    assert_eq!(page_span(2, 4096), Some(PageSpan { offset: 4096, len: 4096 }));
    assert_eq!(page_span(11, 512), Some(PageSpan { offset: 5120, len: 512 }));
    assert_eq!(page_span(u64::MAX, 1), Some(PageSpan { offset: u64::MAX - 1, len: 1 }));
    assert_eq!(page_span(1, u64::MAX), Some(PageSpan { offset: 0, len: u64::MAX }));
    assert_eq!(page_span(0, 4096), None);
    assert_eq!(page_span(u64::MAX, 4096), None);
    assert_eq!(page_span(3, u64::MAX), None);
}

#[test]
fn read_page_gives_the_region_of_the_page() {
    let (pager, _) = created(4096);
    assert_eq!(pager.read_page(1).unwrap(), PageSpan { offset: 0, len: 4096 });
    assert_eq!(pager.read_page(5).unwrap(), PageSpan { offset: 16384, len: 4096 });
}

#[test]
fn read_page_does_not_compare_with_the_page_count() {
    let (pager, _) = created(4096);
    assert_eq!(pager.total_pages(), 1);
    assert_eq!(pager.read_page(1000).unwrap(), PageSpan { offset: 999 * 4096, len: 4096 });
}

#[test]
fn page_without_an_offset_is_an_io_error() {
    let (pager, _) = created(4096);
    match pager.read_page(0) {
        Err(DBError::Io(e)) => assert_eq!(e.kind(), std::io::ErrorKind::InvalidInput),
        other => panic!("{:?}", other),
    }
    assert!(matches!(pager.read_page(u64::MAX), Err(DBError::Io(_))));
    assert!(matches!(pager.write_page(0, &[0u8; 4096]), Err(DBError::Io(_))));
    assert!(matches!(pager.write_page(u64::MAX, &[0u8; 4096]), Err(DBError::Io(_))));
}

#[test]
fn write_page_refuses_a_buffer_of_another_length() {
    let (pager, _) = created(4096);
    assert!(matches!(
        pager.write_page(2, &[0u8; 10]),
        Err(DBError::InvalidPageSize { expected: 4096, got: 10 })
    ));
    assert!(matches!(
        pager.write_page(2, &[0u8; 4097]),
        Err(DBError::InvalidPageSize { expected: 4096, got: 4097 })
    ));
    assert!(matches!(
        pager.write_page(2, &[]),
        Err(DBError::InvalidPageSize { expected: 4096, got: 0 })
    ));
    assert!(matches!(
        pager.write_page(0, &[0u8; 1]),
        Err(DBError::InvalidPageSize { expected: 4096, got: 1 })
    ));
}

#[test]
fn write_page_gives_the_region_of_the_page() {
    let (pager, _) = created(4096);
    assert_eq!(pager.write_page(3, &[1u8; 4096]).unwrap(), PageSpan { offset: 8192, len: 4096 });
}

#[test]
fn write_page_leaves_the_page_count_as_it_was() {
    let (pager, _) = created(4096);
    pager.write_page(9, &[1u8; 4096]).unwrap();
    assert_eq!(pager.total_pages(), 1);
}

#[test]
fn page_written_is_page_read() {
    let (pager, mut file) = created(4096);
    for page_id in [2u64, 5, 3, 1] {
        let data: Vec<u8> = (0..4096u32).map(|i| (i as u64 * 31 + page_id) as u8).collect();
        let before = file.clone();
        let span = pager.write_page(page_id, &data).unwrap();
        apply_write(&mut file, span, &data);
        assert_eq!(apply_read(&file, pager.read_page(page_id).unwrap()), data);
        for other in 1..=(before.len() as u64 / 4096) {
            if other != page_id {
                let span = pager.read_page(other).unwrap();
                assert_eq!(apply_read(&file, span), apply_read(&before, span));
            }
        }
    }
}

#[test]
fn refused_write_touches_nothing() {
    let (pager, file) = created(4096);
    let before = file.clone();
    assert!(pager.write_page(1, &[9u8; 4095]).is_err());
    assert_eq!(file, before);
}

#[test]
fn first_page_is_read_only_from_a_file_of_a_page_or_more() {
    assert!(!Pager::reads_first_page(0, 4096));
    assert!(!Pager::reads_first_page(0, 0));
    assert!(!Pager::reads_first_page(4095, 4096));
    assert!(Pager::reads_first_page(4096, 4096));
    assert!(Pager::reads_first_page(10000, 4096));
    assert!(Pager::reads_first_page(32, 32));
    assert!(!Pager::reads_first_page(100, 31));
}
