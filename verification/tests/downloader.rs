use fetcher::error::DownloadError;
use fetcher::progress::ProgressMode;
use fetcher::size::expected_total;
use fetcher::transfer::Transfer;
use fetcher::urlcheck::validate_url;

#[test]
fn well_formed_url_is_accepted() {
    assert_eq!(validate_url("https://example.test/file.bin"), Ok(()));
    assert_eq!(validate_url("http://localhost:8080/x?q=1"), Ok(()));
}

#[test]
fn malformed_url_fails_with_invalid_url() {
    assert_eq!(validate_url("not a url"), Err(DownloadError::InvalidUrl));
    assert_eq!(validate_url(""), Err(DownloadError::InvalidUrl));
    assert_eq!(validate_url("/relative/path"), Err(DownloadError::InvalidUrl));
    assert_eq!(validate_url("http://"), Err(DownloadError::InvalidUrl));
}

#[test]
fn size_header_with_plain_number_is_read() {
    assert_eq!(expected_total(Some(b"1234".as_slice())), 1234);
    assert_eq!(expected_total(Some(b"0".as_slice())), 0);
    assert_eq!(expected_total(Some(b"007".as_slice())), 7);
    assert_eq!(expected_total(Some(b"18446744073709551615".as_slice())), u64::MAX);
}

#[test]
fn size_header_absent_or_unparsable_means_unknown() {
    assert_eq!(expected_total(None), 0);
    assert_eq!(expected_total(Some(b"".as_slice())), 0);
    assert_eq!(expected_total(Some(b"12a4".as_slice())), 0);
    assert_eq!(expected_total(Some(b"-5".as_slice())), 0);
    assert_eq!(expected_total(Some(b"+5".as_slice())), 0);
    assert_eq!(expected_total(Some(b" 12".as_slice())), 0);
    // One past u64::MAX: numeric, but too large to represent.
    assert_eq!(expected_total(Some(b"18446744073709551616".as_slice())), 0);
}

#[test]
fn success_statuses_open_a_transfer() {
    assert!(Transfer::begin(200, None).is_ok());
    assert!(Transfer::begin(204, None).is_ok());
    assert!(Transfer::begin(299, None).is_ok());
}

#[test]
fn non_success_status_fails_without_output() {
    let r = Transfer::begin(404, None);
    assert_eq!(r.err(), Some(DownloadError::HttpStatusError(404)));
    let r = Transfer::begin(500, Some(b"10".as_slice()));
    assert_eq!(r.err(), Some(DownloadError::HttpStatusError(500)));
    let r = Transfer::begin(199, None);
    assert_eq!(r.err(), Some(DownloadError::HttpStatusError(199)));
    let r = Transfer::begin(301, None);
    assert_eq!(r.err(), Some(DownloadError::HttpStatusError(301)));
}

#[test]
fn known_size_selects_determinate_mode() {
    let t = Transfer::begin(200, Some(b"12".as_slice())).unwrap();
    assert_eq!(t.total(), 12);
    assert_eq!(t.mode(), ProgressMode::Determinate);
    assert!(t.mode().is_determinate());
}

#[test]
fn unknown_size_selects_indeterminate_mode() {
    let t = Transfer::begin(200, None).unwrap();
    assert_eq!(t.total(), 0);
    assert_eq!(t.mode(), ProgressMode::Indeterminate);
    let t = Transfer::begin(200, Some(b"garbage".as_slice())).unwrap();
    assert_eq!(t.mode(), ProgressMode::Indeterminate);
}

#[test]
fn buffer_is_concatenation_of_chunks() {
    let mut t = Transfer::begin(200, None).unwrap();
    t.push_chunk(&[1, 2, 3]);
    t.push_chunk(&[]);
    t.push_chunk(&[4]);
    t.push_chunk(&[5, 6]);
    assert_eq!(t.received(), 6);
    assert_eq!(t.finish(), vec![1, 2, 3, 4, 5, 6]);
}

#[test]
fn chunk_boundaries_do_not_matter() {
    let served: Vec<u8> = (0u8..=50).collect();
    let mut one = Transfer::begin(200, None).unwrap();
    one.push_chunk(&served);
    let mut many = Transfer::begin(200, None).unwrap();
    for piece in served.chunks(7) {
        many.push_chunk(piece);
    }
    assert_eq!(one.finish(), many.finish());
}

#[test]
fn progress_updates_sum_to_declared_size() {
    let mut t = Transfer::begin(200, Some(b"12".as_slice())).unwrap();
    assert_eq!(t.received(), 0);
    t.push_chunk(&[0, 1, 2, 3, 4]);
    assert_eq!(t.received(), 5);
    t.push_chunk(&[5, 6, 7, 8, 9, 10, 11]);
    assert_eq!(t.received(), 12);
    assert_eq!(t.received(), t.total());
    assert_eq!(t.finish().len(), 12);
}

#[test]
fn repeated_run_reproduces_identical_bytes() {
    let chunks: [&[u8]; 3] = [b"abc", b"de", b"fgh"];
    let mut first = Transfer::begin(200, Some(b"8".as_slice())).unwrap();
    for c in chunks {
        first.push_chunk(c);
    }
    let mut second = Transfer::begin(200, Some(b"8".as_slice())).unwrap();
    for c in chunks {
        second.push_chunk(c);
    }
    assert_eq!(first.finish(), second.finish());
}

#[test]
fn twelve_bytes_without_size_header() {
    // https://example.test/file.bin serving 0x00..0x0B with no size header.
    assert_eq!(validate_url("https://example.test/file.bin"), Ok(()));
    let mut t = Transfer::begin(200, None).unwrap();
    assert_eq!(t.mode(), ProgressMode::Indeterminate);
    t.push_chunk(&[0x00, 0x01, 0x02, 0x03, 0x04]);
    t.push_chunk(&[0x05, 0x06, 0x07, 0x08, 0x09, 0x0A, 0x0B]);
    assert_eq!(t.received(), 12);
    let body = t.finish();
    let expected: Vec<u8> = (0x00u8..=0x0B).collect();
    assert_eq!(body, expected);
}

#[test]
fn error_kinds_describe_themselves() {
    assert_eq!(DownloadError::InvalidUrl.describe(), "invalid URL");
    assert_eq!(
        DownloadError::TransferError(String::from("connection reset")).describe(),
        "transfer failed"
    );
    assert_eq!(DownloadError::HttpStatusError(404).describe(), "unexpected HTTP status");
    assert_eq!(
        DownloadError::IoError(String::from("permission denied")).describe(),
        "could not write the output file"
    );
}
