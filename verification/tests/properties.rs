use better_limit_reader::decimal::u64_to_dec;
use better_limit_reader::error::{Error, ErrorKind};
use better_limit_reader::readable::{
    LimitReaderFallible, LimitReaderInfallible, MyBufReader, ReadFault, Readable,
};
use better_limit_reader::source::{MemSource, ZlibSource};
use better_limit_reader::{LimitReader, LimitReaderOutput, DEFAULT_BUF_SIZE};
use flate2::write::ZlibEncoder;
use flate2::Compression;
use std::io::Write;

fn zlib_compress(text: &str) -> Vec<u8> {
    let mut e = ZlibEncoder::new(Vec::new(), Compression::default());
    e.write_all(text.as_bytes()).unwrap();
    e.finish().unwrap()
}

#[test]
fn strict_read_within_default_limit_returns_whole_source() {
    let text = "Mike was here. Briefly.";
    let source = format!("{}\n", &text).into_bytes();
    let source_len = source.len();
    assert_eq!(source_len, 24);

    let mut limit_reader = LimitReader::new();
    let read_size = limit_reader.read(source).unwrap();
    assert_eq!(read_size, 24);
    assert_eq!(&limit_reader.buffer()[..read_size], format!("{}\n", &text).as_bytes());
}

#[test]
fn truncating_read_reports_sizes_exactly() {
    let text = "Mike was here. Briefly.";
    let source = format!("{}\n", &text).into_bytes();

    let mut limit_reader = LimitReader::new();
    limit_reader.limit(8);
    let output = limit_reader.read_limited(source).unwrap();
    assert_eq!(output.bytes_read(), 8);
    assert_eq!(output.source_size(), 24);
    assert_eq!(output.bytes_remaining(), 16);
    assert_eq!(&limit_reader.buffer()[..8], "Mike was".as_bytes());
}

#[test]
fn zlib_read_restores_original_text() {
    let text = "Mike was here. Briefly.";
    let compressed = zlib_compress(text);
    assert_ne!(compressed, text.as_bytes());

    let mut limit_reader = LimitReader::new();
    limit_reader.enable_decode_zlib();
    let read_size = limit_reader.read(compressed).unwrap();
    assert_eq!(read_size, text.len());
    assert_eq!(&limit_reader.buffer()[..read_size], text.as_bytes());
}

#[test]
fn corrupt_stream_fails_identically_in_both_modes() {
    let garbage = b"this is not a zlib stream at all".to_vec();

    let mut strict = LimitReader::new();
    strict.enable_decode_zlib();
    let strict_err = strict.read(garbage.clone()).unwrap_err();

    let mut truncating = LimitReader::new();
    truncating.enable_decode_zlib();
    let truncating_err = truncating.read_limited(garbage).unwrap_err();

    assert_eq!(strict_err.message(), truncating_err.message());
    assert_eq!(strict_err.message(), "Error: corrupt deflate stream");
}

#[test]
fn buffer_is_idempotent_between_reads() {
    let mut limit_reader = LimitReader::new();
    let first = limit_reader.buffer().clone();
    let second = limit_reader.buffer().clone();
    assert_eq!(first, second);

    let source = b"some bytes".to_vec();
    limit_reader.read(source).unwrap();
    let third = limit_reader.buffer().clone();
    let fourth = limit_reader.buffer().clone();
    assert_eq!(third, fourth);
    assert_eq!(&third[..10], b"some bytes");
}

#[test]
fn bytes_remaining_saturates_instead_of_wrapping() {
    let output = LimitReaderOutput::new(2, 5);
    assert_eq!(output.bytes_remaining(), 0);

    let output = LimitReaderOutput::new(10, 4);
    assert_eq!(output.bytes_remaining(), 6);

    let output = LimitReaderOutput::new(7, 7);
    assert_eq!(output.bytes_remaining(), 0);
}

#[test]
fn strict_read_with_zero_limit() {
    let mut limit_reader = LimitReader::new();
    limit_reader.limit(0);
    let err = limit_reader.read(b"x".to_vec()).unwrap_err();
    assert_eq!(err.message(), "Error: too many bytes");

    let mut limit_reader = LimitReader::new();
    limit_reader.limit(0);
    let read_size = limit_reader.read(Vec::new()).unwrap();
    assert_eq!(read_size, 0);
}

#[test]
fn strict_read_at_exact_limit_succeeds() {
    let source = b"exactly nine".to_vec();
    let mut limit_reader = LimitReader::new();
    limit_reader.limit(source.len() as u64);
    let read_size = limit_reader.read(source).unwrap();
    assert_eq!(read_size, 12);
}

#[test]
fn reads_never_exceed_buffer_capacity() {
    let big = vec![7u8; 5000];

    let mut strict = LimitReader::new();
    strict.limit(1_000_000);
    let read_size = strict.read(big.clone()).unwrap();
    assert_eq!(read_size, DEFAULT_BUF_SIZE);

    let mut truncating = LimitReader::new();
    truncating.limit(1_000_000);
    let output = truncating.read_limited(big).unwrap();
    assert_eq!(output.bytes_read(), DEFAULT_BUF_SIZE as u64);
    assert_eq!(output.source_size(), 5000);
}

#[test]
fn truncating_read_with_zero_limit_reads_nothing() {
    let mut limit_reader = LimitReader::new();
    limit_reader.limit(0);
    let output = limit_reader.read_limited(b"abc".to_vec()).unwrap();
    assert_eq!(output.bytes_read(), 0);
    assert_eq!(output.source_size(), 3);
    assert_eq!(output.bytes_remaining(), 3);
}

#[test]
fn fallible_reader_enforces_limit_directly() {
    let source = MemSource::new(b"hello world".to_vec());
    let mut reader = LimitReaderFallible::new(MyBufReader(source), 5);
    let mut buf = vec![0u8; 64];
    let r = reader.read(&mut buf, 64);
    assert!(matches!(r, Err(ReadFault::TooManyBytes)));

    let source = MemSource::new(b"hi".to_vec());
    let mut reader = LimitReaderFallible::new(MyBufReader(source), 5);
    let mut buf = vec![0u8; 64];
    let r = reader.read(&mut buf, 64);
    assert!(matches!(r, Ok(2)));
    assert_eq!(&buf[..2], b"hi");
}

#[test]
fn reader_count_steps_on_each_successful_read() {
    let source = MemSource::new(b"abcdef".to_vec());
    let mut reader = LimitReaderFallible::new(MyBufReader(source), 100);
    assert_eq!(reader.reader_count, 0);
    let mut buf = vec![0u8; 3];
    assert!(matches!(reader.read(&mut buf, 3), Ok(3)));
    assert_eq!(reader.reader_count, 1);
    assert!(matches!(reader.read(&mut buf, 3), Ok(3)));
    assert_eq!(reader.reader_count, 2);

    let source = MemSource::new(b"abcdef".to_vec());
    let mut reader = LimitReaderInfallible::new(MyBufReader(source), 100);
    let mut buf = vec![0u8; 4];
    assert!(matches!(reader.read(&mut buf, 4), Ok(4)));
    assert_eq!(reader.reader_count, 1);
}

#[test]
fn infallible_reader_truncates_directly() {
    let source = MemSource::new(b"hello world".to_vec());
    let mut reader = LimitReaderInfallible::new(MyBufReader(source), 5);
    let mut buf = vec![0u8; 64];
    let r = reader.read(&mut buf, 64);
    assert!(matches!(r, Ok(5)));
    assert_eq!(&buf[..5], b"hello");

    // A second read is capped the same way: the limit is compared against,
    // never consumed.
    let r = reader.read(&mut buf, 64);
    assert!(matches!(r, Ok(5)));
    assert_eq!(&buf[..5], b" worl");
}

#[test]
fn strict_reader_consumes_its_limit_across_reads() {
    let source = MemSource::new(b"abcdefgh".to_vec());
    let mut reader = LimitReaderFallible::new(MyBufReader(source), 6);
    let mut buf = vec![0u8; 4];
    let r = reader.read(&mut buf, 4);
    assert!(matches!(r, Ok(4)));

    // Four of the six allowed bytes are spent; the remaining two do not
    // cover the four source bytes still unread.
    let r = reader.read(&mut buf, 4);
    assert!(matches!(r, Err(ReadFault::TooManyBytes)));
}

#[test]
fn zlib_source_reports_source_fault() {
    let mut source = ZlibSource::new(b"garbage".to_vec());
    let mut buf = vec![0u8; 16];
    match source.perform_read(&mut buf, 16) {
        Err(ReadFault::Source(m)) => assert_eq!(m, "corrupt deflate stream"),
        _ => unreachable!(),
    }
}

#[test]
fn output_renders_both_counts() {
    let output = LimitReaderOutput::new(24, 8);
    assert_eq!(output.to_string(), "{ source_size: 24, bytes_read:8 }");

    let output = LimitReaderOutput::new(0, u64::MAX);
    assert_eq!(
        output.to_string(),
        "{ source_size: 0, bytes_read:18446744073709551615 }"
    );
}

#[test]
fn decimal_rendering_is_exact() {
    assert_eq!(u64_to_dec(0), "0");
    assert_eq!(u64_to_dec(7), "7");
    assert_eq!(u64_to_dec(10), "10");
    assert_eq!(u64_to_dec(1023), "1023");
    assert_eq!(u64_to_dec(90210), "90210");
    assert_eq!(u64_to_dec(u64::MAX), "18446744073709551615");
}

#[test]
fn error_kind_descriptions() {
    assert_eq!(ErrorKind::ReadError.as_str(), "read error");
    assert_eq!(ErrorKind::IoError.as_str(), "io error");
    assert_eq!(ErrorKind::Utf8Error.as_str(), "invalid utf-8");
    assert_eq!(ErrorKind::LimitReaderOutputBuilderError.as_str(), "builder error");
    assert_eq!(ErrorKind::TryFromIntError.as_str(), "conversion error");
}

#[test]
fn error_message_carries_prefix_and_detail() {
    let err = Error::new(ErrorKind::ReadError, String::from("went sideways"));
    assert_eq!(err.message(), "Error: went sideways");
    assert_eq!(err.kind, ErrorKind::ReadError);
}
