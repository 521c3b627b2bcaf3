use better_limit_reader::LimitReader;
use flate2::write::ZlibEncoder;
use flate2::Compression;
use std::io::Write;

fn zlib_compress(text: &str) -> Vec<u8> {
    let mut e = ZlibEncoder::new(Vec::new(), Compression::default());
    e.write_all(text.as_bytes()).unwrap();
    e.finish().unwrap()
}

#[test]
fn it_works() {
    let text = "Mike was here. Briefly.";
    let source = format!("{}\n", &text).into_bytes();

    let mut limit_reader = LimitReader::new();

    match limit_reader.read(source) {
        Ok(read_size) => {
            let persisted_text =
                String::from_utf8(limit_reader.buffer()[..read_size].to_vec()).unwrap();
            assert_eq!(persisted_text, format!("{}\n", &text).to_string());
        }
        Err(_) => unreachable!(),
    }

    // ZlibDecode
    let compressed = zlib_compress(text);

    let mut limit_reader = LimitReader::new();
    limit_reader.enable_decode_zlib();

    match limit_reader.read(compressed) {
        Ok(read_size) => {
            let persisted_text =
                String::from_utf8(limit_reader.buffer()[..read_size].to_vec()).unwrap();
            assert_eq!(persisted_text, format!("{}", &text).to_string());
        }
        Err(_) => unreachable!(),
    };
}

#[test]
fn panic_due_to_limit_constraint() {
    let text = "Mike was here. Briefly.";
    let source = format!("{}\n", &text).into_bytes();

    let mut limit_reader = LimitReader::new();
    let limit = 8_u64;
    limit_reader.limit(limit);

    match limit_reader.read(source) {
        Ok(read_size) => {
            assert!(read_size == usize::try_from(limit).unwrap());
        }
        Err(err) => {
            assert_eq!("Error: too many bytes", err.message());
        }
    }
}

#[test]
fn panic_with_decode_zlib_due_to_limit_constraint() {
    let text = "Mike was here. Briefly.";
    let compressed = zlib_compress(text);

    let mut limit_reader = LimitReader::new();

    // NOTE: This should error due to exceeding our limit.
    limit_reader.limit(8);

    match limit_reader.read(compressed) {
        Ok(read_size) => {
            let persisted_text =
                String::from_utf8(limit_reader.buffer()[..read_size].to_vec()).unwrap();
            assert_eq!(persisted_text, format!("{}", &text).to_string());
        }
        Err(err) => assert_eq!("Error: too many bytes", err.message()),
    };
}

#[test]
fn panic_decode_zlib_error_on_corrupt_deflate_stream() {
    let text = "Mike was here. Briefly.";
    let source = format!("{}\n", &text).into_bytes();

    let mut limit_reader = LimitReader::new();
    limit_reader.enable_decode_zlib();

    match limit_reader.read(source) {
        Ok(_) => unreachable!(),
        Err(err) => assert_eq!("Error: corrupt deflate stream", err.message()),
    };
}
