use rusty_root_io::VERSION;
use std::io::Write;
use rusty_root_io::compression::{decompress, CompressionAlgorithm};
use rusty_root_io::error::RootError;
use rusty_root_io::tbuf::TBuf;
use rusty_root_io::tlist::{read_envelope, read_version_word, ClassNameTable, TList};

#[test]
fn test_version_exists() {
    assert!(!VERSION.is_empty());
}

#[test]
fn test_tlist_creation() {
    let data: Vec<u8> = vec![
        64, 0, 69, 105, 0, 5, 0, 1, 0, 0, 0, 0, 0, 0, 0, 0, 0, 0, 0, 0, 24, 64, 0, 1, 184, 255,
        255, 255, 255, 84, 83, 116, 114, 101, 97, 109, 101, 114, 73,
    ];
    let tlist = TList::new_from_data(data);
    assert!(tlist.is_ok());
}

#[test]
fn test_reader_cursor() {
    let data: Vec<u8> = vec![
        64, 0, 69, 105, 0, 5, 0, 1, 0, 0, 0, 0, 0, 0, 0, 0, 0, 0, 0, 0, 24, 64, 0, 1, 184, 255,
        255, 255, 255, 84, 83, 116, 114, 101, 97, 109, 101, 114, 73,
    ];
    let tlist = TList::new_from_data(data.clone()).unwrap();
    println!("{:?}", &tlist);
    let mut cursor = TBuf::new(&data);
    cursor.seek(tlist.header_end_pos);
    let raw = cursor.read_u32().unwrap();
    let _new_class_tag = (raw & 0xFFFF_FFFF) != 0;
    let byte_count = raw & 0x3FFF_FFFF;
    let _has_bytecount = (raw & 0x4000_0000) != 0;
    let new_class = (raw & 0x8000_0000) != 0;
    println!(
        "{:?}",
        (raw, _new_class_tag, byte_count, new_class, _has_bytecount)
    );
}

#[test]
fn test_big_endian_reads() {
    let data: Vec<u8> = vec![0x12, 0x34, 0x56, 0x78, 0x9A, 0xBC, 0xDE, 0xF0];
    let mut buf = TBuf::new(&data);
    assert_eq!(buf.read_u16().unwrap(), 0x1234);
    buf.seek(0);
    assert_eq!(buf.read_u32().unwrap(), 0x12345678);
    buf.seek(0);
    assert_eq!(buf.read_u64().unwrap(), 0x123456789ABCDEF0);
    assert_eq!(buf.get_position(), 8);
    assert!(matches!(buf.read_u8(), Err(RootError::InvalidFormat(_))));
}

#[test]
fn test_read_bytes_and_underflow() {
    let data: Vec<u8> = vec![1, 2, 3];
    let mut buf = TBuf::new(&data);
    assert_eq!(buf.read_bytes(2).unwrap(), &[1, 2]);
    assert!(matches!(
        buf.read_bytes(2),
        Err(RootError::InvalidFormat(_))
    ));
    assert_eq!(buf.get_position(), 2);
}

#[test]
fn test_skip_and_seek() {
    let data: Vec<u8> = vec![0; 10];
    let mut buf = TBuf::new(&data);
    assert!(buf.skip(10).is_ok());
    assert!(matches!(buf.skip(1), Err(RootError::InvalidFormat(_))));
    assert!(buf.seek(3));
    assert_eq!(buf.get_position(), 3);
    assert!(!buf.seek(11));
    assert_eq!(buf.get_position(), 3);
}

#[test]
fn test_read_tstring_short_and_escaped() {
    let data: Vec<u8> = vec![2, b'h', b'i', 0xFF, 0, 0, 0, 3, b'a', b'b', b'c'];
    let mut buf = TBuf::new(&data);
    assert_eq!(buf.read_tstring().unwrap(), "hi");
    assert_eq!(buf.read_tstring().unwrap(), "abc");
}

#[test]
fn test_read_string_validates_utf8() {
    // "é" is the two bytes C3 A9; C3 28 is malformed UTF-8.
    let good: Vec<u8> = vec![0xC3, 0xA9];
    let mut buf = TBuf::new(&good);
    assert_eq!(buf.read_string(2).unwrap(), "\u{e9}");
    let bad: Vec<u8> = vec![0xC3, 0x28];
    let mut buf = TBuf::new(&bad);
    assert!(matches!(
        buf.read_string(2),
        Err(RootError::InvalidFormat(_))
    ));
    assert_eq!(buf.get_position(), 0);
}

#[test]
fn test_read_cstring_cap() {
    let data: Vec<u8> = vec![b'T', b'L', b'i', b's', b't', 0, 7, 7];
    let mut buf = TBuf::new(&data);
    assert_eq!(buf.read_cstring(80).unwrap(), "TList");
    assert_eq!(buf.get_position(), 6);
    let mut buf = TBuf::new(&data);
    assert!(matches!(
        buf.read_cstring(3),
        Err(RootError::InvalidFormat(_))
    ));
    assert_eq!(buf.get_position(), 0);
}

#[test]
fn test_from_compression_level() {
    assert_eq!(
        CompressionAlgorithm::from_compression_level(101),
        CompressionAlgorithm::Zlib
    );
    assert_eq!(
        CompressionAlgorithm::from_compression_level(404),
        CompressionAlgorithm::Lz4
    );
    assert_eq!(
        CompressionAlgorithm::from_compression_level(505),
        CompressionAlgorithm::Zstd
    );
    assert_eq!(
        CompressionAlgorithm::from_compression_level(0),
        CompressionAlgorithm::Identity
    );
    assert_eq!(
        CompressionAlgorithm::from_compression_level(9900),
        CompressionAlgorithm::Identity
    );
    assert_eq!(
        CompressionAlgorithm::from_compression_level(-101),
        CompressionAlgorithm::Identity
    );
}

#[test]
fn test_decompress_identity_verbatim() {
    let data: Vec<u8> = vec![5, 4, 3, 2, 1];
    assert_eq!(decompress(&data, 0).unwrap(), data);
    // An unrecognised algorithm code routes to identity as well.
    assert_eq!(decompress(&data, 9900).unwrap(), data);
    assert_eq!(decompress(&data, -505).unwrap(), data);
}

fn zlib_block(payload: &[u8]) -> Vec<u8> {
    let mut enc = flate2::write::ZlibEncoder::new(Vec::new(), flate2::Compression::default());
    Write::write_all(&mut enc, payload).unwrap();
    let z = enc.finish().unwrap();
    let mut block = Vec::new();
    block.extend_from_slice(b"ZL");
    block.push(8);
    let c = (z.len() as u32).to_le_bytes();
    block.extend_from_slice(&c[0..3]);
    let u = (payload.len() as u32).to_le_bytes();
    block.extend_from_slice(&u[0..3]);
    block.extend_from_slice(&z);
    block
}

#[test]
fn test_decompress_zlib_round_trip() {
    let payload = b"streamer info payload, long enough to squeeze: aaaaaaaaaaaaaaaaaa";
    let block = zlib_block(payload);
    assert_ne!(&block, &payload.to_vec());
    assert_eq!(decompress(&block, 101).unwrap(), payload.to_vec());
}

#[test]
fn test_decompress_zlib_errors() {
    // Shorter than the 9-byte ROOT block header.
    assert!(matches!(
        decompress(&[1, 2, 3], 101),
        Err(RootError::CompressionError(_))
    ));
    // A full-size block whose body is not a zlib stream.
    let garbage: Vec<u8> = vec![0; 32];
    assert!(matches!(
        decompress(&garbage, 101),
        Err(RootError::CompressionError(_))
    ));
}

#[test]
fn test_decompress_lz4_round_trip() {
    let payload = b"xyxyxyxyxyxyxyxyxyxyxyxy lz4 payload";
    let block = lz4_flex::compress_prepend_size(payload);
    assert_eq!(decompress(&block, 404).unwrap(), payload.to_vec());
    // A declared size of 32 with a truncated body is rejected.
    let malformed: Vec<u8> = vec![32, 0, 0, 0, 0xFF, 0xFF];
    assert!(matches!(
        decompress(&malformed, 404),
        Err(RootError::CompressionError(_))
    ));
}

#[test]
fn test_decompress_zstd_round_trip() {
    let payload = b"zstd zstd zstd zstd zstd payload";
    let block = zstd::encode_all(&payload[..], 3).unwrap();
    assert_eq!(decompress(&block, 505).unwrap(), payload.to_vec());
    assert!(matches!(
        decompress(&[1, 2, 3, 4], 505),
        Err(RootError::CompressionError(_))
    ));
}

#[test]
fn test_version_word_plain() {
    let data: Vec<u8> = vec![0x00, 0x05];
    let mut buf = TBuf::new(&data);
    let (version, mw) = read_version_word(&mut buf).unwrap();
    assert_eq!(version, 5);
    assert_eq!(mw, None);
    assert_eq!(buf.get_position(), 2);
}

#[test]
fn test_version_word_member_wise() {
    // The sentinel 0xFFFF: four bytes of member-wise size, then the real
    // version.
    let data: Vec<u8> = vec![0xFF, 0xFF, 0, 0, 0, 8, 0, 3];
    let mut buf = TBuf::new(&data);
    let (version, mw) = read_version_word(&mut buf).unwrap();
    assert_eq!(version, 3);
    assert_eq!(mw, Some(8));
    assert_eq!(buf.get_position(), 8);
}

#[test]
fn test_envelope_interning() {
    // A new-class envelope, then a back-reference to its tag position.
    let mut data: Vec<u8> = Vec::new();
    // envelope 1 at 0: byte count, new-class tag at 4, name, version 9
    data.extend_from_slice(&(0x4000_0000u32 | 100).to_be_bytes());
    data.extend_from_slice(&0xFFFF_FFFFu32.to_be_bytes());
    data.extend_from_slice(b"TStreamerInfo\0");
    data.extend_from_slice(&9u16.to_be_bytes());
    let second_start = data.len();
    // envelope 2: back-reference to tag position 4, adjusted by the map
    // offset of 2.
    data.extend_from_slice(&(0x4000_0000u32 | 50).to_be_bytes());
    data.extend_from_slice(&(0x8000_0000u32 | (4 + 2)).to_be_bytes());
    data.extend_from_slice(&9u16.to_be_bytes());
    let mut buf = TBuf::new(&data);
    let mut table = ClassNameTable::new();
    let env1 = read_envelope(&mut buf, &mut table).unwrap().unwrap();
    assert_eq!(env1.class_name, "TStreamerInfo");
    assert_eq!(env1.byte_count, 100);
    assert!(env1.has_byte_count);
    assert_eq!(table.len(), 1);
    assert_eq!(buf.get_position(), second_start);
    let env2 = read_envelope(&mut buf, &mut table).unwrap().unwrap();
    assert_eq!(env2.class_name, env1.class_name);
    assert_eq!(table.len(), 1);
}

#[test]
fn test_envelope_null_and_bad_references() {
    // A bare null tag.
    let null_tag: Vec<u8> = 0u32.to_be_bytes().to_vec();
    let mut buf = TBuf::new(&null_tag);
    let mut table = ClassNameTable::new();
    assert!(read_envelope(&mut buf, &mut table).unwrap().is_none());
    // A back-reference into an empty table.
    let mut data: Vec<u8> = Vec::new();
    data.extend_from_slice(&(0x4000_0000u32 | 50).to_be_bytes());
    data.extend_from_slice(&(0x8000_0000u32 | 10).to_be_bytes());
    data.extend_from_slice(&9u16.to_be_bytes());
    let mut buf = TBuf::new(&data);
    let mut table = ClassNameTable::new();
    assert!(matches!(
        read_envelope(&mut buf, &mut table),
        Err(RootError::ParseError(_))
    ));
    // The short built-in tag form is not carried on the catalog path.
    let short_tag: Vec<u8> = 7u32.to_be_bytes().to_vec();
    let mut buf = TBuf::new(&short_tag);
    let mut table = ClassNameTable::new();
    assert!(matches!(
        read_envelope(&mut buf, &mut table),
        Err(RootError::ParseError(_))
    ));
}

#[test]
fn test_extract_object_with_offset() {
    let data: Vec<u8> = vec![
        64, 0, 69, 105, 0, 5, 0, 1, 0, 0, 0, 0, 0, 0, 0, 0, 0, 0, 0, 0, 24, 64, 0, 1, 184, 255,
        255, 255, 255, 84, 83, 116, 114, 101, 97, 109, 101, 114, 73,
    ];
    let tlist = TList::new_from_data(data).unwrap();
    let (byte_count, class_name, version) = tlist
        .extract_object_with_offset(tlist.header_end_pos)
        .unwrap();
    assert_eq!(byte_count, 0x1B8);
    assert_eq!(class_name, "");
    assert_eq!(version, 0);
    // Without a stored payload the extraction is refused.
    let empty = TList::new();
    assert!(matches!(
        empty.extract_object_with_offset(0),
        Err(RootError::ParseError(_))
    ));
}

#[test]
fn test_number_rendering() {
    assert_eq!(rusty_root_io::reader::u64_to_string(0), "0");
    assert_eq!(rusty_root_io::reader::u64_to_string(1000004), "1000004");
    assert_eq!(rusty_root_io::reader::u64_to_string(61400), "61400");
    assert_eq!(rusty_root_io::reader::i32_to_string(-101), "-101");
    assert_eq!(rusty_root_io::reader::i32_to_string(101), "101");
}
