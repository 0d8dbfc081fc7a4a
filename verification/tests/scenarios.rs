use std::io::Write;
use rusty_root_io::compression::HasCompressedData;
use rusty_root_io::error::RootError;
use rusty_root_io::file::RootFileHeader;
use rusty_root_io::reader::RootReader;
use rusty_root_io::streamerinfo::{ElementKind, StreamerCatalog, StreamerInfo};
use rusty_root_io::tbuf::TBuf;
use rusty_root_io::tfile::TFileHeader;
use rusty_root_io::tkey::TKeyHeader;

// ---- stream builders -------------------------------------------------

fn tobject_body() -> Vec<u8> {
    let mut v = Vec::new();
    v.extend_from_slice(&1u16.to_be_bytes());
    v.extend_from_slice(&0u32.to_be_bytes());
    v.extend_from_slice(&0u32.to_be_bytes());
    v
}

/// Prefix `content` with a framing word carrying its byte count.
fn with_byte_count(content: &[u8]) -> Vec<u8> {
    let mut v = Vec::new();
    v.extend_from_slice(&(0x4000_0000u32 | content.len() as u32).to_be_bytes());
    v.extend_from_slice(content);
    v
}

fn tstring(s: &str) -> Vec<u8> {
    let mut v = Vec::new();
    v.push(s.len() as u8);
    v.extend_from_slice(s.as_bytes());
    v
}

/// An empty element array: a TObjArray envelope with zero elements.
fn empty_element_array() -> Vec<u8> {
    let mut content = Vec::new();
    content.extend_from_slice(&0xFFFF_FFFFu32.to_be_bytes());
    content.extend_from_slice(b"TObjArray\0");
    content.extend_from_slice(&3u16.to_be_bytes()); // version
    content.extend_from_slice(&tobject_body());
    content.extend_from_slice(&tstring("")); // array name
    content.extend_from_slice(&0u32.to_be_bytes()); // object count
    content.extend_from_slice(&0u32.to_be_bytes()); // lower bound
    with_byte_count(&content)
}

/// One catalog entry for the given class, with an empty element array. The
/// `tag` bytes stand where the class tag goes: either the new-class tag
/// followed by the class name, or a back-reference.
fn entry_with_tag(tag_and_name: &[u8], class: &str, checksum: u32, class_version: u32) -> Vec<u8> {
    let mut content = Vec::new();
    content.extend_from_slice(tag_and_name);
    content.extend_from_slice(&9u16.to_be_bytes()); // entry version
    content.extend_from_slice(&tobject_body());
    content.extend_from_slice(&tstring(class)); // TNamed name
    content.extend_from_slice(&tstring("")); // TNamed title
    content.extend_from_slice(&checksum.to_be_bytes());
    content.extend_from_slice(&class_version.to_be_bytes());
    content.extend_from_slice(&empty_element_array());
    let mut v = with_byte_count(&content);
    v.push(0); // trailing option string length
    v
}

fn new_class_tag(name: &str) -> Vec<u8> {
    let mut v = Vec::new();
    v.extend_from_slice(&0xFFFF_FFFFu32.to_be_bytes());
    v.extend_from_slice(name.as_bytes());
    v.push(0);
    v
}

/// A whole catalog payload: the top-level list header and the entries.
fn catalog_payload(entries: &[Vec<u8>]) -> Vec<u8> {
    let mut content = Vec::new();
    content.extend_from_slice(&5u16.to_be_bytes()); // list version
    content.extend_from_slice(&tobject_body());
    content.extend_from_slice(&tstring("")); // list name
    content.extend_from_slice(&(entries.len() as u32).to_be_bytes());
    for e in entries {
        content.extend_from_slice(e);
    }
    with_byte_count(&content)
}

/// A whole small-format ROOT file image: header at offset 0, the
/// streamer-info key at offset 100.
fn root_file_image(version: u32, compress: i32, block: &[u8], obj_len: u32) -> Vec<u8> {
    let key_off: u32 = 100;
    let large = version >= 1_000_000;
    let units: u8 = if large { 8 } else { 4 };
    // key header
    let mut key = Vec::new();
    let strings_len = 1 + 5 + 1 + 12 + 1; // "TList", "StreamerInfo", ""
    let key_len: u16 = if large { 18 + 16 + strings_len } else { 18 + 8 + strings_len } as u16;
    let n_bytes: u32 = key_len as u32 + block.len() as u32;
    key.extend_from_slice(&n_bytes.to_be_bytes());
    key.extend_from_slice(&4u16.to_be_bytes()); // key version
    key.extend_from_slice(&obj_len.to_be_bytes());
    key.extend_from_slice(&0u32.to_be_bytes()); // datime
    key.extend_from_slice(&key_len.to_be_bytes());
    key.extend_from_slice(&1u16.to_be_bytes()); // cycle
    if large {
        key.extend_from_slice(&(key_off as u64).to_be_bytes()); // seek_key
        key.extend_from_slice(&0u64.to_be_bytes()); // seek_p_dir
    } else {
        key.extend_from_slice(&key_off.to_be_bytes());
        key.extend_from_slice(&0u32.to_be_bytes());
    }
    key.extend_from_slice(&tstring("TList"));
    key.extend_from_slice(&tstring("StreamerInfo"));
    key.extend_from_slice(&tstring(""));
    assert_eq!(key.len(), key_len as usize);
    key.extend_from_slice(block);

    let end: u64 = key_off as u64 + key.len() as u64;
    let mut f = Vec::new();
    f.extend_from_slice(b"root");
    f.extend_from_slice(&version.to_be_bytes());
    f.extend_from_slice(&100u32.to_be_bytes()); // begin
    if large {
        f.extend_from_slice(&end.to_be_bytes());
        f.extend_from_slice(&0u64.to_be_bytes()); // seek_free
    } else {
        f.extend_from_slice(&(end as u32).to_be_bytes());
        f.extend_from_slice(&0u32.to_be_bytes());
    }
    f.extend_from_slice(&0u32.to_be_bytes()); // n_bytes_free
    f.extend_from_slice(&0u32.to_be_bytes()); // n_free
    f.extend_from_slice(&0u32.to_be_bytes()); // n_bytes_name
    f.push(units);
    f.extend_from_slice(&compress.to_be_bytes());
    if large {
        f.extend_from_slice(&(key_off as u64).to_be_bytes()); // seek_info
    } else {
        f.extend_from_slice(&key_off.to_be_bytes());
    }
    f.extend_from_slice(&n_bytes.to_be_bytes()); // n_bytes_info
    f.extend_from_slice(&[0u8; 16]); // uuid
    while f.len() < key_off as usize {
        f.push(0);
    }
    f.extend_from_slice(&key);
    f
}

fn zlib_root_block(payload: &[u8]) -> Vec<u8> {
    let mut enc = flate2::write::ZlibEncoder::new(Vec::new(), flate2::Compression::default());
    Write::write_all(&mut enc, payload).unwrap();
    let z = enc.finish().unwrap();
    let mut block = Vec::new();
    block.extend_from_slice(b"ZL");
    block.push(8);
    let c = (z.len() as u32).to_le_bytes();
    block.extend_from_slice(&c[0..3]);
    let u = (payload.len() as u32).to_le_bytes();
    block.extend_from_slice(&u[0..3]);
    block.extend_from_slice(&z);
    block
}

// ---- end-to-end scenarios --------------------------------------------

#[test]
fn test_open_minimal_deflate_file() {
    // A minimal well-formed file: version 61400, units 4, deflate
    // descriptor 101, and a streamer-info key whose decompressed payload is
    // an empty list.
    let payload = catalog_payload(&[]);
    let block = zlib_root_block(&payload);
    let image = root_file_image(61400, 101, &block, payload.len() as u32);
    let reader = RootReader::open(image).unwrap();
    assert_eq!(reader.header.f_version, 61400);
    assert_eq!(reader.header.f_units, 4);
    assert_eq!(reader.key.class_name, "TList");
    assert_eq!(reader.key.name, "StreamerInfo");
    assert_eq!(reader.catalog.entries.len(), 0);
}

#[test]
fn test_open_corrupted_magic() {
    let payload = catalog_payload(&[]);
    let block = zlib_root_block(&payload);
    let mut image = root_file_image(61400, 101, &block, payload.len() as u32);
    image[0..4].copy_from_slice(b"toor");
    assert!(matches!(
        RootReader::open(image),
        Err(RootError::InvalidFormat(_))
    ));
}

#[test]
fn test_open_large_file_header() {
    // Version 1000004 selects units 8 and 64-bit seek fields.
    let payload = catalog_payload(&[]);
    let block = zlib_root_block(&payload);
    let image = root_file_image(1_000_004, 101, &block, payload.len() as u32);
    let reader = RootReader::open(image).unwrap();
    assert_eq!(reader.header.f_version, 1_000_004);
    assert_eq!(reader.header.f_units, 8);
    assert_eq!(reader.header.f_seek_info, 100);
    let info = reader.file_info();
    assert!(info.contains("Version: 1000004"));
}

#[test]
fn test_units_version_mismatch_rejected() {
    // Swapping the version across the large-file boundary without
    // adjusting the rest of the header yields invalid-format.
    let payload = catalog_payload(&[]);
    let block = zlib_root_block(&payload);
    let mut image = root_file_image(61400, 101, &block, payload.len() as u32);
    image[4..8].copy_from_slice(&1_000_004u32.to_be_bytes());
    assert!(matches!(
        RootReader::open(image),
        Err(RootError::InvalidFormat(_))
    ));
}

#[test]
fn test_open_lz4_payload() {
    // Descriptor 404: a size-prepended LZ4 frame; the decompressed length
    // equals the key's declared object length.
    let payload = catalog_payload(&[]);
    let block = lz4_flex::compress_prepend_size(&payload);
    let image = root_file_image(61400, 404, &block, payload.len() as u32);
    let reader = RootReader::open(image).unwrap();
    let stored = reader.key.decompressed_data.as_ref().unwrap();
    assert_eq!(stored.len(), reader.key.obj_len as usize);
    assert_eq!(stored, &payload);
}

#[test]
fn test_catalog_single_tobject_entry() {
    let entry = entry_with_tag(&new_class_tag("TStreamerInfo"), "TObject", 0x1234_5678, 1);
    let payload = catalog_payload(&[entry]);
    let catalog = StreamerCatalog::decode(&payload).unwrap();
    assert_eq!(catalog.entries.len(), 1);
    assert_eq!(catalog.entries[0].name, "TObject");
    assert_eq!(catalog.entries[0].checksum, 0x1234_5678);
    assert_eq!(catalog.entries[0].class_version, 1);
    assert_eq!(catalog.entries[0].elements.len(), 0);
}

#[test]
fn test_catalog_back_reference_entry() {
    // The second entry references the class name of the first via a
    // back-reference tag: the tag of the first entry's envelope stands at
    // position 21 (list header) + 4 (framing word), and the reference
    // carries that position plus the fixed map offset of 2.
    let first = entry_with_tag(&new_class_tag("TStreamerInfo"), "TObject", 7, 1);
    let back_ref = (0x8000_0000u32 | (21 + 4 + 2)).to_be_bytes().to_vec();
    let second = entry_with_tag(&back_ref, "TNamed", 8, 2);
    let payload = catalog_payload(&[first, second]);
    let catalog = StreamerCatalog::decode(&payload).unwrap();
    assert_eq!(catalog.entries.len(), 2);
    assert_eq!(catalog.entries[0].name, "TObject");
    assert_eq!(catalog.entries[1].name, "TNamed");
}

#[test]
fn test_catalog_byte_count_mismatch_rejected() {
    // Corrupting an entry's byte count breaks the envelope byte-count law
    // and the decode reports a parse error.
    let entry = entry_with_tag(&new_class_tag("TStreamerInfo"), "TObject", 7, 1);
    let payload = catalog_payload(&[entry]);
    let mut corrupt = payload.clone();
    // The entry's framing word stands right after the 21-byte list header.
    corrupt[24] = corrupt[24].wrapping_add(1);
    assert!(matches!(
        StreamerCatalog::decode(&corrupt),
        Err(RootError::ParseError(_))
    ));
}

#[test]
fn test_list_objects_names_catalog_classes() {
    let entry = entry_with_tag(&new_class_tag("TStreamerInfo"), "TObject", 7, 1);
    let payload = catalog_payload(&[entry]);
    let block = zlib_root_block(&payload);
    let image = root_file_image(61400, 101, &block, payload.len() as u32);
    let reader = RootReader::open(image).unwrap();
    let objects = reader.list_objects();
    assert_eq!(objects.len(), 2);
    assert_eq!(objects[0], "StreamerInfo (TList)");
    assert_eq!(objects[1], "TObject (TStreamerInfo)");
}

// ---- key envelope ------------------------------------------------------

#[test]
fn test_key_envelope_bounds() {
    // After parsing a key at offset O, the reader rests at O + n_bytes and
    // the payload holds n_bytes - key_len bytes.
    let payload = catalog_payload(&[]);
    let block = zlib_root_block(&payload);
    let image = root_file_image(61400, 101, &block, payload.len() as u32);
    let mut buf = TBuf::new(&image);
    let key = TKeyHeader::read_tkey_at(&mut buf, 100, 4).unwrap();
    assert_eq!(buf.get_position() as u64, 100 + key.n_bytes as u64);
    assert_eq!(
        key.compressed_data.len(),
        key.n_bytes as usize - key.key_len as usize
    );
    assert_eq!(key.compressed_data, block);
}

#[test]
fn test_key_past_end_rejected() {
    let payload = catalog_payload(&[]);
    let block = zlib_root_block(&payload);
    let mut image = root_file_image(61400, 101, &block, payload.len() as u32);
    // Declare four more bytes than the file holds.
    let n_bytes = u32::from_be_bytes([image[100], image[101], image[102], image[103]]);
    image[100..104].copy_from_slice(&(n_bytes + 4).to_be_bytes());
    let mut buf = TBuf::new(&image);
    assert!(matches!(
        TKeyHeader::read_tkey_at(&mut buf, 100, 4),
        Err(RootError::InvalidFormat(_))
    ));
}

#[test]
fn test_decompress_on_demand() {
    let payload = catalog_payload(&[]);
    let block = zlib_root_block(&payload);
    let image = root_file_image(61400, 101, &block, payload.len() as u32);
    let mut buf = TBuf::new(&image);
    let mut key = TKeyHeader::read_tkey_at(&mut buf, 100, 4).unwrap();
    assert!(key.get_decompressed_data().is_none());
    assert_eq!(key.get_compressed_len(), block.len());
    assert_eq!(key.get_uncompressed_len(), payload.len());
    let out = key.decompress_into(101).unwrap();
    assert_eq!(out, payload);
    let stored = key.decompress_and_store(101).unwrap();
    assert_eq!(stored, payload);
    assert_eq!(key.get_decompressed_data().unwrap(), &payload);
}

// ---- the original-shaped streamer-info bundle --------------------------

#[test]
fn test_streamer_info_bundle() {
    // The framed head shape: list header, TStreamerInfo head, framed
    // TNamed, checksum and class-version words, TObjArray head.
    let mut d = Vec::new();
    // list header
    d.extend_from_slice(&(0x4000_0000u32 | 200).to_be_bytes());
    d.extend_from_slice(&5u16.to_be_bytes());
    d.extend_from_slice(&tobject_body());
    d.extend_from_slice(&tstring(""));
    d.extend_from_slice(&1u32.to_be_bytes());
    // TStreamerInfo head
    d.extend_from_slice(&(0x4000_0000u32 | 180).to_be_bytes());
    d.extend_from_slice(&0xFFFF_FFFFu32.to_be_bytes());
    d.extend_from_slice(b"TStreamerInfo\0");
    d.extend_from_slice(&(0x4000_0000u32 | 160).to_be_bytes());
    d.extend_from_slice(&9u16.to_be_bytes());
    // framed TNamed
    d.extend_from_slice(&(0x4000_0000u32 | 30).to_be_bytes());
    d.extend_from_slice(&1u16.to_be_bytes());
    d.extend_from_slice(&tobject_body());
    d.extend_from_slice(&tstring("TObject"));
    d.extend_from_slice(&tstring("Basic ROOT object"));
    // checksum and class version
    d.extend_from_slice(&0xCAFE_F00Du32.to_be_bytes());
    d.extend_from_slice(&1u32.to_be_bytes());
    // TObjArray head
    d.extend_from_slice(&(0x4000_0000u32 | 40).to_be_bytes());
    d.extend_from_slice(&0xFFFF_FFFFu32.to_be_bytes());
    d.extend_from_slice(b"TObjArray\0");
    d.extend_from_slice(&(0x4000_0000u32 | 20).to_be_bytes());
    d.extend_from_slice(&3u16.to_be_bytes());
    d.extend_from_slice(&tobject_body());
    d.extend_from_slice(&tstring(""));
    d.extend_from_slice(&0u32.to_be_bytes());
    d.extend_from_slice(&0u32.to_be_bytes());

    let mut key = TKeyHeader::new();
    key.decompressed_data = Some(d);
    let info = StreamerInfo::new(key).unwrap();
    assert_eq!(info.tlist.n_objects, 1);
    assert_eq!(info.tstreamerinfo.class_name, "TStreamerInfo");
    assert_eq!(info.tnamed.f_name, "TObject");
    assert_eq!(info.tnamed.f_title, "Basic ROOT object");
    assert_eq!(info.tobj_array.class_name, "TObjArray");
    assert_eq!(info.tobj_array.n_objects, 0);
}

#[test]
fn test_streamer_info_wrong_class_rejected() {
    let mut d = Vec::new();
    d.extend_from_slice(&(0x4000_0000u32 | 200).to_be_bytes());
    d.extend_from_slice(&5u16.to_be_bytes());
    d.extend_from_slice(&tobject_body());
    d.extend_from_slice(&tstring(""));
    d.extend_from_slice(&1u32.to_be_bytes());
    d.extend_from_slice(&(0x4000_0000u32 | 180).to_be_bytes());
    d.extend_from_slice(&0xFFFF_FFFFu32.to_be_bytes());
    d.extend_from_slice(b"TSomethingElse\0");
    d.extend_from_slice(&(0x4000_0000u32 | 160).to_be_bytes());
    d.extend_from_slice(&9u16.to_be_bytes());
    let mut key = TKeyHeader::new();
    key.decompressed_data = Some(d);
    assert!(matches!(
        StreamerInfo::new(key),
        Err(RootError::ParseError(_))
    ));
}

// ---- headers -----------------------------------------------------------

#[test]
fn test_file_header_fields() {
    let payload = catalog_payload(&[]);
    let block = zlib_root_block(&payload);
    let image = root_file_image(61400, 101, &block, payload.len() as u32);
    let h = TFileHeader::read_header(&image).unwrap();
    assert_eq!(h.f_version, 61400);
    assert_eq!(h.f_begin, 100);
    assert_eq!(h.f_units, 4);
    assert_eq!(h.f_compress, 101);
    assert_eq!(h.f_seek_info, 100);
    let compact = RootFileHeader::from_header(&h);
    assert_eq!(compact.version, 61400);
    assert_eq!(compact.seek_info, 100);
    assert_eq!(compact.compression, 101);
    assert_eq!(compact.units, 4);
}

#[test]
fn test_file_header_short_input_rejected() {
    let image = b"root\x00\x00\x00\x01".to_vec();
    assert!(matches!(
        TFileHeader::read_header(&image),
        Err(RootError::InvalidFormat(_))
    ));
}

#[test]
fn test_read_key_through_reader() {
    let payload = catalog_payload(&[]);
    let block = zlib_root_block(&payload);
    let image = root_file_image(61400, 101, &block, payload.len() as u32);
    let reader = RootReader::open(image).unwrap();
    let key = reader.read_key(100).unwrap();
    assert_eq!(key.class_name, "TList");
    let bytes = reader.decompress_key(&key).unwrap();
    assert_eq!(bytes, payload);
    assert!(matches!(
        reader.read_key(u64::MAX),
        Err(RootError::InvalidFormat(_))
    ));
}

// ---- element decoding ---------------------------------------------------

/// One element descriptor: envelope, TNamed body, the common words, an
/// optional target class name, and trailing bytes the byte count skips.
fn element(tag_and_name: &[u8], name: &str, type_code: u32, target: Option<&str>, junk: &[u8]) -> Vec<u8> {
    let mut content = Vec::new();
    content.extend_from_slice(tag_and_name);
    content.extend_from_slice(&2u16.to_be_bytes()); // element version
    content.extend_from_slice(&tobject_body());
    content.extend_from_slice(&tstring(name));
    content.extend_from_slice(&tstring("")); // title
    content.extend_from_slice(&type_code.to_be_bytes());
    content.extend_from_slice(&8u32.to_be_bytes()); // offset
    content.extend_from_slice(&1u32.to_be_bytes()); // array length
    content.extend_from_slice(&0u32.to_be_bytes()); // array dimensions
    if let Some(t) = target {
        content.extend_from_slice(&tstring(t));
    }
    content.extend_from_slice(junk);
    with_byte_count(&content)
}

fn element_array(elements: &[Vec<u8>]) -> Vec<u8> {
    let mut content = Vec::new();
    content.extend_from_slice(&0xFFFF_FFFFu32.to_be_bytes());
    content.extend_from_slice(b"TObjArray\0");
    content.extend_from_slice(&3u16.to_be_bytes());
    content.extend_from_slice(&tobject_body());
    content.extend_from_slice(&tstring(""));
    content.extend_from_slice(&(elements.len() as u32).to_be_bytes());
    content.extend_from_slice(&0u32.to_be_bytes());
    for e in elements {
        content.extend_from_slice(e);
    }
    with_byte_count(&content)
}

fn entry_with_elements(class: &str, elements: &[Vec<u8>]) -> Vec<u8> {
    let mut content = Vec::new();
    content.extend_from_slice(&new_class_tag("TStreamerInfo"));
    content.extend_from_slice(&9u16.to_be_bytes());
    content.extend_from_slice(&tobject_body());
    content.extend_from_slice(&tstring(class));
    content.extend_from_slice(&tstring(""));
    content.extend_from_slice(&0xBEEF_BEEFu32.to_be_bytes());
    content.extend_from_slice(&2u32.to_be_bytes());
    content.extend_from_slice(&element_array(elements));
    let mut v = with_byte_count(&content);
    v.push(0);
    v
}

#[test]
fn test_catalog_entry_with_elements() {
    // A basic-type element with trailing variant fields that the byte
    // count skips, and an object element carrying a target class name.
    let e1 = element(
        &new_class_tag("TStreamerBasicType"),
        "fUniqueID",
        13,
        None,
        &[0xAA, 0xBB, 0xCC],
    );
    let e2 = element(
        &new_class_tag("TStreamerObject"),
        "fInner",
        61,
        Some("TNamed"),
        &[],
    );
    let entry = entry_with_elements("TAnalysis", &[e1, e2]);
    let payload = catalog_payload(&[entry]);
    let catalog = StreamerCatalog::decode(&payload).unwrap();
    assert_eq!(catalog.entries.len(), 1);
    let parsed = &catalog.entries[0];
    assert_eq!(parsed.name, "TAnalysis");
    assert_eq!(parsed.checksum, 0xBEEF_BEEF);
    assert_eq!(parsed.class_version, 2);
    assert_eq!(parsed.elements.len(), 2);
    assert_eq!(parsed.elements[0].class_name, "TStreamerBasicType");
    assert_eq!(parsed.elements[0].kind, ElementKind::BasicType);
    assert_eq!(parsed.elements[0].name, "fUniqueID");
    assert_eq!(parsed.elements[0].type_code, 13);
    assert_eq!(parsed.elements[0].offset, 8);
    assert_eq!(parsed.elements[0].array_len, 1);
    assert_eq!(parsed.elements[0].array_dim, 0);
    assert_eq!(parsed.elements[0].target_class, None);
    assert_eq!(parsed.elements[1].class_name, "TStreamerObject");
    assert_eq!(parsed.elements[1].kind, ElementKind::Object);
    assert_eq!(parsed.elements[1].name, "fInner");
    assert_eq!(
        parsed.elements[1].target_class.as_deref(),
        Some("TNamed")
    );
}

#[test]
fn test_open_zstd_payload() {
    // Descriptor 505: a single Zstandard frame.
    let payload = catalog_payload(&[entry_with_tag(
        &new_class_tag("TStreamerInfo"),
        "TObject",
        3,
        1,
    )]);
    let block = zstd::encode_all(&payload[..], 3).unwrap();
    let image = root_file_image(61400, 505, &block, payload.len() as u32);
    let reader = RootReader::open(image).unwrap();
    assert_eq!(reader.catalog.entries.len(), 1);
    assert_eq!(reader.catalog.entries[0].name, "TObject");
}

#[test]
fn test_null_entry_rejected() {
    // A null class tag where an entry is expected is a parse error.
    let mut null_entry = Vec::new();
    null_entry.extend_from_slice(&0u32.to_be_bytes());
    let payload = catalog_payload(&[null_entry]);
    assert!(matches!(
        StreamerCatalog::decode(&payload),
        Err(RootError::ParseError(_))
    ));
}
