//! The `TKey` envelope: a keyed record at an absolute file offset carrying
//! one serialized object plus metadata. The envelope holds sizes, a
//! date-time word, a cycle, two seek pointers at the file's pointer width,
//! and three length-prefixed strings (class name, object name, title); the
//! compressed payload is the `n_bytes - key_len` bytes that follow the
//! header, located at `offset + key_len`.

use vstd::prelude::*;
use vstd::utf8::{valid_utf8, decode_utf8};
use crate::error::RootError;
use crate::tbuf::{TBuf, be_u16_at, be_u32_at, spec_ptr_at};
use crate::compression::{HasCompressedData, decompress};

verus! {

/// The decoded string and end position of a 1-byte-length-prefixed string
/// starting at `pos`.
pub open spec fn spec_read_lstring(s: Seq<u8>, pos: int) -> Option<(Seq<char>, int)> {
    if pos < 0 || pos + 1 > s.len() {
        None
    } else {
        let n = s[pos] as int;
        let body = pos + 1;
        if body + n > s.len() {
            None
        } else if valid_utf8(s.subrange(body, body + n)) {
            Some((decode_utf8(s.subrange(body, body + n)), body + n))
        } else {
            None
        }
    }
}

/// A key envelope as a plain mathematical value.
pub ghost struct KeyModel {
    pub n_bytes: u32,
    pub version: u16,
    pub obj_len: u32,
    pub datime: u32,
    pub key_len: u16,
    pub cycle: u16,
    pub seek_key: u64,
    pub seek_p_dir: u64,
    pub l_name: u8,
    pub class_name: Seq<char>,
    pub name: Seq<char>,
    pub title: Seq<char>,
    pub payload: Seq<u8>,
}

/// Parse of a key envelope at absolute offset `offset` of `s`, with seek
/// fields 8 bytes wide when `wide`. `None` when any read falls outside `s`,
/// a string is not UTF-8, the declared total is smaller than the key length,
/// or the declared total extends past the end of `s`. The payload is the
/// byte range `[offset + key_len, offset + n_bytes)`.
pub open spec fn spec_parse_key(s: Seq<u8>, offset: int, wide: bool) -> Option<KeyModel> {
    let w: int = if wide {
        8
    } else {
        4
    };
    if offset < 0 || offset + 18 + 2 * w > s.len() {
        None
    } else {
        let n_bytes = be_u32_at(s, offset);
        let key_len = be_u16_at(s, offset + 14);
        match spec_read_lstring(s, offset + 18 + 2 * w) {
            None => None,
            Some((class_name, p1)) => match spec_read_lstring(s, p1) {
                None => None,
                Some((name, p2)) => match spec_read_lstring(s, p2) {
                    None => None,
                    Some((title, p3)) => {
                        if n_bytes < key_len || offset + n_bytes > s.len() {
                            None
                        } else {
                            Some(
                                KeyModel {
                                    n_bytes,
                                    version: be_u16_at(s, offset + 4),
                                    obj_len: be_u32_at(s, offset + 6),
                                    datime: be_u32_at(s, offset + 10),
                                    key_len,
                                    cycle: be_u16_at(s, offset + 16),
                                    seek_key: spec_ptr_at(s, offset + 18, wide),
                                    seek_p_dir: spec_ptr_at(s, offset + 18 + w, wide),
                                    l_name: s[offset + 18 + 2 * w],
                                    class_name,
                                    name,
                                    title,
                                    payload: s.subrange(offset + key_len, offset + n_bytes),
                                },
                            )
                        }
                    },
                },
            },
        }
    }
}

/// Key envelope bounds: an accepted key's payload holds exactly
/// `n_bytes - key_len` bytes, the declared total covers the key length, and
/// the whole envelope lies within the data — so a reader that consumes it
/// rests at `offset + n_bytes`.
pub proof fn lemma_key_envelope_bounds(s: Seq<u8>, offset: int, wide: bool)
    ensures
        spec_parse_key(s, offset, wide) matches Some(m) ==> (m.payload.len() == m.n_bytes
            - m.key_len && m.n_bytes >= m.key_len && offset + m.n_bytes <= s.len()),
{
}

/// Width of a key's seek fields, selected by the file header's units byte.
enum HeaderPtrWidth {
    Off32,
    Off64,
}

impl HeaderPtrWidth {
    fn new(f_unit: u8) -> (r: Self)
        requires
            f_unit == 4 || f_unit == 8,
        ensures
            (r is Off64) == (f_unit == 8),
    {
        match f_unit {
            8 => HeaderPtrWidth::Off64,
            _ => HeaderPtrWidth::Off32,
        }
    }
}

/// A decoded `TKey` envelope together with its compressed payload.
#[derive(Debug, Clone)]
pub struct TKeyHeader {
    pub n_bytes: u32,
    pub version: u16,
    pub obj_len: u32,
    pub datime: u32,
    pub key_len: u16,
    pub cycle: u16,
    pub seek_key: u64,
    pub seek_p_dir: u64,
    pub l_name: u8,
    pub class_name: String,
    pub name: String,
    pub title: String,
    pub compressed_data: Vec<u8>,
    pub decompressed_data: Option<Vec<u8>>,
}

impl TKeyHeader {
    /// The key's fields as a mathematical value.
    pub open spec fn model(self) -> KeyModel {
        KeyModel {
            n_bytes: self.n_bytes,
            version: self.version,
            obj_len: self.obj_len,
            datime: self.datime,
            key_len: self.key_len,
            cycle: self.cycle,
            seek_key: self.seek_key,
            seek_p_dir: self.seek_p_dir,
            l_name: self.l_name,
            class_name: self.class_name@,
            name: self.name@,
            title: self.title@,
            payload: self.compressed_data@,
        }
    }

    /// An empty key, to be filled by parsing.
    pub fn new() -> (r: Self)
        ensures
            r.n_bytes == 0 && r.version == 0 && r.obj_len == 0 && r.datime == 0,
            r.key_len == 0 && r.cycle == 0 && r.seek_key == 0 && r.seek_p_dir == 0,
            r.l_name == 0,
            r.class_name@ =~= Seq::<char>::empty(),
            r.name@ =~= Seq::<char>::empty(),
            r.title@ =~= Seq::<char>::empty(),
            r.compressed_data@ =~= Seq::<u8>::empty(),
            r.decompressed_data is None,
    {
        TKeyHeader {
            n_bytes: 0,
            version: 0,
            obj_len: 0,
            datime: 0,
            key_len: 0,
            cycle: 0,
            seek_key: 0,
            seek_p_dir: 0,
            l_name: 0,
            class_name: String::new(),
            name: String::new(),
            title: String::new(),
            compressed_data: Vec::new(),
            decompressed_data: None,
        }
    }

    /// Parse the key envelope at absolute offset `offset` and attach the
    /// compressed payload bytes that follow it.
    ///
    /// On success the reader rests at exactly `offset + n_bytes` and the
    /// payload holds `n_bytes - key_len` bytes; a key that would extend past
    /// the end of the data, or any short or malformed read, is rejected as
    /// `InvalidFormat`.
    pub fn read_tkey_at(reader: &mut TBuf, offset: u64, f_unit: u8) -> (r: Result<
        TKeyHeader,
        RootError,
    >)
        requires
            old(reader).wf(),
            f_unit == 4 || f_unit == 8,
        ensures
            final(reader).wf(),
            final(reader).bytes() == old(reader).bytes(),
            spec_parse_key(old(reader).bytes(), offset as int, f_unit == 8) matches Some(m) ==> (
            r matches Ok(k) && k.model() == m && k.decompressed_data is None) && final(reader).pos()
                == offset + m.n_bytes,
            spec_parse_key(old(reader).bytes(), offset as int, f_unit == 8) is None ==> (r matches Err(
                e,
            ) && e is InvalidFormat),
    {
        let width = HeaderPtrWidth::new(f_unit);
        let wide = match width {
            HeaderPtrWidth::Off64 => true,
            HeaderPtrWidth::Off32 => false,
        };
        if offset > reader.len() as u64 {
            return Err(RootError::InvalidFormat("key offset past end of data".to_owned()));
        }
        let off = offset as usize;
        reader.seek(off);
        let n_bytes = match reader.read_u32() {
            Ok(v) => v,
            Err(e) => {
                return Err(e);
            },
        };
        let version = match reader.read_u16() {
            Ok(v) => v,
            Err(e) => {
                return Err(e);
            },
        };
        let obj_len = match reader.read_u32() {
            Ok(v) => v,
            Err(e) => {
                return Err(e);
            },
        };
        let datime = match reader.read_u32() {
            Ok(v) => v,
            Err(e) => {
                return Err(e);
            },
        };
        let key_len = match reader.read_u16() {
            Ok(v) => v,
            Err(e) => {
                return Err(e);
            },
        };
        let cycle = match reader.read_u16() {
            Ok(v) => v,
            Err(e) => {
                return Err(e);
            },
        };
        let seek_key = match reader.read_ptr(wide) {
            Ok(v) => v,
            Err(e) => {
                return Err(e);
            },
        };
        let seek_p_dir = match reader.read_ptr(wide) {
            Ok(v) => v,
            Err(e) => {
                return Err(e);
            },
        };
        let l_name = match reader.read_u8() {
            Ok(v) => v,
            Err(e) => {
                return Err(e);
            },
        };
        let class_name = match reader.read_string(l_name as usize) {
            Ok(s) => s,
            Err(e) => {
                return Err(e);
            },
        };
        let name_len = match reader.read_u8() {
            Ok(v) => v,
            Err(e) => {
                return Err(e);
            },
        };
        let name = match reader.read_string(name_len as usize) {
            Ok(s) => s,
            Err(e) => {
                return Err(e);
            },
        };
        let title_len = match reader.read_u8() {
            Ok(v) => v,
            Err(e) => {
                return Err(e);
            },
        };
        let title = match reader.read_string(title_len as usize) {
            Ok(s) => s,
            Err(e) => {
                return Err(e);
            },
        };
        if n_bytes < key_len as u32 {
            return Err(
                RootError::InvalidFormat("key total smaller than its key length".to_owned()),
            );
        }
        if n_bytes as u64 > reader.len() as u64 - offset {
            return Err(RootError::InvalidFormat("key extends past end of data".to_owned()));
        }
        reader.seek(off + key_len as usize);
        let payload = match reader.read_bytes(n_bytes as usize - key_len as usize) {
            Ok(b) => b,
            Err(e) => {
                return Err(e);
            },
        };
        let compressed_data = vstd::slice::slice_to_vec(payload);
        Ok(
            TKeyHeader {
                n_bytes,
                version,
                obj_len,
                datime,
                key_len,
                cycle,
                seek_key,
                seek_p_dir,
                l_name,
                class_name,
                name,
                title,
                compressed_data,
                decompressed_data: None,
            },
        )
    }
}

impl HasCompressedData for TKeyHeader {
    open spec fn spec_compressed(&self) -> Seq<u8> {
        self.compressed_data@
    }

    open spec fn spec_decompressed(&self) -> Option<Seq<u8>> {
        match self.decompressed_data {
            Some(v) => Some(v@),
            None => None,
        }
    }

    open spec fn spec_uncompressed_len(&self) -> int {
        self.obj_len as int
    }

    fn get_compressed_data(&self) -> (r: &[u8]) {
        self.compressed_data.as_slice()
    }

    fn get_compressed_len(&self) -> (r: usize) {
        self.compressed_data.len()
    }

    fn get_uncompressed_len(&self) -> (r: usize) {
        self.obj_len as usize
    }

    fn get_decompressed_data(&self) -> (r: Option<&Vec<u8>>) {
        match &self.decompressed_data {
            Some(v) => Some(v),
            None => None,
        }
    }

    fn decompress_into(&self, compression_level: i32) -> (r: Result<Vec<u8>, RootError>) {
        decompress(self.compressed_data.as_slice(), compression_level)
    }

    fn decompress_and_store(&mut self, compression_level: i32) -> (r: Result<Vec<u8>, RootError>) {
        match decompress(self.compressed_data.as_slice(), compression_level) {
            Ok(v) => {
                let copy = vstd::slice::slice_to_vec(v.as_slice());
                self.decompressed_data = Some(copy);
                Ok(v)
            },
            Err(e) => Err(e),
        }
    }
}

} // verus!
