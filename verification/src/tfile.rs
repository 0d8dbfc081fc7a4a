//! The ROOT file header: the fixed-layout prefix at file offset 0. The
//! version field selects the pointer width: when `version >= 1_000_000` the
//! file is large, the three seek fields are 8 bytes each and `units == 8`;
//! otherwise they are 4 bytes each and `units == 4`.

use vstd::prelude::*;
use crate::error::RootError;
use crate::tbuf::{TBuf, be_u32_at, be_u64_at, spec_ptr_at};

verus! {

/// The version value from which a file is "large": seek fields are 8 bytes
/// wide and `units == 8`.
pub const LARGE_FILE_VERSION: u32 = 1000000;

/// Width in bytes of the header's seek fields for a given format version.
pub open spec fn spec_header_width(version: u32) -> int {
    if version >= 1000000 {
        8
    } else {
        4
    }
}

/// Total length in bytes of the fixed header prefix for a given version:
/// magic, version, begin, two seek fields, three counters, the units byte,
/// the compression descriptor, one more seek field, one counter, and the
/// 16-byte UUID.
pub open spec fn spec_header_len(version: u32) -> int {
    49 + 3 * spec_header_width(version)
}

/// The file header as a plain mathematical value.
pub ghost struct FileHeaderModel {
    pub f_version: u32,
    pub f_begin: u32,
    pub f_end: u64,
    pub f_seek_free: u64,
    pub f_nbytes_free: u32,
    pub n_free: u32,
    pub f_nbytes_name: u32,
    pub f_units: u8,
    pub f_compress: i32,
    pub f_seek_info: u64,
    pub f_nbytes_info: u32,
    pub f_uuid: Seq<u8>,
}

/// Parse of the file header at offset 0 of `s`: `None` when the magic is not
/// `"root"`, when the prefix is shorter than the layout demands, or when the
/// units byte disagrees with the version's pointer width; otherwise the
/// decoded fields.
pub open spec fn spec_parse_file_header(s: Seq<u8>) -> Option<FileHeaderModel> {
    if s.len() < 4 {
        None
    } else if !(s[0] == 0x72 && s[1] == 0x6f && s[2] == 0x6f && s[3] == 0x74) {
        None
    } else if s.len() < 12 {
        None
    } else {
        let version = be_u32_at(s, 4);
        let wide = version >= 1000000;
        let w = spec_header_width(version);
        if s.len() < spec_header_len(version) {
            None
        } else {
            let units = s[24 + 2 * w];
            if units != (if wide { 8u8 } else { 4u8 }) {
                None
            } else {
                Some(
                    FileHeaderModel {
                        f_version: version,
                        f_begin: be_u32_at(s, 8),
                        f_end: spec_ptr_at(s, 12, wide),
                        f_seek_free: spec_ptr_at(s, 12 + w, wide),
                        f_nbytes_free: be_u32_at(s, 12 + 2 * w),
                        n_free: be_u32_at(s, 16 + 2 * w),
                        f_nbytes_name: be_u32_at(s, 20 + 2 * w),
                        f_units: units,
                        f_compress: be_u32_at(s, 25 + 2 * w) as i32,
                        f_seek_info: spec_ptr_at(s, 29 + 2 * w, wide),
                        f_nbytes_info: be_u32_at(s, 29 + 3 * w),
                        f_uuid: s.subrange(33 + 3 * w, 49 + 3 * w),
                    },
                )
            }
        }
    }
}

/// Magic law: a byte sequence that does not begin with the four ASCII bytes
/// of `"root"` is never accepted as a file header.
pub proof fn lemma_bad_magic_rejected(s: Seq<u8>)
    requires
        !(s.len() >= 4 && s[0] == 0x72 && s[1] == 0x6f && s[2] == 0x6f && s[3] == 0x74),
    ensures
        spec_parse_file_header(s) is None,
{
}

/// Pointer-width law: a header accepted with version at or above one million
/// carries `units == 8` and has its three seek fields decoded as 8-byte
/// big-endian words; one below carries `units == 4` and 4-byte seek fields.
/// A units byte that disagrees with the version's width is never accepted.
pub proof fn lemma_pointer_width(s: Seq<u8>)
    ensures
        spec_parse_file_header(s) matches Some(m) ==> (m.f_version >= 1000000 ==> m.f_units == 8
            && m.f_end == be_u64_at(s, 12) && m.f_seek_free == be_u64_at(s, 20) && m.f_seek_info
            == be_u64_at(s, 45)),
        spec_parse_file_header(s) matches Some(m) ==> (m.f_version < 1000000 ==> m.f_units == 4
            && m.f_end == be_u32_at(s, 12) as u64 && m.f_seek_free == be_u32_at(s, 16) as u64
            && m.f_seek_info == be_u32_at(s, 37) as u64),
        ({
            let w = spec_header_width(be_u32_at(s, 4));
            (s.len() >= spec_header_len(be_u32_at(s, 4)) && s[24 + 2 * w] != (
            if be_u32_at(s, 4) >= 1000000 {
                8u8
            } else {
                4u8
            })) ==> spec_parse_file_header(s) is None
        }),
{
}

/// Width of the seek fields, selected by the format version.
enum HeaderPtrWidth {
    Off32,
    Off64,
}

impl HeaderPtrWidth {
    fn new(version: u32) -> (r: Self)
        ensures
            (r is Off64) == (version >= 1000000),
    {
        if version >= 1000000 {
            HeaderPtrWidth::Off64
        } else {
            HeaderPtrWidth::Off32
        }
    }
}

/// The decoded ROOT file header.
#[derive(Debug, Clone)]
pub struct TFileHeader {
    pub f_version: u32,
    pub f_begin: u32,
    pub f_end: u64,
    pub f_seek_free: u64,
    pub f_nbytes_free: u32,
    pub n_free: u32,
    pub f_nbytes_name: u32,
    pub f_units: u8,
    pub f_compress: i32,
    pub f_seek_info: u64,
    pub f_nbytes_info: u32,
    pub f_uuid: [u8; 16],
}

impl TFileHeader {
    /// The header's fields as a mathematical value.
    pub open spec fn model(self) -> FileHeaderModel {
        FileHeaderModel {
            f_version: self.f_version,
            f_begin: self.f_begin,
            f_end: self.f_end,
            f_seek_free: self.f_seek_free,
            f_nbytes_free: self.f_nbytes_free,
            n_free: self.n_free,
            f_nbytes_name: self.f_nbytes_name,
            f_units: self.f_units,
            f_compress: self.f_compress,
            f_seek_info: self.f_seek_info,
            f_nbytes_info: self.f_nbytes_info,
            f_uuid: self.f_uuid@,
        }
    }

    /// An all-zero header, to be filled by parsing.
    pub fn new() -> (r: Self)
        ensures
            r.f_version == 0 && r.f_begin == 0 && r.f_end == 0 && r.f_seek_free == 0,
            r.f_nbytes_free == 0 && r.n_free == 0 && r.f_nbytes_name == 0 && r.f_units == 0,
            r.f_compress == 0 && r.f_seek_info == 0 && r.f_nbytes_info == 0,
            r.f_uuid@ =~= Seq::new(16, |i: int| 0u8),
    {
        TFileHeader {
            f_version: 0,
            f_begin: 0,
            f_end: 0,
            f_seek_free: 0,
            f_nbytes_free: 0,
            n_free: 0,
            f_nbytes_name: 0,
            f_units: 0,
            f_compress: 0,
            f_seek_info: 0,
            f_nbytes_info: 0,
            f_uuid: [0u8; 16],
        }
    }

    /// Parse and validate the file header at offset 0 of `data`.
    ///
    /// Succeeds exactly when `data` starts with the magic `"root"`, is long
    /// enough for the whole fixed prefix, and carries a units byte that
    /// agrees with the version's pointer width; any other input is rejected
    /// as `InvalidFormat`.
    pub fn read_header(data: &[u8]) -> (r: Result<TFileHeader, RootError>)
        ensures
            spec_parse_file_header(data@) matches Some(m) ==> (r matches Ok(h) && h.model() == m),
            spec_parse_file_header(data@) is None ==> (r matches Err(e) && e is InvalidFormat),
    {
        let mut buf = TBuf::new(data);
        let magic = match buf.read_bytes(4) {
            Ok(b) => b,
            Err(e) => {
                return Err(e);
            },
        };
        if !(magic[0] == 0x72 && magic[1] == 0x6f && magic[2] == 0x6f && magic[3] == 0x74) {
            return Err(RootError::InvalidFormat("not a ROOT file".to_owned()));
        }
        let f_version = match buf.read_u32() {
            Ok(v) => v,
            Err(e) => {
                return Err(e);
            },
        };
        let f_begin = match buf.read_u32() {
            Ok(v) => v,
            Err(e) => {
                return Err(e);
            },
        };
        let width = HeaderPtrWidth::new(f_version);
        let wide = match width {
            HeaderPtrWidth::Off64 => true,
            HeaderPtrWidth::Off32 => false,
        };
        let f_end = match buf.read_ptr(wide) {
            Ok(v) => v,
            Err(e) => {
                return Err(e);
            },
        };
        let f_seek_free = match buf.read_ptr(wide) {
            Ok(v) => v,
            Err(e) => {
                return Err(e);
            },
        };
        let f_nbytes_free = match buf.read_u32() {
            Ok(v) => v,
            Err(e) => {
                return Err(e);
            },
        };
        let n_free = match buf.read_u32() {
            Ok(v) => v,
            Err(e) => {
                return Err(e);
            },
        };
        let f_nbytes_name = match buf.read_u32() {
            Ok(v) => v,
            Err(e) => {
                return Err(e);
            },
        };
        let f_units = match buf.read_u8() {
            Ok(v) => v,
            Err(e) => {
                return Err(e);
            },
        };
        if f_units != (if wide { 8u8 } else { 4u8 }) {
            return Err(
                RootError::InvalidFormat(
                    "units byte disagrees with the version's pointer width".to_owned(),
                ),
            );
        }
        let f_compress = match buf.read_u32() {
            Ok(v) => v as i32,
            Err(e) => {
                return Err(e);
            },
        };
        let f_seek_info = match buf.read_ptr(wide) {
            Ok(v) => v,
            Err(e) => {
                return Err(e);
            },
        };
        let f_nbytes_info = match buf.read_u32() {
            Ok(v) => v,
            Err(e) => {
                return Err(e);
            },
        };
        let uuid_slice = match buf.read_bytes(16) {
            Ok(b) => b,
            Err(e) => {
                return Err(e);
            },
        };
        let f_uuid: [u8; 16] = [
            uuid_slice[0],
            uuid_slice[1],
            uuid_slice[2],
            uuid_slice[3],
            uuid_slice[4],
            uuid_slice[5],
            uuid_slice[6],
            uuid_slice[7],
            uuid_slice[8],
            uuid_slice[9],
            uuid_slice[10],
            uuid_slice[11],
            uuid_slice[12],
            uuid_slice[13],
            uuid_slice[14],
            uuid_slice[15],
        ];
        let h = TFileHeader {
            f_version,
            f_begin,
            f_end,
            f_seek_free,
            f_nbytes_free,
            n_free,
            f_nbytes_name,
            f_units,
            f_compress,
            f_seek_info,
            f_nbytes_info,
            f_uuid,
        };
        proof {
            assert(h.model().f_uuid =~= data@.subrange(
                33 + 3 * spec_header_width(f_version),
                49 + 3 * spec_header_width(f_version),
            ));
        }
        Ok(h)
    }
}

} // verus!
