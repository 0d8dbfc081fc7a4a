//! A compact, 32-bit view of a ROOT file header, for files small enough
//! that every offset fits in a 32-bit word.

use vstd::prelude::*;
use crate::tfile::TFileHeader;

verus! {

/// A ROOT file header with every offset held as a 32-bit value.
#[derive(Debug, Clone)]
pub struct RootFileHeader {
    pub version: u32,
    pub begin: u32,
    pub end: u32,
    pub seek_free: u32,
    pub n_bytes_free: u32,
    pub n_free: u32,
    pub n_bytes_name: u32,
    pub units: u8,
    pub compression: u32,
    pub seek_info: u32,
    pub n_bytes_info: u32,
}

impl RootFileHeader {
    /// The compact view of a parsed header; only headers of small files,
    /// whose seek fields fit in 32 bits, have one.
    pub fn from_header(h: &TFileHeader) -> (r: RootFileHeader)
        requires
            h.f_end <= u32::MAX,
            h.f_seek_free <= u32::MAX,
            h.f_seek_info <= u32::MAX,
            h.f_compress >= 0,
        ensures
            r.version == h.f_version,
            r.begin == h.f_begin,
            r.end == h.f_end,
            r.seek_free == h.f_seek_free,
            r.n_bytes_free == h.f_nbytes_free,
            r.n_free == h.n_free,
            r.n_bytes_name == h.f_nbytes_name,
            r.units == h.f_units,
            r.compression == h.f_compress,
            r.seek_info == h.f_seek_info,
            r.n_bytes_info == h.f_nbytes_info,
    {
        RootFileHeader {
            version: h.f_version,
            begin: h.f_begin,
            end: h.f_end as u32,
            seek_free: h.f_seek_free as u32,
            n_bytes_free: h.f_nbytes_free,
            n_free: h.n_free,
            n_bytes_name: h.f_nbytes_name,
            units: h.f_units,
            compression: h.f_compress as u32,
            seek_info: h.f_seek_info as u32,
            n_bytes_info: h.f_nbytes_info,
        }
    }
}

} // verus!
