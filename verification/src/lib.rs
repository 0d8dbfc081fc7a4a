//! A reader for the CERN ROOT on-disk file format: a layered binary decoder
//! that parses the file header, locates and parses keys, decompresses key
//! payloads, and decodes the embedded object-serialization stream far enough
//! to recover the streamer-info catalog.

use vstd::prelude::*;

pub mod compression;
pub mod constant;
pub mod error;
pub mod file;
pub mod reader;
pub mod streamerinfo;
pub mod tbuf;
pub mod tfile;
pub mod tkey;
pub mod tlist;

pub use error::RootError;
pub use file::RootFileHeader;
pub use reader::RootReader;

verus! {

/// Version of the ROOT I/O library.
pub const VERSION: &'static str = "0.1.0";

} // verus!
