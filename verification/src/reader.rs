//! The high-level reader: opens a file image, parses the header, locates and
//! parses the streamer-info key, decompresses its payload, and decodes the
//! streamer catalog. Also renders the human-readable file summary.

use vstd::prelude::*;
use vstd::utf8::{
    valid_utf8,
    decode_utf8,
    valid_first_scalar,
    length_of_first_scalar,
    pop_first_scalar,
    decode_first_scalar,
};
use crate::error::RootError;
use crate::tbuf::{TBuf, string_from_utf8};
use crate::tfile::{TFileHeader, FileHeaderModel, spec_parse_file_header};
use crate::tkey::{TKeyHeader, KeyModel, spec_parse_key};
use crate::compression::{decompress, spec_decompress};
use crate::streamerinfo::{StreamerCatalog, CatalogModel, spec_decode_catalog};

verus! {

/// A run of ASCII bytes decodes byte for byte.
pub proof fn lemma_ascii_decode_utf8(bytes: Seq<u8>)
    requires
        forall|i: int| 0 <= i < bytes.len() ==> bytes[i] < 0x80,
    ensures
        valid_utf8(bytes),
        decode_utf8(bytes) =~= bytes.map(|i: int, b: u8| b as char),
    decreases bytes.len(),
{
    if bytes.len() > 0 {
        let b = bytes[0];
        assert(b & 0x7F == b) by (bit_vector)
            requires
                b < 0x80,
        ;
        assert(valid_first_scalar(bytes));
        assert(length_of_first_scalar(bytes) == 1);
        let rest = pop_first_scalar(bytes);
        assert(rest =~= bytes.drop_first());
        lemma_ascii_decode_utf8(rest);
        assert(decode_first_scalar(bytes) == b as u32);
        assert(decode_utf8(bytes) =~= bytes.map(|i: int, c: u8| c as char));
    }
}

/// The decimal digits of `n`, most significant first, as ASCII bytes.
pub open spec fn spec_dec_bytes(n: nat) -> Seq<u8>
    decreases n,
{
    if n < 10 {
        seq![(48 + n) as u8]
    } else {
        spec_dec_bytes(n / 10).push((48 + (n % 10)) as u8)
    }
}

/// Every decimal digit byte is an ASCII digit.
pub proof fn lemma_dec_bytes_ascii(n: nat)
    ensures
        forall|i: int| 0 <= i < spec_dec_bytes(n).len() ==> 48 <= #[trigger] spec_dec_bytes(n)[i]
            <= 57,
    decreases n,
{
    if n < 10 {
        assert(spec_dec_bytes(n) =~= seq![(48 + n) as u8]);
    } else {
        lemma_dec_bytes_ascii(n / 10);
        let prefix = spec_dec_bytes(n / 10);
        assert(spec_dec_bytes(n) == prefix.push((48 + (n % 10)) as u8));
        assert forall|i: int| 0 <= i < spec_dec_bytes(n).len() implies 48
            <= #[trigger] spec_dec_bytes(n)[i] <= 57 by {
            if i < prefix.len() {
                assert(spec_dec_bytes(n)[i] == prefix[i]);
            }
        }
    }
}

/// The decimal digits of `n`, most significant first, as characters.
pub open spec fn spec_dec_chars(n: nat) -> Seq<char> {
    spec_dec_bytes(n).map(|i: int, b: u8| b as char)
}

/// The decimal rendering of a signed 32-bit value.
pub open spec fn spec_dec_chars_i32(c: i32) -> Seq<char> {
    if c < 0 {
        seq!['-'] + spec_dec_chars((-(c as int)) as nat)
    } else {
        spec_dec_chars(c as nat)
    }
}

/// The decimal digit bytes of `n`, most significant first.
fn u64_dec_bytes(n: u64) -> (r: Vec<u8>)
    ensures
        r@ == spec_dec_bytes(n as nat),
    decreases n,
{
    if n < 10 {
        let mut v: Vec<u8> = Vec::new();
        v.push(48 + (n as u8));
        proof {
            assert(v@ =~= spec_dec_bytes(n as nat));
        }
        v
    } else {
        let mut v = u64_dec_bytes(n / 10);
        v.push(48 + ((n % 10) as u8));
        proof {
            assert(v@ =~= spec_dec_bytes(n as nat));
        }
        v
    }
}

/// Render an unsigned value in decimal.
pub fn u64_to_string(n: u64) -> (r: String)
    ensures
        r@ == spec_dec_chars(n as nat),
{
    let v = u64_dec_bytes(n);
    proof {
        lemma_dec_bytes_ascii(n as nat);
    }
    match string_from_utf8(v) {
        Some(s) => {
            proof {
                lemma_ascii_decode_utf8(spec_dec_bytes(n as nat));
            }
            s
        },
        None => {
            proof {
                lemma_ascii_decode_utf8(spec_dec_bytes(n as nat));
            }
            String::new()
        },
    }
}

/// Render a signed 32-bit value in decimal.
pub fn i32_to_string(c: i32) -> (r: String)
    ensures
        r@ == spec_dec_chars_i32(c),
{
    if c < 0 {
        proof {
            reveal_strlit("-");
        }
        let mut out = "-".to_owned();
        let digits = u64_to_string((-(c as i64)) as u64);
        out.append(digits.as_str());
        proof {
            assert(out@ =~= spec_dec_chars_i32(c));
        }
        out
    } else {
        u64_to_string(c as u64)
    }
}

/// The human-readable file summary: the format version, the file size in
/// bytes, and the compression descriptor.
pub open spec fn spec_file_info(version: u32, end: u64, compress: i32) -> Seq<char> {
    "ROOT File\nVersion: "@ + spec_dec_chars(version as nat) + "\nSize: "@ + spec_dec_chars(
        end as nat,
    ) + " bytes\nCompression: "@ + spec_dec_chars_i32(compress)
}

/// What `RootReader::open` recovers from a file image: the validated
/// header, the streamer-info key parsed at the header's `seek_info` offset,
/// the decompressed payload — which must not exceed the key's declared
/// object length — and the catalog decoded from it.
pub open spec fn spec_open_model(d: Seq<u8>) -> Option<
    (FileHeaderModel, KeyModel, Seq<u8>, CatalogModel),
> {
    match spec_parse_file_header(d) {
        None => None,
        Some(h) => match spec_parse_key(d, h.f_seek_info as int, h.f_units == 8) {
            None => None,
            Some(k) => match spec_decompress(k.payload, h.f_compress as int) {
                None => None,
                Some(p) => {
                    if p.len() > k.obj_len {
                        None
                    } else {
                        match spec_decode_catalog(p) {
                            None => None,
                            Some(c) => Some((h, k, p, c)),
                        }
                    }
                },
            },
        },
    }
}

/// A ROOT file held in memory, opened up to its streamer catalog: the
/// parsed header, the streamer-info key with its decompressed payload, and
/// the decoded catalog.
#[derive(Debug)]
pub struct RootReader {
    pub header: TFileHeader,
    pub key: TKeyHeader,
    pub catalog: StreamerCatalog,
    pub data: Vec<u8>,
}

impl RootReader {
    /// The bytes of the file image the reader was opened on.
    pub open spec fn bytes(self) -> Seq<u8> {
        self.data@
    }

    /// The header carries a units byte the key parser accepts.
    pub open spec fn wf(self) -> bool {
        self.header.f_units == 4 || self.header.f_units == 8
    }

    /// Open a ROOT file image: parse and validate the header, parse the
    /// streamer-info key at the header's `seek_info` offset, decompress its
    /// payload — refusing one that exceeds the key's declared object
    /// length — and decode the streamer catalog from it.
    pub fn open(data: Vec<u8>) -> (r: Result<RootReader, RootError>)
        ensures
            spec_open_model(data@) matches Some(t) ==> (r matches Ok(rd) && rd.header.model()
                == t.0 && rd.key.model() == t.1 && (rd.key.decompressed_data matches Some(p) && p@
                == t.2) && rd.catalog.model() == t.3 && rd.bytes() == data@ && rd.wf()),
            spec_open_model(data@) is None ==> (r matches Err(e) && (e is InvalidFormat || e
                is ParseError || e is CompressionError)),
    {
        let header = match TFileHeader::read_header(data.as_slice()) {
            Ok(h) => h,
            Err(e) => {
                return Err(e);
            },
        };
        let mut buf = TBuf::new(data.as_slice());
        let mut key = match TKeyHeader::read_tkey_at(&mut buf, header.f_seek_info, header.f_units) {
            Ok(k) => k,
            Err(e) => {
                return Err(e);
            },
        };
        let payload = match decompress(key.compressed_data.as_slice(), header.f_compress) {
            Ok(p) => p,
            Err(e) => {
                return Err(e);
            },
        };
        if payload.len() > key.obj_len as usize {
            return Err(
                RootError::InvalidFormat(
                    "decompressed payload exceeds the declared object length".to_owned(),
                ),
            );
        }
        let catalog = match StreamerCatalog::decode(payload.as_slice()) {
            Ok(c) => c,
            Err(e) => {
                return Err(e);
            },
        };
        key.decompressed_data = Some(payload);
        Ok(RootReader { header, key, catalog, data })
    }

    /// Render the file summary: version, size, compression descriptor.
    pub fn file_info(&self) -> (r: String)
        ensures
            r@ == spec_file_info(self.header.f_version, self.header.f_end, self.header.f_compress),
    {
        let mut out = "ROOT File\nVersion: ".to_owned();
        let version = u64_to_string(self.header.f_version as u64);
        out.append(version.as_str());
        out.append("\nSize: ");
        let size = u64_to_string(self.header.f_end);
        out.append(size.as_str());
        out.append(" bytes\nCompression: ");
        let compress = i32_to_string(self.header.f_compress);
        out.append(compress.as_str());
        proof {
            assert(out@ =~= spec_file_info(
                self.header.f_version,
                self.header.f_end,
                self.header.f_compress,
            ));
        }
        out
    }

    /// List the objects the reader knows of: the streamer-info key's entry,
    /// then one line per catalog entry, each as `name (class)`.
    pub fn list_objects(&self) -> (r: Vec<String>)
        ensures
            r@.len() == 1 + self.catalog.entries@.len(),
            r@[0]@ == self.key.name@ + " ("@ + self.key.class_name@ + ")"@,
            forall|i: int| 0 <= i < self.catalog.entries@.len() ==> #[trigger] r@[i + 1]@
                == self.catalog.entries@[i].name@ + " (TStreamerInfo)"@,
    {
        let mut out: Vec<String> = Vec::new();
        let mut first = self.key.name.clone();
        first.append(" (");
        first.append(self.key.class_name.as_str());
        first.append(")");
        out.push(first);
        let mut i: usize = 0;
        while i < self.catalog.entries.len()
            invariant
                0 <= i <= self.catalog.entries@.len(),
                out@.len() == 1 + i,
                out@[0]@ == self.key.name@ + " ("@ + self.key.class_name@ + ")"@,
                forall|j: int| 0 <= j < i ==> #[trigger] out@[j + 1]@
                    == self.catalog.entries@[j].name@ + " (TStreamerInfo)"@,
            decreases self.catalog.entries@.len() - i,
        {
            let mut line = self.catalog.entries[i].name.clone();
            line.append(" (TStreamerInfo)");
            out.push(line);
            i = i + 1;
        }
        out
    }

    /// Parse the key envelope at an absolute offset of the file image.
    pub fn read_key(&self, offset: u64) -> (r: Result<TKeyHeader, RootError>)
        requires
            self.wf(),
        ensures
            spec_parse_key(self.bytes(), offset as int, self.header.f_units == 8) matches Some(m)
                ==> (r matches Ok(k) && k.model() == m),
            spec_parse_key(self.bytes(), offset as int, self.header.f_units == 8) is None ==> (
            r matches Err(e) && e is InvalidFormat),
    {
        let mut buf = TBuf::new(self.data.as_slice());
        TKeyHeader::read_tkey_at(&mut buf, offset, self.header.f_units)
    }

    /// Decompress a key's payload with the file's compression descriptor.
    pub fn decompress_key(&self, key: &TKeyHeader) -> (r: Result<Vec<u8>, RootError>)
        ensures
            spec_decompress(key.compressed_data@, self.header.f_compress as int) matches Some(out)
                ==> (r matches Ok(v) && v@ == out),
            spec_decompress(key.compressed_data@, self.header.f_compress as int) is None ==> (
            r matches Err(e) && e is CompressionError),
    {
        decompress(key.compressed_data.as_slice(), self.header.f_compress)
    }
}

} // verus!
