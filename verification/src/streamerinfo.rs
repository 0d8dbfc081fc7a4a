//! The class shapes the streamer-info catalog is built from: `TObject`,
//! `TNamed`, `TStreamerInfo`, `TObjArray`, and the bundle read from a
//! decompressed streamer-info key payload.

use vstd::prelude::*;
use crate::error::RootError;
use crate::tbuf::{TBuf, be_u16_at, be_u32_at, spec_read_tstring};
use crate::tkey::{TKeyHeader, spec_read_lstring};
use crate::tlist::{
    TList,
    TListModel,
    spec_parse_tlist_header,
    spec_read_classname,
    spec_read_envelope,
    spec_read_version_word,
    read_envelope,
    read_version_word,
    ClassNameTable,
    table_keys_below,
};
use crate::constant::{K_BYTECOUNTMASK, K_HAS_BYTECOUNT, K_IS_REFERENCED};

verus! {

/// A `TObject` body as a plain mathematical value.
pub ghost struct TObjectModel {
    pub version: u16,
    pub f_uniqueid: u32,
    pub f_bits: u32,
    pub pidf: Option<u16>,
}

/// Parse of a `TObject` body at `pos`: version, unique ID and bits; when the
/// bits carry the referenced flag, a trailing 16-bit PID index follows.
pub open spec fn spec_read_tobject(s: Seq<u8>, pos: int) -> Option<(TObjectModel, int)> {
    if pos < 0 || pos + 10 > s.len() {
        None
    } else {
        let version = be_u16_at(s, pos);
        let f_uniqueid = be_u32_at(s, pos + 2);
        let f_bits = be_u32_at(s, pos + 6);
        if f_bits & 0x10u32 != 0 {
            if pos + 12 > s.len() {
                None
            } else {
                Some(
                    (
                        TObjectModel {
                            version,
                            f_uniqueid,
                            f_bits,
                            pidf: Some(be_u16_at(s, pos + 10)),
                        },
                        pos + 12,
                    ),
                )
            }
        } else {
            Some((TObjectModel { version, f_uniqueid, f_bits, pidf: None }, pos + 10))
        }
    }
}

/// The `TObject` prefix every streamed object carries.
#[derive(Debug, Clone)]
pub struct TObject {
    pub version: u16,
    pub f_uniqueid: u32,
    pub f_bits: u32,
    pub pidf: Option<u16>,
}

impl TObject {
    /// The fields as a mathematical value.
    pub open spec fn model(self) -> TObjectModel {
        TObjectModel {
            version: self.version,
            f_uniqueid: self.f_uniqueid,
            f_bits: self.f_bits,
            pidf: self.pidf,
        }
    }

    /// Read a `TObject` body: version, unique ID, bits, and — when the bits
    /// carry the referenced flag — a trailing PID index.
    pub fn new_from_streamerinfo(tbuf: &mut TBuf) -> (r: Result<TObject, RootError>)
        requires
            old(tbuf).wf(),
        ensures
            final(tbuf).wf(),
            final(tbuf).bytes() == old(tbuf).bytes(),
            spec_read_tobject(old(tbuf).bytes(), old(tbuf).pos()) matches Some(t) ==> (r matches Ok(
                o,
            ) && o.model() == t.0) && final(tbuf).pos() == t.1,
            spec_read_tobject(old(tbuf).bytes(), old(tbuf).pos()) is None ==> (r matches Err(e) && e
                is InvalidFormat),
    {
        let version = match tbuf.read_u16() {
            Ok(v) => v,
            Err(e) => {
                return Err(e);
            },
        };
        let f_uniqueid = match tbuf.read_u32() {
            Ok(v) => v,
            Err(e) => {
                return Err(e);
            },
        };
        let f_bits = match tbuf.read_u32() {
            Ok(v) => v,
            Err(e) => {
                return Err(e);
            },
        };
        let pidf = if f_bits & K_IS_REFERENCED != 0 {
            match tbuf.read_u16() {
                Ok(v) => Some(v),
                Err(e) => {
                    return Err(e);
                },
            }
        } else {
            None
        };
        Ok(TObject { version, f_uniqueid, f_bits, pidf })
    }
}

/// A `TNamed` frame as a plain mathematical value.
pub ghost struct TNamedModel {
    pub raw_byte_count: u32,
    pub version: u16,
    pub tobject: TObjectModel,
    pub f_name: Seq<char>,
    pub f_title: Seq<char>,
}

/// Parse of a framed `TNamed` at `pos`: its byte-count word and version,
/// then the `TObject` and the two `TString`s that identify the object.
pub open spec fn spec_read_tnamed(s: Seq<u8>, pos: int) -> Option<(TNamedModel, int)> {
    if pos < 0 || pos + 6 > s.len() {
        None
    } else {
        let raw = be_u32_at(s, pos);
        let version = be_u16_at(s, pos + 4);
        match spec_read_tobject(s, pos + 6) {
            None => None,
            Some((tobject, p1)) => match spec_read_tstring(s, p1) {
                None => None,
                Some((f_name, p2)) => match spec_read_tstring(s, p2) {
                    None => None,
                    Some((f_title, p3)) => Some(
                        (
                            TNamedModel {
                                raw_byte_count: raw,
                                version,
                                tobject,
                                f_name,
                                f_title,
                            },
                            p3,
                        ),
                    ),
                },
            },
        }
    }
}

/// A name and a title, the prefix that identifies every catalog entry.
#[derive(Debug, Clone)]
pub struct TNamed {
    pub raw_byte_count: u32,
    pub version: u16,
    pub tobject: TObject,
    pub f_name: String,
    pub f_title: String,
}

impl TNamed {
    /// The fields as a mathematical value.
    pub open spec fn model(self) -> TNamedModel {
        TNamedModel {
            raw_byte_count: self.raw_byte_count,
            version: self.version,
            tobject: self.tobject.model(),
            f_name: self.f_name@,
            f_title: self.f_title@,
        }
    }

    /// Read a framed `TNamed`: byte-count word, version, `TObject`, then the
    /// name and title as `TString`s.
    pub fn new_from_streamerinfo(tbuf: &mut TBuf) -> (r: Result<TNamed, RootError>)
        requires
            old(tbuf).wf(),
        ensures
            final(tbuf).wf(),
            final(tbuf).bytes() == old(tbuf).bytes(),
            spec_read_tnamed(old(tbuf).bytes(), old(tbuf).pos()) matches Some(t) ==> (r matches Ok(
                n,
            ) && n.model() == t.0) && final(tbuf).pos() == t.1,
            spec_read_tnamed(old(tbuf).bytes(), old(tbuf).pos()) is None ==> (r matches Err(e) && e
                is InvalidFormat),
    {
        let raw_byte_count = match tbuf.read_u32() {
            Ok(v) => v,
            Err(e) => {
                return Err(e);
            },
        };
        let version = match tbuf.read_u16() {
            Ok(v) => v,
            Err(e) => {
                return Err(e);
            },
        };
        let tobject = match TObject::new_from_streamerinfo(tbuf) {
            Ok(o) => o,
            Err(e) => {
                return Err(e);
            },
        };
        let f_name = match tbuf.read_tstring() {
            Ok(s) => s,
            Err(e) => {
                return Err(e);
            },
        };
        let f_title = match tbuf.read_tstring() {
            Ok(s) => s,
            Err(e) => {
                return Err(e);
            },
        };
        Ok(TNamed { raw_byte_count, version, tobject, f_name, f_title })
    }
}

/// A `TStreamerInfo` envelope head as a plain mathematical value.
pub ghost struct TStreamerInfoModel {
    pub raw_byte_count: u32,
    pub tag: u32,
    pub class_name: Seq<char>,
    pub remain_bytes_after_header: u32,
    pub version: u16,
}

/// Parse of a `TStreamerInfo` envelope head at `pos`: byte-count word, class
/// tag, the NUL-terminated class name — which must be `TStreamerInfo` —
/// then its inner byte-count word and version.
pub open spec fn spec_read_tstreamerinfo_head(s: Seq<u8>, pos: int) -> Option<
    (TStreamerInfoModel, int),
> {
    if pos < 0 || pos + 8 > s.len() {
        None
    } else {
        let raw = be_u32_at(s, pos);
        let tag = be_u32_at(s, pos + 4);
        match spec_read_classname(s, pos + 8) {
            None => None,
            Some((class_name, p1)) => {
                if class_name != "TStreamerInfo"@ {
                    None
                } else if p1 + 6 > s.len() {
                    None
                } else {
                    Some(
                        (
                            TStreamerInfoModel {
                                raw_byte_count: raw,
                                tag,
                                class_name,
                                remain_bytes_after_header: be_u32_at(s, p1) & 0x3FFFFFFFu32,
                                version: be_u16_at(s, p1 + 4),
                            },
                            p1 + 6,
                        ),
                    )
                }
            },
        }
    }
}

/// The head of a streamed `TStreamerInfo`: its envelope words, class name,
/// inner byte count and version.
#[derive(Debug, Clone)]
pub struct TStreamerInfo {
    pub raw_byte_count: u32,
    pub tag: u32,
    pub class_name: String,
    pub remain_bytes_after_header: u32,
    pub version: u16,
}

impl TStreamerInfo {
    /// The fields as a mathematical value.
    pub open spec fn model(self) -> TStreamerInfoModel {
        TStreamerInfoModel {
            raw_byte_count: self.raw_byte_count,
            tag: self.tag,
            class_name: self.class_name@,
            remain_bytes_after_header: self.remain_bytes_after_header,
            version: self.version,
        }
    }

    /// Read a `TStreamerInfo` envelope head; a class name other than
    /// `TStreamerInfo` is rejected as `ParseError`.
    pub fn new_from_streamerinfo(tbuf: &mut TBuf) -> (r: Result<TStreamerInfo, RootError>)
        requires
            old(tbuf).wf(),
        ensures
            final(tbuf).wf(),
            final(tbuf).bytes() == old(tbuf).bytes(),
            spec_read_tstreamerinfo_head(old(tbuf).bytes(), old(tbuf).pos()) matches Some(t) ==> (
            r matches Ok(si) && si.model() == t.0) && final(tbuf).pos() == t.1,
            spec_read_tstreamerinfo_head(old(tbuf).bytes(), old(tbuf).pos()) is None ==> (r matches Err(
                e,
            ) && (e is InvalidFormat || e is ParseError)),
    {
        let raw_byte_count = match tbuf.read_u32() {
            Ok(v) => v,
            Err(e) => {
                return Err(e);
            },
        };
        let tag = match tbuf.read_u32() {
            Ok(v) => v,
            Err(e) => {
                return Err(e);
            },
        };
        let class_name = match tbuf.read_cstring(80) {
            Ok(s) => s,
            Err(e) => {
                return Err(e);
            },
        };
        let expected = "TStreamerInfo".to_owned();
        if !(class_name == expected) {
            return Err(
                RootError::ParseError("expected a TStreamerInfo class name".to_owned()),
            );
        }
        let remain_word = match tbuf.read_u32() {
            Ok(v) => v,
            Err(e) => {
                return Err(e);
            },
        };
        let remain_bytes_after_header = remain_word & K_BYTECOUNTMASK;
        let version = match tbuf.read_u16() {
            Ok(v) => v,
            Err(e) => {
                return Err(e);
            },
        };
        Ok(TStreamerInfo { raw_byte_count, tag, class_name, remain_bytes_after_header, version })
    }
}

/// A `TObjArray` head as a plain mathematical value.
pub ghost struct TObjArrayModel {
    pub raw_byte_count: u32,
    pub tag: u32,
    pub class_name: Seq<char>,
    pub version: u16,
    pub tobject: TObjectModel,
    pub remain_byte_count: u32,
    pub f_name_byte: u8,
    pub f_name: Seq<char>,
    pub n_objects: u32,
    pub f_lowerbound: u32,
}

/// Parse of a `TObjArray` head at `pos`: byte-count word, class tag, the
/// NUL-terminated class name — which must be `TObjArray` — its inner
/// byte-count word and version, the embedded `TObject`, a 1-byte-length
/// name, the object count, and the lower index bound.
pub open spec fn spec_read_tobjarray_head(s: Seq<u8>, pos: int) -> Option<(TObjArrayModel, int)> {
    if pos < 0 || pos + 8 > s.len() {
        None
    } else {
        let raw = be_u32_at(s, pos);
        let tag = be_u32_at(s, pos + 4);
        match spec_read_classname(s, pos + 8) {
            None => None,
            Some((class_name, p1)) => {
                if class_name != "TObjArray"@ {
                    None
                } else if p1 + 6 > s.len() {
                    None
                } else {
                    let remain = be_u32_at(s, p1);
                    let version = be_u16_at(s, p1 + 4);
                    match spec_read_tobject(s, p1 + 6) {
                        None => None,
                        Some((tobject, p2)) => match spec_read_lstring(s, p2) {
                            None => None,
                            Some((f_name, p3)) => {
                                if p3 + 8 > s.len() {
                                    None
                                } else {
                                    Some(
                                        (
                                            TObjArrayModel {
                                                raw_byte_count: raw,
                                                tag,
                                                class_name,
                                                version,
                                                tobject,
                                                remain_byte_count: remain,
                                                f_name_byte: s[p2],
                                                f_name,
                                                n_objects: be_u32_at(s, p3),
                                                f_lowerbound: be_u32_at(s, p3 + 4),
                                            },
                                            p3 + 8,
                                        ),
                                    )
                                }
                            },
                        },
                    }
                }
            },
        }
    }
}

/// The head of a streamed `TObjArray`: envelope words, class name, version,
/// embedded `TObject`, name, object count and lower index bound.
#[derive(Debug, Clone)]
pub struct TObjArray {
    pub raw_byte_count: u32,
    pub tag: u32,
    pub class_name: String,
    pub version: u16,
    pub tobject: TObject,
    pub remain_byte_count: u32,
    pub f_name_byte: u8,
    pub f_name: String,
    pub n_objects: u32,
    pub f_lowerbound: u32,
}

impl TObjArray {
    /// The fields as a mathematical value.
    pub open spec fn model(self) -> TObjArrayModel {
        TObjArrayModel {
            raw_byte_count: self.raw_byte_count,
            tag: self.tag,
            class_name: self.class_name@,
            version: self.version,
            tobject: self.tobject.model(),
            remain_byte_count: self.remain_byte_count,
            f_name_byte: self.f_name_byte,
            f_name: self.f_name@,
            n_objects: self.n_objects,
            f_lowerbound: self.f_lowerbound,
        }
    }

    /// Read a `TObjArray` head; a class name other than `TObjArray` is
    /// rejected as `ParseError`.
    pub fn new_from_streamerinfo(tbuf: &mut TBuf) -> (r: Result<TObjArray, RootError>)
        requires
            old(tbuf).wf(),
        ensures
            final(tbuf).wf(),
            final(tbuf).bytes() == old(tbuf).bytes(),
            spec_read_tobjarray_head(old(tbuf).bytes(), old(tbuf).pos()) matches Some(t) ==> (
            r matches Ok(a) && a.model() == t.0) && final(tbuf).pos() == t.1,
            spec_read_tobjarray_head(old(tbuf).bytes(), old(tbuf).pos()) is None ==> (r matches Err(
                e,
            ) && (e is InvalidFormat || e is ParseError)),
    {
        let raw_byte_count = match tbuf.read_u32() {
            Ok(v) => v,
            Err(e) => {
                return Err(e);
            },
        };
        let tag = match tbuf.read_u32() {
            Ok(v) => v,
            Err(e) => {
                return Err(e);
            },
        };
        let class_name = match tbuf.read_cstring(80) {
            Ok(s) => s,
            Err(e) => {
                return Err(e);
            },
        };
        let expected = "TObjArray".to_owned();
        if !(class_name == expected) {
            return Err(RootError::ParseError("expected a TObjArray class name".to_owned()));
        }
        let remain_byte_count = match tbuf.read_u32() {
            Ok(v) => v,
            Err(e) => {
                return Err(e);
            },
        };
        let version = match tbuf.read_u16() {
            Ok(v) => v,
            Err(e) => {
                return Err(e);
            },
        };
        let tobject = match TObject::new_from_streamerinfo(tbuf) {
            Ok(o) => o,
            Err(e) => {
                return Err(e);
            },
        };
        let f_name_byte = match tbuf.read_u8() {
            Ok(v) => v,
            Err(e) => {
                return Err(e);
            },
        };
        let f_name = match tbuf.read_string(f_name_byte as usize) {
            Ok(s) => s,
            Err(e) => {
                return Err(e);
            },
        };
        let n_objects = match tbuf.read_u32() {
            Ok(v) => v,
            Err(e) => {
                return Err(e);
            },
        };
        let f_lowerbound = match tbuf.read_u32() {
            Ok(v) => v,
            Err(e) => {
                return Err(e);
            },
        };
        Ok(
            TObjArray {
                raw_byte_count,
                tag,
                class_name,
                version,
                tobject,
                remain_byte_count,
                f_name_byte,
                f_name,
                n_objects,
                f_lowerbound,
            },
        )
    }
}

/// The streamer-info bundle as a plain mathematical value.
pub ghost struct StreamerInfoModel {
    pub tlist: TListModel,
    pub tstreamerinfo: TStreamerInfoModel,
    pub tnamed: TNamedModel,
    pub tobj_array: TObjArrayModel,
}

/// Parse of the head of a decompressed streamer-info payload: the `TList`
/// header, the first entry's `TStreamerInfo` head, its `TNamed`, a checksum
/// and class-version word, and the element array head.
pub open spec fn spec_parse_streamer_info(s: Seq<u8>) -> Option<StreamerInfoModel> {
    match spec_parse_tlist_header(s, 0) {
        None => None,
        Some(lm) => match spec_read_tstreamerinfo_head(s, lm.header_end_pos) {
            None => None,
            Some((sm, p1)) => match spec_read_tnamed(s, p1) {
                None => None,
                Some((nm, p2)) => {
                    if p2 + 8 > s.len() {
                        None
                    } else {
                        match spec_read_tobjarray_head(s, p2 + 8) {
                            None => None,
                            Some((am, p3)) => Some(
                                StreamerInfoModel {
                                    tlist: lm,
                                    tstreamerinfo: sm,
                                    tnamed: nm,
                                    tobj_array: am,
                                },
                            ),
                        }
                    }
                },
            },
        },
    }
}

/// The pieces read from the head of a streamer-info key payload.
#[derive(Debug)]
pub struct StreamerInfo {
    pub streamer_info_header: TKeyHeader,
    pub tlist: TList,
    pub tnamed: TNamed,
    pub tstreamerinfo: TStreamerInfo,
    pub tobj_array: TObjArray,
}

impl StreamerInfo {
    /// Decode the head of a streamer-info key whose payload has already been
    /// decompressed and stored: the list header, the first entry's
    /// `TStreamerInfo` head and `TNamed`, the checksum and class-version
    /// words (consumed, not kept), and the element array head.
    pub fn new(tkey: TKeyHeader) -> (r: Result<StreamerInfo, RootError>)
        requires
            tkey.decompressed_data is Some,
        ensures
            ({
                let d = tkey.decompressed_data->Some_0@;
                &&& spec_parse_streamer_info(d) matches Some(m) ==> (r matches Ok(si)
                    && si.tlist.matches_model(m.tlist) && si.tstreamerinfo.model()
                    == m.tstreamerinfo && si.tnamed.model() == m.tnamed && si.tobj_array.model()
                    == m.tobj_array && si.streamer_info_header == tkey)
                &&& spec_parse_streamer_info(d) is None ==> (r matches Err(e) && (e
                    is InvalidFormat || e is ParseError))
            }),
    {
        let parsed = {
            let data = match &tkey.decompressed_data {
                Some(d) => d,
                None => {
                    return Err(RootError::ParseError("no decompressed data stored".to_owned()));
                },
            };
            let mut cursor = TBuf::new(data.as_slice());
            let tlist = match TList::new_from_streamerinfo(&mut cursor) {
                Ok(l) => l,
                Err(e) => {
                    return Err(e);
                },
            };
            let tstreamerinfo = match TStreamerInfo::new_from_streamerinfo(&mut cursor) {
                Ok(s) => s,
                Err(e) => {
                    return Err(e);
                },
            };
            let tnamed = match TNamed::new_from_streamerinfo(&mut cursor) {
                Ok(n) => n,
                Err(e) => {
                    return Err(e);
                },
            };
            let _f_checksum = match cursor.read_u32() {
                Ok(v) => v,
                Err(e) => {
                    return Err(e);
                },
            };
            let _f_class_version = match cursor.read_u32() {
                Ok(v) => v,
                Err(e) => {
                    return Err(e);
                },
            };
            let tobj_array = match TObjArray::new_from_streamerinfo(&mut cursor) {
                Ok(a) => a,
                Err(e) => {
                    return Err(e);
                },
            };
            (tlist, tstreamerinfo, tnamed, tobj_array)
        };
        let (tlist, tstreamerinfo, tnamed, tobj_array) = parsed;
        Ok(StreamerInfo { streamer_info_header: tkey, tlist, tnamed, tstreamerinfo, tobj_array })
    }
}

/// The closed family of element classes a catalog entry may carry; a
/// descriptor whose class name is none of them is kept as `Other` and its
/// body is stepped over by the envelope byte count.
#[derive(Clone, Copy, Debug, PartialEq, Eq, Structural)]
pub enum ElementKind {
    BasicType,
    StringField,
    Object,
    ObjectAny,
    BasicPointer,
    Loop,
    Stl,
    Other,
}

/// The element kind a class name selects.
pub open spec fn spec_element_kind(name: Seq<char>) -> ElementKind {
    if name == "TStreamerBasicType"@ {
        ElementKind::BasicType
    } else if name == "TStreamerString"@ {
        ElementKind::StringField
    } else if name == "TStreamerObject"@ {
        ElementKind::Object
    } else if name == "TStreamerObjectAny"@ {
        ElementKind::ObjectAny
    } else if name == "TStreamerBasicPointer"@ {
        ElementKind::BasicPointer
    } else if name == "TStreamerLoop"@ {
        ElementKind::Loop
    } else if name == "TStreamerSTL"@ {
        ElementKind::Stl
    } else {
        ElementKind::Other
    }
}

/// Element kinds whose body carries a target class name after the common
/// prefix: the object-valued and STL-container descriptors.
pub open spec fn is_object_like(name: Seq<char>) -> bool {
    spec_element_kind(name) is Object || spec_element_kind(name) is ObjectAny
        || spec_element_kind(name) is Stl
}

/// A streamer element descriptor as a plain mathematical value.
pub ghost struct ElementModel {
    pub class_name: Seq<char>,
    pub kind: ElementKind,
    pub version: u16,
    pub name: Seq<char>,
    pub title: Seq<char>,
    pub type_code: u32,
    pub offset: u32,
    pub array_len: u32,
    pub array_dim: u32,
    pub target_class: Option<Seq<char>>,
}

/// One member descriptor of a catalog entry: its declared element class, the
/// `TNamed` fields, the type code, offset, length and array dimensions, and
/// — for object-valued and STL elements — the target class name.
#[derive(Debug, Clone)]
pub struct StreamerElement {
    pub class_name: String,
    pub kind: ElementKind,
    pub version: u16,
    pub name: String,
    pub title: String,
    pub type_code: u32,
    pub offset: u32,
    pub array_len: u32,
    pub array_dim: u32,
    pub target_class: Option<String>,
}

impl StreamerElement {
    /// The fields as a mathematical value.
    pub open spec fn model(self) -> ElementModel {
        ElementModel {
            class_name: self.class_name@,
            kind: self.kind,
            version: self.version,
            name: self.name@,
            title: self.title@,
            type_code: self.type_code,
            offset: self.offset,
            array_len: self.array_len,
            array_dim: self.array_dim,
            target_class: match self.target_class {
                Some(s) => Some(s@),
                None => None,
            },
        }
    }
}

/// The models of a run of elements.
pub open spec fn element_models(v: Seq<StreamerElement>) -> Seq<ElementModel> {
    v.map(|i: int, e: StreamerElement| e.model())
}

/// Parse of one element at `pos`: its envelope (which must carry a byte
/// count and not be null), a `TNamed` body, the common descriptor words, a
/// target class name for object-like element classes, and the skip to
/// `pos + 4 + byte_count` that steps over any trailing variant fields.
pub open spec fn spec_read_element(s: Seq<u8>, pos: int, t: Seq<(u32, Seq<char>)>) -> Option<
    (ElementModel, int, Seq<(u32, Seq<char>)>),
> {
    match spec_read_envelope(s, pos, t) {
        None => None,
        Some((envopt, body, t2)) => match envopt {
            None => None,
            Some(env) => {
                if !env.has_byte_count {
                    None
                } else {
                    let end = pos + 4 + env.byte_count;
                    if end > s.len() {
                        None
                    } else {
                        match spec_read_tobject(s, body) {
                            None => None,
                            Some((_obj, p1)) => match spec_read_tstring(s, p1) {
                                None => None,
                                Some((nm, p2)) => match spec_read_tstring(s, p2) {
                                    None => None,
                                    Some((tt, p3)) => {
                                        if p3 + 16 > s.len() {
                                            None
                                        } else {
                                            let m = ElementModel {
                                                class_name: env.class_name,
                                                kind: spec_element_kind(env.class_name),
                                                version: env.version,
                                                name: nm,
                                                title: tt,
                                                type_code: be_u32_at(s, p3),
                                                offset: be_u32_at(s, p3 + 4),
                                                array_len: be_u32_at(s, p3 + 8),
                                                array_dim: be_u32_at(s, p3 + 12),
                                                target_class: None,
                                            };
                                            if is_object_like(env.class_name) {
                                                match spec_read_tstring(s, p3 + 16) {
                                                    None => None,
                                                    Some((tn, p5)) => {
                                                        if p5 <= end {
                                                            Some(
                                                                (
                                                                    ElementModel {
                                                                        target_class: Some(tn),
                                                                        ..m
                                                                    },
                                                                    end,
                                                                    t2,
                                                                ),
                                                            )
                                                        } else {
                                                            None
                                                        }
                                                    },
                                                }
                                            } else {
                                                if p3 + 16 <= end {
                                                    Some((m, end, t2))
                                                } else {
                                                    None
                                                }
                                            }
                                        }
                                    },
                                },
                            },
                        }
                    }
                }
            },
        },
    }
}

/// Parse of a run of `n` elements, threading the class-name table through.
pub open spec fn spec_read_elements(s: Seq<u8>, pos: int, t: Seq<(u32, Seq<char>)>, n: nat) -> Option<
    (Seq<ElementModel>, int, Seq<(u32, Seq<char>)>),
>
    decreases n,
{
    if n == 0 {
        Some((Seq::empty(), pos, t))
    } else {
        match spec_read_element(s, pos, t) {
            None => None,
            Some((e, p2, t2)) => match spec_read_elements(s, p2, t2, (n - 1) as nat) {
                None => None,
                Some((rest, p3, t3)) => Some((seq![e] + rest, p3, t3)),
            },
        }
    }
}

/// Parse of the element array of one entry: a `TObjArray` envelope, the
/// embedded `TObject`, the array name, the object count and lower bound,
/// then exactly that many elements, consuming the envelope's byte count to
/// the byte.
pub open spec fn spec_read_element_array(s: Seq<u8>, pos: int, t: Seq<(u32, Seq<char>)>) -> Option<
    (Seq<ElementModel>, int, Seq<(u32, Seq<char>)>),
> {
    match spec_read_envelope(s, pos, t) {
        None => None,
        Some((envopt, body, t2)) => match envopt {
            None => None,
            Some(env) => {
                if !env.has_byte_count || env.class_name != "TObjArray"@ {
                    None
                } else {
                    let end = pos + 4 + env.byte_count;
                    match spec_read_tobject(s, body) {
                        None => None,
                        Some((_obj, p1)) => match spec_read_tstring(s, p1) {
                            None => None,
                            Some((_nm, p2)) => {
                                if p2 + 8 > s.len() {
                                    None
                                } else {
                                    let count = be_u32_at(s, p2);
                                    match spec_read_elements(s, p2 + 8, t2, count as nat) {
                                        None => None,
                                        Some((elems, p3, t3)) => {
                                            if p3 == end {
                                                Some((elems, end, t3))
                                            } else {
                                                None
                                            }
                                        },
                                    }
                                }
                            },
                        },
                    }
                }
            },
        },
    }
}

/// One catalog entry as a plain mathematical value.
pub ghost struct EntryModel {
    pub name: Seq<char>,
    pub title: Seq<char>,
    pub checksum: u32,
    pub class_version: u32,
    pub elements: Seq<ElementModel>,
}

/// One entry of the streamer catalog: the class it describes, its checksum
/// and class version, and its member descriptors.
#[derive(Debug, Clone)]
pub struct CatalogEntry {
    pub name: String,
    pub title: String,
    pub checksum: u32,
    pub class_version: u32,
    pub elements: Vec<StreamerElement>,
}

impl CatalogEntry {
    /// The fields as a mathematical value.
    pub open spec fn model(self) -> EntryModel {
        EntryModel {
            name: self.name@,
            title: self.title@,
            checksum: self.checksum,
            class_version: self.class_version,
            elements: element_models(self.elements@),
        }
    }
}

/// The models of a run of entries.
pub open spec fn entry_models(v: Seq<CatalogEntry>) -> Seq<EntryModel> {
    v.map(|i: int, e: CatalogEntry| e.model())
}

/// Parse of one catalog entry at `pos`: an envelope that must announce class
/// `TStreamerInfo` with a byte count, a `TNamed` body, the checksum and
/// class-version words, the element array, the check that the body consumed
/// exactly the envelope's byte count, and the trailing option byte and
/// option bytes of the enclosing list.
pub open spec fn spec_read_entry(s: Seq<u8>, pos: int, t: Seq<(u32, Seq<char>)>) -> Option<
    (EntryModel, int, Seq<(u32, Seq<char>)>),
> {
    match spec_read_envelope(s, pos, t) {
        None => None,
        Some((envopt, body, t2)) => match envopt {
            None => None,
            Some(env) => {
                if !env.has_byte_count || env.class_name != "TStreamerInfo"@ {
                    None
                } else {
                    let end = pos + 4 + env.byte_count;
                    match spec_read_tobject(s, body) {
                        None => None,
                        Some((_obj, p1)) => match spec_read_tstring(s, p1) {
                            None => None,
                            Some((nm, p2)) => match spec_read_tstring(s, p2) {
                                None => None,
                                Some((tt, p3)) => {
                                    if p3 + 8 > s.len() {
                                        None
                                    } else {
                                        match spec_read_element_array(s, p3 + 8, t2) {
                                            None => None,
                                            Some((elems, p4, t3)) => {
                                                if p4 != end {
                                                    None
                                                } else if end + 1 > s.len() {
                                                    None
                                                } else {
                                                    let olen = s[end] as int;
                                                    if end + 1 + olen > s.len() {
                                                        None
                                                    } else {
                                                        Some(
                                                            (
                                                                EntryModel {
                                                                    name: nm,
                                                                    title: tt,
                                                                    checksum: be_u32_at(s, p3),
                                                                    class_version: be_u32_at(
                                                                        s,
                                                                        p3 + 4,
                                                                    ),
                                                                    elements: elems,
                                                                },
                                                                end + 1 + olen,
                                                                t3,
                                                            ),
                                                        )
                                                    }
                                                }
                                            },
                                        }
                                    }
                                },
                            },
                        },
                    }
                }
            },
        },
    }
}

/// Parse of a run of `n` entries.
pub open spec fn spec_read_entries(s: Seq<u8>, pos: int, t: Seq<(u32, Seq<char>)>, n: nat) -> Option<
    (Seq<EntryModel>, int, Seq<(u32, Seq<char>)>),
>
    decreases n,
{
    if n == 0 {
        Some((Seq::empty(), pos, t))
    } else {
        match spec_read_entry(s, pos, t) {
            None => None,
            Some((e, p2, t2)) => match spec_read_entries(s, p2, t2, (n - 1) as nat) {
                None => None,
                Some((rest, p3, t3)) => Some((seq![e] + rest, p3, t3)),
            },
        }
    }
}

/// The whole catalog as a plain mathematical value.
pub ghost struct CatalogModel {
    pub name: Seq<char>,
    pub version: u16,
    pub n_objects: u32,
    pub entries: Seq<EntryModel>,
}

/// The streamer catalog decoded from one key payload: a list of
/// `TStreamerInfo` entries, each describing one class.
#[derive(Debug)]
pub struct StreamerCatalog {
    pub name: String,
    pub version: u16,
    pub n_objects: u32,
    pub entries: Vec<CatalogEntry>,
}

impl StreamerCatalog {
    /// The fields as a mathematical value.
    pub open spec fn model(self) -> CatalogModel {
        CatalogModel {
            name: self.name@,
            version: self.version,
            n_objects: self.n_objects,
            entries: entry_models(self.entries@),
        }
    }
}

/// Parse of a whole catalog payload: the top-level list's byte-count word
/// (its class is fixed by the key, so no tag follows), its version word, the
/// embedded `TObject`, the list name and object count, then exactly that
/// many entries against a fresh class-name table, ending exactly at
/// `4 + byte_count`.
pub open spec fn spec_decode_catalog(s: Seq<u8>) -> Option<CatalogModel> {
    if s.len() < 4 {
        None
    } else {
        let first = be_u32_at(s, 0);
        if first & 0x40000000u32 == 0 {
            None
        } else {
            let list_bc = first & 0x3FFFFFFFu32;
            match spec_read_version_word(s, 4) {
                None => None,
                Some((version, _mw, p1)) => match spec_read_tobject(s, p1) {
                    None => None,
                    Some((_obj, p2)) => match spec_read_tstring(s, p2) {
                        None => None,
                        Some((nm, p3)) => {
                            if p3 + 4 > s.len() {
                                None
                            } else {
                                let n = be_u32_at(s, p3);
                                match spec_read_entries(
                                    s,
                                    p3 + 4,
                                    Seq::<(u32, Seq<char>)>::empty(),
                                    n as nat,
                                ) {
                                    None => None,
                                    Some((entries, p4, _t)) => {
                                        if p4 == 4 + list_bc {
                                            Some(
                                                CatalogModel {
                                                    name: nm,
                                                    version,
                                                    n_objects: n,
                                                    entries,
                                                },
                                            )
                                        } else {
                                            None
                                        }
                                    },
                                }
                            }
                        },
                    },
                },
            }
        }
    }
}

/// The element kind a class name selects.
fn classify_element(name: &String) -> (r: ElementKind)
    ensures
        r == spec_element_kind(name@),
{
    if *name == "TStreamerBasicType".to_owned() {
        ElementKind::BasicType
    } else if *name == "TStreamerString".to_owned() {
        ElementKind::StringField
    } else if *name == "TStreamerObject".to_owned() {
        ElementKind::Object
    } else if *name == "TStreamerObjectAny".to_owned() {
        ElementKind::ObjectAny
    } else if *name == "TStreamerBasicPointer".to_owned() {
        ElementKind::BasicPointer
    } else if *name == "TStreamerLoop".to_owned() {
        ElementKind::Loop
    } else if *name == "TStreamerSTL".to_owned() {
        ElementKind::Stl
    } else {
        ElementKind::Other
    }
}

/// Read one element descriptor: its envelope, a `TNamed` body, the common
/// descriptor words, the target class name for object-like element classes,
/// then a skip to `envelope_start + 4 + byte_count`, stepping over any
/// trailing variant-specific fields.
pub fn read_element(buf: &mut TBuf, table: &mut ClassNameTable) -> (r: Result<
    StreamerElement,
    RootError,
>)
    requires
        old(buf).wf(),
        old(table).wf(),
        table_keys_below(old(table).model(), old(buf).pos()),
    ensures
        final(buf).wf(),
        final(buf).bytes() == old(buf).bytes(),
        final(table).wf(),
        spec_read_element(old(buf).bytes(), old(buf).pos(), old(table).model()) matches Some(out)
            ==> (r matches Ok(e) && e.model() == out.0) && final(buf).pos() == out.1 && final(table).model() == out.2 && table_keys_below(final(table).model(), out.1),
        spec_read_element(old(buf).bytes(), old(buf).pos(), old(table).model()) is None ==> (
        r matches Err(e) && (e is InvalidFormat || e is ParseError)),
{
    let env_start = buf.get_position();
    let env = match read_envelope(buf, table) {
        Ok(Some(e)) => e,
        Ok(None) => {
            return Err(
                RootError::ParseError("null object where an element was expected".to_owned()),
            );
        },
        Err(e) => {
            return Err(e);
        },
    };
    if !env.has_byte_count {
        return Err(RootError::ParseError("element envelope without byte count".to_owned()));
    }
    let avail = buf.len() - env_start;
    if avail < 4 || env.byte_count as u64 > (avail - 4) as u64 {
        return Err(
            RootError::ParseError("envelope byte count extends past end of data".to_owned()),
        );
    }
    let end = env_start + 4 + env.byte_count as usize;
    let _obj = match TObject::new_from_streamerinfo(buf) {
        Ok(o) => o,
        Err(e) => {
            return Err(e);
        },
    };
    let name = match buf.read_tstring() {
        Ok(s) => s,
        Err(e) => {
            return Err(e);
        },
    };
    let title = match buf.read_tstring() {
        Ok(s) => s,
        Err(e) => {
            return Err(e);
        },
    };
    let type_code = match buf.read_u32() {
        Ok(v) => v,
        Err(e) => {
            return Err(e);
        },
    };
    let offset = match buf.read_u32() {
        Ok(v) => v,
        Err(e) => {
            return Err(e);
        },
    };
    let array_len = match buf.read_u32() {
        Ok(v) => v,
        Err(e) => {
            return Err(e);
        },
    };
    let array_dim = match buf.read_u32() {
        Ok(v) => v,
        Err(e) => {
            return Err(e);
        },
    };
    let kind = classify_element(&env.class_name);
    let object_like = match kind {
        ElementKind::Object => true,
        ElementKind::ObjectAny => true,
        ElementKind::Stl => true,
        _ => false,
    };
    let target_class = if object_like {
        match buf.read_tstring() {
            Ok(s) => Some(s),
            Err(e) => {
                return Err(e);
            },
        }
    } else {
        None
    };
    if buf.get_position() > end {
        return Err(
            RootError::ParseError("element body ran past its envelope byte count".to_owned()),
        );
    }
    buf.seek(end);
    Ok(
        StreamerElement {
            class_name: env.class_name,
            kind,
            version: env.version,
            name,
            title,
            type_code,
            offset,
            array_len,
            array_dim,
            target_class,
        },
    )
}

/// Read the element array of one entry: a `TObjArray` envelope, the embedded
/// `TObject`, the array name, the object count and lower bound, then exactly
/// that many elements; the array must consume its envelope's byte count to
/// the byte.
#[verifier::loop_isolation(false)]
#[verifier::rlimit(40)]
pub fn read_element_array(buf: &mut TBuf, table: &mut ClassNameTable) -> (r: Result<
    Vec<StreamerElement>,
    RootError,
>)
    requires
        old(buf).wf(),
        old(table).wf(),
        table_keys_below(old(table).model(), old(buf).pos()),
    ensures
        final(buf).wf(),
        final(buf).bytes() == old(buf).bytes(),
        final(table).wf(),
        spec_read_element_array(old(buf).bytes(), old(buf).pos(), old(table).model()) matches Some(
            out,
        ) ==> (r matches Ok(v) && element_models(v@) == out.0) && final(buf).pos() == out.1
            && final(table).model() == out.2 && table_keys_below(final(table).model(), out.1),
        spec_read_element_array(old(buf).bytes(), old(buf).pos(), old(table).model()) is None ==> (
        r matches Err(e) && (e is InvalidFormat || e is ParseError)),
{
    let arr_start = buf.get_position();
    let env = match read_envelope(buf, table) {
        Ok(Some(e)) => e,
        Ok(None) => {
            return Err(
                RootError::ParseError("null object where an element array was expected".to_owned()),
            );
        },
        Err(e) => {
            return Err(e);
        },
    };
    if !env.has_byte_count {
        return Err(RootError::ParseError("element array envelope without byte count".to_owned()));
    }
    let expected = "TObjArray".to_owned();
    if !(env.class_name == expected) {
        return Err(RootError::ParseError("expected a TObjArray class name".to_owned()));
    }
    let _obj = match TObject::new_from_streamerinfo(buf) {
        Ok(o) => o,
        Err(e) => {
            return Err(e);
        },
    };
    let _arr_name = match buf.read_tstring() {
        Ok(s) => s,
        Err(e) => {
            return Err(e);
        },
    };
    let count = match buf.read_u32() {
        Ok(v) => v,
        Err(e) => {
            return Err(e);
        },
    };
    let _lowerbound = match buf.read_u32() {
        Ok(v) => v,
        Err(e) => {
            return Err(e);
        },
    };
    let ghost s = buf.bytes();
    let ghost pos_mid = buf.pos();
    let ghost t_mid = table.model();
    let mut elems: Vec<StreamerElement> = Vec::new();
    let mut i: u32 = 0;
    proof {
        assert(element_models(elems@) =~= Seq::<ElementModel>::empty());
    }
    while i < count
        invariant
            buf.wf(),
            buf.bytes() == s,
            table.wf(),
            table_keys_below(table.model(), buf.pos()),
            i <= count,
            elems@.len() == i as int,
            match spec_read_elements(s, buf.pos(), table.model(), (count - i) as nat) {
                None => spec_read_elements(s, pos_mid, t_mid, count as nat) is None,
                Some(suf) => spec_read_elements(s, pos_mid, t_mid, count as nat) == Some(
                    (element_models(elems@) + suf.0, suf.1, suf.2),
                ),
            },
        decreases count - i,
    {
        let ghost pre_pos = buf.pos();
        let ghost pre_t = table.model();
        let ghost before = elems@;
        let e = match read_element(buf, table) {
            Ok(e) => e,
            Err(err) => {
                return Err(err);
            },
        };
        elems.push(e);
        proof {
            assert(element_models(elems@) =~= element_models(before).push(e.model()));
            match spec_read_elements(s, buf.pos(), table.model(), (count - i - 1) as nat) {
                None => {},
                Some(suf) => {
                    assert(element_models(before) + (seq![e.model()] + suf.0) =~= element_models(
                        elems@,
                    ) + suf.0);
                },
            }
        }
        i = i + 1;
    }
    let pos_now = buf.get_position();
    if pos_now < 4 {
        return Err(
            RootError::ParseError("element array byte count disagrees with its content".to_owned()),
        );
    }
    let body_len = pos_now - 4;
    if body_len < arr_start || body_len - arr_start != env.byte_count as usize {
        return Err(
            RootError::ParseError("element array byte count disagrees with its content".to_owned()),
        );
    }
    Ok(elems)
}

/// Read one catalog entry: an envelope that must announce class
/// `TStreamerInfo` with a byte count, a `TNamed` body, the checksum and
/// class-version words, the element array, the check that the body consumed
/// exactly the envelope's byte count, and the trailing option byte and
/// option bytes of the enclosing list.
pub fn read_entry(buf: &mut TBuf, table: &mut ClassNameTable) -> (r: Result<
    CatalogEntry,
    RootError,
>)
    requires
        old(buf).wf(),
        old(table).wf(),
        table_keys_below(old(table).model(), old(buf).pos()),
    ensures
        final(buf).wf(),
        final(buf).bytes() == old(buf).bytes(),
        final(table).wf(),
        spec_read_entry(old(buf).bytes(), old(buf).pos(), old(table).model()) matches Some(out)
            ==> (r matches Ok(e) && e.model() == out.0) && final(buf).pos() == out.1 && final(table).model() == out.2 && table_keys_below(final(table).model(), out.1),
        spec_read_entry(old(buf).bytes(), old(buf).pos(), old(table).model()) is None ==> (
        r matches Err(e) && (e is InvalidFormat || e is ParseError)),
{
    let entry_start = buf.get_position();
    let env = match read_envelope(buf, table) {
        Ok(Some(e)) => e,
        Ok(None) => {
            return Err(
                RootError::ParseError("null object where a catalog entry was expected".to_owned()),
            );
        },
        Err(e) => {
            return Err(e);
        },
    };
    if !env.has_byte_count {
        return Err(RootError::ParseError("entry envelope without byte count".to_owned()));
    }
    let expected = "TStreamerInfo".to_owned();
    if !(env.class_name == expected) {
        return Err(RootError::ParseError("expected a TStreamerInfo class name".to_owned()));
    }
    let _obj = match TObject::new_from_streamerinfo(buf) {
        Ok(o) => o,
        Err(e) => {
            return Err(e);
        },
    };
    let name = match buf.read_tstring() {
        Ok(s) => s,
        Err(e) => {
            return Err(e);
        },
    };
    let title = match buf.read_tstring() {
        Ok(s) => s,
        Err(e) => {
            return Err(e);
        },
    };
    let checksum = match buf.read_u32() {
        Ok(v) => v,
        Err(e) => {
            return Err(e);
        },
    };
    let class_version = match buf.read_u32() {
        Ok(v) => v,
        Err(e) => {
            return Err(e);
        },
    };
    let elements = match read_element_array(buf, table) {
        Ok(v) => v,
        Err(e) => {
            return Err(e);
        },
    };
    let pos_now = buf.get_position();
    if pos_now < 4 {
        return Err(
            RootError::ParseError("entry byte count disagrees with its body length".to_owned()),
        );
    }
    let body_len = pos_now - 4;
    if body_len < entry_start || body_len - entry_start != env.byte_count as usize {
        return Err(
            RootError::ParseError("entry byte count disagrees with its body length".to_owned()),
        );
    }
    let option_len = match buf.read_u8() {
        Ok(v) => v,
        Err(e) => {
            return Err(e);
        },
    };
    let _option_bytes = match buf.read_bytes(option_len as usize) {
        Ok(b) => b,
        Err(e) => {
            return Err(e);
        },
    };
    Ok(CatalogEntry { name, title, checksum, class_version, elements })
}

impl StreamerCatalog {
    /// Decode the streamer catalog from a decompressed key payload: the
    /// top-level `TList` header, then one `TStreamerInfo` entry per listed
    /// object, against a fresh class-name table; the content must consume
    /// the list's byte count to the byte.
    #[verifier::loop_isolation(false)]
    pub fn decode(data: &[u8]) -> (r: Result<StreamerCatalog, RootError>)
        ensures
            spec_decode_catalog(data@) matches Some(m) ==> (r matches Ok(c) && c.model() == m),
            spec_decode_catalog(data@) is None ==> (r matches Err(e) && (e is InvalidFormat || e
                is ParseError)),
    {
        let mut buf = TBuf::new(data);
        let first = match buf.read_u32() {
            Ok(v) => v,
            Err(e) => {
                return Err(e);
            },
        };
        if first & K_HAS_BYTECOUNT == 0 {
            return Err(
                RootError::ParseError("top-level list envelope without byte count".to_owned()),
            );
        }
        let list_byte_count = first & K_BYTECOUNTMASK;
        let (version, _mw) = match read_version_word(&mut buf) {
            Ok(v) => v,
            Err(e) => {
                return Err(e);
            },
        };
        let _obj = match TObject::new_from_streamerinfo(&mut buf) {
            Ok(o) => o,
            Err(e) => {
                return Err(e);
            },
        };
        let name = match buf.read_tstring() {
            Ok(s) => s,
            Err(e) => {
                return Err(e);
            },
        };
        let n_objects = match buf.read_u32() {
            Ok(v) => v,
            Err(e) => {
                return Err(e);
            },
        };
        let mut table = ClassNameTable::new();
        let mut entries: Vec<CatalogEntry> = Vec::new();
        let ghost s = buf.bytes();
        let ghost pos_mid = buf.pos();
        let ghost t_mid = table.model();
        let mut i: u32 = 0;
        proof {
            assert(entry_models(entries@) =~= Seq::<EntryModel>::empty());
        }
        while i < n_objects
            invariant
                buf.wf(),
                buf.bytes() == s,
                table.wf(),
                table_keys_below(table.model(), buf.pos()),
                i <= n_objects,
                entries@.len() == i as int,
                match spec_read_entries(s, buf.pos(), table.model(), (n_objects - i) as nat) {
                    None => spec_read_entries(s, pos_mid, t_mid, n_objects as nat) is None,
                    Some(suf) => spec_read_entries(s, pos_mid, t_mid, n_objects as nat) == Some(
                        (entry_models(entries@) + suf.0, suf.1, suf.2),
                    ),
                },
            decreases n_objects - i,
        {
            let ghost before = entries@;
            let e = match read_entry(&mut buf, &mut table) {
                Ok(e) => e,
                Err(err) => {
                    return Err(err);
                },
            };
            entries.push(e);
            proof {
                assert(entry_models(entries@) =~= entry_models(before).push(e.model()));
                match spec_read_entries(s, buf.pos(), table.model(), (n_objects - i - 1) as nat) {
                    None => {},
                    Some(suf) => {
                        assert(entry_models(before) + (seq![e.model()] + suf.0) =~= entry_models(
                            entries@,
                        ) + suf.0);
                    },
                }
            }
            i = i + 1;
        }
        let pos_now = buf.get_position();
        if pos_now < 4 || pos_now - 4 != list_byte_count as usize {
            return Err(
                RootError::ParseError(
                    "list byte count disagrees with the decoded content".to_owned(),
                ),
            );
        }
        Ok(StreamerCatalog { name, version, n_objects, entries })
    }
}

/// Envelope byte-count law, element level: an element accepted at `pos`
/// leaves the cursor at exactly `pos + 4 + byte_count`, where the byte count
/// is the low 30 bits of the framing word at `pos`.
pub proof fn lemma_element_byte_count_law(s: Seq<u8>, pos: int, t: Seq<(u32, Seq<char>)>)
    ensures
        spec_read_element(s, pos, t) matches Some(out) ==> (be_u32_at(s, pos) & 0x40000000u32 != 0
            && out.1 == pos + 4 + (be_u32_at(s, pos) & 0x3FFFFFFFu32)),
{
}

/// Envelope byte-count law, array level: an element array accepted at `pos`
/// leaves the cursor at exactly `pos + 4 + byte_count`.
pub proof fn lemma_element_array_byte_count_law(s: Seq<u8>, pos: int, t: Seq<(u32, Seq<char>)>)
    ensures
        spec_read_element_array(s, pos, t) matches Some(out) ==> (be_u32_at(s, pos)
            & 0x40000000u32 != 0 && out.1 == pos + 4 + (be_u32_at(s, pos) & 0x3FFFFFFFu32)),
{
}

/// Envelope byte-count law, entry level: a catalog entry accepted at `pos`
/// has its body end at exactly `pos + 4 + byte_count`; only the enclosing
/// list's option byte and option bytes follow it.
pub proof fn lemma_entry_byte_count_law(s: Seq<u8>, pos: int, t: Seq<(u32, Seq<char>)>)
    ensures
        spec_read_entry(s, pos, t) matches Some(out) ==> ({
            let end = pos + 4 + (be_u32_at(s, pos) & 0x3FFFFFFFu32);
            be_u32_at(s, pos) & 0x40000000u32 != 0 && out.1 == end + 1 + s[end]
        }),
{
}

} // verus!
