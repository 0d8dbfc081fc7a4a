//! The object-serialization stream: envelopes (byte-count framing, class
//! tags, version words), the per-payload class-name table, and the `TList`
//! header shapes.
//!
//! Every serialized object is framed by an optional 32-bit byte-count word
//! (high bit `K_HAS_BYTECOUNT`, low 30 bits the count), a 32-bit class tag
//! (`0` null; `0xFFFFFFFF` a new class name follows; high bit set a
//! back-reference into the class-name table), and a version word (`0xFFFF`
//! announces member-wise streaming: a 32-bit member-wise size and the real
//! version follow).

use vstd::prelude::*;
use vstd::utf8::{valid_utf8, decode_utf8};
use crate::error::RootError;
use crate::tbuf::{TBuf, be_u16_at, be_u32_at, find_nul};
use crate::streamerinfo::{TObject, TObjectModel, spec_read_tobject};
use crate::tkey::spec_read_lstring;
use crate::constant::{
    K_HAS_BYTECOUNT,
    K_NEW_CLASSBIT,
    K_BYTECOUNTMASK,
    K_NEWCLASSTAG,
    K_NULLTAG,
    K_MAP_OFFSET,
};

verus! {

/// The name recorded under stream position `p`, if any: the first entry with
/// that position wins, and a well-formed table has at most one.
pub open spec fn table_lookup(t: Seq<(u32, Seq<char>)>, p: u32) -> Option<Seq<char>>
    decreases t.len(),
{
    if t.len() == 0 {
        None
    } else if t[0].0 == p {
        Some(t[0].1)
    } else {
        table_lookup(t.drop_first(), p)
    }
}

/// A well-formed table: positions strictly increase, as the stream is
/// decoded in file order and the table populated monotonically.
pub open spec fn table_wf(t: Seq<(u32, Seq<char>)>) -> bool {
    forall|i: int, j: int| 0 <= i < j < t.len() ==> (#[trigger] t[i]).0 < (#[trigger] t[j]).0
}

/// Every recorded position lies strictly before `p`.
pub open spec fn table_keys_below(t: Seq<(u32, Seq<char>)>, p: int) -> bool {
    forall|i: int| 0 <= i < t.len() ==> (#[trigger] t[i]).0 < p
}

/// Looking a position up can skip any prefix that does not hold it.
proof fn lemma_table_lookup_skip(t: Seq<(u32, Seq<char>)>, i: int, p: u32)
    requires
        0 <= i <= t.len(),
        forall|j: int| 0 <= j < i ==> (#[trigger] t[j]).0 != p,
    ensures
        table_lookup(t, p) == table_lookup(t.skip(i), p),
    decreases i,
{
    if i == 0 {
        assert(t.skip(0) =~= t);
    } else {
        lemma_table_lookup_skip(t, i - 1, p);
        assert(t.skip(i - 1)[0] == t[i - 1]);
        assert(t.skip(i - 1).drop_first() =~= t.skip(i));
    }
}

/// A successful lookup names a recorded entry.
proof fn lemma_table_lookup_finds_member(t: Seq<(u32, Seq<char>)>, p: u32)
    ensures
        table_lookup(t, p) matches Some(name) ==> exists|i: int|
            0 <= i < t.len() && #[trigger] t[i] == (p, name),
    decreases t.len(),
{
    if t.len() > 0 {
        if t[0].0 == p {
            assert(t[0] == (p, t[0].1));
        } else {
            lemma_table_lookup_finds_member(t.drop_first(), p);
            match table_lookup(t, p) {
                Some(name) => {
                    let i = choose|i: int|
                        0 <= i < t.drop_first().len() && #[trigger] t.drop_first()[i] == (p, name);
                    assert(t[i + 1] == (p, name));
                },
                None => {},
            }
        }
    }
}

/// Ordering guarantee: against a table whose recorded positions all lie
/// before the cursor, a back-reference never resolves to an entry inserted
/// later in the stream — the position it decodes lies strictly before the
/// envelope being read.
pub proof fn lemma_back_reference_never_later(t: Seq<(u32, Seq<char>)>, p: u32, pos: int)
    requires
        table_keys_below(t, pos),
    ensures
        table_lookup(t, p) is Some ==> p < pos,
{
    lemma_table_lookup_finds_member(t, p);
    match table_lookup(t, p) {
        Some(name) => {
            let i = choose|i: int| 0 <= i < t.len() && #[trigger] t[i] == (p, name);
            assert(t[i].0 < pos);
        },
        None => {},
    }
}

/// Class-name interning law: in a well-formed table every recorded entry
/// resolves, by position, to exactly the name that was recorded for it —
/// a back-reference to a new-class envelope at position `p` always yields
/// the class name read there.
pub proof fn lemma_interned_name_resolves(t: Seq<(u32, Seq<char>)>, i: int)
    requires
        table_wf(t),
        0 <= i < t.len(),
    ensures
        table_lookup(t, t[i].0) == Some(t[i].1),
    decreases i,
{
    if i == 0 {
    } else {
        assert(t[0].0 < t[i].0);
        lemma_interned_name_resolves(t.drop_first(), i - 1);
        assert(t.drop_first()[i - 1] == t[i]);
    }
}

/// The per-payload class-name table: an ordered mapping from the stream
/// position of a new-class tag to the interned class name. It lives as long
/// as the decode of one top-level payload.
pub struct ClassNameTable {
    entries: Vec<(u32, String)>,
}

impl ClassNameTable {
    /// The table as a sequence of (position, name) pairs, in insertion
    /// order.
    pub closed spec fn model(self) -> Seq<(u32, Seq<char>)> {
        self.entries@.map(|i: int, e: (u32, String)| (e.0, e.1@))
    }

    /// Positions strictly increase.
    pub open spec fn wf(self) -> bool {
        table_wf(self.model())
    }

    pub fn new() -> (r: Self)
        ensures
            r.model() =~= Seq::<(u32, Seq<char>)>::empty(),
            r.wf(),
    {
        let r = ClassNameTable { entries: Vec::new() };
        proof {
            assert(r.model() =~= Seq::<(u32, Seq<char>)>::empty());
        }
        r
    }

    /// Record a class name under a stream position that lies after every
    /// position recorded so far.
    pub fn record(&mut self, position: u32, name: String)
        requires
            old(self).wf(),
            table_keys_below(old(self).model(), position as int),
        ensures
            final(self).model() =~= old(self).model().push((position, name@)),
            final(self).wf(),
            table_keys_below(final(self).model(), position + 1),
    {
        self.entries.push((position, name));
        proof {
            assert(self.model() =~= old(self).model().push((position, name@)));
        }
    }

    /// Resolve a back-referenced position to the name recorded under it.
    pub fn lookup(&self, position: u32) -> (r: Option<String>)
        ensures
            r matches Some(s) ==> table_lookup(self.model(), position) == Some(s@),
            r is None ==> table_lookup(self.model(), position) is None,
    {
        let ghost m = self.model();
        let mut i: usize = 0;
        while i < self.entries.len()
            invariant
                0 <= i <= self.entries.len(),
                m == self.model(),
                m.len() == self.entries@.len(),
                forall|j: int| 0 <= j < i ==> (#[trigger] m[j]).0 != position,
            decreases self.entries.len() - i,
        {
            if self.entries[i].0 == position {
                proof {
                    lemma_table_lookup_skip(m, i as int, position);
                    assert(m.skip(i as int)[0] == m[i as int]);
                }
                return Some(self.entries[i].1.clone());
            }
            i = i + 1;
        }
        proof {
            lemma_table_lookup_skip(m, m.len() as int, position);
            assert(m.skip(m.len() as int) =~= Seq::<(u32, Seq<char>)>::empty());
        }
        None
    }

    /// Number of recorded names.
    pub fn len(&self) -> (r: usize)
        ensures
            r == self.model().len(),
    {
        self.entries.len()
    }
}

/// The version word, member-wise size, and end position of a version word
/// read at `pos`: a sentinel `0xFFFF` announces member-wise streaming, and a
/// 32-bit member-wise size followed by the real 16-bit version come next; any
/// other word is the version itself.
pub open spec fn spec_read_version_word(s: Seq<u8>, pos: int) -> Option<(u16, Option<u32>, int)> {
    if pos < 0 || pos + 2 > s.len() {
        None
    } else {
        let v = be_u16_at(s, pos);
        if v == 0xFFFF {
            if pos + 8 > s.len() {
                None
            } else {
                Some((be_u16_at(s, pos + 6), Some(be_u32_at(s, pos + 2)), pos + 8))
            }
        } else {
            Some((v, None, pos + 2))
        }
    }
}

/// Read a version word: a `u16`, where the sentinel `0xFFFF` means the next
/// four bytes are a member-wise size and the following two the real version.
pub fn read_version_word(buf: &mut TBuf) -> (r: Result<(u16, Option<u32>), RootError>)
    requires
        old(buf).wf(),
    ensures
        final(buf).wf(),
        final(buf).bytes() == old(buf).bytes(),
        spec_read_version_word(old(buf).bytes(), old(buf).pos()) matches Some(t) ==> (r matches Ok(
            out,
        ) && out.0 == t.0 && out.1 == t.1) && final(buf).pos() == t.2,
        spec_read_version_word(old(buf).bytes(), old(buf).pos()) is None ==> (r matches Err(e) && e
            is InvalidFormat),
{
    let first = match buf.read_u16() {
        Ok(v) => v,
        Err(e) => {
            return Err(e);
        },
    };
    if first == 0xFFFF {
        let mw_size = match buf.read_u32() {
            Ok(v) => v,
            Err(e) => {
                return Err(e);
            },
        };
        let version = match buf.read_u16() {
            Ok(v) => v,
            Err(e) => {
                return Err(e);
            },
        };
        Ok((version, Some(mw_size)))
    } else {
        Ok((first, None))
    }
}

/// An object envelope as a plain mathematical value.
pub ghost struct EnvelopeModel {
    pub class_name: Seq<char>,
    pub version: u16,
    pub byte_count: u32,
    pub has_byte_count: bool,
    pub member_wise_size: Option<u32>,
    pub body_offset: int,
}

/// The framing read for one serialized object: its class name, version,
/// byte count, and the offset at which its body starts.
#[derive(Debug, Clone)]
pub struct ObjectEnvelope {
    pub class_name: String,
    pub version: u16,
    pub byte_count: u32,
    pub has_byte_count: bool,
    pub member_wise_size: Option<u32>,
    pub body_offset: usize,
}

impl ObjectEnvelope {
    /// The envelope's fields as a mathematical value.
    pub open spec fn model(self) -> EnvelopeModel {
        EnvelopeModel {
            class_name: self.class_name@,
            version: self.version,
            byte_count: self.byte_count,
            has_byte_count: self.has_byte_count,
            member_wise_size: self.member_wise_size,
            body_offset: self.body_offset as int,
        }
    }
}

/// Largest stream position a back-reference tag can encode: its low 30 bits
/// minus the fixed map offset.
pub open spec fn spec_max_refable_pos() -> int {
    0x3FFFFFFF - 2
}

/// The class name and end position of a new-class announcement at `pos`: a
/// NUL-terminated name of at most 80 bytes.
pub open spec fn spec_read_classname(s: Seq<u8>, pos: int) -> Option<(Seq<char>, int)> {
    let end = if pos + 80 <= s.len() {
        pos + 80
    } else {
        s.len() as int
    };
    match find_nul(s, pos, end) {
        None => None,
        Some(i) => {
            if valid_utf8(s.subrange(pos, i)) {
                Some((decode_utf8(s.subrange(pos, i)), i + 1))
            } else {
                None
            }
        },
    }
}

/// Parse of one object envelope at `pos` of `s`, against class-name table
/// `t`. The result is `None` on any malformed framing; otherwise the
/// envelope (or the null sentinel), the position of the body, and the table
/// after the read, extended exactly when the envelope announced a new class
/// name at a position a back-reference can encode.
pub open spec fn spec_read_envelope(s: Seq<u8>, pos: int, t: Seq<(u32, Seq<char>)>) -> Option<
    (Option<EnvelopeModel>, int, Seq<(u32, Seq<char>)>),
> {
    if pos < 0 || pos + 4 > s.len() {
        None
    } else {
        let first = be_u32_at(s, pos);
        let has_bc = first & 0x40000000u32 != 0;
        let bc = first & 0x3FFFFFFFu32;
        let tag_pos = if has_bc {
            pos + 4
        } else {
            pos
        };
        if tag_pos + 4 > s.len() {
            None
        } else {
            let tag = be_u32_at(s, tag_pos);
            if tag == 0 {
                Some((None, tag_pos + 4, t))
            } else if tag == 0xFFFFFFFFu32 {
                match spec_read_classname(s, tag_pos + 4) {
                    None => None,
                    Some((name, after_name)) => {
                        let t2 = if tag_pos <= spec_max_refable_pos() {
                            t.push((tag_pos as u32, name))
                        } else {
                            t
                        };
                        match spec_read_version_word(s, after_name) {
                            None => None,
                            Some((version, mw, body)) => Some(
                                (
                                    Some(
                                        EnvelopeModel {
                                            class_name: name,
                                            version,
                                            byte_count: if has_bc {
                                                bc
                                            } else {
                                                0
                                            },
                                            has_byte_count: has_bc,
                                            member_wise_size: mw,
                                            body_offset: body,
                                        },
                                    ),
                                    body,
                                    t2,
                                ),
                            ),
                        }
                    },
                }
            } else if tag & 0x80000000u32 != 0 {
                let low = tag & 0x3FFFFFFFu32;
                if low < 2 {
                    None
                } else {
                    match table_lookup(t, (low - 2) as u32) {
                        None => None,
                        Some(name) => match spec_read_version_word(s, tag_pos + 4) {
                            None => None,
                            Some((version, mw, body)) => Some(
                                (
                                    Some(
                                        EnvelopeModel {
                                            class_name: name,
                                            version,
                                            byte_count: if has_bc {
                                                bc
                                            } else {
                                                0
                                            },
                                            has_byte_count: has_bc,
                                            member_wise_size: mw,
                                            body_offset: body,
                                        },
                                    ),
                                    body,
                                    t,
                                ),
                            ),
                        },
                    }
                }
            } else {
                None
            }
        }
    }
}

/// Read one object envelope: the optional byte-count word, the class tag
/// (null, new-class-with-name, or back-reference), and the version word.
/// A new class name is recorded in the table under the position of its tag
/// word; a back-reference resolves its low 30 bits, minus `K_MAP_OFFSET`,
/// against the table. Returns `Ok(None)` for a null object. Malformed
/// framing is reported as `InvalidFormat` (short or non-UTF-8 reads) or
/// `ParseError` (a tag form the catalog path does not carry, a back-reference
/// below `K_MAP_OFFSET`, or one that resolves to no entry).
pub fn read_envelope(buf: &mut TBuf, table: &mut ClassNameTable) -> (r: Result<
    Option<ObjectEnvelope>,
    RootError,
>)
    requires
        old(buf).wf(),
        old(table).wf(),
        table_keys_below(old(table).model(), old(buf).pos()),
    ensures
        final(buf).wf(),
        final(buf).bytes() == old(buf).bytes(),
        final(table).wf(),
        spec_read_envelope(old(buf).bytes(), old(buf).pos(), old(table).model()) matches Some(out)
            ==> ({
            &&& out.0 matches Some(m) ==> (r matches Ok(oe) && oe matches Some(e) && e.model()
                == m)
            &&& out.0 is None ==> (r matches Ok(oe) && oe is None)
            &&& final(buf).pos() == out.1
            &&& final(table).model() == out.2
            &&& table_keys_below(final(table).model(), out.1)
        }),
        spec_read_envelope(old(buf).bytes(), old(buf).pos(), old(table).model()) is None ==> (
        r matches Err(e) && (e is InvalidFormat || e is ParseError)),
{
    let start = buf.get_position();
    let first = match buf.read_u32() {
        Ok(v) => v,
        Err(e) => {
            return Err(e);
        },
    };
    let has_byte_count = first & K_HAS_BYTECOUNT != 0;
    let byte_count = if has_byte_count {
        first & K_BYTECOUNTMASK
    } else {
        0
    };
    let tag_pos = start;
    let (tag, tag_pos) = if has_byte_count {
        let t = match buf.read_u32() {
            Ok(v) => v,
            Err(e) => {
                return Err(e);
            },
        };
        (t, start + 4)
    } else {
        (first, start)
    };
    if tag == K_NULLTAG {
        proof {
            assert forall|i: int| 0 <= i < table.model().len() implies (
            #[trigger] table.model()[i]).0 < buf.pos() by {}
        }
        return Ok(None);
    }
    if tag == K_NEWCLASSTAG {
        let class_name = match buf.read_cstring(80) {
            Ok(s) => s,
            Err(e) => {
                return Err(e);
            },
        };
        if tag_pos <= 0x3FFFFFFF - 2 {
            table.record(tag_pos as u32, class_name.clone());
        }
        let (version, member_wise_size) = match read_version_word(buf) {
            Ok(v) => v,
            Err(e) => {
                return Err(e);
            },
        };
        let body_offset = buf.get_position();
        proof {
            assert forall|i: int| 0 <= i < table.model().len() implies (
            #[trigger] table.model()[i]).0 < body_offset as int by {}
        }
        Ok(
            Some(
                ObjectEnvelope {
                    class_name,
                    version,
                    byte_count,
                    has_byte_count,
                    member_wise_size,
                    body_offset,
                },
            ),
        )
    } else if tag & K_NEW_CLASSBIT != 0 {
        let low = tag & K_BYTECOUNTMASK;
        if low < K_MAP_OFFSET {
            return Err(
                RootError::ParseError("back-reference tag below the map offset".to_owned()),
            );
        }
        let class_name = match table.lookup(low - K_MAP_OFFSET) {
            Some(s) => s,
            None => {
                return Err(
                    RootError::ParseError(
                        "back-reference to an unknown class-name table slot".to_owned(),
                    ),
                );
            },
        };
        let (version, member_wise_size) = match read_version_word(buf) {
            Ok(v) => v,
            Err(e) => {
                return Err(e);
            },
        };
        let body_offset = buf.get_position();
        proof {
            assert forall|i: int| 0 <= i < table.model().len() implies (
            #[trigger] table.model()[i]).0 < body_offset as int by {}
        }
        Ok(
            Some(
                ObjectEnvelope {
                    class_name,
                    version,
                    byte_count,
                    has_byte_count,
                    member_wise_size,
                    body_offset,
                },
            ),
        )
    } else {
        Err(RootError::ParseError("short class tag form outside the catalog path".to_owned()))
    }
}

/// Class-name interning at the stream level: when the table still holds the
/// entry a new-class envelope recorded at tag position `t[i].0`, an envelope
/// whose back-reference tag encodes that position plus `K_MAP_OFFSET` in its
/// low 30 bits resolves to exactly the name recorded there.
pub proof fn lemma_back_reference_yields_interned_name(
    s: Seq<u8>,
    pos: int,
    t: Seq<(u32, Seq<char>)>,
    i: int,
)
    requires
        table_wf(t),
        0 <= i < t.len(),
        pos >= 0,
        pos + 4 <= s.len(),
        ({
            let first = be_u32_at(s, pos);
            let tag_pos: int = if first & 0x40000000u32 != 0 {
                pos + 4
            } else {
                pos
            };
            &&& tag_pos + 4 <= s.len()
            &&& be_u32_at(s, tag_pos) & 0x80000000u32 != 0
            &&& be_u32_at(s, tag_pos) != 0xFFFFFFFFu32
            &&& (be_u32_at(s, tag_pos) & 0x3FFFFFFFu32) == t[i].0 + 2
        }),
    ensures
        spec_read_envelope(s, pos, t) matches Some(out) ==> (out.0 matches Some(m)
            && m.class_name == t[i].1),
{
    lemma_interned_name_resolves(t, i);
    let first = be_u32_at(s, pos);
    let tag_pos: int = if first & 0x40000000u32 != 0 {
        pos + 4
    } else {
        pos
    };
    let tag = be_u32_at(s, tag_pos);
    let low = tag & 0x3FFFFFFFu32;
    assert(0u32 & 0x80000000u32 == 0) by (bit_vector);
    assert(tag != 0);
    assert(low == t[i].0 + 2);
    assert((low - 2) as u32 == t[i].0);
    assert(table_lookup(t, (low - 2) as u32) == Some(t[i].1));
}

/// The `TList` header as a plain mathematical value.
pub ghost struct TListModel {
    pub raw_byte_count: u32,
    pub byte_count: u32,
    pub version: u16,
    pub tobject: TObjectModel,
    pub f_name_byte: u8,
    pub f_name: Seq<char>,
    pub n_objects: u32,
    pub header_end_pos: int,
}

/// Parse of a `TList` header at `pos`: the raw byte-count word, the list
/// version, an embedded `TObject`, a 1-byte-length name, and the object
/// count.
pub open spec fn spec_parse_tlist_header(s: Seq<u8>, pos: int) -> Option<TListModel> {
    if pos < 0 || pos + 6 > s.len() {
        None
    } else {
        let raw = be_u32_at(s, pos);
        let version = be_u16_at(s, pos + 4);
        match spec_read_tobject(s, pos + 6) {
            None => None,
            Some((tobject, p1)) => match spec_read_lstring(s, p1) {
                None => None,
                Some((f_name, p2)) => {
                    if p2 + 4 > s.len() {
                        None
                    } else {
                        Some(
                            TListModel {
                                raw_byte_count: raw,
                                byte_count: raw & 0x3FFFFFFFu32,
                                version,
                                tobject,
                                f_name_byte: s[p1],
                                f_name,
                                n_objects: be_u32_at(s, p2),
                                header_end_pos: p2 + 4,
                            },
                        )
                    }
                },
            },
        }
    }
}

/// The header of a serialized `TList`: its byte count, version, name and
/// object count, optionally together with the decompressed payload it was
/// read from.
#[derive(Debug)]
pub struct TList {
    pub byte_count: u32,
    pub version: u16,
    pub f_name_byte: u8,
    pub f_name: String,
    pub n_objects: u32,
    pub header_end_pos: usize,
    pub raw_byte_count: u32,
    pub decompressed_data: Option<Vec<u8>>,
}

/// A directory-style entry of a list: names plus the key it points at.
#[derive(Debug, Clone, Default)]
pub struct TListObject {
    pub class_name: String,
    pub name: String,
    pub title: String,
    pub key_offset: u64,
    pub key_length: u32,
}

impl TList {
    /// The header fields as a mathematical value; the `TObject` the stream
    /// embeds is consumed but not kept.
    pub open spec fn model_fields(self) -> (u32, u32, u16, u8, Seq<char>, u32, int) {
        (
            self.raw_byte_count,
            self.byte_count,
            self.version,
            self.f_name_byte,
            self.f_name@,
            self.n_objects,
            self.header_end_pos as int,
        )
    }

    /// The parsed header agrees with a model, field by field.
    pub open spec fn matches_model(self, m: TListModel) -> bool {
        self.model_fields() == (
            m.raw_byte_count,
            m.byte_count,
            m.version,
            m.f_name_byte,
            m.f_name,
            m.n_objects,
            m.header_end_pos,
        )
    }

    /// An empty list header, to be filled by parsing.
    pub fn new() -> (r: Self)
        ensures
            r.byte_count == 0 && r.version == 0 && r.f_name_byte == 0 && r.n_objects == 0,
            r.header_end_pos == 0 && r.raw_byte_count == 0,
            r.f_name@ =~= Seq::<char>::empty(),
            r.decompressed_data is None,
    {
        TList {
            byte_count: 0,
            version: 0,
            f_name_byte: 0,
            f_name: String::new(),
            n_objects: 0,
            header_end_pos: 0,
            raw_byte_count: 0,
            decompressed_data: None,
        }
    }

    /// Parse a `TList` header at the start of a decompressed payload and
    /// keep the payload for later envelope extraction.
    pub fn new_from_data(data: Vec<u8>) -> (r: Result<TList, RootError>)
        ensures
            spec_parse_tlist_header(data@, 0) matches Some(m) ==> (r matches Ok(l)
                && l.matches_model(m) && (l.decompressed_data matches Some(d) && d@ == data@)),
            spec_parse_tlist_header(data@, 0) is None ==> (r matches Err(e) && e is InvalidFormat),
    {
        let parsed = {
            let mut cursor = TBuf::new(data.as_slice());
            Self::new_from_streamerinfo(&mut cursor)
        };
        match parsed {
            Ok(mut l) => {
                l.decompressed_data = Some(data);
                Ok(l)
            },
            Err(e) => Err(e),
        }
    }

    /// Parse a `TList` header at the reader's current position: the raw
    /// byte-count word, the list version, an embedded `TObject`, the 1-byte
    /// length-prefixed list name, and the object count. The reader rests at
    /// the first contained envelope.
    pub fn new_from_streamerinfo(tbuf: &mut TBuf) -> (r: Result<TList, RootError>)
        requires
            old(tbuf).wf(),
        ensures
            final(tbuf).wf(),
            final(tbuf).bytes() == old(tbuf).bytes(),
            spec_parse_tlist_header(old(tbuf).bytes(), old(tbuf).pos()) matches Some(m) ==> (
            r matches Ok(l) && l.matches_model(m) && l.decompressed_data is None) && final(tbuf).pos() == m.header_end_pos,
            spec_parse_tlist_header(old(tbuf).bytes(), old(tbuf).pos()) is None ==> (r matches Err(
                e,
            ) && e is InvalidFormat),
    {
        let raw_byte_count = match tbuf.read_u32() {
            Ok(v) => v,
            Err(e) => {
                return Err(e);
            },
        };
        let byte_count = raw_byte_count & K_BYTECOUNTMASK;
        let version = match tbuf.read_u16() {
            Ok(v) => v,
            Err(e) => {
                return Err(e);
            },
        };
        let _tobject = match TObject::new_from_streamerinfo(tbuf) {
            Ok(o) => o,
            Err(e) => {
                return Err(e);
            },
        };
        let f_name_byte = match tbuf.read_u8() {
            Ok(v) => v,
            Err(e) => {
                return Err(e);
            },
        };
        let f_name = match tbuf.read_string(f_name_byte as usize) {
            Ok(s) => s,
            Err(e) => {
                return Err(e);
            },
        };
        let n_objects = match tbuf.read_u32() {
            Ok(v) => v,
            Err(e) => {
                return Err(e);
            },
        };
        let header_end_pos = tbuf.get_position();
        Ok(
            TList {
                byte_count,
                version,
                f_name_byte,
                f_name,
                n_objects,
                header_end_pos,
                raw_byte_count,
                decompressed_data: None,
            },
        )
    }

    /// Read the framing word of the envelope at `envelope_start` within the
    /// stored payload and return its 30-bit byte count; the class name and
    /// version of the full envelope read are left to `read_envelope`.
    pub fn extract_object_with_offset(&self, envelope_start: usize) -> (r: Result<
        (u32, String, u16),
        RootError,
    >)
        ensures
            self.decompressed_data is None ==> (r matches Err(e) && e is ParseError),
            self.decompressed_data matches Some(d) ==> ({
                let p: int = if envelope_start <= d@.len() {
                    envelope_start as int
                } else {
                    self.header_end_pos as int
                };
                &&& (self.header_end_pos > d@.len()) ==> (r matches Err(e) && e is InvalidFormat)
                &&& (self.header_end_pos <= d@.len() && p + 4 <= d@.len()) ==> (r matches Ok(out)
                    && out.0 == be_u32_at(d@, p) & 0x3FFFFFFFu32 && out.1@ =~= Seq::<
                    char,
                >::empty() && out.2 == 0u16)
                &&& (self.header_end_pos <= d@.len() && p + 4 > d@.len()) ==> (r matches Err(e) && e
                    is InvalidFormat)
            }),
    {
        let data = match &self.decompressed_data {
            Some(d) => d,
            None => {
                return Err(RootError::ParseError("no decompressed data stored".to_owned()));
            },
        };
        let mut c = TBuf::new(data.as_slice());
        if !c.seek(self.header_end_pos) {
            return Err(RootError::InvalidFormat("header end position out of bounds".to_owned()));
        }
        c.seek(envelope_start);
        let first = match c.read_u32() {
            Ok(v) => v,
            Err(e) => {
                return Err(e);
            },
        };
        let byte_count = first & K_BYTECOUNTMASK;
        Ok((byte_count, String::new(), 0))
    }
}

} // verus!
