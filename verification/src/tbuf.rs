//! A cursor over a byte slice: big-endian primitive reads, length-prefixed
//! strings, C-strings with a cap, absolute seeks, and a position query.
//! All other components of the decoder read exclusively through it.

use vstd::prelude::*;
use vstd::utf8::{valid_utf8, decode_utf8};
use crate::error::RootError;

verus! {

/// The big-endian 16-bit value formed by the two bytes of `s` at index `i`.
pub open spec fn be_u16_at(s: Seq<u8>, i: int) -> u16
    recommends
        0 <= i,
        i + 2 <= s.len(),
{
    ((s[i] as int) * 0x100 + (s[i + 1] as int)) as u16
}

/// The big-endian 32-bit value formed by the four bytes of `s` at index `i`.
pub open spec fn be_u32_at(s: Seq<u8>, i: int) -> u32
    recommends
        0 <= i,
        i + 4 <= s.len(),
{
    ((s[i] as int) * 0x1000000 + (s[i + 1] as int) * 0x10000 + (s[i + 2] as int) * 0x100 + (s[i
        + 3] as int)) as u32
}

/// The big-endian 64-bit value formed by the eight bytes of `s` at index `i`.
pub open spec fn be_u64_at(s: Seq<u8>, i: int) -> u64
    recommends
        0 <= i,
        i + 8 <= s.len(),
{
    ((be_u32_at(s, i) as int) * 0x100000000 + (be_u32_at(s, i + 4) as int)) as u64
}

/// A seek field read at the selected pointer width: 8 bytes when `wide`,
/// otherwise 4.
pub open spec fn spec_ptr_at(s: Seq<u8>, i: int, wide: bool) -> u64 {
    if wide {
        be_u64_at(s, i)
    } else {
        be_u32_at(s, i) as u64
    }
}

/// Index of the first NUL byte of `s` in `[start, end)`, if any.
pub open spec fn find_nul(s: Seq<u8>, start: int, end: int) -> Option<int>
    decreases end - start,
{
    if start < 0 || start >= end || end > s.len() {
        None
    } else if s[start] == 0 {
        Some(start)
    } else {
        find_nul(s, start + 1, end)
    }
}

/// Scanning for a NUL can start anywhere after a NUL-free prefix.
proof fn lemma_find_nul_skip(s: Seq<u8>, start: int, mid: int, end: int)
    requires
        0 <= start <= mid <= end <= s.len(),
        find_nul(s, start, mid) is None,
    ensures
        find_nul(s, start, end) == find_nul(s, mid, end),
    decreases mid - start,
{
    if start < mid {
        assert(s[start] != 0);
        lemma_find_nul_skip(s, start + 1, mid, end);
    }
}

/// The decoded string and end position of a ROOT `TString` starting at `pos`:
/// a 1-byte length, or the escape byte `0xFF` followed by a 4-byte big-endian
/// length, then that many UTF-8 bytes.
pub open spec fn spec_read_tstring(s: Seq<u8>, pos: int) -> Option<(Seq<char>, int)> {
    if pos < 0 || pos + 1 > s.len() {
        None
    } else {
        let tag = s[pos];
        let n: int = if tag == 0xFF {
            be_u32_at(s, pos + 1) as int
        } else {
            tag as int
        };
        let body: int = if tag == 0xFF {
            pos + 5
        } else {
            pos + 1
        };
        if tag == 0xFF && pos + 5 > s.len() {
            None
        } else if body + n > s.len() {
            None
        } else if valid_utf8(s.subrange(body, body + n)) {
            Some((decode_utf8(s.subrange(body, body + n)), body + n))
        } else {
            None
        }
    }
}

/// Relies on `String::from_utf8`: it succeeds exactly on valid UTF-8 input
/// and yields the decoded characters.
#[verifier::external_body]
pub(crate) fn string_from_utf8(v: Vec<u8>) -> (r: Option<String>)
    ensures
        r is Some <==> valid_utf8(v@),
        r matches Some(s) ==> s@ == decode_utf8(v@),
{
    String::from_utf8(v).ok()
}

/// A cursor over a byte slice. Reads advance the position; every read
/// reports `InvalidFormat` on underflow and leaves the data untouched.
pub struct TBuf<'a> {
    data: &'a [u8],
    position: usize,
}

impl<'a> TBuf<'a> {
    /// The underlying bytes.
    pub closed spec fn bytes(self) -> Seq<u8> {
        self.data@
    }

    /// The cursor position.
    pub closed spec fn pos(self) -> int {
        self.position as int
    }

    /// The cursor never stands past the end of the data, and the data fits
    /// in memory.
    pub open spec fn wf(self) -> bool {
        0 <= self.pos() <= self.bytes().len() <= usize::MAX as int
    }

    pub fn new(data: &'a [u8]) -> (r: Self)
        ensures
            r.wf(),
            r.bytes() == data@,
            r.pos() == 0,
    {
        let n = data.len();
        proof {
            assert(n as int == data@.len());
        }
        Self { data, position: 0 }
    }

    pub fn get_position(&self) -> (r: usize)
        ensures
            r as int == self.pos(),
    {
        self.position
    }

    /// Total length of the underlying data.
    pub fn len(&self) -> (r: usize)
        ensures
            r as int == self.bytes().len(),
    {
        self.data.len()
    }

    /// Move the cursor to an absolute position; a seek past the end is
    /// rejected and leaves the cursor where it was.
    pub fn seek(&mut self, position: usize) -> (r: bool)
        requires
            old(self).wf(),
        ensures
            final(self).wf(),
            final(self).bytes() == old(self).bytes(),
            position <= old(self).bytes().len() ==> r && final(self).pos() == position,
            position > old(self).bytes().len() ==> !r && final(self).pos() == old(self).pos(),
    {
        if position <= self.data.len() {
            self.position = position;
            true
        } else {
            false
        }
    }

    /// Advance the cursor by `n` bytes without reading them.
    pub fn skip(&mut self, n: usize) -> (r: Result<(), RootError>)
        requires
            old(self).wf(),
        ensures
            final(self).wf(),
            final(self).bytes() == old(self).bytes(),
            old(self).pos() + n <= old(self).bytes().len() ==> r is Ok && final(self).pos()
                == old(self).pos() + n,
            old(self).pos() + n > old(self).bytes().len() ==> (r matches Err(e) && e
                is InvalidFormat) && final(self).pos() == old(self).pos(),
    {
        if self.data.len() - self.position >= n {
            self.position = self.position + n;
            Ok(())
        } else {
            Err(RootError::InvalidFormat("skip past end of input".to_owned()))
        }
    }

    pub fn read_u8(&mut self) -> (r: Result<u8, RootError>)
        requires
            old(self).wf(),
        ensures
            final(self).wf(),
            final(self).bytes() == old(self).bytes(),
            old(self).pos() + 1 <= old(self).bytes().len() ==> (r matches Ok(b) && b == old(self).bytes()[old(self).pos()]) && final(self).pos() == old(self).pos() + 1,
            old(self).pos() + 1 > old(self).bytes().len() ==> (r matches Err(e) && e
                is InvalidFormat) && final(self).pos() == old(self).pos(),
    {
        if self.data.len() - self.position >= 1 {
            let b = self.data[self.position];
            self.position = self.position + 1;
            Ok(b)
        } else {
            Err(RootError::InvalidFormat("unexpected end of input".to_owned()))
        }
    }

    pub fn read_u16(&mut self) -> (r: Result<u16, RootError>)
        requires
            old(self).wf(),
        ensures
            final(self).wf(),
            final(self).bytes() == old(self).bytes(),
            old(self).pos() + 2 <= old(self).bytes().len() ==> (r matches Ok(v) && v == be_u16_at(
                old(self).bytes(),
                old(self).pos(),
            )) && final(self).pos() == old(self).pos() + 2,
            old(self).pos() + 2 > old(self).bytes().len() ==> (r matches Err(e) && e
                is InvalidFormat) && final(self).pos() == old(self).pos(),
    {
        if self.data.len() - self.position >= 2 {
            let b0 = self.data[self.position];
            let b1 = self.data[self.position + 1];
            self.position = self.position + 2;
            Ok((b0 as u16) * 0x100 + (b1 as u16))
        } else {
            Err(RootError::InvalidFormat("unexpected end of input".to_owned()))
        }
    }

    pub fn read_u32(&mut self) -> (r: Result<u32, RootError>)
        requires
            old(self).wf(),
        ensures
            final(self).wf(),
            final(self).bytes() == old(self).bytes(),
            old(self).pos() + 4 <= old(self).bytes().len() ==> (r matches Ok(v) && v == be_u32_at(
                old(self).bytes(),
                old(self).pos(),
            )) && final(self).pos() == old(self).pos() + 4,
            old(self).pos() + 4 > old(self).bytes().len() ==> (r matches Err(e) && e
                is InvalidFormat) && final(self).pos() == old(self).pos(),
    {
        if self.data.len() - self.position >= 4 {
            let b0 = self.data[self.position];
            let b1 = self.data[self.position + 1];
            let b2 = self.data[self.position + 2];
            let b3 = self.data[self.position + 3];
            self.position = self.position + 4;
            Ok((b0 as u32) * 0x1000000 + (b1 as u32) * 0x10000 + (b2 as u32) * 0x100 + (b3 as u32))
        } else {
            Err(RootError::InvalidFormat("unexpected end of input".to_owned()))
        }
    }

    pub fn read_u64(&mut self) -> (r: Result<u64, RootError>)
        requires
            old(self).wf(),
        ensures
            final(self).wf(),
            final(self).bytes() == old(self).bytes(),
            old(self).pos() + 8 <= old(self).bytes().len() ==> (r matches Ok(v) && v == be_u64_at(
                old(self).bytes(),
                old(self).pos(),
            )) && final(self).pos() == old(self).pos() + 8,
            old(self).pos() + 8 > old(self).bytes().len() ==> (r matches Err(e) && e
                is InvalidFormat) && final(self).pos() == old(self).pos(),
    {
        if self.data.len() - self.position >= 8 {
            let hi = self.read_u32();
            let lo = self.read_u32();
            match (hi, lo) {
                (Ok(h), Ok(l)) => Ok((h as u64) * 0x100000000 + (l as u64)),
                _ => Err(RootError::InvalidFormat("unexpected end of input".to_owned())),
            }
        } else {
            Err(RootError::InvalidFormat("unexpected end of input".to_owned()))
        }
    }

    /// Borrow the next `length` bytes and advance past them.
    pub fn read_bytes(&mut self, length: usize) -> (r: Result<&'a [u8], RootError>)
        requires
            old(self).wf(),
        ensures
            final(self).wf(),
            final(self).bytes() == old(self).bytes(),
            old(self).pos() + length <= old(self).bytes().len() ==> (r matches Ok(s) && s@ == old(self).bytes().subrange(old(self).pos(), old(self).pos() + length)) && final(self).pos()
                == old(self).pos() + length,
            old(self).pos() + length > old(self).bytes().len() ==> (r matches Err(e) && e
                is InvalidFormat) && final(self).pos() == old(self).pos(),
    {
        if self.data.len() - self.position >= length {
            let s = vstd::slice::slice_subrange(self.data, self.position, self.position + length);
            self.position = self.position + length;
            Ok(s)
        } else {
            Err(RootError::InvalidFormat("unexpected end of input".to_owned()))
        }
    }

    /// Read `length` bytes as a UTF-8 string; invalid UTF-8 is reported as
    /// `InvalidFormat` and the cursor does not move.
    pub fn read_string(&mut self, length: usize) -> (r: Result<String, RootError>)
        requires
            old(self).wf(),
        ensures
            final(self).wf(),
            final(self).bytes() == old(self).bytes(),
            old(self).pos() + length > old(self).bytes().len() ==> (r matches Err(e) && e
                is InvalidFormat) && final(self).pos() == old(self).pos(),
            old(self).pos() + length <= old(self).bytes().len() ==> {
                let sub = old(self).bytes().subrange(old(self).pos(), old(self).pos() + length);
                &&& valid_utf8(sub) ==> (r matches Ok(s) && s@ == decode_utf8(sub)) && final(self).pos() == old(self).pos() + length
                &&& !valid_utf8(sub) ==> (r matches Err(e) && e is InvalidFormat) && final(self).pos() == old(self).pos()
            },
    {
        if self.data.len() - self.position >= length {
            let sub = vstd::slice::slice_subrange(
                self.data,
                self.position,
                self.position + length,
            );
            let v = vstd::slice::slice_to_vec(sub);
            match string_from_utf8(v) {
                Some(s) => {
                    self.position = self.position + length;
                    Ok(s)
                },
                None => Err(RootError::InvalidFormat("invalid UTF-8 in string".to_owned())),
            }
        } else {
            Err(RootError::InvalidFormat("unexpected end of input".to_owned()))
        }
    }

    /// Read bytes up to a NUL terminator, looking at most `cap` bytes ahead;
    /// the cursor advances past the NUL. A missing terminator or invalid
    /// UTF-8 is reported as `InvalidFormat` and the cursor does not move.
    pub fn read_cstring(&mut self, cap: usize) -> (r: Result<String, RootError>)
        requires
            old(self).wf(),
        ensures
            final(self).wf(),
            final(self).bytes() == old(self).bytes(),
            r is Ok ==> final(self).pos() > old(self).pos(),
            ({
                let s = old(self).bytes();
                let start = old(self).pos();
                let end = if start + cap <= s.len() {
                    start + cap
                } else {
                    s.len() as int
                };
                match find_nul(s, start, end) {
                    Option::None => (r matches Err(e) && e is InvalidFormat) && final(self).pos()
                        == start,
                    Option::Some(i) => {
                        let sub = s.subrange(start, i);
                        &&& valid_utf8(sub) ==> (r matches Ok(out) && out@ == decode_utf8(sub))
                            && final(self).pos() == i + 1
                        &&& !valid_utf8(sub) ==> (r matches Err(e) && e is InvalidFormat) && final(self).pos() == start
                    },
                }
            }),
    {
        let ghost s = self.bytes();
        let start = self.position;
        let end = if cap <= self.data.len() - self.position {
            self.position + cap
        } else {
            self.data.len()
        };
        let mut i = start;
        while i < end
            invariant
                self.wf(),
                self.bytes() == old(self).bytes(),
                s == old(self).bytes(),
                start as int == old(self).pos(),
                self.pos() == start,
                start <= i <= end <= s.len(),
                end as int == if start as int + cap as int <= s.len() { start as int + cap as int } else { s.len() as int },
                find_nul(s, start as int, i as int) is None,
            decreases end - i,
        {
            if self.data[i] == 0 {
                proof {
                    lemma_find_nul_skip(s, start as int, i as int, end as int);
                    assert(find_nul(s, i as int, end as int) == Some(i as int));
                }
                let sub = vstd::slice::slice_subrange(self.data, start, i);
                let v = vstd::slice::slice_to_vec(sub);
                match string_from_utf8(v) {
                    Some(out) => {
                        self.position = i + 1;
                        return Ok(out);
                    },
                    None => {
                        return Err(
                            RootError::InvalidFormat("invalid UTF-8 in C-string".to_owned()),
                        );
                    },
                }
            }
            proof {
                lemma_find_nul_skip(s, start as int, i as int, i + 1int);
                assert(find_nul(s, i + 1int, i + 1int) is None);
            }
            i = i + 1;
        }
        Err(RootError::InvalidFormat("no NUL terminator found within cap".to_owned()))
    }

    /// Read one seek field at the selected pointer width: 8 bytes when
    /// `wide`, otherwise 4.
    pub fn read_ptr(&mut self, wide: bool) -> (r: Result<u64, RootError>)
        requires
            old(self).wf(),
        ensures
            final(self).wf(),
            final(self).bytes() == old(self).bytes(),
            old(self).pos() + (if wide { 8int } else { 4int }) <= old(self).bytes().len() ==> (
            r matches Ok(v) && v == spec_ptr_at(old(self).bytes(), old(self).pos(), wide)) && final(self).pos() == old(self).pos() + (if wide { 8int } else { 4int }),
            old(self).pos() + (if wide { 8int } else { 4int }) > old(self).bytes().len() ==> (
            r matches Err(e) && e is InvalidFormat) && final(self).pos() == old(self).pos(),
    {
        if wide {
            self.read_u64()
        } else {
            match self.read_u32() {
                Ok(v) => Ok(v as u64),
                Err(e) => Err(e),
            }
        }
    }

    /// Read a ROOT `TString`: a 1-byte length, or the escape byte `0xFF`
    /// followed by a 4-byte big-endian length, then that many UTF-8 bytes.
    pub fn read_tstring(&mut self) -> (r: Result<String, RootError>)
        requires
            old(self).wf(),
        ensures
            final(self).wf(),
            final(self).bytes() == old(self).bytes(),
            spec_read_tstring(old(self).bytes(), old(self).pos()) matches Some(t) ==> (r matches Ok(out) && out@ == t.0) && final(self).pos() == t.1,
            spec_read_tstring(old(self).bytes(), old(self).pos()) is None ==> (r matches Err(e) && e is InvalidFormat),
    {
        let len_tag = match self.read_u8() {
            Ok(b) => b,
            Err(e) => {
                return Err(e);
            },
        };
        let len: usize = if len_tag == 0xFF {
            match self.read_u32() {
                Ok(n) => n as usize,
                Err(e) => {
                    return Err(e);
                },
            }
        } else {
            len_tag as usize
        };
        self.read_string(len)
    }
}

} // verus!
