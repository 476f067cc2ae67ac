//! Big-endian reads and writes over byte buffers: fixed-width numbers, and
//! bytes and text behind a length prefix of one or of two bytes.

use vstd::prelude::*;
use vstd::slice::slice_subrange;
use vstd::slice::slice_to_vec;
use vstd::utf8::decode_utf8;
use vstd::utf8::valid_utf8;

verus! {

/// The unsigned 16-bit big-endian number at offset `i`.
pub open spec fn be16(s: Seq<u8>, i: int) -> int {
    s[i] as int * 0x100 + s[i + 1] as int
}

/// The unsigned 32-bit big-endian number at offset `i`.
pub open spec fn be32(s: Seq<u8>, i: int) -> int {
    be16(s, i) * 0x1_0000 + be16(s, i + 2)
}

/// The unsigned 64-bit big-endian number at offset `i`.
pub open spec fn be64(s: Seq<u8>, i: int) -> int {
    be32(s, i) * 0x1_0000_0000 + be32(s, i + 4)
}

/// The signed reading of a 32-bit pattern.
pub open spec fn signed32(v: int) -> int {
    if v >= 0x8000_0000 {
        v - 0x1_0000_0000
    } else {
        v
    }
}

/// The signed reading of a 64-bit pattern.
pub open spec fn signed64(v: int) -> int {
    if v >= 0x8000_0000_0000_0000 {
        v - 0x1_0000_0000_0000_0000
    } else {
        v
    }
}

/// The two big-endian bytes of `v`.
pub open spec fn u16_bytes(v: u16) -> Seq<u8> {
    seq![(v / 0x100) as u8, (v % 0x100) as u8]
}

/// The four big-endian bytes of `v`.
pub open spec fn u32_bytes(v: u32) -> Seq<u8> {
    u16_bytes((v / 0x1_0000) as u16) + u16_bytes((v % 0x1_0000) as u16)
}

/// The bytes of an optional buffer.
pub open spec fn opt_bytes(v: Option<Vec<u8>>) -> Option<Seq<u8>> {
    match v {
        Some(b) => Some(b@),
        None => None,
    }
}

/// The text that `n` bytes at offset `i` hold, where they are valid UTF-8.
pub open spec fn text_at(s: Seq<u8>, i: int, n: int) -> Option<Seq<char>> {
    if 0 <= i && 0 <= n && i + n <= s.len() && valid_utf8(s.subrange(i, i + n)) {
        Some(decode_utf8(s.subrange(i, i + n)))
    } else {
        None
    }
}

/// The bytes behind a 1-byte length prefix at offset `i`, where they fit.
pub open spec fn bytes_byte_at(s: Seq<u8>, i: int) -> Option<Seq<u8>> {
    if 0 <= i && i + 1 <= s.len() && i + 1 + s[i] <= s.len() {
        Some(s.subrange(i + 1, i + 1 + s[i]))
    } else {
        None
    }
}

/// The bytes behind a 2-byte length prefix at offset `i`, where they fit.
pub open spec fn bytes_short_at(s: Seq<u8>, i: int) -> Option<Seq<u8>> {
    if 0 <= i && i + 2 <= s.len() && i + 2 + be16(s, i) <= s.len() {
        Some(s.subrange(i + 2, i + 2 + be16(s, i)))
    } else {
        None
    }
}

/// The text behind a 2-byte length prefix at offset `i`, where the bytes fit
/// and are valid UTF-8.
pub open spec fn string_short_at(s: Seq<u8>, i: int) -> Option<Seq<char>> {
    match bytes_short_at(s, i) {
        Some(b) => if valid_utf8(b) {
            Some(decode_utf8(b))
        } else {
            None
        },
        None => None,
    }
}

/// Converts bytes to a string, where they are valid UTF-8.
///
/// Trusted: `String::from_utf8` is documented to succeed exactly on valid
/// UTF-8 and to yield the text that the bytes encode.
#[verifier::external_body]
pub(crate) fn string_from_utf8(bytes: Vec<u8>) -> (r: Option<String>)
    ensures
        r is Some <==> valid_utf8(bytes@),
        r matches Some(s) ==> s@ == decode_utf8(bytes@),
{
    String::from_utf8(bytes).ok()
}

/// A read cursor over a byte slice. A read that does not fit returns `None`
/// and leaves the cursor where it was.
#[derive(Clone, Copy)]
pub struct Reader<'a> {
    data: &'a [u8],
    pos: usize,
}

impl<'a> Reader<'a> {
    #[verifier::type_invariant]
    spec fn inv(self) -> bool {
        self.pos <= self.data@.len()
    }

    /// All the bytes under the cursor, read or not.
    pub closed spec fn data(&self) -> Seq<u8> {
        self.data@
    }

    /// The number of bytes read so far.
    pub closed spec fn pos(&self) -> nat {
        self.pos as nat
    }

    /// The bytes not yet read.
    pub open spec fn rest(&self) -> Seq<u8> {
        self.data().skip(self.pos() as int)
    }

    /// `self` is `before` moved forward by `n` bytes.
    pub open spec fn moved(&self, before: &Self, n: int) -> bool {
        &&& self.data() == before.data()
        &&& self.pos() == before.pos() + n
        &&& self.pos() <= self.data().len()
    }

    /// A cursor at the start of `data`.
    pub fn new(data: &'a [u8]) -> (r: Self)
        ensures
            r.data() == data@,
            r.pos() == 0,
    {
        Reader { data, pos: 0 }
    }

    /// The number of bytes not yet read.
    pub fn remaining(&self) -> (n: usize)
        ensures
            n == self.data().len() - self.pos(),
            self.pos() <= self.data().len(),
    {
        proof {
            use_type_invariant(self);
        }
        self.data.len() - self.pos
    }

    /// Skips `n` bytes; leaves the cursor where it is if fewer remain.
    pub fn advance(&mut self, n: usize) -> (ok: bool)
        ensures
            ok <==> old(self).pos() + n <= old(self).data().len(),
            final(self).moved(old(self), if ok { n as int } else { 0 }),
    {
        proof {
            use_type_invariant(&*self);
        }
        if n <= self.data.len() - self.pos {
            self.pos = self.pos + n;
            true
        } else {
            false
        }
    }

    /// Reads one byte.
    pub fn get_u8(&mut self) -> (r: Option<u8>)
        ensures
            r is Some <==> old(self).pos() + 1 <= old(self).data().len(),
            r matches Some(v) ==> v == old(self).data()[old(self).pos() as int],
            final(self).moved(old(self), if r is Some { 1 } else { 0 }),
    {
        proof {
            use_type_invariant(&*self);
        }
        if self.data.len() - self.pos < 1 {
            return None;
        }
        let v = self.data[self.pos];
        self.pos = self.pos + 1;
        Some(v)
    }

    /// Reads an unsigned 16-bit number.
    pub fn get_u16(&mut self) -> (r: Option<u16>)
        ensures
            r is Some <==> old(self).pos() + 2 <= old(self).data().len(),
            r matches Some(v) ==> v == be16(old(self).data(), old(self).pos() as int),
            final(self).moved(old(self), if r is Some { 2 } else { 0 }),
    {
        proof {
            use_type_invariant(&*self);
        }
        if self.data.len() - self.pos < 2 {
            return None;
        }
        let hi: u16 = self.data[self.pos] as u16;
        let lo: u16 = self.data[self.pos + 1] as u16;
        self.pos = self.pos + 2;
        Some(hi * 0x100 + lo)
    }

    /// Reads an unsigned 32-bit number.
    pub fn get_u32(&mut self) -> (r: Option<u32>)
        ensures
            r is Some <==> old(self).pos() + 4 <= old(self).data().len(),
            r matches Some(v) ==> v == be32(old(self).data(), old(self).pos() as int),
            final(self).moved(old(self), if r is Some { 4 } else { 0 }),
    {
        proof {
            use_type_invariant(&*self);
        }
        if self.data.len() - self.pos < 4 {
            return None;
        }
        let hi: u32 = self.get_u16().unwrap() as u32;
        let lo: u32 = self.get_u16().unwrap() as u32;
        Some(hi * 0x1_0000 + lo)
    }

    /// Reads a signed 32-bit number.
    pub fn get_i32(&mut self) -> (r: Option<i32>)
        ensures
            r is Some <==> old(self).pos() + 4 <= old(self).data().len(),
            r matches Some(v) ==> v == signed32(be32(old(self).data(), old(self).pos() as int)),
            final(self).moved(old(self), if r is Some { 4 } else { 0 }),
    {
        match self.get_u32() {
            Some(v) => {
                if v >= 0x8000_0000 {
                    let low: i32 = (v - 0x8000_0000) as i32;
                    Some(low + i32::MIN)
                } else {
                    Some(v as i32)
                }
            },
            None => None,
        }
    }

    /// Reads an unsigned 64-bit number.
    pub fn get_u64(&mut self) -> (r: Option<u64>)
        ensures
            r is Some <==> old(self).pos() + 8 <= old(self).data().len(),
            r matches Some(v) ==> v == be64(old(self).data(), old(self).pos() as int),
            final(self).moved(old(self), if r is Some { 8 } else { 0 }),
    {
        proof {
            use_type_invariant(&*self);
        }
        if self.data.len() - self.pos < 8 {
            return None;
        }
        let hi: u64 = self.get_u32().unwrap() as u64;
        let lo: u64 = self.get_u32().unwrap() as u64;
        Some(hi * 0x1_0000_0000 + lo)
    }

    /// Reads a signed 64-bit number.
    pub fn get_i64(&mut self) -> (r: Option<i64>)
        ensures
            r is Some <==> old(self).pos() + 8 <= old(self).data().len(),
            r matches Some(v) ==> v == signed64(be64(old(self).data(), old(self).pos() as int)),
            final(self).moved(old(self), if r is Some { 8 } else { 0 }),
    {
        match self.get_u64() {
            Some(v) => {
                if v >= 0x8000_0000_0000_0000 {
                    let low: i64 = (v - 0x8000_0000_0000_0000) as i64;
                    Some(low + i64::MIN)
                } else {
                    Some(v as i64)
                }
            },
            None => None,
        }
    }

    /// Reads the next `n` bytes.
    pub fn read_bytes(&mut self, n: usize) -> (r: Option<Vec<u8>>)
        ensures
            r is Some <==> old(self).pos() + n <= old(self).data().len(),
            r matches Some(v) ==> v@ == old(self).data().subrange(
                old(self).pos() as int,
                old(self).pos() + n,
            ),
            final(self).moved(old(self), if r is Some { n as int } else { 0 }),
    {
        proof {
            use_type_invariant(&*self);
        }
        if n > self.data.len() - self.pos {
            return None;
        }
        let v = slice_to_vec(slice_subrange(self.data, self.pos, self.pos + n));
        self.pos = self.pos + n;
        Some(v)
    }

    /// Reads a 1-byte length and that many bytes; all or nothing.
    pub fn read_bytes_byte(&mut self) -> (r: Option<Vec<u8>>)
        ensures
            match r {
                Some(v) => bytes_byte_at(old(self).data(), old(self).pos() as int) == Some(v@)
                    && final(self).moved(old(self), 1 + v@.len() as int),
                None => bytes_byte_at(old(self).data(), old(self).pos() as int) is None
                    && final(self).moved(old(self), 0),
            },
    {
        let mut probe = *self;
        let n = match probe.get_u8() {
            Some(n) => n,
            None => { return None; },
        };
        let v = match probe.read_bytes(n as usize) {
            Some(v) => v,
            None => { return None; },
        };
        *self = probe;
        Some(v)
    }

    /// Reads a 2-byte length and that many bytes; all or nothing.
    pub fn read_bytes_short(&mut self) -> (r: Option<Vec<u8>>)
        ensures
            match r {
                Some(v) => bytes_short_at(old(self).data(), old(self).pos() as int) == Some(v@)
                    && final(self).moved(old(self), 2 + v@.len() as int),
                None => bytes_short_at(old(self).data(), old(self).pos() as int) is None
                    && final(self).moved(old(self), 0),
            },
    {
        let mut probe = *self;
        let n = match probe.get_u16() {
            Some(n) => n,
            None => { return None; },
        };
        let v = match probe.read_bytes(n as usize) {
            Some(v) => v,
            None => { return None; },
        };
        *self = probe;
        Some(v)
    }

    /// Reads a 2-byte length and that many bytes of UTF-8 text; all or
    /// nothing.
    pub fn read_string_short(&mut self) -> (r: Option<String>)
        ensures
            match r {
                Some(t) => string_short_at(old(self).data(), old(self).pos() as int) == Some(t@)
                    && final(self).moved(
                    old(self),
                    2 + be16(old(self).data(), old(self).pos() as int),
                ),
                None => string_short_at(old(self).data(), old(self).pos() as int) is None
                    && final(self).moved(old(self), 0),
            },
    {
        let mut probe = *self;
        let v = match probe.read_bytes_short() {
            Some(v) => v,
            None => { return None; },
        };
        let t = match string_from_utf8(v) {
            Some(t) => t,
            None => { return None; },
        };
        *self = probe;
        Some(t)
    }

    /// Reads `limit` bytes of UTF-8 text; all or nothing.
    pub fn read_string_limit(&mut self, limit: usize) -> (r: Option<String>)
        ensures
            match r {
                Some(t) => text_at(old(self).data(), old(self).pos() as int, limit as int)
                    == Some(t@) && final(self).moved(old(self), limit as int),
                None => text_at(old(self).data(), old(self).pos() as int, limit as int) is None
                    && final(self).moved(old(self), 0),
            },
    {
        let mut probe = *self;
        let v = match probe.read_bytes(limit) {
            Some(v) => v,
            None => { return None; },
        };
        let t = match string_from_utf8(v) {
            Some(t) => t,
            None => { return None; },
        };
        *self = probe;
        Some(t)
    }

    /// Reads all the bytes that remain.
    pub fn read_rest(&mut self) -> (r: Vec<u8>)
        ensures
            r@ == old(self).rest(),
            final(self).moved(old(self), old(self).data().len() - old(self).pos()),
    {
        let n = self.remaining();
        self.read_bytes(n).unwrap()
    }
}

/// Appends one byte.
pub fn put_u8(buf: &mut Vec<u8>, v: u8)
    ensures
        final(buf)@ == old(buf)@.push(v),
{
    buf.push(v);
}

/// Appends `v` as two big-endian bytes.
pub fn put_u16(buf: &mut Vec<u8>, v: u16)
    ensures
        final(buf)@ == old(buf)@ + u16_bytes(v),
{
    buf.push((v / 0x100) as u8);
    buf.push((v % 0x100) as u8);
    assert(buf@ =~= old(buf)@ + u16_bytes(v));
}

/// Appends `v` as four big-endian bytes.
pub fn put_u32(buf: &mut Vec<u8>, v: u32)
    ensures
        final(buf)@ == old(buf)@ + u32_bytes(v),
{
    put_u16(buf, (v / 0x1_0000) as u16);
    put_u16(buf, (v % 0x1_0000) as u16);
    assert(buf@ =~= old(buf)@ + u32_bytes(v));
}

/// Appends the bytes of `data`.
pub fn put_slice(buf: &mut Vec<u8>, data: &[u8])
    ensures
        final(buf)@ == old(buf)@ + data@,
{
    buf.extend_from_slice(data);
    assert(buf@ =~= old(buf)@ + data@);
}

/// Appends a 1-byte length and the bytes of `data`.
pub fn write_bytes_byte(buf: &mut Vec<u8>, data: &[u8])
    requires
        data@.len() <= 0xff,
    ensures
        final(buf)@ == old(buf)@ + seq![data@.len() as u8] + data@,
{
    put_u8(buf, data.len() as u8);
    put_slice(buf, data);
    assert(buf@ =~= old(buf)@ + seq![data@.len() as u8] + data@);
}

/// Appends a 2-byte length and the bytes of `data`.
pub fn write_bytes_short(buf: &mut Vec<u8>, data: &[u8])
    requires
        data@.len() <= 0xffff,
    ensures
        final(buf)@ == old(buf)@ + u16_bytes(data@.len() as u16) + data@,
{
    put_u16(buf, data.len() as u16);
    put_slice(buf, data);
}

/// Reading back two bytes written big-endian gives the number written.
pub proof fn lemma_be16_of_u16_bytes(s: Seq<u8>, i: int, v: u16)
    requires
        0 <= i,
        i + 2 <= s.len(),
        s[i] == u16_bytes(v)[0],
        s[i + 1] == u16_bytes(v)[1],
    ensures
        be16(s, i) == v,
{
}

} // verus!
