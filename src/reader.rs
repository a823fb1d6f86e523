use vstd::prelude::*;

verus! {

/// Seconds from 1904-01-01T00:00:00Z, the epoch of font timestamps, to the
/// Unix epoch 1970-01-01T00:00:00Z.
pub const SECONDS_FROM_1904_TO_1970: u64 = 2082844800;

/// The big-endian unsigned 16-bit value whose first byte is `s[i]`.
pub open spec fn u16_at(s: Seq<u8>, i: int) -> int {
    s[i] as int * 256 + s[i + 1] as int
}

/// The big-endian unsigned 32-bit value whose first byte is `s[i]`.
pub open spec fn u32_at(s: Seq<u8>, i: int) -> int {
    u16_at(s, i) * 65536 + u16_at(s, i + 2)
}

/// The two's-complement reading of a 16-bit pattern.
pub open spec fn signed16(v: int) -> int {
    if v < 32768 {
        v
    } else {
        v - 65536
    }
}

/// The two's-complement reading of a 32-bit pattern.
pub open spec fn signed32(v: int) -> int {
    if v < 0x8000_0000 {
        v
    } else {
        v - 0x1_0000_0000
    }
}

pub open spec fn i16_at(s: Seq<u8>, i: int) -> int {
    signed16(u16_at(s, i))
}

pub open spec fn i32_at(s: Seq<u8>, i: int) -> int {
    signed32(u32_at(s, i))
}

/// Division that rounds toward zero, as Rust's `/` does on signed integers.
pub open spec fn div_toward_zero(a: int, d: int) -> int {
    if a >= 0 {
        a / d
    } else {
        -((-a) / d)
    }
}

/// A count of seconds since 1904 moved to the Unix epoch, clamped at zero.
pub open spec fn unix_from_mac(mac: int) -> int {
    if mac >= SECONDS_FROM_1904_TO_1970 {
        mac - SECONDS_FROM_1904_TO_1970
    } else {
        0
    }
}

/// The 64-bit big-endian timestamp whose first byte is `s[i]`.
pub open spec fn u64_at(s: Seq<u8>, i: int) -> int {
    u32_at(s, i) * 0x1_0000_0000 + u32_at(s, i + 4)
}

/// `n` unsigned 16-bit values stored from `s[p]` on.
pub open spec fn u16s_at(s: Seq<u8>, p: int, n: int) -> Seq<u16> {
    Seq::new(n as nat, |k: int| u16_at(s, p + 2 * k) as u16)
}

/// `n` signed 16-bit values stored from `s[p]` on.
pub open spec fn i16s_at(s: Seq<u8>, p: int, n: int) -> Seq<i16> {
    Seq::new(n as nat, |k: int| i16_at(s, p + 2 * k) as i16)
}

/// What `String::from_utf8_lossy` makes of a byte string.
pub uninterp spec fn lossy_text(b: Seq<u8>) -> Seq<char>;

/// Relies on `String::from_utf8_lossy`: the text depends on the bytes alone,
/// and valid UTF-8 (ASCII in particular) is kept as it is.
#[verifier::external_body]
fn utf8_lossy(b: &[u8]) -> (r: String)
    ensures
        r@ == lossy_text(b@),
        (forall|i: int| 0 <= i < b@.len() ==> b@[i] < 128) ==> r@ == b@.map_values(
            |x: u8| x as char,
        ),
{
    String::from_utf8_lossy(b).into_owned()
}

/// A seekable big-endian reader over the bytes of a font file.
///
/// Each read starts at the current position and, when it succeeds, moves the
/// position past the bytes it consumed. A read that would run past the end of
/// the bytes fails and leaves the reader as it was. `set_position` accepts any
/// position: an out-of-range one only makes the next read fail.
pub struct BinaryReader {
    position: u64,
    data: Vec<u8>,
}

/// `after` holds the same bytes as `before`, with the position moved by `n`.
pub open spec fn advanced(before: BinaryReader, after: BinaryReader, n: int) -> bool {
    &&& after.bytes() == before.bytes()
    &&& after.pos() == before.pos() + n
}

impl BinaryReader {
    /// The bytes read from.
    pub closed spec fn bytes(&self) -> Seq<u8> {
        self.data@
    }

    /// The position of the next read.
    pub closed spec fn pos(&self) -> int {
        self.position as int
    }

    /// Whether `n` bytes can be read at the current position.
    pub open spec fn can_read(&self, n: int) -> bool {
        self.pos() + n <= self.bytes().len()
    }

    pub fn new(data: Vec<u8>) -> (r: BinaryReader)
        ensures
            r.bytes() == data@,
            r.pos() == 0,
    {
        BinaryReader { position: 0, data }
    }

    /// Whether `n` bytes can be read at the current position.
    pub fn has(&self, n: u64) -> (r: bool)
        ensures
            r == self.can_read(n as int),
            self.bytes().len() <= usize::MAX,
    {
        let len = self.data.len() as u64;
        self.position <= len && len - self.position >= n
    }

    /// The current position as an index into the bytes.
    fn index(&self) -> (r: usize)
        requires
            self.can_read(1),
        ensures
            r == self.pos(),
    {
        let len = self.data.len();
        assert(self.position < len);
        self.position as usize
    }

    pub fn get_uint8(&mut self) -> (r: Option<u8>)
        ensures
            match r {
                Some(v) => old(self).can_read(1) && advanced(*old(self), *final(self), 1)
                    && v == old(self).bytes()[old(self).pos()],
                None => !old(self).can_read(1) && advanced(*old(self), *final(self), 0),
            },
    {
        if !self.has(1) {
            return None;
        }
        let b = self.data[self.index()];
        self.position = self.position + 1;
        Some(b)
    }

    pub fn get_uint16(&mut self) -> (r: Option<u16>)
        ensures
            match r {
                Some(v) => old(self).can_read(2) && advanced(*old(self), *final(self), 2)
                    && v == u16_at(old(self).bytes(), old(self).pos()),
                None => !old(self).can_read(2) && advanced(*old(self), *final(self), 0),
            },
    {
        if !self.has(2) {
            return None;
        }
        let p = self.index();
        let hi = self.data[p] as u16;
        let lo = self.data[p + 1] as u16;
        self.position = self.position + 2;
        Some(hi * 256 + lo)
    }

    pub fn get_uint32(&mut self) -> (r: Option<u32>)
        ensures
            match r {
                Some(v) => old(self).can_read(4) && advanced(*old(self), *final(self), 4)
                    && v == u32_at(old(self).bytes(), old(self).pos()),
                None => !old(self).can_read(4) && advanced(*old(self), *final(self), 0),
            },
    {
        if !self.has(4) {
            return None;
        }
        let p = self.index();
        let b1 = self.data[p] as u32;
        let b2 = self.data[p + 1] as u32;
        let b3 = self.data[p + 2] as u32;
        let b4 = self.data[p + 3] as u32;
        self.position = self.position + 4;
        Some(b1 * 16777216 + b2 * 65536 + b3 * 256 + b4)
    }

    pub fn get_int16(&mut self) -> (r: Option<i16>)
        ensures
            match r {
                Some(v) => old(self).can_read(2) && advanced(*old(self), *final(self), 2)
                    && v == i16_at(old(self).bytes(), old(self).pos()),
                None => !old(self).can_read(2) && advanced(*old(self), *final(self), 0),
            },
    {
        match self.get_uint16() {
            Some(u) => Some(as_signed16(u)),
            None => None,
        }
    }

    pub fn get_int32(&mut self) -> (r: Option<i32>)
        ensures
            match r {
                Some(v) => old(self).can_read(4) && advanced(*old(self), *final(self), 4)
                    && v == i32_at(old(self).bytes(), old(self).pos()),
                None => !old(self).can_read(4) && advanced(*old(self), *final(self), 0),
            },
    {
        match self.get_uint32() {
            Some(u) => Some(as_signed32(u)),
            None => None,
        }
    }

    /// An FWORD: a signed 16-bit distance in font units.
    pub fn get_fword(&mut self) -> (r: Option<i16>)
        ensures
            match r {
                Some(v) => old(self).can_read(2) && advanced(*old(self), *final(self), 2)
                    && v == i16_at(old(self).bytes(), old(self).pos()),
                None => !old(self).can_read(2) && advanced(*old(self), *final(self), 0),
            },
    {
        self.get_int16()
    }

    /// A UFWORD: an unsigned 16-bit distance in font units.
    pub fn get_ufword(&mut self) -> (r: Option<u16>)
        ensures
            match r {
                Some(v) => old(self).can_read(2) && advanced(*old(self), *final(self), 2)
                    && v == u16_at(old(self).bytes(), old(self).pos()),
                None => !old(self).can_read(2) && advanced(*old(self), *final(self), 0),
            },
    {
        self.get_uint16()
    }

    /// A 16-bit offset.
    pub fn get_offset16(&mut self) -> (r: Option<u16>)
        ensures
            match r {
                Some(v) => old(self).can_read(2) && advanced(*old(self), *final(self), 2)
                    && v == u16_at(old(self).bytes(), old(self).pos()),
                None => !old(self).can_read(2) && advanced(*old(self), *final(self), 0),
            },
    {
        self.get_uint16()
    }

    /// A 32-bit offset.
    pub fn get_offset32(&mut self) -> (r: Option<u32>)
        ensures
            match r {
                Some(v) => old(self).can_read(4) && advanced(*old(self), *final(self), 4)
                    && v == u32_at(old(self).bytes(), old(self).pos()),
                None => !old(self).can_read(4) && advanced(*old(self), *final(self), 0),
            },
    {
        self.get_uint32()
    }

    /// An F2DOT14 (2.14 fixed point), reduced to its integer part.
    pub fn get_f2dot14(&mut self) -> (r: Option<i16>)
        ensures
            match r {
                Some(v) => old(self).can_read(2) && advanced(*old(self), *final(self), 2)
                    && v == div_toward_zero(i16_at(old(self).bytes(), old(self).pos()), 16384),
                None => !old(self).can_read(2) && advanced(*old(self), *final(self), 0),
            },
    {
        match self.get_int16() {
            Some(v) => {
                if v >= 0 {
                    Some(((v as u16) / 16384) as i16)
                } else {
                    let m: u16 = (-(v as i32)) as u16;
                    Some(-((m / 16384) as i16))
                }
            },
            None => None,
        }
    }

    /// A Fixed (16.16 fixed point), reduced to its integer part.
    pub fn get_fixed(&mut self) -> (r: Option<i32>)
        ensures
            match r {
                Some(v) => old(self).can_read(4) && advanced(*old(self), *final(self), 4)
                    && v == div_toward_zero(i32_at(old(self).bytes(), old(self).pos()), 65536),
                None => !old(self).can_read(4) && advanced(*old(self), *final(self), 0),
            },
    {
        match self.get_int32() {
            Some(v) => {
                if v >= 0 {
                    Some(((v as u32) / 65536) as i32)
                } else {
                    let m: u32 = (-(v as i64)) as u32;
                    Some(-((m / 65536) as i32))
                }
            },
            None => None,
        }
    }

    /// `length` bytes read as text; invalid UTF-8 becomes U+FFFD.
    pub fn get_string(&mut self, length: usize) -> (r: Option<String>)
        ensures
            match r {
                Some(t) => old(self).can_read(length as int) && advanced(
                    *old(self),
                    *final(self),
                    length as int,
                ) && t@ == lossy_text(
                    old(self).bytes().subrange(old(self).pos(), old(self).pos() + length),
                ),
                None => !old(self).can_read(length as int) && advanced(*old(self), *final(self), 0),
            },
    {
        if !self.has(length as u64) {
            return None;
        }
        let start = self.position as usize;
        let mut buf: Vec<u8> = Vec::new();
        let mut i: usize = 0;
        while i < length
            invariant
                start == self.pos(),
                self.can_read(length as int),
                self.bytes().len() <= usize::MAX,
                i <= length,
                buf@ == self.bytes().subrange(start as int, start + i),
            decreases length - i,
        {
            buf.push(self.data[start + i]);
            i = i + 1;
            assert(buf@ =~= self.bytes().subrange(start as int, start + i));
        }
        self.position = self.position + length as u64;
        Some(utf8_lossy(buf.as_slice()))
    }

    /// A timestamp: a 64-bit count of seconds since 1904-01-01T00:00:00Z,
    /// returned as seconds since the Unix epoch, or 0 for an earlier instant.
    pub fn get_date(&mut self) -> (r: Option<u64>)
        ensures
            match r {
                Some(v) => old(self).can_read(8) && advanced(*old(self), *final(self), 8)
                    && v == unix_from_mac(u64_at(old(self).bytes(), old(self).pos())),
                None => !old(self).can_read(8) && advanced(*old(self), *final(self), 0),
            },
    {
        if !self.has(8) {
            return None;
        }
        let high = self.get_uint32().unwrap() as u64;
        let low = self.get_uint32().unwrap() as u64;
        let mac = high * 0x1_0000_0000 + low;
        if mac >= SECONDS_FROM_1904_TO_1970 {
            Some(mac - SECONDS_FROM_1904_TO_1970)
        } else {
            Some(0)
        }
    }

    /// The number of bytes read from.
    pub fn source_len(&self) -> (r: u64)
        ensures
            r == self.bytes().len(),
    {
        self.data.len() as u64
    }

    /// Reads `count` unsigned 16-bit values.
    pub fn get_uint16_array(&mut self, count: u16) -> (r: Option<Vec<u16>>)
        ensures
            match r {
                Some(v) => old(self).can_read(2 * count) && advanced(
                    *old(self),
                    *final(self),
                    2 * count,
                ) && v@ == u16s_at(old(self).bytes(), old(self).pos(), count as int),
                None => !old(self).can_read(2 * count) && advanced(*old(self), *final(self), 0),
            },
    {
        let ghost s = self.bytes();
        let ghost p = self.pos();
        if !self.has(2 * count as u64) {
            return None;
        }
        let mut v: Vec<u16> = Vec::new();
        let mut i: u16 = 0;
        while i < count
            invariant
                self.bytes() == s,
                self.pos() == p + 2 * i,
                p + 2 * count <= s.len(),
                i <= count,
                v@ == u16s_at(s, p, i as int),
            decreases count - i,
        {
            v.push(self.get_uint16().unwrap());
            i = i + 1;
            assert(v@ =~= u16s_at(s, p, i as int));
        }
        Some(v)
    }

    /// Reads `count` signed 16-bit values.
    pub fn get_int16_array(&mut self, count: u16) -> (r: Option<Vec<i16>>)
        ensures
            match r {
                Some(v) => old(self).can_read(2 * count) && advanced(
                    *old(self),
                    *final(self),
                    2 * count,
                ) && v@ == i16s_at(old(self).bytes(), old(self).pos(), count as int),
                None => !old(self).can_read(2 * count) && advanced(*old(self), *final(self), 0),
            },
    {
        let ghost s = self.bytes();
        let ghost p = self.pos();
        if !self.has(2 * count as u64) {
            return None;
        }
        let mut v: Vec<i16> = Vec::new();
        let mut i: u16 = 0;
        while i < count
            invariant
                self.bytes() == s,
                self.pos() == p + 2 * i,
                p + 2 * count <= s.len(),
                i <= count,
                v@ == i16s_at(s, p, i as int),
            decreases count - i,
        {
            v.push(self.get_int16().unwrap());
            i = i + 1;
            assert(v@ =~= i16s_at(s, p, i as int));
        }
        Some(v)
    }

    pub fn get_position(&self) -> (r: u64)
        ensures
            r == self.pos(),
    {
        self.position
    }

    /// Moves the position; nothing is checked until the next read.
    pub fn set_position(&mut self, position: u64)
        ensures
            final(self).bytes() == old(self).bytes(),
            final(self).pos() == position,
    {
        self.position = position
    }
}

/// The two's-complement reading of `u`.
fn as_signed16(u: u16) -> (r: i16)
    ensures
        r == signed16(u as int),
{
    if u < 32768 {
        u as i16
    } else {
        (u - 32768) as i16 - 32767 - 1
    }
}

/// The two's-complement reading of `u`.
fn as_signed32(u: u32) -> (r: i32)
    ensures
        r == signed32(u as int),
{
    if u < 0x8000_0000 {
        u as i32
    } else {
        (u - 0x8000_0000) as i32 - 0x7fff_ffff - 1
    }
}

} // verus!
