//! A byte buffer with a cursor, for the binary messages of the browser's input channels.
use vstd::prelude::*;
use vstd::utf8::*;

use crate::text::string_from_utf8;

verus! {

/// The number of bytes that the first `n` characters of `bytes` take, reading UTF-8 from
/// the start; `None` when the bytes end or stop being UTF-8 before `n` characters.
pub open spec fn utf8_prefix_len(bytes: Seq<u8>, n: nat) -> Option<int>
    decreases n,
{
    if n == 0 {
        Some(0)
    } else if bytes.len() == 0 || !valid_first_scalar(bytes) {
        None
    } else {
        match utf8_prefix_len(pop_first_scalar(bytes), (n - 1) as nat) {
            Some(k) => Some(length_of_first_scalar(bytes) + k),
            None => None,
        }
    }
}

proof fn lemma_first_scalar_take(bytes: Seq<u8>, k: int)
    requires
        valid_first_scalar(bytes),
        length_of_first_scalar(bytes) <= k <= bytes.len(),
    ensures
        valid_first_scalar(bytes.take(k)),
        length_of_first_scalar(bytes.take(k)) == length_of_first_scalar(bytes),
        decode_first_scalar(bytes.take(k)) == decode_first_scalar(bytes),
        pop_first_scalar(bytes.take(k)) == pop_first_scalar(bytes).take(k - length_of_first_scalar(bytes)),
{
    let t = bytes.take(k);
    assert(t[0] == bytes[0]);
    if k >= 2 {
        assert(t[1] == bytes[1]);
    }
    if k >= 3 {
        assert(t[2] == bytes[2]);
    }
    if k >= 4 {
        assert(t[3] == bytes[3]);
    }
    assert(pop_first_scalar(t) =~= pop_first_scalar(bytes).take(k - length_of_first_scalar(bytes)));
}

/// The first `n` characters of `bytes` are UTF-8 of exactly `n` characters.
pub proof fn lemma_utf8_prefix_len(bytes: Seq<u8>, n: nat)
    requires
        utf8_prefix_len(bytes, n) is Some,
    ensures
        0 <= utf8_prefix_len(bytes, n)->0 <= bytes.len(),
        valid_utf8(bytes.take(utf8_prefix_len(bytes, n)->0)),
        decode_utf8(bytes.take(utf8_prefix_len(bytes, n)->0)).len() == n,
    decreases n,
{
    if n == 0 {
        assert(bytes.take(0).len() == 0);
    } else {
        let rest = pop_first_scalar(bytes);
        let l = length_of_first_scalar(bytes);
        lemma_utf8_prefix_len(rest, (n - 1) as nat);
        let k = utf8_prefix_len(bytes, n)->0;
        let kr = utf8_prefix_len(rest, (n - 1) as nat)->0;
        assert(k == l + kr);
        lemma_first_scalar_take(bytes, k);
        assert(pop_first_scalar(bytes.take(k)) == rest.take(kr));
    }
}

/// The length of the first character of `bytes[pos..]` when it begins with one.
fn first_scalar_len(bytes: &[u8], pos: usize) -> (res: Option<usize>)
    requires
        pos <= bytes@.len(),
    ensures
        match res {
            Some(l) => bytes@.skip(pos as int).len() > 0 && valid_first_scalar(bytes@.skip(pos as int))
                && l == length_of_first_scalar(bytes@.skip(pos as int)) && 1 <= l <= bytes@.len() - pos,
            None => bytes@.skip(pos as int).len() == 0 || !valid_first_scalar(bytes@.skip(pos as int)),
        },
{
    let ghost r = bytes@.skip(pos as int);
    let len = bytes.len();
    if pos >= len {
        return None;
    }
    let b0 = bytes[pos];
    assert(r[0] == b0);
    if b0 <= 0x7f {
        return Some(1);
    }
    if 0xc0 <= b0 && b0 <= 0xdf {
        if len - pos < 2 {
            return None;
        }
        let b1 = bytes[pos + 1];
        assert(r[1] == b1);
        if !(0x80 <= b1 && b1 <= 0xbf) {
            return None;
        }
        let cp: u32 = (((b0 & 0x1f) as u32) << 6u32) | ((b1 & 0x3f) as u32);
        assert(cp <= 0x7ff) by (bit_vector)
            requires
                cp == (((b0 & 0x1f) as u32) << 6u32) | ((b1 & 0x3f) as u32),
        ;
        if cp < 0x80 {
            return None;
        }
        return Some(2);
    }
    if 0xe0 <= b0 && b0 <= 0xef {
        if len - pos < 3 {
            return None;
        }
        let b1 = bytes[pos + 1];
        let b2 = bytes[pos + 2];
        assert(r[1] == b1);
        assert(r[2] == b2);
        if !(0x80 <= b1 && b1 <= 0xbf) || !(0x80 <= b2 && b2 <= 0xbf) {
            return None;
        }
        let cp: u32 = (((b0 & 0x0f) as u32) << 12u32) | (((b1 & 0x3f) as u32) << 6u32) | ((b2 & 0x3f) as u32);
        if cp < 0x800 || (0xd800 <= cp && cp <= 0xdfff) {
            return None;
        }
        return Some(3);
    }
    if 0xf0 <= b0 && b0 <= 0xf7 {
        if len - pos < 4 {
            return None;
        }
        let b1 = bytes[pos + 1];
        let b2 = bytes[pos + 2];
        let b3 = bytes[pos + 3];
        assert(r[1] == b1);
        assert(r[2] == b2);
        assert(r[3] == b3);
        if !(0x80 <= b1 && b1 <= 0xbf) || !(0x80 <= b2 && b2 <= 0xbf) || !(0x80 <= b3 && b3 <= 0xbf) {
            return None;
        }
        let cp: u32 = (((b0 & 0x07) as u32) << 18u32) | (((b1 & 0x3f) as u32) << 12u32) | (((b2 & 0x3f) as u32) << 6u32)
            | ((b3 & 0x3f) as u32);
        if cp < 0x10000 || cp > 0x10ffff || (0xd800 <= cp && cp <= 0xdfff) {
            return None;
        }
        return Some(4);
    }
    None
}


/// Bytes read and written at a position, big-endian unless told otherwise.
pub struct ByteBuffer {
    position: usize,
    limit: usize,
    little_endian: bool,
    buffer: Vec<u8>,
}

impl ByteBuffer {
    /// The bytes.
    pub closed spec fn bytes(&self) -> Seq<u8> {
        self.buffer@
    }

    /// Where the next read starts.
    pub closed spec fn pos(&self) -> int {
        self.position as int
    }

    /// The end of the data, as the last `flip` left it.
    pub closed spec fn lim(&self) -> int {
        self.limit as int
    }

    /// Numbers are read and written least significant byte first.
    pub closed spec fn is_little_endian(&self) -> bool {
        self.little_endian
    }

    /// A buffer over `buffer`, at position 0, big-endian.
    pub fn new(buffer: Vec<u8>) -> (res: Self)
        ensures
            res.bytes() == buffer@,
            res.pos() == 0,
            res.lim() == 0,
            !res.is_little_endian(),
    {
        ByteBuffer { position: 0, limit: 0, little_endian: false, buffer }
    }

    /// Fills `array` from the position on and moves the position past it.
    pub fn get_u8_array(&mut self, array: &mut [u8])
        requires
            old(self).pos() + old(array)@.len() <= old(self).bytes().len(),
        ensures
            final(array)@ == old(self).bytes().subrange(old(self).pos(), old(self).pos() + old(array)@.len()),
            final(self).pos() == old(self).pos() + old(array)@.len(),
            final(self).bytes() == old(self).bytes(),
            final(self).lim() == old(self).lim(),
            final(self).is_little_endian() == old(self).is_little_endian(),
    {
        let start = self.position;
        let n = array.len();
        let blen = self.buffer.len();
        let mut i: usize = 0;
        while i < n
            invariant
                blen == self.buffer@.len(),
                n == array@.len(),
                start + n <= self.buffer@.len(),
                i <= n,
                forall|j: int| 0 <= j < i ==> array@[j] == self.buffer@[start + j],
            decreases n - i,
        {
            array[i] = self.buffer[start + i];
            i = i + 1;
        }
        assert(array@ =~= self.buffer@.subrange(start as int, start + n));
        self.position = start + n;
    }

    /// Reads one byte.
    pub fn get_u8(&mut self) -> (res: u8)
        requires
            old(self).pos() + 1 <= old(self).bytes().len(),
        ensures
            res == old(self).bytes()[old(self).pos()],
            final(self).pos() == old(self).pos() + 1,
            final(self).bytes() == old(self).bytes(),
            final(self).lim() == old(self).lim(),
            final(self).is_little_endian() == old(self).is_little_endian(),
    {
        let mut buffer: [u8; 1] = [0u8; 1];
        self.get_u8_array(&mut buffer);
        buffer[0]
    }

    /// Reads one byte as a boolean: anything but 0 is true.
    pub fn get_i8(&mut self) -> (res: i8)
        requires
            old(self).pos() + 1 <= old(self).bytes().len(),
        ensures
            res == old(self).bytes()[old(self).pos()] as i8,
            final(self).pos() == old(self).pos() + 1,
            final(self).bytes() == old(self).bytes(),
            final(self).lim() == old(self).lim(),
            final(self).is_little_endian() == old(self).is_little_endian(),
    {
        self.get_u8() as i8
    }

    pub fn get_bool(&mut self) -> (res: bool)
        requires
            old(self).pos() + 1 <= old(self).bytes().len(),
        ensures
            res == (old(self).bytes()[old(self).pos()] != 0),
            final(self).pos() == old(self).pos() + 1,
            final(self).bytes() == old(self).bytes(),
            final(self).lim() == old(self).lim(),
            final(self).is_little_endian() == old(self).is_little_endian(),
    {
        self.get_u8() != 0
    }

    /// Reads two bytes as an unsigned integer.
    pub fn get_u16(&mut self) -> (res: u16)
        requires
            old(self).pos() + 2 <= old(self).bytes().len(),
        ensures
            res == read_u16(old(self).bytes().subrange(old(self).pos(), old(self).pos() + 2), old(self).is_little_endian()),
            final(self).pos() == old(self).pos() + 2,
            final(self).bytes() == old(self).bytes(),
            final(self).lim() == old(self).lim(),
            final(self).is_little_endian() == old(self).is_little_endian(),
    {
        let mut buffer: [u8; 2] = [0u8; 2];
        self.get_u8_array(&mut buffer);
        if self.little_endian {
            (buffer[1] as u16) * 256 + (buffer[0] as u16)
        } else {
            (buffer[0] as u16) * 256 + (buffer[1] as u16)
        }
    }

    /// Reads two bytes as a signed integer in two's complement.
    pub fn get_i16(&mut self) -> (res: i16)
        requires
            old(self).pos() + 2 <= old(self).bytes().len(),
        ensures
            res == read_u16(old(self).bytes().subrange(old(self).pos(), old(self).pos() + 2), old(self).is_little_endian()) as i16,
            final(self).pos() == old(self).pos() + 2,
            final(self).bytes() == old(self).bytes(),
            final(self).lim() == old(self).lim(),
            final(self).is_little_endian() == old(self).is_little_endian(),
    {
        let v = self.get_u16();
        v as i16
    }

    /// Reads four bytes as an unsigned integer.
    pub fn get_u32(&mut self) -> (res: u32)
        requires
            old(self).pos() + 4 <= old(self).bytes().len(),
        ensures
            res == read_u32(old(self).bytes().subrange(old(self).pos(), old(self).pos() + 4), old(self).is_little_endian()),
            final(self).pos() == old(self).pos() + 4,
            final(self).bytes() == old(self).bytes(),
            final(self).lim() == old(self).lim(),
            final(self).is_little_endian() == old(self).is_little_endian(),
    {
        let mut b: [u8; 4] = [0u8; 4];
        self.get_u8_array(&mut b);
        if self.little_endian {
            (b[3] as u32) * 0x1000000 + (b[2] as u32) * 0x10000 + (b[1] as u32) * 0x100 + (b[0] as u32)
        } else {
            (b[0] as u32) * 0x1000000 + (b[1] as u32) * 0x10000 + (b[2] as u32) * 0x100 + (b[3] as u32)
        }
    }

    /// The first `characters` characters of the UTF-8 text from the position on, without
    /// moving the position; `Err` when the text ends or stops being UTF-8 before.
    pub fn get_utf8(&mut self, characters: usize) -> (res: Result<String, ()>)
        requires
            characters != 0 ==> old(self).pos() <= old(self).bytes().len(),
        ensures
            *final(self) == *old(self),
            match utf8_prefix_len(old(self).bytes().skip(old(self).pos()), characters as nat) {
                None => res is Err,
                Some(k) => res matches Ok(s) && s@ == decode_utf8(
                    old(self).bytes().skip(old(self).pos()).take(k),
                ),
            },
    {
        let ghost rest = self.buffer@.skip(self.position as int);
        if characters == 0 {
            assert(decode_utf8(rest.take(0)) =~= Seq::<char>::empty());
            return Ok(String::new());
        }
        let blen = self.buffer.len();
        let start = self.position;
        let mut p = start;
        let mut c: usize = 0;
        while c < characters
            invariant
                *self == *old(self),
                start == self.position,
                blen == self.buffer@.len(),
                start <= p <= self.buffer@.len(),
                rest == self.buffer@.skip(start as int),
                c <= characters,
                utf8_prefix_len(rest, characters as nat) == match utf8_prefix_len(self.buffer@.skip(p as int), (characters - c) as nat) {
                    Some(k) => Some(k + (p - start)),
                    None => None::<int>,
                },
            decreases characters - c,
        {
            match first_scalar_len(self.buffer.as_slice(), p) {
                None => {
                    assert(utf8_prefix_len(self.buffer@.skip(p as int), (characters - c) as nat) is None);
                    return Err(());
                },
                Some(l) => {
                    let ghost here = self.buffer@.skip(p as int);
                    assert(pop_first_scalar(here) =~= self.buffer@.skip(p + l));
                    p = p + l;
                    c = c + 1;
                },
            }
        }
        proof {
            lemma_utf8_prefix_len(rest, characters as nat);
            assert(rest.take(p - start) =~= self.buffer@.subrange(start as int, p as int));
        }
        let bytes = crate::text::copy_range(self.buffer.as_slice(), start, p);
        match string_from_utf8(bytes) {
            Some(s) => Ok(s),
            None => {
                assert(false);
                Err(())
            },
        }
    }

    /// Back to the start, with no data.
    pub fn reset(&mut self)
        ensures
            final(self).pos() == 0,
            final(self).lim() == 0,
            final(self).bytes() == old(self).bytes(),
            final(self).is_little_endian() == old(self).is_little_endian(),
    {
        self.position = 0;
        self.limit = 0;
    }

    /// Ends the data at the position and goes back to the start.
    pub fn flip(&mut self)
        ensures
            final(self).lim() == old(self).pos(),
            final(self).pos() == 0,
            final(self).bytes() == old(self).bytes(),
            final(self).is_little_endian() == old(self).is_little_endian(),
    {
        self.limit = self.position;
        self.position = 0;
    }

    /// Writes `array` at the position, which it must fill to the end; the position stays.
    pub fn put_u8_array(&mut self, array: &[u8])
        requires
            old(self).pos() + array@.len() == old(self).bytes().len(),
        ensures
            final(self).bytes() == written(old(self).bytes(), old(self).pos(), array@),
            final(self).pos() == old(self).pos(),
            final(self).lim() == old(self).lim(),
            final(self).is_little_endian() == old(self).is_little_endian(),
    {
        let start = self.position;
        let n = array.len();
        let blen = self.buffer.len();
        let ghost before = self.buffer@;
        let ghost lim = self.limit;
        let ghost le = self.little_endian;
        let mut i: usize = 0;
        while i < n
            invariant
                blen == self.buffer@.len(),
                self.position == start,
                self.limit == lim,
                self.little_endian == le,
                n == array@.len(),
                start + n == self.buffer@.len(),
                before.len() == self.buffer@.len(),
                i <= n,
                forall|j: int| 0 <= j < start ==> self.buffer@[j] == before[j],
                forall|j: int| 0 <= j < i ==> self.buffer@[start + j] == array@[j],
            decreases n - i,
        {
            self.buffer.set(start + i, array[i]);
            i = i + 1;
        }
        assert(self.buffer@ =~= written(before, start as int, array@));
    }

    /// The position is a `usize`: never negative.
    pub proof fn lemma_pos_bounds(&self)
        ensures
            0 <= self.pos() <= usize::MAX,
            0 <= self.lim() <= usize::MAX,
    {
    }

    /// The bytes as they now stand, with what was written.
    pub fn as_slice(&self) -> (res: &[u8])
        ensures
            res@ == self.bytes(),
    {
        self.buffer.as_slice()
    }

    /// Gives the bytes back, with what was written.
    pub fn into_inner(self) -> (res: Vec<u8>)
        ensures
            res@ == self.bytes(),
    {
        self.buffer
    }

    /// Writes one byte, which must be the last.
    pub fn put_u8(&mut self, data: u8)
        requires
            old(self).pos() + 1 == old(self).bytes().len(),
        ensures
            final(self).bytes() == written(old(self).bytes(), old(self).pos(), seq![data]),
            final(self).pos() == old(self).pos(),
            final(self).lim() == old(self).lim(),
            final(self).is_little_endian() == old(self).is_little_endian(),
    {
        let a: [u8; 1] = [data];
        assert(a@ =~= seq![data]);
        self.put_u8_array(&a);
    }

    /// Writes two bytes, which must be the last.
    pub fn put_u16(&mut self, data: u16)
        requires
            old(self).pos() + 2 == old(self).bytes().len(),
        ensures
            final(self).bytes() == written(old(self).bytes(), old(self).pos(), u16_bytes(data, old(self).is_little_endian())),
            final(self).pos() == old(self).pos(),
            final(self).lim() == old(self).lim(),
            final(self).is_little_endian() == old(self).is_little_endian(),
    {
        let hi = (data / 256) as u8;
        let lo = (data % 256) as u8;
        let bytes: [u8; 2] = if self.little_endian {
            [lo, hi]
        } else {
            [hi, lo]
        };
        assert(bytes@ =~= u16_bytes(data, self.little_endian));
        self.put_u8_array(&bytes);
    }
}

/// A two-byte unsigned integer, most significant byte first unless `little`.
pub open spec fn read_u16(b: Seq<u8>, little: bool) -> u16 {
    if little {
        (b[1] * 256 + b[0]) as u16
    } else {
        (b[0] * 256 + b[1]) as u16
    }
}

/// A four-byte unsigned integer, most significant byte first unless `little`.
pub open spec fn read_u32(b: Seq<u8>, little: bool) -> u32 {
    if little {
        (b[3] * 0x1000000 + b[2] * 0x10000 + b[1] * 0x100 + b[0]) as u32
    } else {
        (b[0] * 0x1000000 + b[1] * 0x10000 + b[2] * 0x100 + b[3]) as u32
    }
}

/// The two bytes of `v`, most significant first unless `little`.
pub open spec fn u16_bytes(v: u16, little: bool) -> Seq<u8> {
    if little {
        seq![(v % 256) as u8, (v / 256) as u8]
    } else {
        seq![(v / 256) as u8, (v % 256) as u8]
    }
}

/// `bytes` with `data` written from `pos` to the end.
pub open spec fn written(bytes: Seq<u8>, pos: int, data: Seq<u8>) -> Seq<u8> {
    bytes.take(pos) + data
}

/// Reading back the bytes just written at a position gives them.
pub proof fn law_read_after_write(bytes: Seq<u8>, pos: int, data: Seq<u8>)
    requires
        0 <= pos,
        pos + data.len() == bytes.len(),
    ensures
        written(bytes, pos, data).subrange(pos, pos + data.len()) == data,
        written(bytes, pos, data).len() == bytes.len(),
{
    assert(written(bytes, pos, data).subrange(pos, pos + data.len()) =~= data);
}

/// A 16-bit integer written at a position is read back from that position in the same byte
/// order: what `get_u16` returns after `put_u16` at the same position.
pub proof fn law_put_then_get_u16(bytes: Seq<u8>, pos: int, v: u16, little: bool)
    requires
        0 <= pos,
        pos + 2 == bytes.len(),
    ensures
        read_u16(written(bytes, pos, u16_bytes(v, little)).subrange(pos, pos + 2), little) == v,
        written(bytes, pos, u16_bytes(v, little)).len() == bytes.len(),
{
    law_read_after_write(bytes, pos, u16_bytes(v, little));
    law_u16_round_trip(v, little);
}

/// Reading a 16-bit integer from its written bytes, in the same byte order, gives it back.
pub proof fn law_u16_round_trip(v: u16, little: bool)
    ensures
        read_u16(u16_bytes(v, little), little) == v,
{
}

} // verus!
