use vstd::prelude::*;
use vstd::utf8::*;
use vstd::string::StringSliceAdditionalSpecFns;
use vstd::std_specs::iter::IteratorSpec;

verus! {

/// Characters denoted by a sequence of ASCII bytes.
pub open spec fn ascii_chars(bytes: Seq<u8>) -> Seq<char> {
    bytes.map_values(|b: u8| b as char)
}

/// Every byte is an ASCII code (below 128).
pub open spec fn all_ascii(bytes: Seq<u8>) -> bool {
    forall|i: int| 0 <= i < bytes.len() ==> #[trigger] bytes[i] < 128
}

/// A decimal digit character, `'0'..='9'`.
pub open spec fn is_digit(b: u8) -> bool {
    48 <= b <= 57
}

/// Decimal representation of `n` without sign or leading zeros.
pub open spec fn decimal_digits(n: nat) -> Seq<u8>
    decreases n,
{
    if n < 10 {
        seq![(48 + n) as u8]
    } else {
        decimal_digits(n / 10).push((48 + n % 10) as u8)
    }
}

/// Decimal representation of a signed integer, with a leading `-` when negative.
pub open spec fn signed_decimal(v: int) -> Seq<u8> {
    if v < 0 {
        seq![45u8] + decimal_digits((-v) as nat)
    } else {
        decimal_digits(v as nat)
    }
}

/// Why a decimal integer could not be read; the same kinds as the standard library reports.
#[derive(Debug, Clone, Copy, PartialEq, Eq, Structural)]
pub enum IntErrorKind {
    Empty,
    InvalidDigit,
    PosOverflow,
    NegOverflow,
}

/// A decimal integer could not be read.
#[derive(Debug, Clone, Copy, PartialEq, Eq, Structural)]
pub struct ParseIntError {
    pub kind: IntErrorKind,
}

/// Reads the digits of `bytes` left to right on top of `acc`; the first byte that is not a
/// digit is an `InvalidDigit`, and a value above `limit` at any step is `overflow`.
pub open spec fn digits_value(bytes: Seq<u8>, acc: int, limit: int, overflow: IntErrorKind) -> Result<
    int,
    IntErrorKind,
>
    decreases bytes.len(),
{
    if bytes.len() == 0 {
        Ok(acc)
    } else if !is_digit(bytes[0]) {
        Err(IntErrorKind::InvalidDigit)
    } else if acc * 10 + (bytes[0] - 48) > limit {
        Err(overflow)
    } else {
        digits_value(bytes.drop_first(), acc * 10 + (bytes[0] - 48), limit, overflow)
    }
}

/// The value of an unsigned decimal integer no greater than `max`, as the standard
/// library's `from_str` reads it: an optional `+`, then at least one digit.
pub open spec fn spec_parse_unsigned(bytes: Seq<u8>, max: int) -> Result<int, IntErrorKind> {
    if bytes.len() == 0 {
        Err(IntErrorKind::Empty)
    } else if (bytes[0] == 43 || bytes[0] == 45) && bytes.len() == 1 {
        Err(IntErrorKind::InvalidDigit)
    } else if bytes[0] == 43 {
        digits_value(bytes.drop_first(), 0, max, IntErrorKind::PosOverflow)
    } else {
        digits_value(bytes, 0, max, IntErrorKind::PosOverflow)
    }
}

/// The value of a signed decimal integer in `-2^31 .. 2^31`, as the standard library's
/// `i32::from_str` reads it.
pub open spec fn spec_parse_i32(bytes: Seq<u8>) -> Result<int, IntErrorKind> {
    if bytes.len() == 0 {
        Err(IntErrorKind::Empty)
    } else if (bytes[0] == 43 || bytes[0] == 45) && bytes.len() == 1 {
        Err(IntErrorKind::InvalidDigit)
    } else if bytes[0] == 43 {
        digits_value(bytes.drop_first(), 0, i32::MAX as int, IntErrorKind::PosOverflow)
    } else if bytes[0] == 45 {
        match digits_value(bytes.drop_first(), 0, 0x8000_0000, IntErrorKind::NegOverflow) {
            Ok(v) => Ok(-v),
            Err(e) => Err(e),
        }
    } else {
        digits_value(bytes, 0, i32::MAX as int, IntErrorKind::PosOverflow)
    }
}

proof fn lemma_digits_value_bound(bytes: Seq<u8>, acc: int, limit: int, overflow: IntErrorKind)
    requires
        0 <= acc <= limit,
    ensures
        digits_value(bytes, acc, limit, overflow) matches Ok(v) ==> 0 <= v <= limit,
    decreases bytes.len(),
{
    if bytes.len() > 0 && is_digit(bytes[0]) && acc * 10 + (bytes[0] - 48) <= limit {
        lemma_digits_value_bound(bytes.drop_first(), acc * 10 + (bytes[0] - 48), limit, overflow);
    }
}

/// Reads the digits `bytes[start..]` as a value no greater than `limit`.
fn parse_digits(bytes: &[u8], start: usize, limit: u64, overflow: IntErrorKind) -> (res: Result<
    u64,
    IntErrorKind,
>)
    requires
        start <= bytes@.len(),
        limit <= u32::MAX,
    ensures
        match digits_value(bytes@.skip(start as int), 0, limit as int, overflow) {
            Ok(v) => res == Ok::<u64, IntErrorKind>(v as u64),
            Err(e) => res == Err::<u64, IntErrorKind>(e),
        },
{
    let mut acc: u64 = 0;
    let mut i = start;
    proof {
        lemma_digits_value_bound(bytes@.skip(start as int), 0, limit as int, overflow);
    }
    while i < bytes.len()
        invariant
            start <= i <= bytes@.len(),
            acc <= limit,
            limit <= u32::MAX,
            digits_value(bytes@.skip(start as int), 0, limit as int, overflow) == digits_value(
                bytes@.skip(i as int),
                acc as int,
                limit as int,
                overflow,
            ),
        decreases bytes@.len() - i,
    {
        let b = bytes[i];
        assert(bytes@.skip(i as int)[0] == b);
        assert(bytes@.skip(i as int).drop_first() =~= bytes@.skip(i + 1));
        if b < 48 || b > 57 {
            return Err(IntErrorKind::InvalidDigit);
        }
        let next = acc * 10 + (b - 48) as u64;
        if next > limit {
            return Err(overflow);
        }
        acc = next;
        i = i + 1;
    }
    assert(bytes@.skip(i as int).len() == 0);
    Ok(acc)
}

/// Reads an unsigned decimal integer no greater than `max` from `s`.
fn parse_unsigned(s: &str, max: u64) -> (res: Result<u64, ParseIntError>)
    requires
        max <= u32::MAX,
    ensures
        match spec_parse_unsigned(s.spec_bytes(), max as int) {
            Ok(v) => res == Ok::<u64, ParseIntError>(v as u64),
            Err(kind) => res == Err::<u64, ParseIntError>(ParseIntError { kind }),
        },
{
    parse_unsigned_bytes(s.as_bytes(), max)
}

/// Reads an unsigned decimal integer no greater than `max` from the UTF-8 text `bytes`.
pub fn parse_unsigned_bytes(bytes: &[u8], max: u64) -> (res: Result<u64, ParseIntError>)
    requires
        max <= u32::MAX,
    ensures
        match spec_parse_unsigned(bytes@, max as int) {
            Ok(v) => res == Ok::<u64, ParseIntError>(v as u64) && 0 <= v <= max,
            Err(kind) => res == Err::<u64, ParseIntError>(ParseIntError { kind }),
        },
{
    proof {
        if bytes@.len() > 0 {
            lemma_digits_value_bound(bytes@.drop_first(), 0, max as int, IntErrorKind::PosOverflow);
            lemma_digits_value_bound(bytes@, 0, max as int, IntErrorKind::PosOverflow);
        }
    }
    if bytes.len() == 0 {
        return Err(ParseIntError { kind: IntErrorKind::Empty });
    }
    if (bytes[0] == 43 || bytes[0] == 45) && bytes.len() == 1 {
        return Err(ParseIntError { kind: IntErrorKind::InvalidDigit });
    }
    let start: usize = if bytes[0] == 43 { 1 } else { 0 };
    assert(bytes@.skip(1) =~= bytes@.drop_first());
    assert(bytes@.skip(0) =~= bytes@);
    match parse_digits(bytes, start, max, IntErrorKind::PosOverflow) {
        Ok(v) => Ok(v),
        Err(kind) => Err(ParseIntError { kind }),
    }
}

/// `u32::from_str` on `s`.
pub fn parse_u32(s: &str) -> (res: Result<u32, ParseIntError>)
    ensures
        match spec_parse_unsigned(s.spec_bytes(), u32::MAX as int) {
            Ok(v) => res == Ok::<u32, ParseIntError>(v as u32) && 0 <= v <= u32::MAX,
            Err(kind) => res == Err::<u32, ParseIntError>(ParseIntError { kind }),
        },
{
    proof {
        if s.spec_bytes().len() > 0 {
            lemma_digits_value_bound(s.spec_bytes().drop_first(), 0, u32::MAX as int, IntErrorKind::PosOverflow);
            lemma_digits_value_bound(s.spec_bytes(), 0, u32::MAX as int, IntErrorKind::PosOverflow);
        }
    }
    match parse_unsigned(s, 0xffff_ffff) {
        Ok(v) => Ok(v as u32),
        Err(e) => Err(e),
    }
}

/// `u16::from_str` on `s`.
pub fn parse_u16(s: &str) -> (res: Result<u16, ParseIntError>)
    ensures
        match spec_parse_unsigned(s.spec_bytes(), u16::MAX as int) {
            Ok(v) => res == Ok::<u16, ParseIntError>(v as u16) && 0 <= v <= u16::MAX,
            Err(kind) => res == Err::<u16, ParseIntError>(ParseIntError { kind }),
        },
{
    proof {
        if s.spec_bytes().len() > 0 {
            lemma_digits_value_bound(s.spec_bytes().drop_first(), 0, u16::MAX as int, IntErrorKind::PosOverflow);
            lemma_digits_value_bound(s.spec_bytes(), 0, u16::MAX as int, IntErrorKind::PosOverflow);
        }
    }
    match parse_unsigned(s, 0xffff) {
        Ok(v) => Ok(v as u16),
        Err(e) => Err(e),
    }
}

/// `i32::from_str` on `s`.
pub fn parse_i32(s: &str) -> (res: Result<i32, ParseIntError>)
    ensures
        match spec_parse_i32(s.spec_bytes()) {
            Ok(v) => res == Ok::<i32, ParseIntError>(v as i32) && i32::MIN <= v <= i32::MAX,
            Err(kind) => res == Err::<i32, ParseIntError>(ParseIntError { kind }),
        },
{
    parse_i32_bytes(s.as_bytes())
}

/// `i32::from_str` on the UTF-8 text `bytes`.
pub fn parse_i32_bytes(bytes: &[u8]) -> (res: Result<i32, ParseIntError>)
    ensures
        match spec_parse_i32(bytes@) {
            Ok(v) => res == Ok::<i32, ParseIntError>(v as i32) && i32::MIN <= v <= i32::MAX,
            Err(kind) => res == Err::<i32, ParseIntError>(ParseIntError { kind }),
        },
{
    if bytes.len() == 0 {
        return Err(ParseIntError { kind: IntErrorKind::Empty });
    }
    if (bytes[0] == 43 || bytes[0] == 45) && bytes.len() == 1 {
        return Err(ParseIntError { kind: IntErrorKind::InvalidDigit });
    }
    assert(bytes@.skip(1) =~= bytes@.drop_first());
    assert(bytes@.skip(0) =~= bytes@);
    if bytes[0] == 45 {
        proof {
            lemma_digits_value_bound(bytes@.drop_first(), 0, 0x8000_0000, IntErrorKind::NegOverflow);
        }
        match parse_digits(bytes, 1, 0x8000_0000, IntErrorKind::NegOverflow) {
            Ok(v) => {
                if v == 0x8000_0000 {
                    Ok(-2147483648i32)
                } else {
                    Ok(-(v as i32))
                }
            },
            Err(kind) => Err(ParseIntError { kind }),
        }
    } else {
        let start: usize = if bytes[0] == 43 { 1 } else { 0 };
        proof {
            lemma_digits_value_bound(bytes@.drop_first(), 0, i32::MAX as int, IntErrorKind::PosOverflow);
            lemma_digits_value_bound(bytes@, 0, i32::MAX as int, IntErrorKind::PosOverflow);
        }
        match parse_digits(bytes, start, 0x7fff_ffff, IntErrorKind::PosOverflow) {
            Ok(v) => Ok(v as i32),
            Err(kind) => Err(ParseIntError { kind }),
        }
    }
}

/// `String::from_utf8`, keeping only whether the bytes were accepted.
#[verifier::external_body]
pub(crate) fn string_from_utf8(bytes: Vec<u8>) -> (res: Option<String>)
    ensures
        res is Some <==> valid_utf8(bytes@),
        res matches Some(s) ==> s@ == decode_utf8(bytes@),
{
    String::from_utf8(bytes).ok()
}

proof fn lemma_ascii_utf8(bytes: Seq<u8>)
    requires
        all_ascii(bytes),
    ensures
        valid_utf8(bytes),
        decode_utf8(bytes) == ascii_chars(bytes),
{
    let chars = ascii_chars(bytes);
    assert forall|i: int| 0 <= i < chars.len() implies '\0' <= #[trigger] chars[i] <= '\u{7f}' by {
        assert(bytes[i] < 128);
    }
    assert(is_ascii_chars(chars));
    is_ascii_chars_encode_utf8(chars);
    assert forall|i: int| 0 <= i < bytes.len() implies #[trigger] encode_utf8(chars)[i] == bytes[i] by {
        assert(chars[i] == bytes[i] as char);
        assert(bytes[i] < 128);
        assert(chars[i] as u8 == bytes[i]);
    }
    assert(encode_utf8(chars) =~= bytes);
    encode_utf8_valid_utf8(chars);
    encode_utf8_decode_utf8(chars);
}

/// A string made of ASCII bytes.
pub fn ascii_string(bytes: Vec<u8>) -> (s: String)
    requires
        all_ascii(bytes@),
    ensures
        s@ == ascii_chars(bytes@),
{
    proof {
        lemma_ascii_utf8(bytes@);
    }
    let ghost b = bytes@;
    match string_from_utf8(bytes) {
        Some(s) => s,
        None => {
            assert(false);
            String::new()
        },
    }
}

/// Every byte of a decimal representation is an ASCII digit.
pub proof fn lemma_decimal_digits(n: nat)
    ensures
        decimal_digits(n).len() >= 1,
        forall|i: int| 0 <= i < decimal_digits(n).len() ==> is_digit(#[trigger] decimal_digits(n)[i]),
    decreases n,
{
    if n >= 10 {
        lemma_decimal_digits(n / 10);
    }
}

/// Appends the decimal digits of `n`.
pub fn push_decimal(out: &mut Vec<u8>, n: u64)
    ensures
        final(out)@ == old(out)@ + decimal_digits(n as nat),
    decreases n,
{
    if n >= 10 {
        push_decimal(out, n / 10);
    }
    out.push(48 + (n % 10) as u8);
    proof {
        if n >= 10 {
            assert(decimal_digits(n as nat) == decimal_digits((n / 10) as nat).push((48 + n % 10) as u8));
        }
    }
    assert(final(out)@ =~= old(out)@ + decimal_digits(n as nat)) by {
        assert(final(out)@ == out@);
    }
}

/// The position of the first `sep` in `bytes` at or after `from`.
pub open spec fn index_of_from(bytes: Seq<u8>, sep: u8, from: int) -> Option<int>
    decreases bytes.len() - from,
{
    if from < 0 || from >= bytes.len() {
        None
    } else if bytes[from] == sep {
        Some(from)
    } else {
        index_of_from(bytes, sep, from + 1)
    }
}

/// The pieces of `bytes` between the separators `sep`, at most `n` of them: the last piece
/// keeps the remaining separators, as `str::splitn` does.
pub open spec fn split_n(bytes: Seq<u8>, n: nat, sep: u8) -> Seq<Seq<u8>>
    decreases n,
{
    if n <= 1 {
        seq![bytes]
    } else {
        match index_of_from(bytes, sep, 0) {
            None => seq![bytes],
            Some(i) => seq![bytes.take(i)] + split_n(bytes.skip(i + 1), (n - 1) as nat, sep),
        }
    }
}

proof fn lemma_index_of_from(bytes: Seq<u8>, sep: u8, from: int)
    requires
        0 <= from,
    ensures
        index_of_from(bytes, sep, from) matches Some(i) ==> from <= i < bytes.len() && bytes[i] == sep,
        index_of_from(bytes, sep, from) is None ==> forall|j: int| from <= j < bytes.len() ==> bytes[j] != sep,
    decreases bytes.len() - from,
{
    if from < bytes.len() && bytes[from] != sep {
        lemma_index_of_from(bytes, sep, from + 1);
    }
}

proof fn lemma_index_of_skip(bytes: Seq<u8>, sep: u8, start: int, k: int)
    requires
        0 <= start <= bytes.len(),
        0 <= k,
    ensures
        index_of_from(bytes, sep, start + k) == (match index_of_from(bytes.skip(start), sep, k) {
            Some(i) => Some(i + start),
            None => None::<int>,
        }),
    decreases bytes.len() - start - k,
{
    if start + k < bytes.len() {
        assert(bytes.skip(start)[k] == bytes[start + k]);
        if bytes[start + k] != sep {
            lemma_index_of_skip(bytes, sep, start, k + 1);
        }
    }
}

/// The position of the first `sep` in `bytes` at or after `from`.
pub fn find_byte(bytes: &[u8], sep: u8, from: usize) -> (res: Option<usize>)
    ensures
        match index_of_from(bytes@, sep, from as int) {
            Some(i) => res matches Some(r) && r == i,
            None => res is None,
        },
{
    let mut i = from;
    while i < bytes.len()
        invariant
            from <= i,
            index_of_from(bytes@, sep, from as int) == index_of_from(bytes@, sep, i as int),
        decreases bytes@.len() - i,
    {
        if bytes[i] == sep {
            return Some(i);
        }
        i = i + 1;
    }
    None
}

/// Copies `bytes[start..end]`.
pub fn copy_range(bytes: &[u8], start: usize, end: usize) -> (res: Vec<u8>)
    requires
        start <= end <= bytes@.len(),
    ensures
        res@ == bytes@.subrange(start as int, end as int),
{
    let mut out: Vec<u8> = Vec::new();
    let mut i = start;
    while i < end
        invariant
            start <= i <= end <= bytes@.len(),
            out@ == bytes@.subrange(start as int, i as int),
        decreases end - i,
    {
        out.push(bytes[i]);
        i = i + 1;
        assert(out@ =~= bytes@.subrange(start as int, i as int));
    }
    out
}

/// The pieces of `bytes` between the separators `sep`, at most `n` of them.
pub fn split_bytes(bytes: &[u8], n: usize, sep: u8) -> (res: Vec<Vec<u8>>)
    requires
        n >= 1,
    ensures
        res@.map_values(|v: Vec<u8>| v@) == split_n(bytes@, n as nat, sep),
{
    let mut out: Vec<Vec<u8>> = Vec::new();
    let mut start: usize = 0;
    let mut left: usize = n;
    let len = bytes.len();
    assert(bytes@.skip(0) =~= bytes@);
    assert(out@.map_values(|v: Vec<u8>| v@) =~= Seq::<Seq<u8>>::empty());
    while left > 1
        invariant
            len == bytes@.len(),
            start <= bytes@.len(),
            1 <= left <= n,
            out@.map_values(|v: Vec<u8>| v@) + split_n(bytes@.skip(start as int), left as nat, sep)
                == split_n(bytes@, n as nat, sep),
        decreases left,
    {
        let ghost rest = bytes@.skip(start as int);
        match find_byte(bytes, sep, start) {
            None => {
                proof {
                    lemma_index_of_skip(bytes@, sep, start as int, 0);
                    assert(split_n(rest, left as nat, sep) == split_n(rest, 1, sep));
                }
                left = 1;
            },
            Some(i) => {
                proof {
                    lemma_index_of_skip(bytes@, sep, start as int, 0);
                    lemma_index_of_from(bytes@, sep, start as int);
                    lemma_index_of_from(rest, sep, 0);
                    assert(start as int + 0 == start as int);
                    assert(index_of_from(bytes@, sep, start as int) == Some(i as int));
                    assert(index_of_from(rest, sep, 0) == Some(i - start));
                    assert(start <= i < bytes@.len());
                    assert(rest.take(i - start) =~= bytes@.subrange(start as int, i as int));
                    assert(rest.skip(i - start + 1) =~= bytes@.skip(i + 1));
                }
                let piece = copy_range(bytes, start, i);
                let ghost before = out@.map_values(|v: Vec<u8>| v@);
                out.push(piece);
                assert(out@.map_values(|v: Vec<u8>| v@) =~= before.push(piece@));
                assert(before.push(piece@) + split_n(bytes@.skip(i + 1), (left - 1) as nat, sep) =~= before
                    + split_n(rest, left as nat, sep));
                start = i + 1;
                left = left - 1;
            },
        }
    }
    let last = copy_range(bytes, start, bytes.len());
    let ghost before = out@.map_values(|v: Vec<u8>| v@);
    assert(last@ =~= bytes@.skip(start as int));
    out.push(last);
    assert(out@.map_values(|v: Vec<u8>| v@) =~= before.push(last@));
    out
}

/// Decimal representation of a signed 32-bit integer.
pub fn push_signed_decimal(out: &mut Vec<u8>, v: i32)
    ensures
        final(out)@ == old(out)@ + signed_decimal(v as int),
{
    if v < 0 {
        out.push(45u8);
        let magnitude: u64 = if v == i32::MIN {
            2147483648u64
        } else {
            (-v) as u64
        };
        let ghost mid = out@;
        push_decimal(out, magnitude);
        assert(final(out)@ =~= old(out)@ + signed_decimal(v as int)) by {
            assert(final(out)@ == out@);
        }
    } else {
        push_decimal(out, v as u64);
    }
}

/// ASCII bytes followed by ASCII bytes are ASCII.
pub proof fn lemma_all_ascii_concat(a: Seq<u8>, b: Seq<u8>)
    requires
        all_ascii(a),
        all_ascii(b),
    ensures
        all_ascii(a + b),
{
    assert forall|i: int| 0 <= i < (a + b).len() implies #[trigger] (a + b)[i] < 128 by {
        if i < a.len() {
            assert((a + b)[i] == a[i]);
        } else {
            assert((a + b)[i] == b[i - a.len()]);
        }
    }
}

/// The characters of `s`.
pub fn str_chars(s: &str) -> (res: Vec<char>)
    ensures
        res@ == s@,
{
    broadcast use vstd::string::group_string_axioms;

    let mut it = s.chars();
    let mut out: Vec<char> = Vec::new();
    let mut done = false;
    while !done
        invariant
            out@ + IteratorSpec::remaining(&it) == s@,
            done ==> IteratorSpec::remaining(&it).len() == 0,
        decreases s@.len() - out@.len() + (if done { 0int } else { 1int }),
    {
        let ghost before = IteratorSpec::remaining(&it);
        match it.next() {
            Some(c) => {
                out.push(c);
                assert(out@ + IteratorSpec::remaining(&it) =~= s@) by {
                    assert(before == seq![c] + before.drop_first());
                }
            },
            None => {
                done = true;
            },
        }
    }
    assert(out@ =~= s@);
    out
}

} // verus!
