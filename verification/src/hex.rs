use vstd::prelude::*;
use vstd::string::StringSliceAdditionalSpecFns;

use crate::text::{all_ascii, ascii_chars, ascii_string};

verus! {

/// The upper-case hexadecimal digit for a nibble.
pub open spec fn hex_digit_upper(n: int) -> u8 {
    if n < 10 {
        (48 + n) as u8
    } else {
        (55 + n) as u8
    }
}

/// Upper-case hexadecimal text of `bytes`: two digits per byte, high nibble first.
pub open spec fn spec_hex_upper(bytes: Seq<u8>) -> Seq<u8> {
    Seq::new(
        2 * bytes.len(),
        |i: int|
            if i % 2 == 0 {
                hex_digit_upper((bytes[i / 2] / 16) as int)
            } else {
                hex_digit_upper((bytes[i / 2] % 16) as int)
            },
    )
}

/// The value of a hexadecimal digit of either case, or `None`.
pub open spec fn hex_value(c: u8) -> Option<int> {
    if 48 <= c <= 57 {
        Some(c - 48)
    } else if 65 <= c <= 70 {
        Some(c - 55)
    } else if 97 <= c <= 102 {
        Some(c - 87)
    } else {
        None
    }
}

/// Why hexadecimal text could not be decoded.
#[derive(Debug, Clone, Copy, PartialEq, Eq, Structural)]
pub enum FromHexError {
    /// The byte at `index` is no hexadecimal digit.
    InvalidHexCharacter { c: char, index: usize },
    /// The text has an odd number of bytes.
    OddLength,
}

/// Index of the first byte at or after `i` that is no hexadecimal digit.
pub open spec fn first_invalid_hex(text: Seq<u8>, i: int) -> Option<int>
    decreases text.len() - i,
{
    if i >= text.len() {
        None
    } else if hex_value(text[i]) is None {
        Some(i)
    } else {
        first_invalid_hex(text, i + 1)
    }
}

/// Bytes denoted by hexadecimal text with an even number of valid digits.
pub open spec fn hex_bytes(text: Seq<u8>) -> Seq<u8> {
    Seq::new(
        text.len() / 2,
        |i: int| (hex_value(text[2 * i]).unwrap() * 16 + hex_value(text[2 * i + 1]).unwrap()) as u8,
    )
}

/// Decoding of hexadecimal text: odd length first, then the first invalid digit.
pub open spec fn spec_hex_decode(text: Seq<u8>) -> Result<Seq<u8>, FromHexError> {
    if text.len() % 2 != 0 {
        Err(FromHexError::OddLength)
    } else {
        match first_invalid_hex(text, 0) {
            Some(i) => Err(FromHexError::InvalidHexCharacter { c: text[i] as char, index: i as usize }),
            None => Ok(hex_bytes(text)),
        }
    }
}

fn hex_digit(n: u8) -> (c: u8)
    requires
        n < 16,
    ensures
        c == hex_digit_upper(n as int),
{
    if n < 10 {
        48 + n
    } else {
        55 + n
    }
}

/// Upper-case hexadecimal text of `bytes`, as bytes.
pub fn encode_upper_bytes(bytes: &[u8]) -> (res: Vec<u8>)
    requires
        bytes@.len() <= usize::MAX / 2,
    ensures
        res@ == spec_hex_upper(bytes@),
{
    let mut out: Vec<u8> = Vec::new();
    let mut i: usize = 0;
    while i < bytes.len()
        invariant
            i <= bytes@.len(),
            bytes@.len() <= usize::MAX / 2,
            out@.len() == 2 * i,
            forall|j: int| 0 <= j < 2 * i ==> #[trigger] out@[j] == spec_hex_upper(bytes@)[j],
        decreases bytes@.len() - i,
    {
        let b = bytes[i];
        out.push(hex_digit(b / 16));
        out.push(hex_digit(b % 16));
        i = i + 1;
    }
    assert(out@ =~= spec_hex_upper(bytes@));
    out
}

proof fn lemma_hex_upper_ascii(bytes: Seq<u8>)
    ensures
        all_ascii(spec_hex_upper(bytes)),
{
}

/// `hex::encode_upper`: upper-case hexadecimal text of `bytes`.
pub fn encode_upper(bytes: &[u8]) -> (res: String)
    requires
        bytes@.len() <= usize::MAX / 2,
    ensures
        res@ == ascii_chars(spec_hex_upper(bytes@)),
{
    let v = encode_upper_bytes(bytes);
    proof {
        lemma_hex_upper_ascii(bytes@);
    }
    ascii_string(v)
}

fn hex_val(c: u8) -> (res: Option<u8>)
    ensures
        match hex_value(c) {
            Some(v) => res == Some(v as u8),
            None => res is None,
        },
{
    if 48 <= c && c <= 57 {
        Some(c - 48)
    } else if 65 <= c && c <= 70 {
        Some(c - 55)
    } else if 97 <= c && c <= 102 {
        Some(c - 87)
    } else {
        None
    }
}

/// `hex::decode` on the bytes of `text`.
pub fn decode_bytes(text: &[u8]) -> (res: Result<Vec<u8>, FromHexError>)
    ensures
        match spec_hex_decode(text@) {
            Ok(v) => res matches Ok(r) && r@ == v,
            Err(e) => res == Err::<Vec<u8>, FromHexError>(e),
        },
{
    if text.len() % 2 != 0 {
        return Err(FromHexError::OddLength);
    }
    let mut out: Vec<u8> = Vec::new();
    let mut i: usize = 0;
    while i < text.len() / 2
        invariant
            i <= text@.len() / 2,
            text@.len() % 2 == 0,
            out@.len() == i,
            first_invalid_hex(text@, 0) == first_invalid_hex(text@, 2 * i),
            forall|j: int| 0 <= j < i ==> #[trigger] out@[j] == hex_bytes(text@)[j],
        decreases text@.len() / 2 - i,
    {
        let hi = hex_val(text[2 * i]);
        match hi {
            None => {
                return Err(FromHexError::InvalidHexCharacter { c: text[2 * i] as char, index: 2 * i });
            },
            Some(h) => {
                let lo = hex_val(text[2 * i + 1]);
                match lo {
                    None => {
                        assert(first_invalid_hex(text@, 2 * i as int) == first_invalid_hex(text@, 2 * i + 1));
                        return Err(FromHexError::InvalidHexCharacter { c: text[2 * i + 1] as char, index: 2 * i + 1 });
                    },
                    Some(l) => {
                        assert(first_invalid_hex(text@, 2 * i as int) == first_invalid_hex(text@, 2 * i + 2));
                        out.push(h * 16 + l);
                    },
                }
            },
        }
        i = i + 1;
    }
    assert(first_invalid_hex(text@, 2 * i as int) is None);
    assert(out@ =~= hex_bytes(text@));
    Ok(out)
}

/// `hex::decode` on `text`.
pub fn decode(text: &str) -> (res: Result<Vec<u8>, FromHexError>)
    ensures
        match spec_hex_decode(text.spec_bytes()) {
            Ok(v) => res matches Ok(r) && r@ == v,
            Err(e) => res == Err::<Vec<u8>, FromHexError>(e),
        },
{
    decode_bytes(text.as_bytes())
}

/// Decoding the upper-case hexadecimal text of any bytes gives back those bytes.
pub proof fn law_hex_roundtrip(bytes: Seq<u8>)
    ensures
        spec_hex_decode(spec_hex_upper(bytes)) == Ok::<Seq<u8>, FromHexError>(bytes),
{
    let text = spec_hex_upper(bytes);
    assert forall|k: int| 0 <= k <= text.len() implies first_invalid_hex(text, k) is None by {
        lemma_no_invalid(bytes, k);
    }
    assert(hex_bytes(text) =~= bytes) by {
        assert forall|i: int| 0 <= i < bytes.len() implies #[trigger] hex_bytes(text)[i] == bytes[i] by {
            assert(text[2 * i] == hex_digit_upper((bytes[i] / 16) as int));
            assert(text[2 * i + 1] == hex_digit_upper((bytes[i] % 16) as int));
        }
    }
}

proof fn lemma_no_invalid(bytes: Seq<u8>, k: int)
    requires
        0 <= k <= spec_hex_upper(bytes).len(),
    ensures
        first_invalid_hex(spec_hex_upper(bytes), k) is None,
    decreases spec_hex_upper(bytes).len() - k,
{
    if k < spec_hex_upper(bytes).len() {
        lemma_no_invalid(bytes, k + 1);
    }
}

/// The lower-case hexadecimal digit for a nibble.
pub open spec fn hex_digit_lower(n: int) -> u8 {
    if n < 10 {
        (48 + n) as u8
    } else {
        (87 + n) as u8
    }
}

/// Lower-case hexadecimal text of `bytes`: two digits per byte, high nibble first.
pub open spec fn spec_hex_lower(bytes: Seq<u8>) -> Seq<u8> {
    Seq::new(
        2 * bytes.len(),
        |i: int|
            if i % 2 == 0 {
                hex_digit_lower((bytes[i / 2] / 16) as int)
            } else {
                hex_digit_lower((bytes[i / 2] % 16) as int)
            },
    )
}

fn hex_digit_lower_of(n: u8) -> (res: u8)
    requires
        n < 16,
    ensures
        res == hex_digit_lower(n as int),
{
    if n < 10 {
        48 + n
    } else {
        87 + n
    }
}

/// Appends the lower-case hexadecimal text of `bytes[start..end]`.
pub fn push_hex_lower(out: &mut Vec<u8>, bytes: &[u8], start: usize, end: usize)
    requires
        start <= end <= bytes@.len(),
    ensures
        final(out)@ == old(out)@ + spec_hex_lower(bytes@.subrange(start as int, end as int)),
{
    let ghost base = out@;
    let ghost piece = bytes@.subrange(start as int, end as int);
    let mut i = start;
    while i < end
        invariant
            start <= i <= end <= bytes@.len(),
            piece == bytes@.subrange(start as int, end as int),
            out@.len() == base.len() + 2 * (i - start),
            forall|j: int| 0 <= j < base.len() ==> #[trigger] out@[j] == base[j],
            forall|j: int| 0 <= j < 2 * (i - start) ==> #[trigger] out@[base.len() + j] == spec_hex_lower(piece)[j],
        decreases end - i,
    {
        let b = bytes[i];
        assert(piece[i - start] == b);
        out.push(hex_digit_lower_of(b / 16));
        out.push(hex_digit_lower_of(b % 16));
        i = i + 1;
    }
    assert(piece.len() == end - start);
    assert forall|j: int| 0 <= j < out@.len() implies #[trigger] out@[j] == (base + spec_hex_lower(piece))[j] by {
        if j >= base.len() {
            let k = j - base.len();
            assert(out@[base.len() + k] == spec_hex_lower(piece)[k]);
        }
    }
    assert(out@ =~= base + spec_hex_lower(piece));
}

/// Lower-case hexadecimal text is ASCII.
pub proof fn lemma_hex_lower_ascii(bytes: Seq<u8>)
    ensures
        all_ascii(spec_hex_lower(bytes)),
{
}

} // verus!
