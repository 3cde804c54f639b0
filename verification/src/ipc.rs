//! The frames that carry messages between the web server and the streamer over a pipe: a
//! four-byte big-endian length, then that many bytes of message.
use vstd::prelude::*;

use crate::text::copy_range;

verus! {

/// The four bytes of `n`, most significant first.
pub open spec fn u32_be_bytes(n: u32) -> Seq<u8> {
    seq![(n / 0x1000000) as u8, ((n / 0x10000) % 0x100) as u8, ((n / 0x100) % 0x100) as u8, (n % 0x100) as u8]
}

/// The frame of a message.
pub open spec fn spec_frame(payload: Seq<u8>) -> Seq<u8> {
    u32_be_bytes(payload.len() as u32) + payload
}

/// The number that four bytes spell, most significant first.
pub open spec fn be_u32(b: Seq<u8>) -> int {
    b[0] * 0x1000000 + b[1] * 0x10000 + b[2] * 0x100 + b[3]
}

/// What the front of a stream of bytes holds: the first message and how many bytes its frame
/// takes, or `None` while the frame is not complete.
pub open spec fn spec_read_frame(bytes: Seq<u8>) -> Option<(Seq<u8>, int)> {
    if bytes.len() < 4 || bytes.len() < 4 + be_u32(bytes) {
        None
    } else {
        Some((bytes.subrange(4, 4 + be_u32(bytes)), 4 + be_u32(bytes)))
    }
}

/// Frames a message.
pub fn frame_message(payload: &[u8]) -> (res: Vec<u8>)
    requires
        payload@.len() <= u32::MAX,
    ensures
        res@ == spec_frame(payload@),
{
    let n = payload.len() as u32;
    let mut out: Vec<u8> = Vec::new();
    out.push((n / 0x1000000) as u8);
    out.push(((n / 0x10000) % 0x100) as u8);
    out.push(((n / 0x100) % 0x100) as u8);
    out.push((n % 0x100) as u8);
    let mut i: usize = 0;
    while i < payload.len()
        invariant
            i <= payload@.len(),
            out@ == u32_be_bytes(n) + payload@.take(i as int),
        decreases payload@.len() - i,
    {
        out.push(payload[i]);
        i = i + 1;
        assert(out@ =~= u32_be_bytes(n) + payload@.take(i as int));
    }
    assert(payload@.take(i as int) =~= payload@);
    out
}

/// Reads the first message off the front of `bytes`, with the length of its frame.
pub fn read_frame(bytes: &[u8]) -> (res: Option<(Vec<u8>, usize)>)
    ensures
        match spec_read_frame(bytes@) {
            None => res is None,
            Some((payload, used)) => res matches Some((p, u)) && p@ == payload && u == used,
        },
{
    if bytes.len() < 4 {
        return None;
    }
    let n: u64 = (bytes[0] as u64) * 0x1000000 + (bytes[1] as u64) * 0x10000 + (bytes[2] as u64) * 0x100
        + (bytes[3] as u64);
    if (bytes.len() as u64) < 4 + n {
        return None;
    }
    let end = 4 + n as usize;
    Some((copy_range(bytes, 4, end), end))
}

/// The four bytes of a number, most significant first, read back give the number.
proof fn lemma_be_round_trip(n: u32)
    ensures
        be_u32(u32_be_bytes(n)) == n,
{
    assert(be_u32(u32_be_bytes(n)) == n) by (nonlinear_arith);
}

/// A frame read back from the front of a stream gives the message it framed, and says how
/// much of the stream it took, whatever follows it.
pub proof fn law_frame_round_trip(payload: Seq<u8>, rest: Seq<u8>)
    requires
        payload.len() <= u32::MAX,
    ensures
        spec_read_frame(spec_frame(payload) + rest) == Some((payload, 4 + payload.len() as int)),
{
    let n = payload.len() as u32;
    lemma_be_round_trip(n);
    let bytes = spec_frame(payload) + rest;
    assert(bytes.subrange(0, 4) =~= u32_be_bytes(n));
    assert(be_u32(bytes) == be_u32(u32_be_bytes(n)));
    assert(bytes.subrange(4, 4 + payload.len() as int) =~= payload);
}

} // verus!
