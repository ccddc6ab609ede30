//! Message framing on the wire: one flag byte, the payload's length as four
//! bytes, most significant first, then the payload.

use vstd::prelude::*;

verus! {

/// The number of bytes in front of the payload.
pub const HEADER_LEN: usize = 5;

/// The four bytes of a payload length, most significant first.
pub open spec fn length_prefix(n: nat) -> Seq<u8> {
    seq![
        ((n / 16777216) % 256) as u8,
        ((n / 65536) % 256) as u8,
        ((n / 256) % 256) as u8,
        (n % 256) as u8,
    ]
}

/// The frame of an uncompressed payload.
pub open spec fn framed(payload: Seq<u8>) -> Seq<u8> {
    seq![0u8] + length_prefix(payload.len()) + payload
}

/// The payload length that the header of a frame announces.
pub open spec fn announced_len(bytes: Seq<u8>) -> nat
    recommends
        bytes.len() >= 5,
{
    (bytes[1] as nat) * 16777216 + (bytes[2] as nat) * 65536 + (bytes[3] as nat) * 256 + (
    bytes[4] as nat)
}

/// Whether the bytes are exactly one frame of an uncompressed message: a
/// zero flag, and a length that is the number of bytes that follow.
pub open spec fn well_framed(bytes: Seq<u8>) -> bool {
    bytes.len() >= 5 && bytes[0] == 0 && announced_len(bytes) == bytes.len() - 5
}

/// Frames a payload. `None` where its length does not fit the four bytes.
pub fn frame_message(payload: &Vec<u8>) -> (r: Option<Vec<u8>>)
    ensures
        r.is_some() <==> payload@.len() <= u32::MAX,
        r.is_some() ==> r.unwrap()@ == framed(payload@),
{
    let n: usize = payload.len();
    if n > 4294967295 {
        return None;
    }
    let mut out: Vec<u8> = Vec::new();
    out.push(0u8);
    out.push(((n / 16777216) % 256) as u8);
    out.push(((n / 65536) % 256) as u8);
    out.push(((n / 256) % 256) as u8);
    out.push((n % 256) as u8);
    let mut i: usize = 0;
    while i < n
        invariant
            0 <= i <= n,
            n == payload@.len(),
            out@ == seq![0u8] + length_prefix(n as nat) + payload@.take(i as int),
        decreases n - i,
    {
        out.push(payload[i]);
        proof {
            assert(payload@.take(i + 1) =~= payload@.take(i as int).push(payload@[i as int]));
            assert(out@ =~= seq![0u8] + length_prefix(n as nat) + payload@.take(i + 1));
        }
        i = i + 1;
    }
    proof {
        assert(payload@.take(n as int) =~= payload@);
    }
    Some(out)
}

/// Takes the payload out of a frame. `None` for bytes that are not exactly
/// one frame of an uncompressed message.
pub fn unframe_message(bytes: &Vec<u8>) -> (r: Option<Vec<u8>>)
    ensures
        r.is_some() <==> well_framed(bytes@),
        r.is_some() ==> r.unwrap()@ == bytes@.subrange(5, bytes@.len() as int),
{
    let total: usize = bytes.len();
    if total < 5 {
        return None;
    }
    if bytes[0] != 0 {
        return None;
    }
    let announced: u64 = (bytes[1] as u64) * 16777216 + (bytes[2] as u64) * 65536 + (
    bytes[3] as u64) * 256 + (bytes[4] as u64);
    if announced != (total - 5) as u64 {
        return None;
    }
    let mut out: Vec<u8> = Vec::new();
    let mut i: usize = 5;
    while i < total
        invariant
            5 <= i <= total,
            total == bytes@.len(),
            out@ == bytes@.subrange(5, i as int),
        decreases total - i,
    {
        out.push(bytes[i]);
        proof {
            assert(out@ =~= bytes@.subrange(5, i + 1));
        }
        i = i + 1;
    }
    Some(out)
}

/// A frame is well formed and holds its payload: taking the payload out of
/// the frame of a message gives the message back.
pub proof fn lemma_frame_round_trip(payload: Seq<u8>)
    requires
        payload.len() <= u32::MAX,
    ensures
        well_framed(framed(payload)),
        framed(payload).subrange(5, framed(payload).len() as int) == payload,
{
    let n = payload.len();
    let f = framed(payload);
    assert(f.len() == n + 5);
    assert(f[0] == 0u8);
    assert(f[1] == ((n / 16777216) % 256) as u8);
    assert(f[2] == ((n / 65536) % 256) as u8);
    assert(f[3] == ((n / 256) % 256) as u8);
    assert(f[4] == (n % 256) as u8);
    assert(n / 16777216 < 256);
    assert(f.subrange(5, f.len() as int) =~= payload);
}

} // verus!
