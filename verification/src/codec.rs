//! Frame codec: the length-prefixed wire format.
//!
//! A wire message is a 4-byte big-endian length followed by that many
//! payload bytes. A declared length above `MAX_FRAME_SIZE` is a protocol
//! violation; the codec never accepts such a message.

use vstd::prelude::*;

verus! {

/// Largest frame, in bytes, that the bridge relays.
pub const MAX_FRAME_SIZE: usize = 4096;

/// The value of a 4-byte big-endian header.
pub open spec fn be32_val(b0: u8, b1: u8, b2: u8, b3: u8) -> u32 {
    ((b0 as u32) << 24) | ((b1 as u32) << 16) | ((b2 as u32) << 8) | (b3 as u32)
}

/// The value declared by the first four bytes of `h`.
pub open spec fn header_value(h: Seq<u8>) -> u32
    recommends
        h.len() == 4,
{
    be32_val(h[0], h[1], h[2], h[3])
}

/// The 4-byte big-endian encoding of `n`.
pub open spec fn be32_bytes(n: u32) -> Seq<u8> {
    seq![
        ((n >> 24) & 0xff) as u8,
        ((n >> 16) & 0xff) as u8,
        ((n >> 8) & 0xff) as u8,
        (n & 0xff) as u8,
    ]
}

/// The wire message that carries `frame`: big-endian length, then the payload.
pub open spec fn wire_message(frame: Seq<u8>) -> Seq<u8>
    recommends
        frame.len() <= u32::MAX,
{
    be32_bytes(frame.len() as u32) + frame
}

/// Reading a big-endian header back from the bytes of `n` yields `n`.
pub proof fn lemma_be32_round_trip(n: u32)
    ensures
        header_value(be32_bytes(n)) == n,
{
    let s = be32_bytes(n);
    assert(s[0] == ((n >> 24) & 0xff) as u8);
    assert(s[1] == ((n >> 16) & 0xff) as u8);
    assert(s[2] == ((n >> 8) & 0xff) as u8);
    assert(s[3] == (n & 0xff) as u8);
    assert(((((n >> 24) & 0xff) as u8 as u32) << 24) | ((((n >> 16) & 0xff) as u8 as u32)
        << 16) | ((((n >> 8) & 0xff) as u8 as u32) << 8) | ((n & 0xff) as u8 as u32) == n)
        by (bit_vector);
}

/// Interprets four bytes as a big-endian unsigned 32-bit length.
pub fn decode_header(h: &[u8]) -> (n: u32)
    requires
        h@.len() == 4,
    ensures
        n == header_value(h@),
{
    ((h[0] as u32) << 24) | ((h[1] as u32) << 16) | ((h[2] as u32) << 8) | (h[3] as u32)
}

/// Prepends the 4-byte big-endian length of `frame` to `frame`.
pub fn encode(frame: &Vec<u8>) -> (w: Vec<u8>)
    requires
        frame@.len() <= u32::MAX,
    ensures
        w@ == wire_message(frame@),
{
    let n = frame.len() as u32;
    let mut w: Vec<u8> = Vec::new();
    w.push(((n >> 24) & 0xff) as u8);
    w.push(((n >> 16) & 0xff) as u8);
    w.push(((n >> 8) & 0xff) as u8);
    w.push((n & 0xff) as u8);
    assert(w@ =~= be32_bytes(n));
    let mut i: usize = 0;
    while i < frame.len()
        invariant
            i <= frame@.len(),
            frame@.len() <= u32::MAX,
            n == frame@.len() as u32,
            w@ == be32_bytes(n) + frame@.take(i as int),
        decreases frame@.len() - i,
    {
        w.push(frame[i]);
        assert(frame@.take(i + 1) =~= frame@.take(i as int).push(frame@[i as int]));
        i += 1;
    }
    assert(frame@.take(frame@.len() as int) =~= frame@);
    w
}

/// What decoding a whole wire message yields: the payload, if the message
/// is well-formed (header present, declared length within bounds, and the
/// payload exactly as long as declared).
pub open spec fn decode_spec(w: Seq<u8>) -> Option<Seq<u8>> {
    if w.len() < 4 {
        None
    } else {
        let n = header_value(w.take(4));
        if n > MAX_FRAME_SIZE || w.len() != n + 4 {
            None
        } else {
            Some(w.skip(4))
        }
    }
}

/// Decodes one whole wire message; `None` when the bytes are not a single
/// well-formed message.
pub fn decode(w: &Vec<u8>) -> (r: Option<Vec<u8>>)
    ensures
        match r {
            Some(frame) => decode_spec(w@) == Some(frame@),
            None => decode_spec(w@) is None,
        },
{
    if w.len() < 4 {
        return None;
    }
    let n = decode_header(&w.as_slice()[0..4]);
    proof {
        assert(w@.subrange(0, 4) =~= w@.take(4));
    }
    if n as usize > MAX_FRAME_SIZE || w.len() - 4 != n as usize {
        return None;
    }
    let mut frame: Vec<u8> = Vec::new();
    let mut i: usize = 4;
    while i < w.len()
        invariant
            4 <= i <= w@.len(),
            frame@ == w@.subrange(4, i as int),
        decreases w@.len() - i,
    {
        frame.push(w[i]);
        assert(w@.subrange(4, i + 1) =~= w@.subrange(4, i as int).push(w@[i as int]));
        i += 1;
    }
    proof {
        assert(w@.subrange(4, w@.len() as int) =~= w@.skip(4));
    }
    Some(frame)
}

/// Round trip: a frame within `MAX_FRAME_SIZE` decodes back from its own
/// wire message, byte for byte.
pub proof fn lemma_encode_decode_round_trip(frame: Seq<u8>)
    requires
        frame.len() <= MAX_FRAME_SIZE,
    ensures
        decode_spec(wire_message(frame)) == Some(frame),
{
    let w = wire_message(frame);
    assert(w.take(4) =~= be32_bytes(frame.len() as u32));
    lemma_be32_round_trip(frame.len() as u32);
    assert(w.skip(4) =~= frame);
}

} // verus!
