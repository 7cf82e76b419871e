//! The framing codec: every message on the control channel is a 2-byte
//! big-endian length prefix followed by exactly that many payload bytes.

use vstd::prelude::*;

use crate::errors::FrameError;
use crate::wire::{be16_bytes, be16_val, lemma_be16_round_trip};

verus! {

/// The largest payload the 16-bit length prefix can describe.
pub const MAX_FRAME_PAYLOAD: usize = 65535;

/// One frame: the length prefix, then the payload.
pub open spec fn spec_write_frame(p: Seq<u8>) -> Seq<u8>
    recommends
        p.len() <= MAX_FRAME_PAYLOAD,
{
    be16_bytes(p.len() as u16) + p
}

/// Reads one frame off the front of a stream: the payload and how many
/// bytes of the stream it occupied. `None` means the stream ended first.
pub open spec fn spec_read_frame(s: Seq<u8>) -> Option<(Seq<u8>, int)> {
    if s.len() >= 2 {
        let n = be16_val(s.take(2)) as int;
        if s.len() >= 2 + n {
            Some((s.subrange(2, 2 + n), 2 + n))
        } else {
            None
        }
    } else {
        None
    }
}

/// Frames a payload for the wire. A payload that does not fit behind the
/// 16-bit prefix is refused outright: nothing is produced, nothing may be
/// written, so nothing is silently truncated.
pub fn write_frame(payload: &Vec<u8>) -> (r: Result<Vec<u8>, FrameError>)
    ensures
        payload@.len() <= MAX_FRAME_PAYLOAD ==> (r matches Ok(f) && f@ == spec_write_frame(
            payload@,
        )),
        payload@.len() > MAX_FRAME_PAYLOAD ==> r == Err::<Vec<u8>, FrameError>(
            FrameError::PayloadTooLarge,
        ),
{
    let n = payload.len();
    if n > MAX_FRAME_PAYLOAD {
        return Err(FrameError::PayloadTooLarge);
    }
    let len16: u16 = n as u16;
    let mut out: Vec<u8> = Vec::new();
    out.push((len16 / 256) as u8);
    out.push((len16 % 256) as u8);
    let ghost prefix = out@;
    assert(prefix =~= be16_bytes(len16));
    let mut k: usize = 0;
    while k < n
        invariant
            n == payload@.len(),
            k <= n,
            out@ == prefix + payload@.take(k as int),
        decreases n - k,
    {
        out.push(payload[k]);
        assert(out@ =~= prefix + payload@.take(k as int + 1));
        k += 1;
    }
    assert(payload@.take(n as int) =~= payload@);
    Ok(out)
}

/// One frame read off the front of a byte stream.
#[derive(Debug)]
pub struct FrameRead {
    /// The payload of the frame.
    pub payload: Vec<u8>,
    /// How many bytes of the stream the frame occupied (prefix included).
    pub consumed: usize,
}

/// Reads one frame from the front of the buffered stream `data`. Bytes
/// beyond the first frame are left for the next read. If the stream ends
/// before one whole frame arrived, that is a closed connection.
pub fn read_frame(data: &Vec<u8>) -> (r: Result<FrameRead, FrameError>)
    ensures
        match r {
            Ok(f) => spec_read_frame(data@) == Some((f.payload@, f.consumed as int)),
            Err(e) => e == FrameError::ConnectionClosed && spec_read_frame(data@) is None,
        },
{
    if data.len() < 2 {
        return Err(FrameError::ConnectionClosed);
    }
    let hi = data[0];
    let lo = data[1];
    let n: usize = (hi as usize) * 256 + (lo as usize);
    proof {
        assert(data@.take(2)[0] == data@[0]);
        assert(data@.take(2)[1] == data@[1]);
        assert(be16_val(data@.take(2)) == n);
    }
    if data.len() - 2 < n {
        return Err(FrameError::ConnectionClosed);
    }
    let payload = crate::wire::copy_range(data, 2, n);
    Ok(FrameRead { payload, consumed: 2 + n })
}

/// Round trip: any payload that fits behind the prefix is read back
/// byte-for-byte from its own frame, whatever follows the frame on the
/// stream, and the read consumes exactly the frame.
pub proof fn lemma_frame_round_trip(p: Seq<u8>, rest: Seq<u8>)
    requires
        p.len() <= MAX_FRAME_PAYLOAD,
    ensures
        spec_read_frame(spec_write_frame(p) + rest) == Some((p, 2 + p.len() as int)),
{
    let s = spec_write_frame(p) + rest;
    lemma_be16_round_trip(p.len() as u16);
    assert(s.take(2) =~= be16_bytes(p.len() as u16));
    assert(s.subrange(2, 2 + p.len() as int) =~= p);
}

} // verus!
