//! Length-delimited framing: a four-byte big-endian length, then that many
//! bytes of payload.
use vstd::prelude::*;
use crate::error::{IoErrorKind, TransportError, TransportErrorView};

verus! {

/// Width of the length field.
pub const LENGTH_FIELD_LEN: usize = 4;

/// Largest payload that is framed or accepted unless configured otherwise.
pub const DEFAULT_MAX_FRAME_LENGTH: u32 = 8388608;

/// The length field for a payload of `n` bytes.
pub open spec fn length_prefix(n: nat) -> Seq<u8> {
    seq![
        (n / 16777216 % 256) as u8,
        (n / 65536 % 256) as u8,
        (n / 256 % 256) as u8,
        (n % 256) as u8,
    ]
}

/// The length that the first four bytes of `header` declare.
pub open spec fn declared_length(header: Seq<u8>) -> nat
    recommends
        header.len() >= 4,
{
    (header[0] as nat) * 16777216 + (header[1] as nat) * 65536 + (header[2] as nat) * 256
        + (header[3] as nat)
}

/// The wire form of one message.
pub open spec fn frame(payload: Seq<u8>) -> Seq<u8> {
    length_prefix(payload.len()) + payload
}

/// The error for a payload or a declared length above the maximum.
pub open spec fn frame_too_big() -> TransportErrorView {
    TransportErrorView::Io { kind: IoErrorKind::Other, description: "frame size too big"@ }
}

/// The error for a stream that ended inside a frame.
pub open spec fn stream_ended_early() -> TransportErrorView {
    TransportErrorView::Io { kind: IoErrorKind::Other, description: "bytes remaining on stream"@ }
}

/// What a buffer of received bytes starts with.
pub enum Decoded {
    /// Not yet a whole frame.
    Incomplete,
    /// A length field that declares more than the maximum.
    TooBig,
    /// A whole frame.
    Frame { payload: Seq<u8>, consumed: nat },
}

/// Reads one frame from the front of `bytes`.
pub open spec fn decode(bytes: Seq<u8>, max_frame_length: nat) -> Decoded {
    if bytes.len() < 4 {
        Decoded::Incomplete
    } else if declared_length(bytes) > max_frame_length {
        Decoded::TooBig
    } else if bytes.len() < 4 + declared_length(bytes) {
        Decoded::Incomplete
    } else {
        Decoded::Frame {
            payload: bytes.subrange(4, 4 + declared_length(bytes) as int),
            consumed: 4 + declared_length(bytes),
        }
    }
}

/// A length below 2^32 is read back from its length field.
pub proof fn length_prefix_round_trip(n: nat)
    requires
        n <= u32::MAX,
    ensures
        length_prefix(n).len() == 4,
        declared_length(length_prefix(n)) == n,
{
}

/// A frame followed by any bytes decodes to its payload, and the decoder
/// consumes the frame and nothing of what follows.
pub proof fn frame_round_trip(payload: Seq<u8>, rest: Seq<u8>, max_frame_length: nat)
    requires
        payload.len() <= max_frame_length <= u32::MAX,
    ensures
        decode(frame(payload) + rest, max_frame_length) == (Decoded::Frame {
            payload,
            consumed: 4 + payload.len(),
        }),
{
    let bytes = frame(payload) + rest;
    length_prefix_round_trip(payload.len());
    assert(bytes[0] == length_prefix(payload.len())[0]);
    assert(bytes[1] == length_prefix(payload.len())[1]);
    assert(bytes[2] == length_prefix(payload.len())[2]);
    assert(bytes[3] == length_prefix(payload.len())[3]);
    assert(declared_length(bytes) == payload.len());
    assert(bytes.subrange(4, 4 + payload.len() as int) =~= payload);
}

/// A length field and then a payload of the length that it declares, read
/// one after the other, are together one whole frame.
pub proof fn two_reads_make_one_frame(header: Seq<u8>, payload: Seq<u8>, max_frame_length: nat)
    requires
        header.len() == 4,
        declared_length(header) == payload.len(),
        payload.len() <= max_frame_length,
    ensures
        decode(header + payload, max_frame_length) == (Decoded::Frame {
            payload,
            consumed: 4 + payload.len(),
        }),
{
    let bytes = header + payload;
    assert(bytes[0] == header[0] && bytes[1] == header[1] && bytes[2] == header[2] && bytes[3]
        == header[3]);
    assert(bytes.subrange(4, 4 + payload.len() as int) =~= payload);
}

/// A length field above the maximum is refused whatever follows it.
pub proof fn oversized_frame_is_refused(bytes: Seq<u8>, max_frame_length: nat)
    requires
        bytes.len() >= 4,
        declared_length(bytes) > max_frame_length,
    ensures
        decode(bytes, max_frame_length) == Decoded::TooBig,
{
}

/// The error returned for a payload or a declared length above the maximum.
pub fn frame_too_big_error() -> (e: TransportError)
    ensures
        e@ == frame_too_big(),
{
    TransportError::Io { kind: IoErrorKind::Other, description: "frame size too big".to_owned() }
}

/// The error returned when a stream ends inside a frame.
pub fn stream_ended_early_error() -> (e: TransportError)
    ensures
        e@ == stream_ended_early(),
{
    TransportError::Io {
        kind: IoErrorKind::Other,
        description: "bytes remaining on stream".to_owned(),
    }
}

/// Copies `src[from..to]` to the end of `dst`.
fn push_range(dst: &mut Vec<u8>, src: &Vec<u8>, from: usize, to: usize)
    requires
        from <= to <= src.len(),
    ensures
        final(dst)@ == old(dst)@ + src@.subrange(from as int, to as int),
{
    let mut i: usize = from;
    while i < to
        invariant
            from <= i <= to <= src.len(),
            dst@ == old(dst)@ + src@.subrange(from as int, i as int),
        decreases to - i,
    {
        dst.push(src[i]);
        i += 1;
        assert(src@.subrange(from as int, i as int) =~= src@.subrange(from as int, i - 1).push(
            src@[i - 1],
        ));
        assert(dst@ =~= old(dst)@ + src@.subrange(from as int, i as int));
    }
    assert(src@.subrange(from as int, from as int) =~= Seq::<u8>::empty());
}

/// Frames a payload: fails with `Io` when it is longer than the maximum,
/// else gives the length field followed by the payload.
pub fn encode_frame(payload: &Vec<u8>, max_frame_length: u32) -> (r: Result<
    Vec<u8>,
    TransportError,
>)
    ensures
        payload.len() <= max_frame_length ==> r is Ok && r->Ok_0@ == frame(payload@),
        payload.len() > max_frame_length ==> r is Err && r->Err_0@ == frame_too_big(),
{
    let n: usize = payload.len();
    if n > max_frame_length as usize {
        return Err(frame_too_big_error());
    }
    let mut out: Vec<u8> = Vec::new();
    out.push((n / 16777216 % 256) as u8);
    out.push((n / 65536 % 256) as u8);
    out.push((n / 256 % 256) as u8);
    out.push((n % 256) as u8);
    assert(out@ =~= length_prefix(n as nat));
    push_range(&mut out, payload, 0, n);
    assert(payload@.subrange(0, n as int) =~= payload@);
    Ok(out)
}

/// Reads the length field at the front of `header`: fails with `Io` when
/// fewer than four bytes are there or when the declared length is above the
/// maximum, else gives the declared length.
pub fn decode_length(header: &Vec<u8>, max_frame_length: u32) -> (r: Result<u32, TransportError>)
    ensures
        header.len() < 4 ==> r is Err && r->Err_0@ == stream_ended_early(),
        header.len() >= 4 && declared_length(header@) > max_frame_length ==> r is Err
            && r->Err_0@ == frame_too_big(),
        header.len() >= 4 && declared_length(header@) <= max_frame_length ==> r is Ok
            && r->Ok_0 == declared_length(header@),
{
    if header.len() < 4 {
        return Err(stream_ended_early_error());
    }
    let n: u64 = (header[0] as u64) * 16777216 + (header[1] as u64) * 65536 + (header[2] as u64)
        * 256 + (header[3] as u64);
    if n > max_frame_length as u64 {
        return Err(frame_too_big_error());
    }
    Ok(n as u32)
}

/// Reads one frame from the front of a buffer. `Ok(None)` asks for more
/// bytes; `Ok(Some((payload, consumed)))` is a whole frame and the number of
/// bytes of the buffer that it took; an error is a length field above the
/// maximum, found before any payload is looked at.
pub fn decode_frame(bytes: &Vec<u8>, max_frame_length: u32) -> (r: Result<
    Option<(Vec<u8>, usize)>,
    TransportError,
>)
    ensures
        match decode(bytes@, max_frame_length as nat) {
            Decoded::Incomplete => r is Ok && r->Ok_0 is None,
            Decoded::TooBig => r is Err && r->Err_0@ == frame_too_big(),
            Decoded::Frame { payload, consumed } => match r {
                Ok(Some(found)) => found.0@ == payload && found.1 == consumed,
                _ => false,
            },
        },
{
    if bytes.len() < 4 {
        return Ok(None);
    }
    match decode_length(bytes, max_frame_length) {
        Err(e) => Err(e),
        Ok(n) => {
            let n: usize = n as usize;
            if bytes.len() - 4 < n {
                return Ok(None);
            }
            let mut payload: Vec<u8> = Vec::new();
            push_range(&mut payload, bytes, 4, 4 + n);
            assert(payload@ =~= bytes@.subrange(4, 4 + n as int));
            Ok(Some((payload, 4 + n)))
        },
    }
}

} // verus!
