//! The wire codec: a frame is a 4-byte little-endian payload length
//! followed by exactly that many payload bytes.
//!
//! Decoding is modelled over the full byte sequence a stream delivers
//! before it closes: end-of-stream while the length prefix is still
//! incomplete is a clean disconnect, a declared length over the maximum
//! is a data error rejected before any body is read, and end-of-stream
//! inside a body is a framing error.

use vstd::prelude::*;

verus! {

use vstd::bytes::lemma_auto_spec_u32_to_from_le_bytes;
use vstd::bytes::spec_u32_from_le_bytes;
use vstd::bytes::spec_u32_to_le_bytes;
use vstd::bytes::u32_from_le_bytes;
use vstd::bytes::u32_to_le_bytes;

/// Largest payload a frame may carry, in bytes (10 MiB), shared by the
/// encode and the decode path.
pub const MAX_FRAME_LEN: usize = 10 * 1024 * 1024;

/// The errors of the codec.
#[derive(Clone, Copy, Debug, PartialEq, Eq, Structural)]
pub enum CodecError {
    /// A payload handed to the encoder exceeds `MAX_FRAME_LEN`
    /// (an invalid-input error; nothing is written).
    OversizedPayload,
    /// A decoded length prefix declares more than `MAX_FRAME_LEN`
    /// (an invalid-data error; no body read is attempted).
    OversizedLength,
    /// The stream ended inside a frame body: the peer closed mid-frame.
    TruncatedBody,
}

/// What decoding one frame from a closed-off stream yields.
#[derive(Debug)]
pub enum DecodeResult {
    /// A whole frame; `next` is the offset just past it.
    Frame { payload: Vec<u8>, next: usize },
    /// The stream ended at a frame boundary: a clean disconnect.
    EndOfStream,
    /// A framing error.
    Fail { err: CodecError },
}

/// The mathematical outcome of decoding one frame from the remaining
/// stream contents.
pub enum FrameDecode {
    Eof,
    TooLong { declared: int },
    Truncated { declared: int },
    Frame { payload: Seq<u8>, consumed: int },
}

/// The encoding of a payload: its length as 4 little-endian bytes,
/// then the payload itself.
pub open spec fn encode_spec(payload: Seq<u8>) -> Seq<u8>
    recommends
        payload.len() <= MAX_FRAME_LEN,
{
    spec_u32_to_le_bytes(payload.len() as u32) + payload
}

/// Decoding one frame from `rem`, the bytes the stream still holds
/// before closing.
pub open spec fn decode_spec(rem: Seq<u8>) -> FrameDecode {
    if rem.len() < 4 {
        FrameDecode::Eof
    } else {
        let declared = spec_u32_from_le_bytes(rem.subrange(0, 4)) as int;
        if declared > MAX_FRAME_LEN as int {
            FrameDecode::TooLong { declared }
        } else if rem.len() < 4 + declared {
            FrameDecode::Truncated { declared }
        } else {
            FrameDecode::Frame { payload: rem.subrange(4, 4 + declared), consumed: 4 + declared }
        }
    }
}

/// Reads the declared body length out of a 4-byte prefix, rejecting a
/// length over `MAX_FRAME_LEN` before any body is read.
pub fn frame_len_from_prefix(b0: u8, b1: u8, b2: u8, b3: u8) -> (r: Result<u32, CodecError>)
    ensures
        ({
            let declared = spec_u32_from_le_bytes(seq![b0, b1, b2, b3]);
            if declared as int <= MAX_FRAME_LEN as int {
                r == Ok::<u32, CodecError>(declared)
            } else {
                r == Err::<u32, CodecError>(CodecError::OversizedLength)
            }
        }),
{
    let mut prefix: Vec<u8> = Vec::new();
    prefix.push(b0);
    prefix.push(b1);
    prefix.push(b2);
    prefix.push(b3);
    proof {
        assert(prefix@ =~= seq![b0, b1, b2, b3]);
    }
    let declared = u32_from_le_bytes(prefix.as_slice());
    if declared as usize <= MAX_FRAME_LEN {
        Ok(declared)
    } else {
        Err(CodecError::OversizedLength)
    }
}

/// Encodes one frame: rejects an oversized payload without producing
/// any bytes, otherwise returns the length prefix followed by the
/// payload, ready to be written and flushed as one unit.
pub fn encode_frame(payload: &Vec<u8>) -> (r: Result<Vec<u8>, CodecError>)
    ensures
        payload@.len() <= MAX_FRAME_LEN ==> (r matches Ok(buf) && buf@ == encode_spec(payload@)),
        payload@.len() > MAX_FRAME_LEN ==> r == Err::<Vec<u8>, CodecError>(
            CodecError::OversizedPayload,
        ),
{
    if payload.len() > MAX_FRAME_LEN {
        return Err(CodecError::OversizedPayload);
    }
    let mut out = u32_to_le_bytes(payload.len() as u32);
    let prefix_ghost = Ghost(out@);
    let mut i: usize = 0;
    while i < payload.len()
        invariant
            i <= payload@.len(),
            payload@.len() <= MAX_FRAME_LEN,
            prefix_ghost@ == spec_u32_to_le_bytes(payload@.len() as u32),
            out@ == prefix_ghost@ + payload@.subrange(0, i as int),
        decreases payload@.len() - i,
    {
        out.push(payload[i]);
        proof {
            assert(out@ =~= prefix_ghost@ + payload@.subrange(0, i + 1 as int));
        }
        i = i + 1;
    }
    proof {
        assert(payload@.subrange(0, payload@.len() as int) =~= payload@);
    }
    Ok(out)
}

/// Decodes one frame out of `stream` starting at `start`, where
/// `stream` holds everything the transport delivered before closing.
pub fn decode_frame(stream: &Vec<u8>, start: usize) -> (r: DecodeResult)
    requires
        start <= stream@.len(),
    ensures
        ({
            let d = decode_spec(stream@.skip(start as int));
            match d {
                FrameDecode::Eof => r is EndOfStream,
                FrameDecode::TooLong { declared } => r matches DecodeResult::Fail { err }
                    && err == CodecError::OversizedLength,
                FrameDecode::Truncated { declared } => r matches DecodeResult::Fail { err }
                    && err == CodecError::TruncatedBody,
                FrameDecode::Frame { payload, consumed } => r matches DecodeResult::Frame {
                    payload: p,
                    next,
                } && p@ == payload && next == start + consumed,
            }
        }),
{
    let ghost rem = stream@.skip(start as int);
    if stream.len() - start < 4 {
        return DecodeResult::EndOfStream;
    }
    let b0 = stream[start];
    let b1 = stream[start + 1];
    let b2 = stream[start + 2];
    let b3 = stream[start + 3];
    proof {
        assert(rem.subrange(0, 4) =~= seq![b0, b1, b2, b3]);
    }
    let declared = match frame_len_from_prefix(b0, b1, b2, b3) {
        Ok(declared) => declared,
        Err(err) => {
            return DecodeResult::Fail { err };
        },
    };
    let body_len = declared as usize;
    if stream.len() - (start + 4) < body_len {
        return DecodeResult::Fail { err: CodecError::TruncatedBody };
    }
    let mut payload: Vec<u8> = Vec::new();
    let mut i: usize = 0;
    while i < body_len
        invariant
            i <= body_len,
            start + 4 + body_len <= stream@.len(),
            stream@.len() <= usize::MAX,
            rem == stream@.skip(start as int),
            start <= stream@.len(),
            rem.len() >= 4 + body_len,
            payload@ == rem.subrange(4, 4 + i as int),
        decreases body_len - i,
    {
        payload.push(stream[start + 4 + i]);
        proof {
            assert(payload@ =~= rem.subrange(4, 4 + (i + 1) as int));
        }
        i = i + 1;
    }
    DecodeResult::Frame { payload, next: start + 4 + body_len }
}

/// Round trip: a frame encoded onto the front of any stream decodes
/// back to the identical payload, consuming exactly the frame's bytes.
pub proof fn lemma_frame_round_trip(payload: Seq<u8>, tail: Seq<u8>)
    requires
        payload.len() <= MAX_FRAME_LEN,
    ensures
        decode_spec(encode_spec(payload) + tail) == (FrameDecode::Frame {
            payload,
            consumed: 4 + payload.len() as int,
        }),
{
    lemma_auto_spec_u32_to_from_le_bytes();
    let s = encode_spec(payload) + tail;
    assert(spec_u32_to_le_bytes(payload.len() as u32).len() == 4);
    assert(s.subrange(0, 4) =~= spec_u32_to_le_bytes(payload.len() as u32));
    assert(spec_u32_from_le_bytes(s.subrange(0, 4)) == payload.len() as u32);
    assert(s.subrange(4, 4 + payload.len() as int) =~= payload);
}

/// Round trip on a lone frame: encoding a payload within the size limit
/// and decoding the result yields the identical payload, byte for byte.
pub proof fn lemma_round_trip(payload: Seq<u8>)
    requires
        payload.len() <= MAX_FRAME_LEN,
    ensures
        decode_spec(encode_spec(payload)) == (FrameDecode::Frame {
            payload,
            consumed: 4 + payload.len() as int,
        }),
{
    lemma_frame_round_trip(payload, Seq::empty());
    assert(encode_spec(payload) + Seq::<u8>::empty() =~= encode_spec(payload));
}

/// The concatenation of the encodings of a sequence of frames.
pub open spec fn encode_all(frames: Seq<Seq<u8>>) -> Seq<u8>
    decreases frames.len(),
{
    if frames.len() == 0 {
        Seq::empty()
    } else {
        encode_spec(frames[0]) + encode_all(frames.drop_first())
    }
}

/// The frames obtained by decoding a stream front to back, stopping at
/// the first clean end or error.
pub open spec fn decode_all(stream: Seq<u8>) -> Seq<Seq<u8>>
    decreases stream.len(),
{
    match decode_spec(stream) {
        FrameDecode::Frame { payload, consumed } => seq![payload] + decode_all(
            stream.skip(consumed),
        ),
        _ => Seq::empty(),
    }
}

/// Whether a stream ends cleanly: every whole frame decoded front to
/// back, the stream closes exactly at a frame boundary.
pub open spec fn stream_ends_clean(stream: Seq<u8>) -> bool
    decreases stream.len(),
{
    match decode_spec(stream) {
        FrameDecode::Eof => true,
        FrameDecode::Frame { payload, consumed } => stream_ends_clean(stream.skip(consumed)),
        _ => false,
    }
}

/// Decodes every whole frame of a buffered stream, front to back, and
/// says whether the stream ended cleanly at a frame boundary or in a
/// framing error.
pub fn decode_stream(stream: &Vec<u8>) -> (r: (Vec<Vec<u8>>, bool))
    ensures
        r.0.deep_view() == decode_all(stream@),
        r.1 == stream_ends_clean(stream@),
{
    let mut out: Vec<Vec<u8>> = Vec::new();
    let mut offset: usize = 0;
    proof {
        assert(out.deep_view() =~= Seq::<Seq<u8>>::empty());
        assert(stream@.skip(0) =~= stream@);
    }
    loop
        invariant
            offset <= stream@.len(),
            decode_all(stream@) == out.deep_view() + decode_all(stream@.skip(offset as int)),
            stream_ends_clean(stream@) == stream_ends_clean(stream@.skip(offset as int)),
        decreases stream@.len() - offset,
    {
        let ghost out_before = out.deep_view();
        match decode_frame(stream, offset) {
            DecodeResult::Frame { payload, next } => {
                let ghost consumed: int = next - offset;
                proof {
                    assert(stream@.skip(offset as int).skip(consumed) =~= stream@.skip(
                        next as int,
                    ));
                }
                out.push(payload);
                proof {
                    assert(payload.deep_view() =~= payload@);
                    assert(out.deep_view() =~= out_before.push(payload@));
                    assert(out.deep_view() + decode_all(stream@.skip(next as int)) =~= out_before
                        + decode_all(stream@.skip(offset as int)));
                }
                offset = next;
            },
            DecodeResult::EndOfStream => {
                proof {
                    assert(decode_all(stream@.skip(offset as int)) =~= Seq::<Seq<u8>>::empty());
                    assert(out.deep_view() + decode_all(stream@.skip(offset as int))
                        =~= out.deep_view());
                }
                return (out, true);
            },
            DecodeResult::Fail { err: _ } => {
                proof {
                    assert(decode_all(stream@.skip(offset as int)) =~= Seq::<Seq<u8>>::empty());
                    assert(out.deep_view() + decode_all(stream@.skip(offset as int))
                        =~= out.deep_view());
                }
                return (out, false);
            },
        }
    }
}

/// Ordering: frames written back to back on one stream decode
/// sequentially to the same frames in the same order, none merged,
/// split or reordered, and such a stream ends cleanly at a frame
/// boundary.
pub proof fn lemma_stream_preserves_order(frames: Seq<Seq<u8>>)
    requires
        forall|i: int| 0 <= i < frames.len() ==> #[trigger] frames[i].len() <= MAX_FRAME_LEN,
    ensures
        decode_all(encode_all(frames)) == frames,
        stream_ends_clean(encode_all(frames)),
    decreases frames.len(),
{
    if frames.len() == 0 {
        assert(decode_all(encode_all(frames)) =~= frames);
    } else {
        let head = frames[0];
        let rest = frames.drop_first();
        let s = encode_all(frames);
        lemma_frame_round_trip(head, encode_all(rest));
        lemma_auto_spec_u32_to_from_le_bytes();
        assert(encode_spec(head).len() == 4 + head.len());
        assert(s.skip(4 + head.len() as int) =~= encode_all(rest));
        assert(forall|i: int|
            0 <= i < rest.len() ==> #[trigger] rest[i].len() <= MAX_FRAME_LEN) by {
            assert(forall|i: int| 0 <= i < rest.len() ==> rest[i] == frames[i + 1]);
        }
        lemma_stream_preserves_order(rest);
        assert(decode_all(s) == seq![head] + rest);
        assert(seq![head] + rest =~= frames);
    }
}

} // verus!
