//! The wire protocol: twelve bytes of header, then the encoded meta, then the
//! payload.
//!
//! ```text
//! offset  size  field
//! 0       4     magic 'P' 'R' 'P' 'C'
//! 4       4     body size, big-endian (meta and payload together)
//! 8       4     meta size, big-endian
//! 12      M     meta
//! 12+M    B-M   payload
//! ```

use crate::buffer::{buf_as_slice, buf_seq, bytes_as_slice, bytes_seq};
use bytes::{Bytes, BytesMut};
use vstd::prelude::*;

verus! {

/// Carriers that a server can speak.
#[derive(Clone, Copy, Debug, PartialEq, Eq, Structural)]
pub enum Protocol {
    /// The multiplexed binary framing of this module.
    Brpc,
    /// One request and one response per turn, without multiplexing.
    Http,
}

/// Length of the frame header in bytes.
pub const HEADER_LEN: usize = 12;

/// Largest body that a framer accepts unless told otherwise: 64 MiB.
pub const DEFAULT_MAX_FRAME_SIZE: u32 = 67108864;

/// Why a byte stream is not a sequence of frames. Each is fatal to the
/// connection.
#[derive(Clone, Copy, Debug, PartialEq, Eq, Structural)]
pub enum FrameError {
    /// The header does not start with `PRPC`.
    BadMagic,
    /// The body or the meta is larger than the framer accepts.
    FrameTooLarge,
    /// The meta claims to be larger than the body that contains it.
    BadLengths,
    /// The stream ended inside a frame.
    Truncated,
}

/// The two lengths that a header carries.
#[derive(Clone, Copy, Debug, PartialEq, Eq, Structural)]
pub struct FrameHeader {
    /// Bytes that follow the header: meta and payload together.
    pub body_size: u32,
    /// Bytes of meta at the start of the body.
    pub meta_size: u32,
}

/// One unit of data on the wire, header removed.
#[derive(Clone, Debug, PartialEq, Eq)]
pub struct Frame {
    /// The encoded meta.
    pub meta: Bytes,
    /// The user's payload.
    pub payload: Bytes,
}

/// A frame as two byte sequences.
pub struct FrameView {
    pub meta: Seq<u8>,
    pub payload: Seq<u8>,
}

impl View for Frame {
    type V = FrameView;

    open spec fn view(&self) -> FrameView {
        FrameView { meta: bytes_seq(self.meta), payload: bytes_seq(self.payload) }
    }
}

/// The literal `PRPC`.
pub open spec fn spec_magic() -> Seq<u8> {
    seq![0x50u8, 0x52u8, 0x50u8, 0x43u8]
}

/// The four bytes of `v`, most significant first.
pub open spec fn spec_be32(v: u32) -> Seq<u8> {
    seq![
        (v / 0x1000000) as u8,
        (v / 0x10000 % 0x100) as u8,
        (v / 0x100 % 0x100) as u8,
        (v % 0x100) as u8,
    ]
}

/// The number that the first four bytes of `b` spell, most significant first.
pub open spec fn spec_be32_value(b: Seq<u8>) -> int
    recommends
        b.len() >= 4,
{
    b[0] * 0x1000000 + b[1] * 0x10000 + b[2] * 0x100 + b[3]
}

/// The twelve header bytes for the given lengths.
pub open spec fn spec_header(h: FrameHeader) -> Seq<u8> {
    spec_magic() + spec_be32(h.body_size) + spec_be32(h.meta_size)
}

/// Whether a header with these lengths is acceptable under the limit `max`.
pub open spec fn spec_check_lengths(body: int, meta: int, max: u32) -> Result<(), FrameError> {
    if body > max || meta > max {
        Err(FrameError::FrameTooLarge)
    } else if meta > body {
        Err(FrameError::BadLengths)
    } else {
        Ok(())
    }
}

/// What the header at the start of `bytes` says, under the limit `max`.
/// Fewer than twelve bytes are no header.
pub open spec fn spec_parse_header(bytes: Seq<u8>, max: u32) -> Result<FrameHeader, FrameError> {
    let body = spec_be32_value(bytes.subrange(4, 8));
    let meta = spec_be32_value(bytes.subrange(8, 12));
    if bytes.len() < HEADER_LEN {
        Err(FrameError::Truncated)
    } else if bytes.subrange(0, 4) != spec_magic() {
        Err(FrameError::BadMagic)
    } else {
        match spec_check_lengths(body, meta, max) {
            Err(e) => Err(e),
            Ok(()) => Ok(FrameHeader { body_size: body as u32, meta_size: meta as u32 }),
        }
    }
}

/// The bytes of one frame: header, meta, payload.
pub open spec fn spec_frame(meta: Seq<u8>, payload: Seq<u8>) -> Seq<u8>
    recommends
        meta.len() + payload.len() <= u32::MAX,
{
    spec_header(
        FrameHeader {
            body_size: (meta.len() + payload.len()) as u32,
            meta_size: meta.len() as u32,
        },
    ) + meta + payload
}

/// Where a framer stands between two frames or inside one.
#[derive(Clone, Copy, Debug, PartialEq, Eq, Structural)]
pub enum FramerState {
    /// Waiting for the twelve bytes of a header.
    NeedHeader,
    /// The header was read and removed; waiting for its body.
    NeedBody(FrameHeader),
}

/// One pull on a framer: the state it is left in, the bytes it leaves in the
/// buffer, and what it hands out.
pub struct Pull {
    pub state: FramerState,
    pub rest: Seq<u8>,
    pub outcome: Result<Option<FrameView>, FrameError>,
}

/// A pull that has the header `h` behind it and `buf` before it.
pub open spec fn spec_pull_body(h: FrameHeader, buf: Seq<u8>) -> Pull {
    if buf.len() < h.body_size {
        Pull { state: FramerState::NeedBody(h), rest: buf, outcome: Ok(None) }
    } else {
        Pull {
            state: FramerState::NeedHeader,
            rest: buf.subrange(h.body_size as int, buf.len() as int),
            outcome: Ok(
                Some(
                    FrameView {
                        meta: buf.subrange(0, h.meta_size as int),
                        payload: buf.subrange(h.meta_size as int, h.body_size as int),
                    },
                ),
            ),
        }
    }
}

/// One pull in `state` on the buffered bytes `buf`, under the limit `max`.
///
/// Without a full header, or without the full body that a header announced,
/// nothing is consumed and nothing handed out. A header that is refused is
/// left in the buffer.
pub open spec fn spec_pull(state: FramerState, max: u32, buf: Seq<u8>) -> Pull {
    match state {
        FramerState::NeedBody(h) => spec_pull_body(h, buf),
        FramerState::NeedHeader => {
            if buf.len() < HEADER_LEN {
                Pull { state, rest: buf, outcome: Ok(None) }
            } else {
                match spec_parse_header(buf, max) {
                    Err(e) => Pull { state, rest: buf, outcome: Err(e) },
                    Ok(h) => spec_pull_body(h, buf.subrange(HEADER_LEN as int, buf.len() as int)),
                }
            }
        },
    }
}

/// The last pull on a stream that has ended: what is left over must be
/// nothing at all.
pub open spec fn spec_pull_eof(state: FramerState, max: u32, buf: Seq<u8>) -> Pull {
    let pull = spec_pull(state, max, buf);
    if pull.outcome == Ok::<Option<FrameView>, FrameError>(None) && !(pull.state
        == FramerState::NeedHeader && pull.rest.len() == 0) {
        Pull { state: pull.state, rest: pull.rest, outcome: Err(FrameError::Truncated) }
    } else {
        pull
    }
}

/// What a pull hands out, as byte sequences.
pub open spec fn spec_outcome(r: Result<Option<Frame>, FrameError>) -> Result<
    Option<FrameView>,
    FrameError,
> {
    match r {
        Ok(Some(frame)) => Ok(Some(frame@)),
        Ok(None) => Ok(None),
        Err(e) => Err(e),
    }
}

/// Decoding the big-endian bytes of a number gives the number back.
pub proof fn lemma_be32_round_trip(v: u32)
    ensures
        spec_be32(v).len() == 4,
        spec_be32_value(spec_be32(v)) == v,
{
}

/// Reads a big-endian `u32` at offset `at`.
fn read_be32(bytes: &[u8], at: usize) -> (v: u32)
    requires
        at + 4 <= bytes@.len(),
    ensures
        v == spec_be32_value(bytes@.subrange(at as int, at + 4)),
{
    let b0: u32 = bytes[at] as u32;
    let b1: u32 = bytes[at + 1] as u32;
    let b2: u32 = bytes[at + 2] as u32;
    let b3: u32 = bytes[at + 3] as u32;
    b0 * 0x1000000 + b1 * 0x10000 + b2 * 0x100 + b3
}

/// Appends the big-endian bytes of `v` to `out`.
fn push_be32(out: &mut Vec<u8>, v: u32)
    ensures
        final(out)@ == old(out)@ + spec_be32(v),
{
    out.push((v / 0x1000000) as u8);
    out.push((v / 0x10000 % 0x100) as u8);
    out.push((v / 0x100 % 0x100) as u8);
    out.push((v % 0x100) as u8);
}

/// Checks the two lengths of a header against each other and the limit.
pub fn check_lengths(body_size: u32, meta_size: u32, max: u32) -> (r: Result<(), FrameError>)
    ensures
        r == spec_check_lengths(body_size as int, meta_size as int, max),
{
    if body_size > max || meta_size > max {
        Err(FrameError::FrameTooLarge)
    } else if meta_size > body_size {
        Err(FrameError::BadLengths)
    } else {
        Ok(())
    }
}

/// Reads the header at the start of `bytes`: the magic, then the two lengths,
/// checked against the limit `max` and against each other. The magic is
/// looked at first, the limit second.
pub fn parse_header(bytes: &[u8], max: u32) -> (r: Result<FrameHeader, FrameError>)
    ensures
        r == spec_parse_header(bytes@, max),
        r is Ok ==> r->Ok_0.meta_size <= r->Ok_0.body_size <= max,
{
    if bytes.len() < HEADER_LEN {
        return Err(FrameError::Truncated);
    }
    if bytes[0] != 0x50 || bytes[1] != 0x52 || bytes[2] != 0x50 || bytes[3] != 0x43 {
        assert(bytes@.subrange(0, 4) != spec_magic()) by {
            let head = bytes@.subrange(0, 4);
            assert(head[0] == bytes@[0] && head[1] == bytes@[1] && head[2] == bytes@[2] && head[3]
                == bytes@[3]);
        }
        return Err(FrameError::BadMagic);
    }
    assert(bytes@.subrange(0, 4) == spec_magic());
    let body_size = read_be32(bytes, 4);
    let meta_size = read_be32(bytes, 8);
    match check_lengths(body_size, meta_size, max) {
        Err(e) => Err(e),
        Ok(()) => Ok(FrameHeader { body_size, meta_size }),
    }
}

/// The twelve header bytes for the given lengths.
pub fn emit_header(h: FrameHeader) -> (bytes: Vec<u8>)
    ensures
        bytes@ == spec_header(h),
        bytes@.len() == HEADER_LEN,
{
    let mut out: Vec<u8> = Vec::new();
    out.push(0x50);
    out.push(0x52);
    out.push(0x50);
    out.push(0x43);
    assert(out@ == spec_magic());
    push_be32(&mut out, h.body_size);
    push_be32(&mut out, h.meta_size);
    out
}

/// Appends one frame to `dst`: header, meta, payload, as one contiguous run.
///
/// A frame whose body would exceed `max` is refused and nothing is written.
pub fn emit_frame(meta: &Bytes, payload: &Bytes, max: u32, dst: &mut BytesMut) -> (r: Result<
    (),
    FrameError,
>)
    requires
        buf_seq(*old(dst)).len() + HEADER_LEN + bytes_seq(*meta).len() + bytes_seq(*payload).len()
            <= usize::MAX,
    ensures
        r is Ok <==> bytes_seq(*meta).len() + bytes_seq(*payload).len() <= max,
        r is Ok ==> buf_seq(*final(dst)) == buf_seq(*old(dst)) + spec_frame(
            bytes_seq(*meta),
            bytes_seq(*payload),
        ),
        r is Err ==> r->Err_0 == FrameError::FrameTooLarge && buf_seq(*final(dst)) == buf_seq(
            *old(dst),
        ),
{
    let meta_len: usize = meta.len();
    let payload_len: usize = payload.len();
    let body_len: usize = meta_len + payload_len;
    if body_len > max as usize {
        return Err(FrameError::FrameTooLarge);
    }
    let header = emit_header(FrameHeader { body_size: body_len as u32, meta_size: meta_len as u32 });
    dst.extend_from_slice(header.as_slice());
    dst.extend_from_slice(bytes_as_slice(meta));
    dst.extend_from_slice(bytes_as_slice(payload));
    Ok(())
}

/// The pull parser of the wire protocol.
///
/// It is fed a buffer that the connection fills, and takes whole frames off
/// its front, one per pull.
pub struct BrpcFramer {
    state: FramerState,
    max_frame_size: u32,
}

impl BrpcFramer {
    #[verifier::type_invariant]
    spec fn well_formed(self) -> bool {
        match self.state {
            FramerState::NeedHeader => true,
            FramerState::NeedBody(h) => h.meta_size <= h.body_size <= self.max_frame_size,
        }
    }

    /// Where the framer stands.
    pub closed spec fn spec_state(self) -> FramerState {
        self.state
    }

    /// The largest body that the framer accepts.
    pub closed spec fn spec_max_frame_size(self) -> u32 {
        self.max_frame_size
    }

    /// A framer at the start of a stream that accepts bodies of up to
    /// `max_frame_size` bytes.
    pub fn new(max_frame_size: u32) -> (framer: Self)
        ensures
            framer.spec_state() == FramerState::NeedHeader,
            framer.spec_max_frame_size() == max_frame_size,
    {
        BrpcFramer { state: FramerState::NeedHeader, max_frame_size }
    }

    /// Where the framer stands.
    pub fn state(&self) -> (state: FramerState)
        ensures
            state == self.spec_state(),
    {
        self.state
    }

    /// The largest body that the framer accepts.
    pub fn max_frame_size(&self) -> (max: u32)
        ensures
            max == self.spec_max_frame_size(),
    {
        self.max_frame_size
    }

    /// Takes the body that the header `h` announced off the front of `buf`,
    /// if all of it is there.
    fn pull_body(h: FrameHeader, buf: &mut BytesMut) -> (r: (FramerState, Option<Frame>))
        requires
            h.meta_size <= h.body_size,
        ensures
            r.0 == spec_pull_body(h, buf_seq(*old(buf))).state,
            buf_seq(*final(buf)) == spec_pull_body(h, buf_seq(*old(buf))).rest,
            spec_outcome(Ok(r.1)) == spec_pull_body(h, buf_seq(*old(buf))).outcome,
    {
        if buf.len() < h.body_size as usize {
            return (FramerState::NeedBody(h), None);
        }
        let ghost before = buf_seq(*buf);
        let mut body = buf.split_to(h.body_size as usize);
        let meta = body.split_to(h.meta_size as usize).freeze();
        let payload = body.freeze();
        assert(bytes_seq(meta) == before.subrange(0, h.meta_size as int));
        assert(bytes_seq(payload) == before.subrange(h.meta_size as int, h.body_size as int));
        (FramerState::NeedHeader, Some(Frame { meta, payload }))
    }

    /// Pulls once: takes the next frame off the front of `buf` if it is
    /// complete, and says so if it is not yet.
    ///
    /// A header is consumed as soon as it is complete and acceptable, so that
    /// the buffer then holds body bytes only. A header that is refused stays
    /// where it is; the connection is to be closed.
    pub fn decode(&mut self, buf: &mut BytesMut) -> (r: Result<Option<Frame>, FrameError>)
        ensures
            final(self).spec_max_frame_size() == old(self).spec_max_frame_size(),
            final(self).spec_state() == spec_pull(
                old(self).spec_state(),
                old(self).spec_max_frame_size(),
                buf_seq(*old(buf)),
            ).state,
            buf_seq(*final(buf)) == spec_pull(
                old(self).spec_state(),
                old(self).spec_max_frame_size(),
                buf_seq(*old(buf)),
            ).rest,
            spec_outcome(r) == spec_pull(
                old(self).spec_state(),
                old(self).spec_max_frame_size(),
                buf_seq(*old(buf)),
            ).outcome,
    {
        proof {
            use_type_invariant(&*self);
        }
        let header = match self.state {
            FramerState::NeedBody(h) => h,
            FramerState::NeedHeader => {
                if buf.len() < HEADER_LEN {
                    return Ok(None);
                }
                match parse_header(buf_as_slice(buf), self.max_frame_size) {
                    Err(e) => {
                        return Err(e);
                    },
                    Ok(h) => {
                        let _ = buf.split_to(HEADER_LEN);
                        h
                    },
                }
            },
        };
        let (state, frame) = Self::pull_body(header, buf);
        self.state = state;
        Ok(frame)
    }

    /// Pulls once on a stream that has ended. Whatever is left in the buffer
    /// then has to be whole frames: a partial header or body is an error.
    pub fn decode_eof(&mut self, buf: &mut BytesMut) -> (r: Result<Option<Frame>, FrameError>)
        ensures
            final(self).spec_max_frame_size() == old(self).spec_max_frame_size(),
            final(self).spec_state() == spec_pull_eof(
                old(self).spec_state(),
                old(self).spec_max_frame_size(),
                buf_seq(*old(buf)),
            ).state,
            buf_seq(*final(buf)) == spec_pull_eof(
                old(self).spec_state(),
                old(self).spec_max_frame_size(),
                buf_seq(*old(buf)),
            ).rest,
            spec_outcome(r) == spec_pull_eof(
                old(self).spec_state(),
                old(self).spec_max_frame_size(),
                buf_seq(*old(buf)),
            ).outcome,
    {
        match self.decode(buf) {
            Ok(None) => {
                let at_boundary = match self.state {
                    FramerState::NeedHeader => buf.len() == 0,
                    FramerState::NeedBody(_) => false,
                };
                if at_boundary {
                    Ok(None)
                } else {
                    Err(FrameError::Truncated)
                }
            },
            other => other,
        }
    }
}

/// The header of a frame carries the lengths of its two parts.
pub proof fn lemma_header_round_trip(h: FrameHeader, max: u32, rest: Seq<u8>)
    requires
        h.meta_size <= h.body_size <= max,
    ensures
        spec_parse_header(spec_header(h) + rest, max) == Ok::<FrameHeader, FrameError>(h),
{
    let bytes = spec_header(h) + rest;
    assert(bytes.subrange(0, 4) == spec_magic());
    assert(bytes.subrange(4, 8) == spec_be32(h.body_size));
    assert(bytes.subrange(8, 12) == spec_be32(h.meta_size));
    lemma_be32_round_trip(h.body_size);
    lemma_be32_round_trip(h.meta_size);
}

/// Emitting a frame and pulling on the result gives the frame back: a framer
/// between frames that finds the bytes of a frame of acceptable size at the
/// front of its buffer hands out exactly that meta and that payload, consumes
/// exactly those bytes, and is between frames again.
pub proof fn lemma_frame_round_trip(meta: Seq<u8>, payload: Seq<u8>, max: u32, rest: Seq<u8>)
    requires
        meta.len() + payload.len() <= max,
    ensures
        spec_pull(FramerState::NeedHeader, max, spec_frame(meta, payload) + rest) == (Pull {
            state: FramerState::NeedHeader,
            rest,
            outcome: Ok(Some(FrameView { meta, payload })),
        }),
{
    let h = FrameHeader {
        body_size: (meta.len() + payload.len()) as u32,
        meta_size: meta.len() as u32,
    };
    let buf = spec_frame(meta, payload) + rest;
    assert(buf == spec_header(h) + (meta + payload + rest));
    lemma_header_round_trip(h, max, meta + payload + rest);
    let body = buf.subrange(HEADER_LEN as int, buf.len() as int);
    assert(body == meta + payload + rest);
    assert(body.subrange(0, h.meta_size as int) == meta);
    assert(body.subrange(h.meta_size as int, h.body_size as int) == payload);
    assert(body.subrange(h.body_size as int, body.len() as int) == rest);
}

/// A stream that does not start with `PRPC` is refused as soon as twelve
/// bytes of it are there, whatever the rest says.
pub proof fn lemma_bad_magic_is_refused(buf: Seq<u8>, max: u32)
    requires
        buf.len() >= HEADER_LEN,
        buf.subrange(0, 4) != spec_magic(),
    ensures
        spec_pull(FramerState::NeedHeader, max, buf).outcome == Err::<
            Option<FrameView>,
            FrameError,
        >(FrameError::BadMagic),
        spec_pull(FramerState::NeedHeader, max, buf).rest == buf,
{
}

} // verus!
