use bytes::{Bytes, BytesMut};
use copra::protocol::{
    check_lengths, emit_frame, emit_header, parse_header, BrpcFramer, Frame, FrameError,
    FrameHeader, FramerState, DEFAULT_MAX_FRAME_SIZE, HEADER_LEN,
};

fn frame_bytes(meta: &[u8], payload: &[u8]) -> Vec<u8> {
    let mut dst = BytesMut::new();
    emit_frame(&Bytes::from(meta), &Bytes::from(payload), DEFAULT_MAX_FRAME_SIZE, &mut dst)
        .unwrap();
    dst.to_vec()
}

#[test]
fn header_is_magic_then_two_big_endian_lengths() {
    let bytes = emit_header(FrameHeader { body_size: 0x0102_0304, meta_size: 0x0000_0A0B });
    assert_eq!(
        bytes,
        vec![b'P', b'R', b'P', b'C', 0x01, 0x02, 0x03, 0x04, 0x00, 0x00, 0x0A, 0x0B]
    );
    assert_eq!(bytes.len(), HEADER_LEN);
}

#[test]
fn header_of_largest_lengths() {
    let bytes = emit_header(FrameHeader { body_size: u32::MAX, meta_size: 0 });
    assert_eq!(bytes, vec![b'P', b'R', b'P', b'C', 0xFF, 0xFF, 0xFF, 0xFF, 0, 0, 0, 0]);
}

#[test]
fn default_limit_is_64_mib() {
    assert_eq!(DEFAULT_MAX_FRAME_SIZE, 64 * 1024 * 1024);
}

#[test]
fn parse_header_reads_what_emit_header_wrote() {
    let h = FrameHeader { body_size: 70_000, meta_size: 300 };
    let bytes = emit_header(h);
    assert_eq!(parse_header(&bytes, DEFAULT_MAX_FRAME_SIZE), Ok(h));
}

#[test]
fn parse_header_ignores_what_follows() {
    let mut bytes = emit_header(FrameHeader { body_size: 2, meta_size: 1 });
    bytes.extend_from_slice(b"xyzzy");
    assert_eq!(parse_header(&bytes, 16), Ok(FrameHeader { body_size: 2, meta_size: 1 }));
}

#[test]
fn parse_header_refuses_bad_magic() {
    let mut bytes = emit_header(FrameHeader { body_size: 2, meta_size: 1 });
    bytes[3] = b'X';
    assert_eq!(parse_header(&bytes, 16), Err(FrameError::BadMagic));
    let http = b"GET / HTTP/1.1\r\n";
    assert_eq!(parse_header(http, 16), Err(FrameError::BadMagic));
}

#[test]
fn bad_magic_wins_over_bad_lengths() {
    let mut bytes = emit_header(FrameHeader { body_size: 1, meta_size: 9 });
    bytes[0] = b'Q';
    assert_eq!(parse_header(&bytes, 4), Err(FrameError::BadMagic));
}

#[test]
fn parse_header_refuses_large_body_and_large_meta() {
    let bytes = emit_header(FrameHeader { body_size: 17, meta_size: 1 });
    assert_eq!(parse_header(&bytes, 16), Err(FrameError::FrameTooLarge));
    let bytes = emit_header(FrameHeader { body_size: 16, meta_size: 1 });
    assert_eq!(parse_header(&bytes, 16), Ok(FrameHeader { body_size: 16, meta_size: 1 }));
    let bytes = emit_header(FrameHeader { body_size: 3, meta_size: 17 });
    assert_eq!(parse_header(&bytes, 16), Err(FrameError::FrameTooLarge));
}

#[test]
fn parse_header_refuses_meta_larger_than_body() {
    let bytes = emit_header(FrameHeader { body_size: 3, meta_size: 4 });
    assert_eq!(parse_header(&bytes, 16), Err(FrameError::BadLengths));
    let bytes = emit_header(FrameHeader { body_size: 4, meta_size: 4 });
    assert_eq!(parse_header(&bytes, 16), Ok(FrameHeader { body_size: 4, meta_size: 4 }));
}

#[test]
fn check_lengths_orders_its_errors() {
    assert_eq!(check_lengths(0, 0, 0), Ok(()));
    assert_eq!(check_lengths(5, 6, 5), Err(FrameError::FrameTooLarge));
    assert_eq!(check_lengths(5, 6, 6), Err(FrameError::BadLengths));
    assert_eq!(check_lengths(6, 5, 6), Ok(()));
}

#[test]
fn emitted_frame_is_header_meta_payload() {
    assert_eq!(
        frame_bytes(b"M", b"hi"),
        vec![b'P', b'R', b'P', b'C', 0, 0, 0, 3, 0, 0, 0, 1, b'M', b'h', b'i']
    );
}

#[test]
fn emitted_empty_frame_is_a_bare_header() {
    assert_eq!(frame_bytes(b"", b""), vec![b'P', b'R', b'P', b'C', 0, 0, 0, 0, 0, 0, 0, 0]);
}

#[test]
fn emit_appends_to_what_is_there() {
    let mut dst = BytesMut::from(&b"before"[..]);
    emit_frame(&Bytes::from(&b"a"[..]), &Bytes::from(&b"b"[..]), 16, &mut dst).unwrap();
    assert_eq!(&dst[..6], b"before");
    assert_eq!(&dst[6..], &frame_bytes(b"a", b"b")[..]);
}

#[test]
fn emit_refuses_a_frame_over_the_limit_and_writes_nothing() {
    let mut dst = BytesMut::from(&b"kept"[..]);
    let r = emit_frame(&Bytes::from(&b"abc"[..]), &Bytes::from(&b"de"[..]), 4, &mut dst);
    assert_eq!(r, Err(FrameError::FrameTooLarge));
    assert_eq!(&dst[..], b"kept");
    let r = emit_frame(&Bytes::from(&b"abc"[..]), &Bytes::from(&b"d"[..]), 4, &mut dst);
    assert_eq!(r, Ok(()));
}

#[test]
fn frame_round_trip() {
    let mut buf = BytesMut::from(frame_bytes(b"meta", b"payload"));
    let mut framer = BrpcFramer::new(DEFAULT_MAX_FRAME_SIZE);
    let frame = framer.decode(&mut buf).unwrap().unwrap();
    assert_eq!(
        frame,
        Frame { meta: Bytes::from(&b"meta"[..]), payload: Bytes::from(&b"payload"[..]) }
    );
    assert!(buf.is_empty());
    assert_eq!(framer.state(), FramerState::NeedHeader);
    assert_eq!(framer.decode(&mut buf), Ok(None));
}

#[test]
fn frame_round_trip_with_empty_parts() {
    let mut framer = BrpcFramer::new(8);
    let mut buf = BytesMut::from(frame_bytes(b"", b"p"));
    let frame = framer.decode(&mut buf).unwrap().unwrap();
    assert_eq!(frame, Frame { meta: Bytes::new(), payload: Bytes::from(&b"p"[..]) });
    let mut buf = BytesMut::from(frame_bytes(b"m", b""));
    let frame = framer.decode(&mut buf).unwrap().unwrap();
    assert_eq!(frame, Frame { meta: Bytes::from(&b"m"[..]), payload: Bytes::new() });
    let mut buf = BytesMut::from(frame_bytes(b"", b""));
    let frame = framer.decode(&mut buf).unwrap().unwrap();
    assert_eq!(frame, Frame { meta: Bytes::new(), payload: Bytes::new() });
}

#[test]
fn framer_waits_for_a_whole_header() {
    let mut framer = BrpcFramer::new(64);
    let all = frame_bytes(b"m", b"p");
    let mut buf = BytesMut::from(&all[..11]);
    assert_eq!(framer.decode(&mut buf), Ok(None));
    assert_eq!(&buf[..], &all[..11]);
    assert_eq!(framer.state(), FramerState::NeedHeader);
}

#[test]
fn framer_waits_even_if_the_start_is_wrong() {
    let mut framer = BrpcFramer::new(64);
    let mut buf = BytesMut::from(&b"HTTP"[..]);
    assert_eq!(framer.decode(&mut buf), Ok(None));
    buf.extend_from_slice(b"/1.1 200");
    assert_eq!(framer.decode(&mut buf), Err(FrameError::BadMagic));
    assert_eq!(&buf[..], b"HTTP/1.1 200");
}

#[test]
fn framer_consumes_the_header_and_waits_for_the_body() {
    let mut framer = BrpcFramer::new(64);
    let all = frame_bytes(b"mm", b"ppp");
    let mut buf = BytesMut::from(&all[..14]);
    assert_eq!(framer.decode(&mut buf), Ok(None));
    assert_eq!(&buf[..], b"mm");
    assert_eq!(
        framer.state(),
        FramerState::NeedBody(FrameHeader { body_size: 5, meta_size: 2 })
    );
    buf.extend_from_slice(b"pp");
    assert_eq!(framer.decode(&mut buf), Ok(None));
    assert_eq!(&buf[..], b"mmpp");
    buf.extend_from_slice(b"p");
    let frame = framer.decode(&mut buf).unwrap().unwrap();
    assert_eq!(frame, Frame { meta: Bytes::from(&b"mm"[..]), payload: Bytes::from(&b"ppp"[..]) });
    assert_eq!(framer.state(), FramerState::NeedHeader);
    assert!(buf.is_empty());
}

#[test]
fn framer_takes_frames_one_per_pull() {
    let mut framer = BrpcFramer::new(64);
    let mut all = frame_bytes(b"a", b"1");
    all.extend_from_slice(&frame_bytes(b"b", b"22"));
    all.extend_from_slice(b"PRP");
    let mut buf = BytesMut::from(all);
    let first = framer.decode(&mut buf).unwrap().unwrap();
    assert_eq!(first.payload, Bytes::from(&b"1"[..]));
    let second = framer.decode(&mut buf).unwrap().unwrap();
    assert_eq!(second.meta, Bytes::from(&b"b"[..]));
    assert_eq!(second.payload, Bytes::from(&b"22"[..]));
    assert_eq!(framer.decode(&mut buf), Ok(None));
    assert_eq!(&buf[..], b"PRP");
}

#[test]
fn framer_refuses_a_frame_over_its_limit() {
    let mut framer = BrpcFramer::new(4);
    assert_eq!(framer.max_frame_size(), 4);
    let mut buf = BytesMut::from(frame_bytes(b"abc", b"de"));
    assert_eq!(framer.decode(&mut buf), Err(FrameError::FrameTooLarge));
    assert_eq!(buf.len(), 17);
    assert_eq!(framer.state(), FramerState::NeedHeader);
}

#[test]
fn framer_refuses_bad_lengths() {
    let mut framer = BrpcFramer::new(64);
    let mut buf = BytesMut::from(emit_header(FrameHeader { body_size: 1, meta_size: 2 }));
    buf.extend_from_slice(b"xx");
    assert_eq!(framer.decode(&mut buf), Err(FrameError::BadLengths));
}

#[test]
fn end_of_stream_between_frames_is_clean() {
    let mut framer = BrpcFramer::new(64);
    let mut buf = BytesMut::new();
    assert_eq!(framer.decode_eof(&mut buf), Ok(None));
    let mut buf = BytesMut::from(frame_bytes(b"m", b"p"));
    assert!(framer.decode_eof(&mut buf).unwrap().is_some());
    assert_eq!(framer.decode_eof(&mut buf), Ok(None));
}

#[test]
fn end_of_stream_inside_a_header_is_truncation() {
    let mut framer = BrpcFramer::new(64);
    let mut buf = BytesMut::from(&b"PRPC\0\0"[..]);
    assert_eq!(framer.decode_eof(&mut buf), Err(FrameError::Truncated));
}

#[test]
fn end_of_stream_inside_a_body_is_truncation() {
    let mut framer = BrpcFramer::new(64);
    let all = frame_bytes(b"mm", b"ppp");
    let mut buf = BytesMut::from(&all[..15]);
    assert_eq!(framer.decode_eof(&mut buf), Err(FrameError::Truncated));
    let mut framer = BrpcFramer::new(64);
    let mut buf = BytesMut::from(&all[..12]);
    assert_eq!(framer.decode_eof(&mut buf), Err(FrameError::Truncated));
}

#[test]
fn end_of_stream_reports_other_errors_as_they_are() {
    let mut framer = BrpcFramer::new(64);
    let mut buf = BytesMut::from(&b"GET / HTTP/1.1\r\n"[..]);
    assert_eq!(framer.decode_eof(&mut buf), Err(FrameError::BadMagic));
}

#[test]
fn parse_header_of_too_few_bytes_is_truncation() {
    assert_eq!(parse_header(b"", 16), Err(FrameError::Truncated));
    assert_eq!(parse_header(b"PRPC", 16), Err(FrameError::Truncated));
    assert_eq!(parse_header(b"XXXX\0\0\0\0\0\0\0", 16), Err(FrameError::Truncated));
    assert_eq!(parse_header(b"PRPC\0\0\0\0\0\0\0", 16), Err(FrameError::Truncated));
    assert_eq!(
        parse_header(b"PRPC\0\0\0\0\0\0\0\0", 16),
        Ok(FrameHeader { body_size: 0, meta_size: 0 })
    );
}
