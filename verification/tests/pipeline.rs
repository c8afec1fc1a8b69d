use laad::decoder::Decoder;
use laad::frameparser::FrameParser;
use laad::protocol::TbsPg;
use laad::types::{Bytes, Frame};

const HEARTBEAT: [u8; 8] = [0xAA, 0x00, 0xFF, 0xFF, 0xFF, 0x00, 0x03, 0x99];
const BB1ST: [u8; 16] = [
    0xAA, 0x00, 0xFF, 0x1A, 0xF0, 0x08, 0xC0, 0xB0, 0x10, 0x27, 0x10, 0x27, 0xFD, 0xFF, 0x15,
    0x99,
];

/// Applies the wire-level byte-stuffing to a payload.
fn stuff(payload: &[u8]) -> Vec<u8> {
    let mut out = Vec::new();
    for &b in payload {
        if b == 0xAA || b == 0x99 || b == 0xA9 {
            out.push(0xA9);
            out.push(b ^ 0x20);
        } else {
            out.push(b);
        }
    }
    out
}

fn decode_all(frames: Vec<Frame>) -> Vec<TbsPg> {
    let decoder = Decoder::new();
    frames.into_iter().map(|f| decoder.decode_frame(f)).collect()
}

#[test]
fn one_chunk_exactly_one_frame() {
    let mut parser = FrameParser::new();
    let frames = parser.feed(Bytes(HEARTBEAT.to_vec()));
    assert_eq!(frames.len(), 1);
    assert_eq!(frames[0].0, HEARTBEAT.to_vec());
    assert_eq!(decode_all(frames), vec![TbsPg::Heartbeat]);
    assert_eq!(parser.buffered_len(), 0);
}

#[test]
fn frame_split_at_every_boundary() {
    for split in 1..BB1ST.len() {
        let mut parser = FrameParser::new();
        let mut frames = parser.feed(Bytes(BB1ST[..split].to_vec()));
        frames.extend(parser.feed(Bytes(BB1ST[split..].to_vec())));
        assert_eq!(frames.len(), 1, "split at {}", split);
        assert_eq!(frames[0].0, BB1ST.to_vec(), "split at {}", split);
    }
}

#[test]
fn frame_fed_byte_by_byte() {
    let mut parser = FrameParser::new();
    let mut frames = Vec::new();
    for &b in BB1ST.iter() {
        frames.extend(parser.feed(Bytes(vec![b])));
    }
    assert_eq!(frames.len(), 1);
    assert_eq!(frames[0].0, BB1ST.to_vec());
}

#[test]
fn chunking_does_not_change_the_frames() {
    let mut stream = Vec::new();
    stream.extend_from_slice(&[0x10, 0x20]);
    stream.extend_from_slice(&HEARTBEAT);
    stream.extend_from_slice(&[0xAA, 0x31]);
    stream.extend_from_slice(&BB1ST);
    stream.extend_from_slice(&HEARTBEAT);
    stream.extend_from_slice(&[0xAA, 0x00]);

    let mut parser_whole = FrameParser::new();
    let whole = parser_whole.feed(Bytes(stream.clone()));

    for chunk_size in [1usize, 2, 3, 5, 7, 11] {
        let mut parser = FrameParser::new();
        let mut frames = Vec::new();
        for chunk in stream.chunks(chunk_size) {
            frames.extend(parser.feed(Bytes(chunk.to_vec())));
        }
        assert_eq!(frames.len(), whole.len(), "chunk size {}", chunk_size);
        for (a, b) in frames.iter().zip(whole.iter()) {
            assert_eq!(a.0, b.0, "chunk size {}", chunk_size);
        }
    }
}

#[test]
fn two_frames_in_one_chunk_give_two_messages_in_order() {
    let mut bytes = HEARTBEAT.to_vec();
    bytes.extend_from_slice(&BB1ST);
    let mut parser = FrameParser::new();
    let frames = parser.feed(Bytes(bytes));
    assert_eq!(frames.len(), 2);
    let messages = decode_all(frames);
    assert_eq!(messages[0], TbsPg::Heartbeat);
    assert!(matches!(messages[1], TbsPg::Bb1st(_)));
}

#[test]
fn garbage_between_frames_is_ignored() {
    let mut bytes = vec![0x13, 0x37, 0x00];
    bytes.extend_from_slice(&HEARTBEAT);
    bytes.extend_from_slice(&[0x01, 0x02, 0x03, 0x04]);
    bytes.extend_from_slice(&BB1ST);
    bytes.extend_from_slice(&[0x05, 0x06]);
    let mut parser = FrameParser::new();
    let frames = parser.feed(Bytes(bytes));
    assert_eq!(frames.len(), 2);
    assert_eq!(frames[0].0, HEARTBEAT.to_vec());
    assert_eq!(frames[1].0, BB1ST.to_vec());
}

#[test]
fn broken_packets_give_no_spurious_messages() {
    // Streams of truncated or delimiter-less packets produce nothing.
    let mut parser = FrameParser::new();
    let mut frames = Vec::new();
    frames.extend(parser.feed(Bytes(vec![
        0x67, 0x00, 0x64, 0x00, 0x64, 0x00, 0xFF, 0xFF, 0xDA, 0x99,
    ])));
    frames.extend(parser.feed(Bytes(vec![0xFF, 0xFF, 0xFF, 0xFF])));
    frames.extend(parser.feed(Bytes(vec![])));
    assert_eq!(frames.len(), 0);
}

#[test]
fn stuffed_payload_round_trips() {
    // A payload full of delimiter and escape bytes survives stuffing and
    // extraction unchanged.
    let payload: Vec<u8> = vec![0x00, 0xAA, 0x99, 0xA9, 0x42, 0xAA, 0xAA, 0x99, 0x07];
    let mut wire = vec![0xAA];
    wire.extend(stuff(&payload));
    wire.push(0x99);
    let mut parser = FrameParser::new();
    let frames = parser.feed(Bytes(wire));
    assert_eq!(frames.len(), 1);
    let mut expected = vec![0xAA];
    expected.extend_from_slice(&payload);
    expected.push(0x99);
    assert_eq!(frames[0].0, expected);
}

#[test]
fn stuffed_heartbeat_decodes() {
    // A heartbeat whose second byte is a literal 0xAA, stuffed on the
    // wire, with the checksum computed over the de-stuffed content.
    let inner = [0xAAu8, 0xFF, 0xFF, 0xFF, 0x00, 0x59];
    let mut wire = vec![0xAA];
    wire.extend(stuff(&inner));
    wire.push(0x99);
    assert_eq!(wire, vec![0xAA, 0xA9, 0x8A, 0xFF, 0xFF, 0xFF, 0x00, 0x59, 0x99]);
    let mut parser = FrameParser::new();
    let frames = parser.feed(Bytes(wire));
    assert_eq!(frames.len(), 1);
    assert_eq!(frames[0].0, vec![0xAA, 0xAA, 0xFF, 0xFF, 0xFF, 0x00, 0x59, 0x99]);
    assert_eq!(decode_all(frames), vec![TbsPg::Heartbeat]);
}

#[test]
fn trailing_escape_before_end_delimiter_swallows_it() {
    // The frame scan runs on the raw bytes, so the first 0x99 still closes
    // the frame; de-stuffing then turns the escaped delimiter into a
    // payload byte. The decoder reads the checksum relative to the frame
    // length and never looks at the trailing byte, so this frame still
    // decodes as a heartbeat.
    let bytes = vec![0xAA, 0x00, 0xFF, 0xFF, 0xFF, 0x00, 0x03, 0xA9, 0x99];
    let mut parser = FrameParser::new();
    let frames = parser.feed(Bytes(bytes));
    assert_eq!(frames.len(), 1);
    assert_eq!(frames[0].0, vec![0xAA, 0x00, 0xFF, 0xFF, 0xFF, 0x00, 0x03, 0xB9]);
    assert_eq!(decode_all(frames), vec![TbsPg::Heartbeat]);
}

#[test]
fn oversized_garbage_is_dropped() {
    let mut parser = FrameParser::new();
    let frames = parser.feed(Bytes(vec![0x00; 2000]));
    assert_eq!(frames.len(), 0);
    assert_eq!(parser.buffered_len(), 0);
}

#[test]
fn oversized_buffer_keeps_partial_frame() {
    let mut bytes = vec![0x00; 1500];
    bytes.push(0xAA);
    bytes.push(0x01);
    let mut parser = FrameParser::new();
    let frames = parser.feed(Bytes(bytes));
    assert_eq!(frames.len(), 0);
    // Everything before the pending frame start is discarded.
    assert_eq!(parser.buffered_len(), 2);
    // The pending frame still completes with the next chunk.
    let mut rest = vec![0x02, 0x99];
    rest.extend_from_slice(&HEARTBEAT);
    let frames = parser.feed(Bytes(rest));
    assert_eq!(frames.len(), 2);
    assert_eq!(frames[0].0, vec![0xAA, 0x01, 0x02, 0x99]);
    assert_eq!(frames[1].0, HEARTBEAT.to_vec());
}

#[test]
fn retained_buffer_stays_within_bound() {
    let mut parser = FrameParser::new();
    for _ in 0..10 {
        parser.feed(Bytes(vec![0x55; 300]));
        assert!(parser.buffered_len() <= 1024);
    }
}

#[test]
fn empty_chunk_changes_nothing() {
    let mut parser = FrameParser::new();
    parser.feed(Bytes(HEARTBEAT[..4].to_vec()));
    let before = parser.buffered_len();
    let frames = parser.feed(Bytes(vec![]));
    assert_eq!(frames.len(), 0);
    assert_eq!(parser.buffered_len(), before);
}
