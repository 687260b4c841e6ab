use bytes::{Bytes, BytesMut};
use quic_transport::error::{IoErrorKind, TransportError};
use quic_transport::frame::{
    decode_frame, decode_length, encode_frame, frame_too_big_error, stream_ended_early_error,
    DEFAULT_MAX_FRAME_LENGTH, LENGTH_FIELD_LEN,
};
use tokio_util::codec::{Decoder, Encoder, LengthDelimitedCodec};

fn too_big() -> TransportError {
    TransportError::Io { kind: IoErrorKind::Other, description: "frame size too big".to_string() }
}

#[test]
fn constants_of_the_wire_format() {
    assert_eq!(LENGTH_FIELD_LEN, 4);
    assert_eq!(DEFAULT_MAX_FRAME_LENGTH, 8 * 1024 * 1024);
}

#[test]
fn encode_puts_a_big_endian_length_before_the_payload() {
    let framed = encode_frame(&b"hello".to_vec(), DEFAULT_MAX_FRAME_LENGTH).unwrap();
    assert_eq!(framed, vec![0, 0, 0, 5, b'h', b'e', b'l', b'l', b'o']);
}

#[test]
fn encode_of_an_empty_payload_is_the_length_field() {
    assert_eq!(encode_frame(&Vec::new(), DEFAULT_MAX_FRAME_LENGTH).unwrap(), vec![0, 0, 0, 0]);
}

#[test]
fn encode_uses_every_byte_of_the_length_field() {
    let payload = vec![7u8; 66051];
    let framed = encode_frame(&payload, DEFAULT_MAX_FRAME_LENGTH).unwrap();
    assert_eq!(&framed[..4], &[0, 1, 2, 3]);
    assert_eq!(&framed[4..], &payload[..]);
}

#[test]
fn encode_refuses_a_payload_above_the_maximum() {
    assert_eq!(encode_frame(&vec![1, 2, 3], 2), Err(too_big()));
    assert_eq!(frame_too_big_error(), too_big());
    assert_eq!(encode_frame(&vec![1, 2], 2).unwrap(), vec![0, 0, 0, 2, 1, 2]);
}

#[test]
fn decode_length_reads_a_big_endian_length() {
    assert_eq!(decode_length(&vec![0, 0, 1, 2], DEFAULT_MAX_FRAME_LENGTH), Ok(258));
    assert_eq!(decode_length(&vec![0, 1, 2, 3], DEFAULT_MAX_FRAME_LENGTH), Ok(66051));
    assert_eq!(decode_length(&vec![255, 255, 255, 255], u32::MAX), Ok(u32::MAX));
    assert_eq!(decode_length(&vec![0, 0, 0, 9, 1, 1], 9), Ok(9));
}

#[test]
fn decode_length_refuses_a_length_above_the_maximum() {
    assert_eq!(decode_length(&vec![0, 0, 0, 10], 9), Err(too_big()));
    assert_eq!(decode_length(&vec![1, 0, 0, 0], DEFAULT_MAX_FRAME_LENGTH), Err(too_big()));
}

#[test]
fn decode_length_of_a_short_header_is_an_early_end() {
    assert_eq!(decode_length(&vec![0, 0, 0], 9), Err(stream_ended_early_error()));
    assert_eq!(
        stream_ended_early_error(),
        TransportError::Io {
            kind: IoErrorKind::Other,
            description: "bytes remaining on stream".to_string()
        }
    );
}

#[test]
fn decode_waits_for_a_whole_frame() {
    assert_eq!(decode_frame(&vec![], 16), Ok(None));
    assert_eq!(decode_frame(&vec![0, 0, 0], 16), Ok(None));
    assert_eq!(decode_frame(&vec![0, 0, 0, 2, 9], 16), Ok(None));
}

#[test]
fn decode_takes_one_frame_and_leaves_the_rest() {
    assert_eq!(decode_frame(&vec![0, 0, 0, 2, 9, 8, 7, 6], 16), Ok(Some((vec![9, 8], 6))));
    assert_eq!(decode_frame(&vec![0, 0, 0, 0], 16), Ok(Some((vec![], 4))));
}

#[test]
fn decode_refuses_a_declared_length_above_the_maximum_before_any_payload() {
    assert_eq!(decode_frame(&vec![0, 0, 0, 17], 16), Err(too_big()));
    assert_eq!(decode_frame(&vec![255, 255, 255, 255, 1], 16), Err(too_big()));
}

#[test]
fn decode_inverts_encode() {
    for len in [0usize, 1, 2, 255, 256, 257, 70000] {
        let payload: Vec<u8> = (0..len).map(|i| (i % 251) as u8).collect();
        let mut wire = encode_frame(&payload, DEFAULT_MAX_FRAME_LENGTH).unwrap();
        wire.extend_from_slice(&[1, 2, 3]);
        assert_eq!(
            decode_frame(&wire, DEFAULT_MAX_FRAME_LENGTH),
            Ok(Some((payload, 4 + len)))
        );
    }
}

#[test]
fn frames_agree_with_the_length_delimited_codec() {
    for len in [0usize, 1, 5, 300, 66051] {
        let payload: Vec<u8> = (0..len).map(|i| (i % 13) as u8).collect();
        let ours = encode_frame(&payload, DEFAULT_MAX_FRAME_LENGTH).unwrap();

        let mut codec = LengthDelimitedCodec::new();
        let mut theirs = BytesMut::new();
        codec.encode(Bytes::from(payload.clone()), &mut theirs).unwrap();
        assert_eq!(ours, theirs.to_vec());

        let mut buffer = BytesMut::from(&ours[..]);
        let decoded = codec.decode(&mut buffer).unwrap().unwrap();
        assert_eq!(decoded.to_vec(), payload);
        assert_eq!(
            decode_frame(&theirs.to_vec(), DEFAULT_MAX_FRAME_LENGTH),
            Ok(Some((payload, 4 + len)))
        );
    }
}

#[test]
fn the_length_delimited_codec_refuses_what_we_refuse() {
    let mut codec = LengthDelimitedCodec::builder().max_frame_length(16).new_codec();
    let mut wire = BytesMut::from(&[0u8, 0, 0, 17][..]);
    assert!(codec.decode(&mut wire).is_err());
    assert_eq!(decode_frame(&vec![0, 0, 0, 17], 16), Err(too_big()));
    let mut out = BytesMut::new();
    assert!(codec.encode(Bytes::from(vec![0u8; 17]), &mut out).is_err());
    assert_eq!(encode_frame(&vec![0u8; 17], 16), Err(too_big()));
}
