use bytes::{BufMut, BytesMut};
use landrop::protocol::codec::{CodecError, FrameCodec, MAX_FRAME_SIZE};
use landrop::protocol::messages::{
    reply_mismatch, Capabilities, Chunk, Hello, MessageKind, ProtocolError, WireMessage,
    MAX_CHUNK_SIZE, PROTOCOL_VERSION,
};
use landrop::protocol::messages::{count_files, FileEntry};

fn hello_payload() -> Vec<u8> {
    b"hello from TestDevice on macos, fingerprint abc123".to_vec()
}

#[test]
fn encode_decode_roundtrip() {
    let mut codec = FrameCodec;
    let mut buf = BytesMut::new();
    let msg = hello_payload();
    codec.encode(&msg, &mut buf).unwrap();
    let decoded = codec.decode(&mut buf).unwrap().unwrap();
    assert_eq!(decoded, msg);
    assert!(buf.is_empty());
}

#[test]
fn partial_frame_returns_none() {
    let mut codec = FrameCodec;
    let mut buf = BytesMut::new();
    codec.encode(&hello_payload(), &mut buf).unwrap();
    let full = buf.clone();
    let mut partial = BytesMut::from(&full[..full.len() - 2]);
    let result = codec.decode(&mut partial).unwrap();
    assert!(result.is_none());
    assert_eq!(&partial[..], &full[..full.len() - 2]);
}

#[test]
fn oversized_frame_errors() {
    let mut codec = FrameCodec;
    let mut buf = BytesMut::new();
    buf.put_u32((MAX_FRAME_SIZE + 1) as u32);
    assert!(codec.decode(&mut buf).is_err());
}

#[test]
fn oversized_frame_reports_declared_length() {
    let mut codec = FrameCodec;
    let mut buf = BytesMut::new();
    buf.put_u32((MAX_FRAME_SIZE + 1) as u32);
    buf.put_slice(&[1, 2, 3]);
    match codec.decode(&mut buf) {
        Err(CodecError::FrameTooLarge(n)) => assert_eq!(n, MAX_FRAME_SIZE + 1),
        other => panic!("unexpected {:?}", other),
    }
    assert_eq!(buf.len(), 7);
}

#[test]
fn encode_refuses_oversized_payload() {
    let mut codec = FrameCodec;
    let mut buf = BytesMut::new();
    let big = vec![0u8; MAX_FRAME_SIZE + 1];
    match codec.encode(&big, &mut buf) {
        Err(CodecError::FrameTooLarge(n)) => assert_eq!(n, MAX_FRAME_SIZE + 1),
        other => panic!("unexpected {:?}", other),
    }
    assert!(buf.is_empty());
}

#[test]
fn encode_writes_big_endian_header() {
    let mut codec = FrameCodec;
    let mut buf = BytesMut::new();
    codec.encode(&[7, 8, 9], &mut buf).unwrap();
    assert_eq!(&buf[..], &[0, 0, 0, 3, 7, 8, 9]);
}

#[test]
fn decode_takes_one_frame_and_leaves_the_rest() {
    let mut codec = FrameCodec;
    let mut buf = BytesMut::new();
    codec.encode(&[1, 2], &mut buf).unwrap();
    codec.encode(&[3], &mut buf).unwrap();
    assert_eq!(codec.decode(&mut buf).unwrap().unwrap(), vec![1, 2]);
    assert_eq!(codec.decode(&mut buf).unwrap().unwrap(), vec![3]);
    assert!(codec.decode(&mut buf).unwrap().is_none());
}

#[test]
fn short_header_is_incomplete() {
    let mut codec = FrameCodec;
    let mut buf = BytesMut::from(&[0u8, 0, 1][..]);
    assert!(codec.decode(&mut buf).unwrap().is_none());
    assert_eq!(buf.len(), 3);
}

#[test]
fn empty_payload_roundtrip() {
    let mut codec = FrameCodec;
    let mut buf = BytesMut::new();
    codec.encode(&[], &mut buf).unwrap();
    assert_eq!(&buf[..], &[0, 0, 0, 0]);
    assert_eq!(codec.decode(&mut buf).unwrap().unwrap(), Vec::<u8>::new());
}

#[test]
fn default_capabilities() {
    let c = Capabilities::default();
    assert_eq!(c.protocol_version, PROTOCOL_VERSION);
    assert_eq!(c.protocol_version, 1);
    assert_eq!(c.max_chunk_size, MAX_CHUNK_SIZE);
    assert_eq!(c.max_chunk_size, 262144);
    assert!(c.supports_tls13);
    assert!(c.supports_resume);
}

#[test]
fn message_kinds() {
    let hello = WireMessage::Hello(Hello {
        device_id: 1,
        session_id: 2,
        device_name: "TestDevice".into(),
        os: "macos".into(),
        cert_fingerprint: "abc123".into(),
        capabilities: Capabilities::default(),
    });
    assert_eq!(hello.kind(), MessageKind::Hello);
    let chunk = WireMessage::Chunk(Chunk {
        session_id: 1,
        file_id: 2,
        seq: 42,
        offset: 1024,
        data: vec![0u8; 256],
        eof: false,
    });
    assert_eq!(chunk.kind(), MessageKind::Chunk);
    assert_eq!(
        reply_mismatch(MessageKind::ManifestAck, &Some(chunk)),
        ProtocolError::Unexpected { expected: MessageKind::ManifestAck, got: MessageKind::Chunk }
    );
    assert_eq!(
        reply_mismatch(MessageKind::ManifestAck, &None),
        ProtocolError::Closed { expected: MessageKind::ManifestAck }
    );
}

#[test]
fn count_files_skips_directories() {
    let files = vec![
        FileEntry { file_id: 1, relative_path: "d".into(), size: 0, is_dir: true },
        FileEntry { file_id: 2, relative_path: "d/a".into(), size: 5, is_dir: false },
        FileEntry { file_id: 3, relative_path: "d/b".into(), size: 7, is_dir: false },
    ];
    assert_eq!(count_files(&files), 2);
    assert_eq!(count_files(&Vec::new()), 0);
}

#[test]
fn room_to_encode() {
    assert!(FrameCodec::can_encode(&BytesMut::new()));
    assert!(FrameCodec::can_encode(&BytesMut::from(&[1u8, 2, 3][..])));
}
