use libshpool::protocol::{
    env_get, AttachHeader, Chunk, ChunkKind, FrameError, TtySize, CHUNK_HEADER_LEN,
};

fn pair(k: &str, v: &str) -> (String, String) {
    (k.to_string(), v.to_string())
}

#[test]
fn data_frame_has_tag_length_and_payload() {
    let mut out = Vec::new();
    let chunk = Chunk::data(b"hi\n".to_vec());
    assert_eq!(chunk.write_to(&mut out), Ok(()));
    assert_eq!(out, vec![0u8, 3, 0, 0, 0, b'h', b'i', b'\n']);
}

#[test]
fn heartbeat_frame_has_no_payload() {
    let mut out = vec![9u8];
    assert_eq!(Chunk::heartbeat().write_to(&mut out), Ok(()));
    assert_eq!(out, vec![9u8, 1, 0, 0, 0, 0]);
}

#[test]
fn length_is_little_endian() {
    let mut out = Vec::new();
    let payload = vec![7u8; 258];
    assert_eq!(Chunk::data(payload).write_to(&mut out), Ok(()));
    assert_eq!(&out[..5], &[0u8, 2, 1, 0, 0]);
    assert_eq!(out.len(), CHUNK_HEADER_LEN + 258);
}

#[test]
fn frame_round_trip_leaves_the_rest() {
    let mut out = Vec::new();
    Chunk::data(b"abc".to_vec()).write_to(&mut out).unwrap();
    Chunk::heartbeat().write_to(&mut out).unwrap();
    let (first, used) = Chunk::read_from(&out).unwrap();
    assert_eq!(first.kind, ChunkKind::Data);
    assert_eq!(first.buf, b"abc".to_vec());
    assert_eq!(used, 8);
    let (second, used2) = Chunk::read_from(&out[used..]).unwrap();
    assert_eq!(second.kind, ChunkKind::Heartbeat);
    assert!(second.buf.is_empty());
    assert_eq!(used2, 5);
}

#[test]
fn short_input_is_incomplete() {
    assert!(matches!(Chunk::read_from(&[0u8, 1, 0]), Err(FrameError::Incomplete)));
    assert!(matches!(Chunk::read_from(&[0u8, 2, 0, 0, 0, 1]), Err(FrameError::Incomplete)));
    assert!(matches!(Chunk::read_from(&[]), Err(FrameError::Incomplete)));
}

#[test]
fn unknown_tag_is_reported() {
    assert!(matches!(Chunk::read_from(&[7u8, 0, 0, 0, 0]), Err(FrameError::UnknownKind(7))));
}

#[test]
fn tags_of_kinds() {
    assert_eq!(ChunkKind::Data.tag(), 0);
    assert_eq!(ChunkKind::Heartbeat.tag(), 1);
    assert_eq!(ChunkKind::from_tag(0), Some(ChunkKind::Data));
    assert_eq!(ChunkKind::from_tag(1), Some(ChunkKind::Heartbeat));
    assert_eq!(ChunkKind::from_tag(2), None);
}

#[test]
fn fallback_size_is_24_by_80() {
    assert_eq!(TtySize::fallback(), TtySize { rows: 24, cols: 80, xpixel: 0, ypixel: 0 });
}

#[test]
fn env_get_takes_the_first_value() {
    let env = vec![pair("A", "1"), pair("TERM", "xterm"), pair("TERM", "vt100")];
    assert_eq!(env_get(&env, "TERM"), Some("xterm"));
    assert_eq!(env_get(&env, "A"), Some("1"));
    assert_eq!(env_get(&env, "B"), None);
    assert_eq!(env_get(&Vec::new(), "A"), None);
}

#[test]
fn local_env_get_reads_the_header() {
    let header = AttachHeader {
        name: "work".to_string(),
        local_tty_size: TtySize::fallback(),
        local_env: vec![pair("LANG", "C"), pair("SSH_AUTH_SOCK", "/tmp/agent")],
        ttl_secs: None,
        cmd: None,
    };
    assert_eq!(header.local_env_get("SSH_AUTH_SOCK"), Some("/tmp/agent"));
    assert_eq!(header.local_env_get("TERM"), None);
}
