use akari::framing::{decode, frame, is_nul_free, recv, send, accept, Decoder, Error};

#[test]
fn frame_appends_nul() {
    assert_eq!(frame(b"{\"command\":\"start\"}"), Ok(b"{\"command\":\"start\"}\0".to_vec()));
    assert_eq!(frame(b""), Ok(vec![0u8]));
}

#[test]
fn frame_refuses_nul() {
    assert_eq!(frame(b"a\0b"), Err(Error::Nul));
    assert!(is_nul_free(b"abc"));
    assert!(!is_nul_free(b"abc\0"));
}

#[test]
fn two_frames_decode_in_order() {
    let stream = b"{\"command\":\"start\"}\0{\"command\":\"kill\"}\0";
    let (frames, tail) = decode(stream);
    assert_eq!(
        frames,
        vec![b"{\"command\":\"start\"}".to_vec(), b"{\"command\":\"kill\"}".to_vec()]
    );
    assert_eq!(tail, Vec::<u8>::new());
}

#[test]
fn partial_frame_waits_for_more() {
    let (frames, tail) = decode(b"{\"command\":\"start\"}\0{\"comm");
    assert_eq!(frames, vec![b"{\"command\":\"start\"}".to_vec()]);
    assert_eq!(tail, b"{\"comm".to_vec());
    let (frames, tail) = decode(b"no end yet");
    assert!(frames.is_empty());
    assert_eq!(tail, b"no end yet".to_vec());
    let (frames, tail) = decode(b"");
    assert!(frames.is_empty());
    assert!(tail.is_empty());
}

#[test]
fn empty_frames_are_frames() {
    let (frames, tail) = decode(b"\0\0x");
    assert_eq!(frames, vec![Vec::<u8>::new(), Vec::<u8>::new()]);
    assert_eq!(tail, b"x".to_vec());
}

#[test]
fn decoder_joins_pieces() {
    let mut decoder = Decoder::new();
    assert_eq!(decoder.pending(), 0);
    assert!(decoder.feed(b"{\"command\":").is_empty());
    assert_eq!(decoder.pending(), 11);
    let frames = decoder.feed(b"\"start\"}\0{\"command\":\"kill\"}\0{");
    assert_eq!(
        frames,
        vec![b"{\"command\":\"start\"}".to_vec(), b"{\"command\":\"kill\"}".to_vec()]
    );
    assert_eq!(decoder.pending(), 1);
    let frames = decoder.feed(b"}\0");
    assert_eq!(frames, vec![b"{}".to_vec()]);
    assert_eq!(decoder.pending(), 0);
}

#[test]
fn frame_then_decode_round_trip() {
    let texts: [&[u8]; 4] = [b"{}", b"[1,2,3]", b"\"a string\"", b"{\"a\":{\"b\":null}}"];
    let mut stream = Vec::new();
    for text in texts {
        stream.extend_from_slice(&frame(text).unwrap());
    }
    let (frames, tail) = decode(&stream);
    assert_eq!(frames.len(), 4);
    for i in 0..4 {
        assert_eq!(frames[i], texts[i].to_vec());
    }
    assert!(tail.is_empty());
}

#[test]
fn send_checks_json() {
    assert_eq!(send(b"{\"command\":\"start\"}"), Ok(b"{\"command\":\"start\"}\0".to_vec()));
    assert_eq!(send(b" [1, 2] "), Ok(b" [1, 2] \0".to_vec()));
    assert!(matches!(send(b"{\"command\":"), Err(Error::Serialization(_))));
    assert!(matches!(send(b"not json"), Err(Error::Serialization(_))));
    assert!(matches!(send(b""), Err(Error::Serialization(_))));
    assert_eq!(send(b"\"a\0b\""), Err(Error::Nul));
}

#[test]
fn recv_takes_the_first_message() {
    assert_eq!(
        recv(b"{\"command\":\"start\"}\0{\"command\":\"kill\"}\0"),
        Ok(Some(b"{\"command\":\"start\"}".to_vec()))
    );
    assert_eq!(recv(b"{\"command\":\"start\"}"), Ok(None));
    assert_eq!(recv(b""), Ok(None));
    assert!(matches!(recv(b"{\"command\"\0"), Err(Error::Serialization(_))));
    assert!(matches!(recv(b"\0"), Err(Error::Serialization(_))));
}

#[test]
fn send_then_recv_round_trip() {
    let text = b"{\"create\":{\"ociVersion\":\"1.0.2\"}}";
    let wire = send(text).unwrap();
    assert_eq!(recv(&wire), Ok(Some(text.to_vec())));
}

#[test]
fn accept_follows_the_verdict() {
    assert_eq!(accept(b"{}".to_vec(), Ok(())), Ok(b"{}".to_vec()));
    assert_eq!(
        accept(b"{".to_vec(), Err("EOF".to_string())),
        Err(Error::Serialization("EOF".to_string()))
    );
}
