use task::frame::{
    decode_length, encode_frame, encode_length, frame_length, parse_frame, FrameError, FrameParse,
    MAX_MESSAGE_SIZE,
};

#[test]
fn decode_length_reads_big_endian() {
    assert_eq!(decode_length(&[0, 0, 1, 0]), 256);
    assert_eq!(decode_length(&[0x12, 0x34, 0x56, 0x78]), 0x1234_5678);
    assert_eq!(decode_length(&[0xff, 0xff, 0xff, 0xff]), u32::MAX);
    assert_eq!(decode_length(&[0, 0, 0, 0]), 0);
}

#[test]
fn encode_length_writes_big_endian() {
    assert_eq!(encode_length(256), vec![0, 0, 1, 0]);
    assert_eq!(encode_length(0x1234_5678), vec![0x12, 0x34, 0x56, 0x78]);
    assert_eq!(encode_length(u32::MAX), vec![0xff, 0xff, 0xff, 0xff]);
}

#[test]
fn encode_frame_prefixes_the_length() {
    assert_eq!(encode_frame(b"abc").unwrap(), vec![0, 0, 0, 3, b'a', b'b', b'c']);
    assert_eq!(encode_frame(b"").unwrap(), vec![0, 0, 0, 0]);
    let big = vec![7u8; 10_000];
    let framed = encode_frame(&big).unwrap();
    assert_eq!(framed.len(), 10_004);
    assert_eq!(&framed[..4], &[0, 0, 0x27, 0x10]);
    assert_eq!(&framed[4..], &big[..]);
}

#[test]
fn frame_length_accepts_up_to_the_maximum() {
    assert_eq!(frame_length(&[0, 0x10, 0, 0], MAX_MESSAGE_SIZE), Ok(1_048_576));
    assert_eq!(frame_length(&[0, 0, 0, 5], MAX_MESSAGE_SIZE), Ok(5));
}

#[test]
fn frame_length_rejects_over_the_maximum() {
    assert_eq!(
        frame_length(&[0, 0x10, 0, 1], MAX_MESSAGE_SIZE),
        Err(FrameError::TooLarge { declared: 1_048_577 })
    );
    assert_eq!(
        frame_length(&[0xff, 0xff, 0xff, 0xff], MAX_MESSAGE_SIZE),
        Err(FrameError::TooLarge { declared: u32::MAX })
    );
}

#[test]
fn parse_frame_waits_for_a_whole_prefix() {
    assert_eq!(parse_frame(&[], MAX_MESSAGE_SIZE), FrameParse::Incomplete);
    assert_eq!(parse_frame(&[0, 0, 0], MAX_MESSAGE_SIZE), FrameParse::Incomplete);
}

#[test]
fn parse_frame_waits_for_a_whole_payload() {
    assert_eq!(parse_frame(&[0, 0, 0, 3, 1, 2], MAX_MESSAGE_SIZE), FrameParse::Incomplete);
}

#[test]
fn parse_frame_rejects_oversized_before_the_body() {
    assert_eq!(
        parse_frame(&[0, 0, 0, 9, 1], 8),
        FrameParse::TooLarge { declared: 9 }
    );
}

#[test]
fn parse_frame_takes_one_frame_and_leaves_the_rest() {
    assert_eq!(
        parse_frame(&[0, 0, 0, 2, 9, 8, 0, 0], MAX_MESSAGE_SIZE),
        FrameParse::Complete { payload: vec![9, 8], consumed: 6 }
    );
    assert_eq!(
        parse_frame(&[0, 0, 0, 0], MAX_MESSAGE_SIZE),
        FrameParse::Complete { payload: vec![], consumed: 4 }
    );
}

#[test]
fn frames_read_back_in_sequence() {
    let payloads: Vec<Vec<u8>> = (0..5u8).map(|i| vec![i; i as usize + 1]).collect();
    let mut stream = Vec::new();
    for p in &payloads {
        stream.extend(encode_frame(p).unwrap());
    }
    let mut at = 0;
    for p in &payloads {
        match parse_frame(&stream[at..], MAX_MESSAGE_SIZE) {
            FrameParse::Complete { payload, consumed } => {
                assert_eq!(&payload, p);
                at += consumed;
            }
            other => panic!("unexpected {:?}", other),
        }
    }
    assert_eq!(at, stream.len());
}

#[test]
fn large_frame_round_trips() {
    let payload = vec![b'x'; 10_000];
    let mut stream = encode_frame(&payload).unwrap();
    stream.extend_from_slice(&[1, 2, 3]);
    assert_eq!(
        parse_frame(&stream, MAX_MESSAGE_SIZE),
        FrameParse::Complete { payload, consumed: 10_004 }
    );
}
