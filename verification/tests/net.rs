use std::collections::VecDeque;

use rustcycles::net::{frame, read_step, receive_frames, ReadResult, ReadStep, HEADER_LEN};

#[test]
fn handshake_version_format() {
    // Check this one message always has the same binary format
    // between different versions of the game.
    //
    // The message is `ClientMessage::Version(Version { .. })`; bincode writes an enum
    // as its variant index (u32) followed by the fields, so the same bytes come
    // from the tuple of the variant index and the fields in order.

    let v1 = (
        0u32,
        "RecWars".to_owned(),
        0x45u32,
        0x1a4u32,
        0x539u32,
        None::<String>,
        None::<u32>,
        None::<String>,
        None::<bool>,
        None::<String>,
    );
    let v2 = (
        0u32,
        "RustCycles".to_owned(),
        0x55555555u32,
        0xaaaaaaaau32,
        0xffffffffu32,
        Some("alpha.1".to_owned()),
        Some(0x29au32),
        Some("deadbeef".to_owned()),
        Some(true),
        Some(
            "MOTD: I learned a lot from my mistakes so i decided to make more mistakes to learn more.".to_owned(),
        ),
    );
    let serialized1 = frame(bincode::serialize(&v1).unwrap());
    let serialized2 = frame(bincode::serialize(&v2).unwrap());

    let mut hex = String::new();
    for b in &serialized1.bytes {
        hex.push_str(&format!("{:02x} ", b));
    }
    println!("{}", hex);

    let mut hex = String::new();
    for b in &serialized2.bytes {
        hex.push_str(&format!("{:02x} ", b));
    }
    println!("{}", hex);

    assert_eq!(
        serialized1.bytes,
        [
            0x28, 0x00, 0x00, 0x00, // total len
            0x00, 0x00, 0x00, 0x00, // message variant
            0x07, 0x00, 0x00, 0x00, 0x00, 0x00, 0x00, 0x00, // name len
            0x52, 0x65, 0x63, 0x57, 0x61, 0x72, 0x73, // "RecWars"
            0x45, 0x00, 0x00, 0x00, // major
            0xa4, 0x01, 0x00, 0x00, // minor
            0x39, 0x05, 0x00, 0x00, // patch
            0x00, // pre - None
            0x00, // commits - None
            0x00, // hash - None
            0x00, // dirty - None
            0x00, // extra - None
        ]
    );
    assert_eq!(
        serialized2.bytes,
        [
            0xaf, 0x00, 0x00, 0x00, // total len
            0x00, 0x00, 0x00, 0x00, // message variant
            0x0a, 0x00, 0x00, 0x00, 0x00, 0x00, 0x00, 0x00, // name len
            0x52, 0x75, 0x73, 0x74, 0x43, 0x79, 0x63, 0x6c, 0x65, 0x73, // "RustCycles"
            0x55, 0x55, 0x55, 0x55, // major
            0xaa, 0xaa, 0xaa, 0xaa, // minor
            0xff, 0xff, 0xff, 0xff, // patch
            0x01, // pre - Some
            0x07, 0x00, 0x00, 0x00, 0x00, 0x00, 0x00, 0x00, // pre len
            0x61, 0x6c, 0x70, 0x68, 0x61, 0x2e, 0x31, // "alpha.1"
            0x01, // commits - Some
            0x9a, 0x02, 0x00, 0x00, // commits
            0x01, // hash - Some
            0x08, 0x00, 0x00, 0x00, 0x00, 0x00, 0x00, 0x00, // hash len
            0x64, 0x65, 0x61, 0x64, 0x62, 0x65, 0x65, 0x66, // "deadbeef"
            0x01, // dirty - Some
            0x01, // dirty
            0x01, // extra - Some
            0x58, 0x00, 0x00, 0x00, 0x00, 0x00, 0x00, 0x00, // extra len
            0x4d, 0x4f, 0x54, 0x44, 0x3a, 0x20, 0x49, 0x20, 0x6c, 0x65, 0x61, 0x72, 0x6e, 0x65,
            0x64, 0x20, 0x61, 0x20, 0x6c, 0x6f, 0x74, 0x20, 0x66, 0x72, 0x6f, 0x6d, 0x20, 0x6d,
            0x79, 0x20, 0x6d, 0x69, 0x73, 0x74, 0x61, 0x6b, 0x65, 0x73, 0x20, 0x73, 0x6f, 0x20,
            0x69, 0x20, 0x64, 0x65, 0x63, 0x69, 0x64, 0x65, 0x64, 0x20, 0x74, 0x6f, 0x20, 0x6d,
            0x61, 0x6b, 0x65, 0x20, 0x6d, 0x6f, 0x72, 0x65, 0x20, 0x6d, 0x69, 0x73, 0x74, 0x61,
            0x6b, 0x65, 0x73, 0x20, 0x74, 0x6f, 0x20, 0x6c, 0x65, 0x61, 0x72, 0x6e, 0x20, 0x6d,
            0x6f, 0x72, 0x65, 0x2e,
        ]
    )
}

#[test]
fn frame_prefixes_length() {
    assert_eq!(HEADER_LEN, 4);
    assert_eq!(frame(vec![]).bytes, vec![4, 0, 0, 0]);
    assert_eq!(frame(vec![7, 8, 9]).bytes, vec![7, 0, 0, 0, 7, 8, 9]);
    let big = vec![1u8; 0x1_02];
    let m = frame(big.clone());
    assert_eq!(&m.bytes[..4], &[0x06, 0x01, 0, 0]);
    assert_eq!(&m.bytes[4..], &big[..]);
}

#[test]
fn receive_whole_messages_in_order() {
    let mut buffer: VecDeque<u8> = VecDeque::new();
    let contents: [Vec<u8>; 3] = [vec![1, 2, 3], vec![], vec![4]];
    for content in contents {
        buffer.extend(frame(content).bytes);
    }
    let (msgs, malformed) = receive_frames(&mut buffer);
    assert_eq!(msgs, vec![vec![1, 2, 3], vec![], vec![4]]);
    assert!(!malformed);
    assert!(buffer.is_empty());
}

#[test]
fn receive_keeps_partial_message() {
    let mut wire = frame(vec![10, 20]).bytes;
    wire.extend(frame(vec![30, 40, 50]).bytes);

    // Feed the bytes one at a time: messages come out exactly when complete.
    let mut buffer: VecDeque<u8> = VecDeque::new();
    let mut received = Vec::new();
    for (i, b) in wire.iter().enumerate() {
        buffer.push_back(*b);
        let (msgs, malformed) = receive_frames(&mut buffer);
        assert!(!malformed);
        if i == 5 {
            assert_eq!(msgs, vec![vec![10, 20]]);
        } else if i == wire.len() - 1 {
            assert_eq!(msgs, vec![vec![30, 40, 50]]);
        } else {
            assert!(msgs.is_empty());
        }
        received.extend(msgs);
    }
    assert_eq!(received, vec![vec![10, 20], vec![30, 40, 50]]);
    assert!(buffer.is_empty());

    // A header announcing more than has arrived leaves everything in the buffer.
    let mut buffer: VecDeque<u8> = VecDeque::from(vec![9, 0, 0, 0, 1, 2]);
    assert_eq!(receive_frames(&mut buffer), (vec![], false));
    assert_eq!(buffer, VecDeque::from(vec![9, 0, 0, 0, 1, 2]));
    let mut short: VecDeque<u8> = VecDeque::from(vec![1, 0]);
    assert_eq!(receive_frames(&mut short), (vec![], false));
    assert_eq!(short.len(), 2);
}

#[test]
fn receive_reports_malformed_header() {
    // A total length below the header's own length is never sent.
    let mut buffer: VecDeque<u8> = VecDeque::new();
    buffer.extend(frame(vec![1]).bytes);
    buffer.extend([3u8, 0, 0, 0, 42]);
    let (msgs, malformed) = receive_frames(&mut buffer);
    assert_eq!(msgs, vec![vec![1]]);
    assert!(malformed);
    assert_eq!(buffer, VecDeque::from(vec![3, 0, 0, 0, 42]));
}

#[test]
fn read_steps() {
    assert_eq!(read_step(ReadResult::Read(0)), ReadStep::Closed);
    assert_eq!(read_step(ReadResult::Read(8192)), ReadStep::KeepReading);
    assert_eq!(read_step(ReadResult::Interrupted), ReadStep::KeepReading);
    assert_eq!(read_step(ReadResult::WouldBlock), ReadStep::Done);
    assert_eq!(read_step(ReadResult::Failed), ReadStep::Closed);
}
