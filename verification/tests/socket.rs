use remote_trait_object::transport::socket::{
    connect_step, frame, frame_length, frame_prefix, ConnectStep, FrameError, SocketArguments,
    CONNECT_ATTEMPTS, CONNECT_PAUSE_MILLIS, FRAME_PREFIX_SIZE,
};

#[test]
fn frames_carry_their_length_first() {
    assert_eq!(FRAME_PREFIX_SIZE, 8);
    assert_eq!(frame(&[9, 8, 7]), Ok(vec![0, 0, 0, 0, 0, 0, 0, 3, 9, 8, 7]));
    assert_eq!(frame(&[]), Err(FrameError::Empty));
    assert_eq!(frame_prefix(0x0102_0304), vec![0, 0, 0, 0, 1, 2, 3, 4]);
    assert_eq!(frame_prefix(300), 300usize.to_be_bytes().to_vec());
}

#[test]
fn prefixes_announce_lengths() {
    assert_eq!(frame_length(&[0, 0, 0, 0, 0, 0, 1, 44]), Ok(300));
    assert_eq!(frame_length(&[0; 8]), Err(FrameError::Empty));
    assert_eq!(frame_length(&(usize::MAX as u64).to_be_bytes()), Ok(usize::MAX));
    for len in [1usize, 255, 256, 65535, 65536, 300_000, usize::MAX] {
        let prefix: [u8; 8] = frame_prefix(len).try_into().unwrap();
        assert_eq!(frame_length(&prefix), Ok(len));
    }
}

#[test]
fn huge_payload_frames() {
    let huge_data = {
        let mut v = Vec::new();
        for i in 0..300 {
            v.push((i % 255) as u8)
        }
        v
    };
    let framed = frame(&huge_data).unwrap();
    let prefix: [u8; 8] = framed[..8].try_into().unwrap();
    assert_eq!(frame_length(&prefix), Ok(300));
    assert_eq!(&framed[8..], &huge_data[..]);
}

#[test]
fn connecting_gives_up_after_a_hundred_attempts() {
    assert_eq!(CONNECT_ATTEMPTS, 100);
    assert_eq!(CONNECT_PAUSE_MILLIS, 10);
    assert_eq!(connect_step(0, true), ConnectStep::Connected);
    assert_eq!(connect_step(99, true), ConnectStep::Connected);
    assert_eq!(connect_step(0, false), ConnectStep::Retry);
    assert_eq!(connect_step(98, false), ConnectStep::Retry);
    assert_eq!(connect_step(99, false), ConnectStep::GiveUp);
    assert_eq!(connect_step(u32::MAX, false), ConnectStep::GiveUp);
}

#[test]
fn both_ends_meet_on_the_same_sockets() {
    let (server, client) = SocketArguments::for_both_ends("/tmp/a", "/tmp/b");
    assert!(server.am_i_server);
    assert!(!client.am_i_server);
    assert_eq!((server.address_send.as_str(), server.address_recv.as_str()), ("/tmp/a", "/tmp/b"));
    assert_eq!((client.address_send.as_str(), client.address_recv.as_str()), ("/tmp/a", "/tmp/b"));
    assert_eq!(client.write().unwrap(), serde_cbor::to_vec(&(false, "/tmp/a", "/tmp/b")).unwrap());
    let written = server.write().unwrap();
    assert_eq!(written, serde_cbor::to_vec(&(true, "/tmp/a", "/tmp/b")).unwrap());
    let read = SocketArguments::read(&written).unwrap();
    assert!(read.am_i_server);
    assert_eq!(read.address_send, "/tmp/a");
    assert_eq!(read.address_recv, "/tmp/b");
    assert!(SocketArguments::read(&serde_cbor::to_vec(&(true, "/tmp/a")).unwrap()).is_none());
    assert!(SocketArguments::read(&[]).is_none());
}
