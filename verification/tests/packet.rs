use remote_trait_object::error::ProtocolViolation;
use remote_trait_object::packet::{
    slot_into_request, slot_into_response, Packet, PacketHeader, PacketView, ServiceObjectId,
    DELETE_INDICATOR, HEADER_SIZE, SLOT_CALL_OR_RETURN_INDICATOR,
};

#[test]
fn encoding_packet_header() {
    let ph1 = PacketHeader {
        slot: 0x1234,
        handle: ServiceObjectId {
            index: 0x8888,
        },
        method: 0x5678,
    };
    let mut buffer = vec![0 as u8; std::mem::size_of::<PacketHeader>()];
    ph1.write(&mut buffer);
    let ph2 = PacketHeader::new(&buffer);
    assert_eq!(ph2, ph1);
}

#[test]
fn header_is_twelve_little_endian_bytes() {
    let header = PacketHeader {
        slot: 0x0403_0201,
        handle: ServiceObjectId {
            index: 0x0807_0605,
        },
        method: 0x0c0b_0a09,
    };
    let mut buffer = vec![0xffu8; 14];
    header.write(&mut buffer);
    assert_eq!(buffer, vec![1, 2, 3, 4, 5, 6, 7, 8, 9, 10, 11, 12, 0xff, 0xff]);
    assert_eq!(HEADER_SIZE, 12);
    assert_eq!(std::mem::size_of::<PacketHeader>(), HEADER_SIZE);
}

#[test]
fn header_extremes_round_trip() {
    for &(slot, index, method) in
        &[(0u32, 0u32, 0u32), (u32::MAX, u32::MAX, u32::MAX), (1000, 0, 1234), (255, 256, 65536)]
    {
        let header = PacketHeader {
            slot,
            handle: ServiceObjectId {
                index,
            },
            method,
        };
        let mut buffer = vec![0u8; HEADER_SIZE];
        header.write(&mut buffer);
        assert_eq!(PacketHeader::new(&buffer), header);
    }
}

#[test]
fn constants_of_the_wire() {
    assert_eq!(SLOT_CALL_OR_RETURN_INDICATOR, 1000);
    assert_eq!(DELETE_INDICATOR, 1234);
}

#[test]
fn slot_encoding() {
    assert_eq!(slot_into_request(0), 1000);
    assert_eq!(slot_into_request(999), 1999);
    assert_eq!(slot_into_response(1000), Some(0));
    assert_eq!(slot_into_response(1999), Some(999));
    assert_eq!(slot_into_response(999), None);
    assert_eq!(slot_into_response(0), None);
    assert_eq!(slot_into_response(2000), Some(1000));
    assert_eq!(slot_into_response(u32::MAX), Some(u32::MAX - 1000));
}

#[test]
fn packet_parts() {
    let packet = Packet::new_request(
        ServiceObjectId {
            index: 7,
        },
        3,
        &[10, 20, 30],
    );
    assert_eq!(packet.buffer(), &[0, 0, 0, 0, 7, 0, 0, 0, 3, 0, 0, 0, 10, 20, 30]);
    assert_eq!(packet.data(), &[10, 20, 30]);
    assert_eq!(
        packet.header(),
        PacketHeader {
            slot: 0,
            handle: ServiceObjectId {
                index: 7
            },
            method: 3
        }
    );
    let stamped = packet.with_slot(1005);
    assert_eq!(stamped.header().slot, 1005);
    assert_eq!(stamped.data(), &[10, 20, 30]);
    let view = stamped.view_packet();
    assert_eq!(view.slot(), 1005);
    assert_eq!(view.object_id().index, 7);
    assert_eq!(view.method(), 3);
    assert_eq!(view.data(), &[10, 20, 30]);
    assert_eq!(view.to_owned().into_vec(), stamped.buffer().to_vec());
}

#[test]
fn short_messages_are_no_packets() {
    assert!(matches!(PacketView::parse(&[0u8; 11]), Err(ProtocolViolation::MalformedPacket)));
    assert!(matches!(Packet::parse(vec![]), Err(ProtocolViolation::MalformedPacket)));
    assert!(PacketView::parse(&[0u8; 12]).is_ok());
    let empty_body = Packet::parse(vec![0u8; 12]).unwrap();
    assert!(empty_body.data().is_empty());
}
