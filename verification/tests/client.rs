use remote_trait_object::error::{CallError, ConfigError, ProtocolViolation, ShutdownError};
use remote_trait_object::packet::{Packet, PacketHeader, ServiceObjectId};
use remote_trait_object::config::Config;
use remote_trait_object::port::client::{Client, JoinEvent, JOIN_TIMEOUT_MILLIS};
use remote_trait_object::port::BasicPort;
use remote_trait_object::service::Dispatch;

fn request(body: &[u8]) -> Packet {
    Packet::new_request(
        ServiceObjectId {
            index: 5,
        },
        9,
        body,
    )
}

fn response(slot: u32, body: &[u8]) -> Vec<u8> {
    Packet::new_with(
        PacketHeader {
            slot,
            handle: ServiceObjectId {
                index: 0,
            },
            method: 9,
        },
        body,
    )
    .into_vec()
}

#[test]
fn client_slot_counts() {
    assert!(matches!(Client::new(1001), Err(ConfigError::CallSlots)));
    let mut none = Client::new(0).unwrap();
    assert_eq!(none.call_slots(), 0);
    assert!(matches!(none.begin_call(request(&[]).view_packet()), Err(CallError::TooManyCalls)));
    assert_eq!(none.deliver(response(0, &[])), Err(ProtocolViolation::UnknownSlot));
    assert!(none.finish_call(0).is_none());
    assert_eq!(none.calls_in_flight(), 0);
    for n in [1usize, 2, 7, 1000] {
        let mut client = Client::new(n).unwrap();
        for expected in 0..n as u32 {
            let stamped = client.begin_call(request(&[]).view_packet()).unwrap();
            assert_eq!(stamped.header().slot, 1000 + expected);
        }
        assert!(client.begin_call(request(&[]).view_packet()).is_err());
        assert_eq!(client.calls_in_flight(), n);
    }
    let client = Client::new(1000).unwrap();
    assert_eq!(client.call_slots(), 1000);
    assert_eq!(client.calls_in_flight(), 0);
}

#[test]
fn requests_are_stamped_with_their_slot() {
    let mut client = Client::new(3).unwrap();
    let first = client.begin_call(request(&[1]).view_packet()).unwrap();
    let second = client.begin_call(request(&[2, 2]).view_packet()).unwrap();
    assert_eq!(
        first.header(),
        PacketHeader {
            slot: 1000,
            handle: ServiceObjectId {
                index: 5
            },
            method: 9
        }
    );
    assert_eq!(first.data(), &[1]);
    assert_eq!(second.header().slot, 1001);
    assert_eq!(second.data(), &[2, 2]);
    assert_eq!(client.calls_in_flight(), 2);
}

#[test]
fn in_flight_never_exceeds_the_slots() {
    let mut client = Client::new(4).unwrap();
    for expected in 1..=4 {
        client.begin_call(request(&[]).view_packet()).unwrap();
        assert_eq!(client.calls_in_flight(), expected);
    }
    for _ in 0..3 {
        assert!(matches!(
            client.begin_call(request(&[]).view_packet()),
            Err(CallError::TooManyCalls)
        ));
        assert_eq!(client.calls_in_flight(), 4);
    }
}

#[test]
fn responses_find_their_callers_in_any_order() {
    let mut client = Client::new(3).unwrap();
    for _ in 0..3 {
        client.begin_call(request(&[]).view_packet()).unwrap();
    }
    assert_eq!(client.deliver(response(2, &[22])), Ok(2));
    assert_eq!(client.deliver(response(0, &[10])), Ok(0));
    assert!(client.finish_call(1).is_none());
    assert_eq!(client.finish_call(0).unwrap().data(), &[10]);
    assert_eq!(client.deliver(response(1, &[])), Ok(1));
    assert_eq!(client.finish_call(2).unwrap().data(), &[22]);
    assert!(client.finish_call(1).unwrap().data().is_empty());
    assert_eq!(client.calls_in_flight(), 0);
}

#[test]
fn freed_slots_queue_up_behind_the_free_ones() {
    let mut client = Client::new(3).unwrap();
    let a = client.begin_call(request(&[]).view_packet()).unwrap();
    assert_eq!(a.header().slot, 1000);
    client.deliver(response(0, &[])).unwrap();
    client.finish_call(0).unwrap();
    let slots: Vec<u32> =
        (0..3).map(|_| client.begin_call(request(&[]).view_packet()).unwrap().header().slot).collect();
    assert_eq!(slots, vec![1001, 1002, 1000]);
}

#[test]
fn violations_of_the_client() {
    let mut client = Client::new(2).unwrap();
    assert_eq!(client.deliver(vec![0; 11]), Err(ProtocolViolation::MalformedPacket));
    assert_eq!(client.deliver(response(0, &[])), Err(ProtocolViolation::UnknownSlot));
    client.begin_call(request(&[]).view_packet()).unwrap();
    assert_eq!(client.deliver(response(1, &[])), Err(ProtocolViolation::UnknownSlot));
    assert_eq!(client.deliver(response(2, &[])), Err(ProtocolViolation::UnknownSlot));
    assert_eq!(client.deliver(response(1000, &[])), Err(ProtocolViolation::UnknownSlot));
    assert_eq!(client.deliver(response(0, &[1])), Ok(0));
    assert_eq!(client.deliver(response(0, &[2])), Err(ProtocolViolation::UnknownSlot));
    assert_eq!(client.finish_call(0).unwrap().data(), &[1]);
    assert!(client.finish_call(0).is_none());
    assert!(client.finish_call(7).is_none());
    assert_eq!(client.calls_in_flight(), 0);
}

#[test]
fn client_shutdown_outcomes() {
    assert_eq!(JOIN_TIMEOUT_MILLIS, 100);
    assert_eq!(Client::new(1).unwrap().shutdown(JoinEvent::Joined), Ok(()));
    let port: BasicPort<dyn Dispatch> = BasicPort::new(&Config::default_setup()).unwrap();
    assert_eq!(port.shutdown_client(JoinEvent::Joined), Ok(()));
    assert_eq!(port.shutdown_client(JoinEvent::TimedOut), Err(ShutdownError::ReceiverRunning));
    assert_eq!(
        Client::new(1).unwrap().shutdown(JoinEvent::TimedOut),
        Err(ShutdownError::ReceiverRunning)
    );
    assert_eq!(
        Client::new(1).unwrap().shutdown(JoinEvent::Disconnected),
        Err(ShutdownError::ReceiverLost)
    );
}
