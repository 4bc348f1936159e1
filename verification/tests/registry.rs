use skynet::codec::encode_message;
use skynet::registry::{message_id, DispatchError, MessageRegistry, RegistrationError, MESSAGE_ID_SEED};
use skynet::router::{route_packet, PacketRouter, RouteError};
use skynet::UserId;

/// The wire identifier really is the 64-bit hash of the name: the library's
/// value matches the hashing crate called directly.
#[test]
fn message_id_matches_the_hash_of_the_name() {
    let expected = xxhash_rust::const_xxh64::xxh64("Ping".as_bytes(), MESSAGE_ID_SEED);
    assert_eq!(message_id("Ping"), expected);
    assert_ne!(message_id("Ping"), message_id("Pong"));
}

/// Registering two kinds with the same identifier is rejected and the first
/// registration stays intact.
#[test]
fn duplicate_registration_is_rejected_first_stays() {
    let mut reg = MessageRegistry::new();
    let handle = reg.insert("Ping".to_string(), 4).unwrap();
    assert_eq!(
        reg.insert("Ping".to_string(), 4).unwrap_err(),
        RegistrationError::DuplicateId
    );
    // the first registration still receives traffic
    assert!(reg.send(handle.id(), &[0xf6], UserId(3)).is_ok());
    let msg: skynet::Message<()> = reg.recv_message(&handle).unwrap().unwrap();
    assert_eq!(msg.sender, UserId(3));
}

/// An identifier nobody registered is refused as `UnknownMessage` and the
/// registry is left unmodified.
#[test]
fn unknown_identifier_is_refused() {
    let mut reg = MessageRegistry::new();
    let handle = reg.insert("Ping".to_string(), 4).unwrap();
    let other = message_id("Somebody Else");
    assert_eq!(
        reg.send(other, &[1, 2, 3], UserId(9)),
        Err(DispatchError::UnknownMessage)
    );
    // nothing was enqueued anywhere
    let msg: Result<Option<skynet::Message<()>>, _> = reg.recv_message(&handle);
    assert_eq!(msg.unwrap().is_none(), true);
}

/// Register "Ping" (empty payload), encode, dispatch: the packet is the
/// identifier's 8 bytes alone, and exactly one message with the right sender
/// appears in Ping's queue.
#[test]
fn ping_scenario() {
    let mut reg = MessageRegistry::new();
    let mut router = PacketRouter::new(8);
    let handle = reg.insert("Ping".to_string(), 4).unwrap();
    let id = handle.id();
    assert_eq!(id, message_id("Ping"));

    // a unit payload encodes to the header plus one CBOR byte
    let packet = encode_message(id, &()).unwrap();
    assert_eq!(packet[..8].to_vec(), id.to_le_bytes().to_vec());

    let sender = UserId(77);
    assert!(router.push_packet(sender, packet));
    router.route_all(&mut reg);

    let first: Option<skynet::Message<()>> = reg.recv_message(&handle).unwrap();
    let msg = first.expect("exactly one message must arrive");
    assert_eq!(msg.sender, sender);
    let second: Option<skynet::Message<()>> = reg.recv_message(&handle).unwrap();
    assert!(second.is_none(), "the message is consumed exactly once");
}

/// A payload that does not decode as the kind's type is discarded as
/// `Malformed`, and the queue moves on to the next payload.
#[test]
fn malformed_payload_is_discarded() {
    let mut reg = MessageRegistry::new();
    let handle = reg.insert("Counter".to_string(), 4).unwrap();
    // 0xff starts no complete CBOR item for u32
    assert!(reg.send(handle.id(), &[0xff], UserId(1)).is_ok());
    assert!(reg.send(handle.id(), &[0x07], UserId(2)).is_ok());
    let first: Result<Option<skynet::Message<u32>>, _> = reg.recv_message(&handle);
    assert_eq!(first.unwrap_err(), DispatchError::Malformed);
    let second: Option<skynet::Message<u32>> = reg.recv_message(&handle).unwrap();
    let msg = second.unwrap();
    assert_eq!(msg.payload, 7);
    assert_eq!(msg.sender, UserId(2));
}

/// A full kind queue drops the payload and counts the drop.
#[test]
fn full_kind_queue_drops_and_counts() {
    let mut reg = MessageRegistry::new();
    let handle = reg.insert("Busy".to_string(), 2).unwrap();
    assert!(reg.send(handle.id(), &[0x01], UserId(1)).is_ok());
    assert!(reg.send(handle.id(), &[0x02], UserId(1)).is_ok());
    assert_eq!(reg.dropped_count(), 0);
    assert!(reg.send(handle.id(), &[0x03], UserId(1)).is_ok());
    assert_eq!(reg.dropped_count(), 1);
}

/// A truncated packet is dropped at the router and never reaches any queue.
#[test]
fn truncated_packet_never_reaches_a_decoder() {
    let mut reg = MessageRegistry::new();
    let handle = reg.insert("Ping2".to_string(), 4).unwrap();
    assert_eq!(
        route_packet(&mut reg, UserId(5), &[1, 2, 3]),
        Err(RouteError::Truncated)
    );
    let nothing: Option<skynet::Message<()>> = reg.recv_message(&handle).unwrap();
    assert!(nothing.is_none());
}

/// The router drains everything it buffered and counts what it refused.
#[test]
fn router_counts_truncated_and_unknown() {
    let mut reg = MessageRegistry::new();
    let handle = reg.insert("Data".to_string(), 4).unwrap();
    let mut router = PacketRouter::new(8);
    assert!(router.push_packet(UserId(1), vec![1, 2]));
    assert!(router.push_packet(UserId(2), message_id("Nobody").to_le_bytes().to_vec()));
    let good = encode_message(handle.id(), &5u32).unwrap();
    assert!(router.push_packet(UserId(3), good));
    router.route_all(&mut reg);
    assert_eq!(router.truncated_count(), 1);
    assert_eq!(router.unknown_count(), 1);
    let msg: skynet::Message<u32> = reg.recv_message(&handle).unwrap().unwrap();
    assert_eq!(msg.payload, 5);
    assert_eq!(msg.sender, UserId(3));
}
