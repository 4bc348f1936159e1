use skynet::BoundedChannel;

/// A channel of capacity 4 that receives 5 items before the drain drops the
/// 5th and delivers the first 4 in order.
#[test]
fn overflow_drops_fifth_keeps_first_four_in_order() {
    let mut c: BoundedChannel<u32> = BoundedChannel::new(4);
    assert!(c.send(10));
    assert!(c.send(11));
    assert!(c.send(12));
    assert!(c.send(13));
    assert!(!c.send(14), "the fifth send must be dropped");
    assert_eq!(c.len(), 4);
    assert_eq!(c.recv(), Some(10));
    assert_eq!(c.recv(), Some(11));
    assert_eq!(c.recv(), Some(12));
    assert_eq!(c.recv(), Some(13));
    assert_eq!(c.recv(), None);
}

#[test]
fn empty_channel_reports_empty_and_yields_nothing() {
    let mut c: BoundedChannel<String> = BoundedChannel::new(2);
    assert!(c.is_empty());
    assert_eq!(c.len(), 0);
    assert_eq!(c.recv(), None);
}

#[test]
fn room_reappears_after_receive() {
    let mut c: BoundedChannel<u8> = BoundedChannel::new(1);
    assert!(c.send(1));
    assert!(!c.send(2));
    assert_eq!(c.recv(), Some(1));
    assert!(c.send(3));
    assert_eq!(c.recv(), Some(3));
}

#[test]
fn zero_capacity_drops_everything() {
    let mut c: BoundedChannel<u8> = BoundedChannel::new(0);
    assert!(!c.send(1));
    assert_eq!(c.recv(), None);
}
