use dc_dispatch::probe::{Info, Registry, Variant};
use dc_dispatch::stream::{BidirectionalStream, ReceiveStream, SendStream, Stream};

#[test]
fn registry_hands_out_recorders_by_kind() {
    let r = Registry::new();
    assert_eq!(r.register_counter(&Info { id: 0 }).id(), 0);
    assert_eq!(r.register_counter(&Info { id: 162 }).id(), 162);
    assert_eq!(r.register_bool_counter(&Info { id: 23 }).id(), 23);
    let n = r.register_nominal_counter(&Info { id: 4 }, &Variant { id: 2 });
    assert_eq!((n.id(), n.variant()), (4, 2));
    assert_eq!(r.register_measure(&Info { id: 156 }).id(), 156);
    assert_eq!(r.register_timer(&Info { id: 47 }).id(), 47);
    let t = r.register_nominal_timer(&Info { id: 99 }, &Variant { id: 0 });
    assert_eq!((t.id(), t.variant()), (99, 0));
}

#[test]
fn stream_id_of_each_kind() {
    assert_eq!(Stream::Bidirectional(BidirectionalStream::new(4)).id(), 4);
    assert_eq!(Stream::Receive(ReceiveStream::new(3)).id(), 3);
    assert_eq!(Stream::Send(SendStream::new(2)).id(), 2);
}

#[test]
fn stream_from_each_kind() {
    assert_eq!(Stream::from(ReceiveStream::new(9)).id(), 9);
    assert!(matches!(Stream::from(SendStream::new(1)), Stream::Send(_)));
    assert!(matches!(Stream::from(BidirectionalStream::new(0)), Stream::Bidirectional(_)));
}
