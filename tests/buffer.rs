use dc_dispatch::buffer::{decode_datagrams, deliver, Buffer, Channel, Delivery, Either, Local, RecvError};
use dc_dispatch::descriptor::Half;
use dc_dispatch::dispatch::Dispatch;
use dc_dispatch::ring_deque::Error;
use dc_dispatch::varint::decode_at;

fn record(id: u8, half: u8, payload: &[u8]) -> Vec<u8> {
    let mut v = vec![id, half, payload.len() as u8];
    v.extend_from_slice(payload);
    v
}

#[test]
fn varint_examples_decode() {
    assert_eq!(decode_at(&vec![0x25], 0), Some((37, 1)));
    assert_eq!(decode_at(&vec![0x40, 0x25], 0), Some((37, 2)));
    assert_eq!(decode_at(&vec![0x7b, 0xbd], 0), Some((15293, 2)));
    assert_eq!(decode_at(&vec![0x9d, 0x7f, 0x3e, 0x7d], 0), Some((494878333, 4)));
    assert_eq!(
        decode_at(&vec![0xc2, 0x19, 0x7c, 0x5e, 0xff, 0x14, 0xe8, 0x8c], 0),
        Some((151288809941952652, 8))
    );
    assert_eq!(decode_at(&vec![0xff; 8], 0), Some(((1u64 << 62) - 1, 8)));
}

#[test]
fn varint_truncated_is_none() {
    assert_eq!(decode_at(&vec![0x7b], 0), None);
    assert_eq!(decode_at(&vec![0x25], 1), None);
    assert_eq!(decode_at(&vec![0xc2, 0, 0], 0), None);
}

#[test]
fn datagrams_decode_in_order() {
    let mut bytes = record(3, 1, b"hi");
    bytes.extend(record(0, 0, b""));
    let v = decode_datagrams(&bytes).unwrap();
    assert_eq!(v.len(), 2);
    assert_eq!(v[0].queue_id, 3);
    assert_eq!(v[0].half, Half::Stream);
    assert_eq!(v[0].payload, b"hi".to_vec());
    assert_eq!(v[1].queue_id, 0);
    assert_eq!(v[1].half, Half::Control);
    assert!(v[1].payload.is_empty());
}

#[test]
fn malformed_datagrams_do_not_decode() {
    assert!(decode_datagrams(&vec![0, 2, 0]).is_none());
    assert!(decode_datagrams(&vec![0, 1, 3, 1]).is_none());
    assert!(decode_datagrams(&vec![0]).is_none());
    assert_eq!(decode_datagrams(&vec![]).map(|v| v.len()), Some(0));
}

#[test]
fn deliver_pushes_or_reports_miss() {
    let mut d: Dispatch<Vec<u8>, u32> = Dispatch::new();
    let (sender, control, _stream) = d.create(1, 1);
    let id = sender.queue_id();
    assert!(matches!(deliver(&mut d, id + 5, Half::Control, vec![1]), Delivery::Unroutable));
    assert!(matches!(deliver(&mut d, id, Half::Control, vec![1]), Delivery::Sent(Ok(None))));
    assert!(matches!(
        deliver(&mut d, id, Half::Control, vec![2]),
        Delivery::Sent(Err(Error::Full))
    ));
    assert_eq!(control.try_recv(&mut d), Ok(Some(vec![1])));
}

#[test]
fn channel_routes_each_datagram() {
    let mut d: Dispatch<Vec<u8>, u32> = Dispatch::new();
    let (s0, c0, t0) = d.create(10, 4);
    let (s1, _c1, t1) = d.create(11, 4);
    let mut ch = Channel::new();
    assert!(ch.is_empty());
    let mut bytes = record(s1.queue_id() as u8, 1, b"x");
    bytes.extend(record(s0.queue_id() as u8, 0, b"ctl"));
    bytes.extend(record(s0.queue_id() as u8, 1, b"data"));
    ch.fill(&bytes);
    assert!(!ch.is_empty());
    assert_eq!(ch.process(&mut d), Ok(()));
    assert!(ch.is_empty());
    assert_eq!(t1.try_recv(&mut d), Ok(Some(b"x".to_vec())));
    assert_eq!(c0.try_recv(&mut d), Ok(Some(b"ctl".to_vec())));
    assert_eq!(t0.try_recv(&mut d), Ok(Some(b"data".to_vec())));
    assert_eq!(t0.try_recv(&mut d), Ok(None));
}

#[test]
fn channel_drops_unroutable_silently() {
    let mut d: Dispatch<Vec<u8>, u32> = Dispatch::new();
    let (s0, c0, t0) = d.create(10, 4);
    let mut ch = Channel::new();
    ch.fill(&record(9, 1, b"lost"));
    assert_eq!(ch.process(&mut d), Ok(()));
    assert_eq!(d.sent(s0.queue_id(), Half::Stream), Some(0));
    assert_eq!(d.sent(s0.queue_id(), Half::Control), Some(0));
    assert_eq!(t0.try_recv(&mut d), Ok(None));
    assert_eq!(c0.try_recv(&mut d), Ok(None));
    assert!(!s0.drop(&mut d));
}

#[test]
fn local_for_a_reused_slot_is_refused() {
    let mut d: Dispatch<Vec<u8>, u32> = Dispatch::new();
    let (s1, c1, t1) = d.create(1, 2);
    let mut local = Local::new(&s1);
    assert!(!s1.drop(&mut d));
    assert!(!c1.drop(&mut d));
    assert!(t1.drop(&mut d));
    let (s2, c2, t2) = d.create(2, 2);
    assert_eq!(s2.queue_id(), 0);
    assert_eq!(s2.generation(), 1);
    local.fill(&record(0, 1, b"old"));
    assert_eq!(local.process(&mut d), Ok(()));
    assert_eq!(t2.try_recv(&mut d), Ok(None));
    assert_eq!(c2.try_recv(&mut d), Ok(None));
    assert_eq!(d.key(0), Some(&2));
}

#[test]
fn channel_rejects_malformed_without_delivering() {
    let mut d: Dispatch<Vec<u8>, u32> = Dispatch::new();
    let (s0, _c0, t0) = d.create(10, 4);
    let mut ch = Channel::new();
    let mut bytes = record(s0.queue_id() as u8, 1, b"ok");
    bytes.extend([s0.queue_id() as u8, 7, 0]);
    ch.fill(&bytes);
    assert_eq!(ch.process(&mut d), Err(RecvError::Decode));
    assert!(ch.is_empty());
    assert_eq!(t0.try_recv(&mut d), Ok(None));
}

#[test]
fn local_delivers_to_its_one_destination() {
    let mut d: Dispatch<Vec<u8>, u32> = Dispatch::new();
    let (s0, c0, t0) = d.create(10, 4);
    let mut local = Local::new(&s0);
    let mut bytes = record(42, 1, b"a");
    bytes.extend(record(7, 0, b"b"));
    local.fill(&bytes);
    assert_eq!(local.process(&mut d), Ok(()));
    assert_eq!(t0.try_recv(&mut d), Ok(Some(b"a".to_vec())));
    assert_eq!(c0.try_recv(&mut d), Ok(Some(b"b".to_vec())));
}

#[test]
fn either_forwards_to_its_buffer() {
    let mut d: Dispatch<Vec<u8>, u32> = Dispatch::new();
    let (s0, _c0, t0) = d.create(10, 4);
    let mut buf: Either<Channel, Local> = Either::A(Channel::new());
    buf.fill(&record(s0.queue_id() as u8, 1, b"e"));
    assert!(!buf.is_empty());
    assert_eq!(buf.process(&mut d), Ok(()));
    assert!(buf.is_empty());
    assert_eq!(t0.try_recv(&mut d), Ok(Some(b"e".to_vec())));
    let mut other: Either<Channel, Local> = Either::B(Local::new(&s0));
    other.fill(&[0xff]);
    assert_eq!(other.process(&mut d), Err(RecvError::Decode));
}

#[test]
fn channel_delivers_after_a_miss() {
    let mut d: Dispatch<Vec<u8>, u32> = Dispatch::new();
    let (s0, _c0, t0) = d.create(10, 4);
    let mut ch = Channel::new();
    let mut bytes = record(9, 1, b"lost");
    bytes.extend(record(s0.queue_id() as u8, 1, b"kept"));
    ch.fill(&bytes);
    assert_eq!(ch.process(&mut d), Ok(()));
    assert_eq!(t0.try_recv(&mut d), Ok(Some(b"kept".to_vec())));
    assert_eq!(d.sent(s0.queue_id(), Half::Stream), Some(1));
    assert!(d.route(9).is_none());
}
