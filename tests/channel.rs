use fltk_app::{channel, Fingerprint, Payload, Transport};
use std::collections::hash_map::DefaultHasher;
use std::hash::{Hash, Hasher};

#[test]
fn i64_message_received_once() {
    let mut transport = Transport::new();
    let (s, r) = channel::<i64>();
    s.send(&mut transport, 42i64);
    assert_eq!(r.recv(&mut transport), Some(42));
    assert_eq!(r.recv(&mut transport), None);
}

#[test]
fn second_receiver_sees_nothing_after_consumption() {
    let mut transport = Transport::new();
    let (s, r) = channel::<i64>();
    let (_, other) = channel::<i64>();
    s.send(&mut transport, 42i64);
    assert_eq!(r.recv(&mut transport), Some(42));
    assert_eq!(other.recv(&mut transport), None);
}

#[test]
fn recv_on_empty_slot_yields_nothing() {
    let mut transport = Transport::new();
    let (_, r) = channel::<u32>();
    assert_eq!(r.recv(&mut transport), None);
    assert!(!transport.is_occupied());
}

#[test]
fn mismatched_type_loses_message() {
    let mut transport = Transport::new();
    let (s, r1) = channel::<i32>();
    let (_, r2) = channel::<u64>();
    assert_ne!(s.fingerprint(), r2.fingerprint());
    s.send(&mut transport, 7i32);
    assert_eq!(r2.recv(&mut transport), None);
    assert_eq!(r1.recv(&mut transport), None);
}

#[test]
fn same_size_different_type_is_rejected() {
    let mut transport = Transport::new();
    let (s, _) = channel::<i64>();
    let (_, r) = channel::<u64>();
    s.send(&mut transport, -1i64);
    assert_eq!(r.recv(&mut transport), None);
}

#[test]
fn round_trip_keeps_value() {
    let mut transport = Transport::new();
    let (s, r) = channel::<i8>();
    for v in [i8::MIN, -1, 0, 1, i8::MAX] {
        s.send(&mut transport, v);
        assert_eq!(r.recv(&mut transport), Some(v));
    }
    let (s, r) = channel::<u64>();
    for v in [0u64, 1, u64::MAX] {
        s.send(&mut transport, v);
        assert_eq!(r.recv(&mut transport), Some(v));
    }
    let (s, r) = channel::<isize>();
    s.send(&mut transport, isize::MIN);
    assert_eq!(r.recv(&mut transport), Some(isize::MIN));
    let (s, r) = channel::<bool>();
    s.send(&mut transport, true);
    assert_eq!(r.recv(&mut transport), Some(true));
    s.send(&mut transport, false);
    assert_eq!(r.recv(&mut transport), Some(false));
}

#[test]
fn last_write_wins() {
    let mut transport = Transport::new();
    let (s, r) = channel::<u16>();
    s.send(&mut transport, 1u16);
    s.send(&mut transport, 2u16);
    assert_eq!(r.recv(&mut transport), Some(2));
    assert_eq!(r.recv(&mut transport), None);
}

#[test]
fn overwrite_across_types() {
    let mut transport = Transport::new();
    let (s1, r1) = channel::<u8>();
    let (s2, r2) = channel::<i16>();
    s1.send(&mut transport, 5u8);
    s2.send(&mut transport, -5i16);
    assert_eq!(r1.recv(&mut transport), None);
    s1.send(&mut transport, 5u8);
    s2.send(&mut transport, -5i16);
    assert_eq!(r2.recv(&mut transport), Some(-5));
}

#[test]
fn interleaved_receives_see_both_in_order() {
    let mut transport = Transport::new();
    let (s, r) = channel::<u32>();
    s.send(&mut transport, 10u32);
    assert_eq!(r.recv(&mut transport), Some(10));
    s.send(&mut transport, 20u32);
    assert_eq!(r.recv(&mut transport), Some(20));
}

#[test]
fn channels_of_one_type_share_the_slot() {
    let mut transport = Transport::new();
    let (sa, ra) = channel::<usize>();
    let (sb, rb) = channel::<usize>();
    assert_eq!(sa.fingerprint(), sb.fingerprint());
    assert_eq!(ra.fingerprint(), rb.fingerprint());
    assert_eq!(sa.fingerprint(), rb.fingerprint());
    sa.send(&mut transport, 99usize);
    assert_eq!(rb.recv(&mut transport), Some(99));
    sb.send(&mut transport, 100usize);
    assert_eq!(ra.recv(&mut transport), Some(100));
}

#[test]
fn copied_handles_interoperate() {
    let mut transport = Transport::new();
    let (s, r) = channel::<i32>();
    let s2 = s;
    let r2 = r.clone();
    s2.send(&mut transport, -3i32);
    assert_eq!(r2.recv(&mut transport), Some(-3));
}

#[test]
fn send_asks_for_wake() {
    let mut transport = Transport::new();
    assert!(!transport.take_wake());
    let (s, r) = channel::<u8>();
    s.send(&mut transport, 1u8);
    assert!(transport.is_occupied());
    assert!(transport.take_wake());
    assert!(!transport.take_wake());
    assert_eq!(r.recv(&mut transport), Some(1));
}

#[test]
fn fingerprint_size_and_hash() {
    let f = Fingerprint::of::<i64>();
    assert_eq!(f.size, 8);
    let mut hasher = DefaultHasher::new();
    "i64".hash(&mut hasher);
    assert_eq!(f.hash, hasher.finish());
    assert_eq!(Fingerprint::of::<u8>().size, 1);
    assert_eq!(Fingerprint::of::<bool>().size, 1);
    assert_ne!(Fingerprint::of::<u8>(), Fingerprint::of::<bool>());
    assert_ne!(Fingerprint::of::<i64>().hash, Fingerprint::of::<u64>().hash);
}

#[test]
fn canonical_names_are_rust_names() {
    assert_eq!(i8::canonical_name(), "i8");
    assert_eq!(i16::canonical_name(), "i16");
    assert_eq!(i32::canonical_name(), "i32");
    assert_eq!(i64::canonical_name(), "i64");
    assert_eq!(isize::canonical_name(), "isize");
    assert_eq!(u8::canonical_name(), "u8");
    assert_eq!(u16::canonical_name(), "u16");
    assert_eq!(u32::canonical_name(), "u32");
    assert_eq!(u64::canonical_name(), "u64");
    assert_eq!(usize::canonical_name(), "usize");
    assert_eq!(bool::canonical_name(), "bool");
}

#[test]
fn payload_words() {
    assert_eq!((-1i32).encode(), vec![u64::MAX]);
    assert_eq!(i32::decode(&vec![u64::MAX]), Some(-1));
    assert_eq!(i32::decode(&vec![]), None);
    assert_eq!(u8::decode(&vec![1, 2]), None);
    assert_eq!(true.encode(), vec![1]);
    assert_eq!(bool::decode(&vec![0]), Some(false));
}
