use praborrow::counter::SlotCounter;
use praborrow::safe::{Diplomat, DiplomacyError};
use praborrow::status::{ReleaseVerdict, Status};
use praborrow::{
    establish_relations, free_envoy, init_ffi, praborrow_version, receive_envoy, send_envoy,
    EnvoyHandle, MAX_QUEUE_DEPTH,
};

fn initialized() -> Diplomat {
    let mut d = Diplomat::new();
    assert_eq!(establish_relations(&mut d), Status::Success);
    d
}

#[test]
fn test_diplomacy_flow() {
    let mut d = Diplomat::new();
    let status = establish_relations(&mut d).code();
    assert!(status == 0 || status == -1);

    let send_status = send_envoy(&mut d, 101, Some("Hello from C".as_bytes())).code();
    assert_eq!(send_status, 0);

    let received = receive_envoy(&mut d, EnvoyHandle(0x1000));
    assert!(received.is_some());
    assert_eq!(received.unwrap(), "Ack: Hello from C");

    assert_eq!(free_envoy(&mut d, EnvoyHandle(0x1000)), ReleaseVerdict::Released);

    let empty = receive_envoy(&mut d, EnvoyHandle(0x2000));
    assert!(empty.is_none());
}

#[test]
fn submit_retrieve_release_round() {
    let mut d = Diplomat::new();
    assert_eq!(establish_relations(&mut d), Status::Success);
    assert_eq!(send_envoy(&mut d, 101, Some("Hello".as_bytes())), Status::Success);
    let msg = receive_envoy(&mut d, EnvoyHandle(0x42)).expect("an acknowledgment is queued");
    assert_eq!(msg, "Ack: Hello");
    assert_eq!(free_envoy(&mut d, EnvoyHandle(0x42)), ReleaseVerdict::Released);
    assert!(receive_envoy(&mut d, EnvoyHandle(0x43)).is_none());
}

#[test]
fn accepted_submit_produces_one_record_each() {
    let mut d = initialized();
    assert_eq!(send_envoy(&mut d, 101, Some("Hello".as_bytes())), Status::Success);
    // exactly one acknowledgment outbound
    assert_eq!(receive_envoy(&mut d, EnvoyHandle(1)).unwrap(), "Ack: Hello");
    assert!(receive_envoy(&mut d, EnvoyHandle(2)).is_none());
    // and exactly one record inbound
    assert_eq!(d.receive().unwrap(), "ID:101:Hello");
    assert!(d.receive().is_none());
}

#[test]
fn rejected_submissions() {
    let mut d = initialized();
    assert_eq!(send_envoy(&mut d, 0, Some("x".as_bytes())), Status::InvalidId);
    assert_eq!(send_envoy(&mut d, 7, None), Status::NullPointer);
    // no record was committed by either rejection
    assert!(receive_envoy(&mut d, EnvoyHandle(1)).is_none());
}

#[test]
fn invalid_encoding_is_rejected() {
    let mut d = initialized();
    let bad: [u8; 2] = [0xff, 0xfe];
    assert_eq!(send_envoy(&mut d, 7, Some(&bad)), Status::InvalidEncoding);
    assert!(receive_envoy(&mut d, EnvoyHandle(1)).is_none());
}

#[test]
fn operations_before_initialization() {
    let mut d = Diplomat::new();
    assert_eq!(send_envoy(&mut d, 7, Some("x".as_bytes())), Status::NotInitialized);
    assert!(receive_envoy(&mut d, EnvoyHandle(1)).is_none());
    assert_eq!(free_envoy(&mut d, EnvoyHandle(1)), ReleaseVerdict::NotInitialized);
}

#[test]
fn initialization_is_exactly_once() {
    let mut d = Diplomat::new();
    assert_eq!(establish_relations(&mut d), Status::Success);
    assert_eq!(establish_relations(&mut d), Status::AlreadyInitialized);
    assert_eq!(init_ffi(&mut d), Status::AlreadyInitialized);
    // the second call mutated nothing: earlier traffic is still there
    assert_eq!(send_envoy(&mut d, 1, Some("a".as_bytes())), Status::Success);
    assert_eq!(establish_relations(&mut d), Status::AlreadyInitialized);
    let msg = receive_envoy(&mut d, EnvoyHandle(9)).unwrap();
    assert_eq!(msg, "Ack: a");
}

#[test]
fn retrieve_on_empty_is_sentinel_not_error() {
    let mut d = initialized();
    assert!(receive_envoy(&mut d, EnvoyHandle(1)).is_none());
    // and the state is untouched: a later round trip still works
    assert_eq!(send_envoy(&mut d, 2, Some("ok".as_bytes())), Status::Success);
    assert_eq!(receive_envoy(&mut d, EnvoyHandle(2)).unwrap(), "Ack: ok");
}

#[test]
fn double_release_is_detected() {
    let mut d = initialized();
    assert_eq!(send_envoy(&mut d, 3, Some("m".as_bytes())), Status::Success);
    let h = EnvoyHandle(0xABCD);
    assert!(receive_envoy(&mut d, h).is_some());
    assert_eq!(free_envoy(&mut d, h), ReleaseVerdict::Released);
    assert_eq!(free_envoy(&mut d, h), ReleaseVerdict::Violation);
    // the tracker survived: a fresh loan still releases cleanly
    assert_eq!(send_envoy(&mut d, 4, Some("n".as_bytes())), Status::Success);
    let h2 = EnvoyHandle(0xBEEF);
    assert!(receive_envoy(&mut d, h2).is_some());
    assert_eq!(free_envoy(&mut d, h2), ReleaseVerdict::Released);
}

#[test]
fn release_of_foreign_handle_is_noop() {
    let mut d = initialized();
    assert_eq!(free_envoy(&mut d, EnvoyHandle(0xD00D)), ReleaseVerdict::Violation);
    assert_eq!(free_envoy(&mut d, EnvoyHandle(0)), ReleaseVerdict::NullHandle);
}

#[test]
fn fill_inbound_to_capacity() {
    let mut d = initialized();
    for i in 0..MAX_QUEUE_DEPTH {
        let st = send_envoy(&mut d, (i as u32) + 1, Some("p".as_bytes()));
        assert_eq!(st, Status::Success);
    }
    // one more submission is backpressure, with no partial record
    assert_eq!(send_envoy(&mut d, 77, Some("q".as_bytes())), Status::QueueFull);
    for _ in 0..MAX_QUEUE_DEPTH {
        let msg = receive_envoy(&mut d, EnvoyHandle(5)).unwrap();
        assert_eq!(msg, "Ack: p");
    }
    // the rejected submission left nothing retrievable behind
    assert!(receive_envoy(&mut d, EnvoyHandle(6)).is_none());
}

#[test]
fn records_carry_the_decimal_id() {
    let mut d = initialized();
    assert_eq!(send_envoy(&mut d, 1234567890, Some("x".as_bytes())), Status::Success);
    assert_eq!(d.receive().unwrap(), "ID:1234567890:x");
    assert_eq!(send_envoy(&mut d, u32::MAX, Some("".as_bytes())), Status::Success);
    assert_eq!(d.receive().unwrap(), "ID:4294967295:");
    assert_eq!(send_envoy(&mut d, 7, Some("a:b".as_bytes())), Status::Success);
    assert_eq!(d.receive().unwrap(), "ID:7:a:b");
    assert!(d.receive().is_none());
}

#[test]
fn safe_wrapper_flow() {
    let mut d = Diplomat::new();
    assert!(d.receive().is_none());
    assert_eq!(d.send(7, "hi"), Err(DiplomacyError::NotInitialized));
    assert_eq!(d.init(), Ok(()));
    assert_eq!(d.init(), Err(DiplomacyError::AlreadyInitialized));
    assert_eq!(d.send(7, "hi"), Ok(()));
    // the managed side's record reaches the caller's queue in order
    assert_eq!(receive_envoy(&mut d, EnvoyHandle(3)).unwrap(), "7:hi");
    assert!(d.receive().is_none());
}

#[test]
fn safe_send_hits_the_same_bound() {
    let mut d = initialized();
    for i in 0..MAX_QUEUE_DEPTH {
        assert_eq!(d.send(i as u32, "m"), Ok(()));
    }
    assert_eq!(d.send(1, "m"), Err(DiplomacyError::QueueFull));
    // submissions need an acknowledgment slot, so they see the bound too
    assert_eq!(send_envoy(&mut d, 5, Some("m".as_bytes())), Status::QueueFull);
}

#[test]
fn queues_are_fifo() {
    let mut d = initialized();
    assert_eq!(send_envoy(&mut d, 1, Some("first".as_bytes())), Status::Success);
    assert_eq!(send_envoy(&mut d, 2, Some("second".as_bytes())), Status::Success);
    assert_eq!(send_envoy(&mut d, 3, Some("third".as_bytes())), Status::Success);
    assert_eq!(receive_envoy(&mut d, EnvoyHandle(1)).unwrap(), "Ack: first");
    assert_eq!(receive_envoy(&mut d, EnvoyHandle(2)).unwrap(), "Ack: second");
    assert_eq!(receive_envoy(&mut d, EnvoyHandle(3)).unwrap(), "Ack: third");
    assert_eq!(d.receive().unwrap(), "ID:1:first");
    assert_eq!(d.receive().unwrap(), "ID:2:second");
    assert_eq!(d.receive().unwrap(), "ID:3:third");
}

#[test]
fn status_codes_cross_the_boundary() {
    assert_eq!(Status::Success.code(), 0);
    assert_eq!(Status::AlreadyInitialized.code(), -1);
    assert_eq!(Status::InitFailed.code(), -2);
    assert_eq!(Status::NotInitialized.code(), -2);
    assert_eq!(Status::NullPointer.code(), -3);
    assert_eq!(Status::InvalidEncoding.code(), -4);
    assert_eq!(Status::InvalidId.code(), -5);
    assert_eq!(Status::InternalFault.code(), -6);
    assert_eq!(Status::QueueFull.code(), -7);
}

#[test]
fn counter_reserve_and_rollback() {
    let mut c = SlotCounter::new();
    assert_eq!(c.occupancy(), 0);
    assert!(c.try_reserve(2));
    assert!(c.try_reserve(2));
    assert_eq!(c.occupancy(), 2);
    // at the bound: the optimistic increment is rolled back
    assert!(!c.try_reserve(2));
    assert_eq!(c.occupancy(), 2);
    c.release_slot();
    assert_eq!(c.occupancy(), 1);
    assert!(c.try_reserve(2));
}

#[test]
fn version_is_reported() {
    assert_eq!(praborrow_version(), "0.1.0");
}
