use secs_transport::common::{
    FunctionId, SecsTimeoutUnit, StreamId, SystemByte, SystemByteSource, TransactionKey,
    TransactionOwner,
};
use secs_transport::keyed::KeyedVec;
use secs_transport::runtime::{RuntimeMessage, Secs2Message};
use secs_transport::runtime_shared::{Delivery, RecvCall, RuntimeCommand, RuntimeShared};

fn shared() -> RuntimeShared<u32, u32> {
    RuntimeShared::new(SystemByteSource::with_range(1024, 1024, 2000))
}

fn message(function: u8, need_reply: bool) -> Secs2Message {
    Secs2Message::new(StreamId(1), FunctionId(function), need_reply, None)
}

fn local(byte: u32) -> TransactionKey {
    TransactionKey::new(TransactionOwner::Local, SystemByte(byte))
}

#[test]
fn send_opens_a_call_only_for_primaries_that_want_a_reply() {
    let mut s = shared();
    assert_eq!(s.send(message(1, true)), Some(local(1024)));
    assert_eq!(s.send(message(1, false)), None);
    assert_eq!(s.send(message(2, true)), None);
    match s.pop_command() {
        Some(RuntimeCommand::Send { message, call }) => {
            assert_eq!(message.transaction_key, local(1024));
            assert_eq!(call, Some(local(1024)));
        }
        None => panic!("expected a command"),
    }
    match s.pop_command() {
        Some(RuntimeCommand::Send { message, call }) => {
            assert_eq!(message.transaction_key, local(1025));
            assert_eq!(call, None);
        }
        None => panic!("expected a command"),
    }
}

#[test]
fn request_without_reply_is_handed_back() {
    let mut s = shared();
    assert_eq!(s.request(message(1, false), 7), Some(7));
    assert_eq!(s.request(message(1, true), 8), None);
    let reply = RuntimeMessage::new(local(1025), message(2, false));
    assert!(matches!(s.deliver(reply), Delivery::Reply(8, _)));
    let again = RuntimeMessage::new(local(1025), message(2, false));
    assert!(matches!(s.deliver(again), Delivery::Queued));
}

#[test]
fn reply_to_an_unwatched_call_is_dropped() {
    let mut s = shared();
    s.send(message(1, true));
    let reply = RuntimeMessage::new(local(1024), message(2, false));
    assert!(matches!(s.deliver(reply), Delivery::Dropped));
}

#[test]
fn recv_call_registers_or_refuses() {
    let mut s = shared();
    assert!(matches!(s.recv_call(local(5), 1), RecvCall::Unknown(1)));
    s.send_with_key(local(5), message(1, true));
    assert!(matches!(s.recv_call(local(5), 2), RecvCall::Registered));
    assert!(matches!(s.recv_call(local(5), 3), RecvCall::Replaced(2)));
    let reply = RuntimeMessage::new(local(5), message(2, false));
    assert!(matches!(s.deliver(reply), Delivery::Reply(3, _)));
}

#[test]
fn received_messages_are_served_in_order() {
    let mut s = shared();
    let a = RuntimeMessage::new(local(1), message(1, false));
    let b = RuntimeMessage::new(local(2), message(3, false));
    assert!(matches!(s.deliver(a.clone()), Delivery::Queued));
    assert!(matches!(s.deliver(b.clone()), Delivery::Queued));
    assert_eq!(s.recv(10), Some((10, a)));
    assert_eq!(s.recv(11), Some((11, b)));
    assert_eq!(s.recv(12), None);
    let c = RuntimeMessage::new(local(3), message(5, false));
    assert!(matches!(s.deliver(c.clone()), Delivery::ToWaiter(12, _)));
    assert_eq!(s.push_incomming(c.clone()), None);
}

#[test]
fn t3_ends_its_own_call_and_t6_ends_all() {
    let mut s = shared();
    s.request(message(1, true), 1);
    s.request(message(3, true), 2);
    s.request(message(5, true), 3);
    assert_eq!(s.expire(SecsTimeoutUnit::T3(local(1025))), vec![2]);
    assert_eq!(s.expire(SecsTimeoutUnit::T3(local(1025))), Vec::<u32>::new());
    assert_eq!(s.expire(SecsTimeoutUnit::T5), Vec::<u32>::new());
    let mut rest = s.expire(SecsTimeoutUnit::T6);
    rest.sort();
    assert_eq!(rest, vec![1, 3]);
    assert_eq!(s.expire(SecsTimeoutUnit::T8), Vec::<u32>::new());
}

#[test]
fn failed_send_ends_the_call() {
    let mut s = shared();
    s.request(message(1, true), 9);
    assert_eq!(s.fail_call(local(1024)), Some(9));
    assert_eq!(s.fail_call(local(1024)), None);
}

#[test]
fn keyed_vec_replaces_and_takes() {
    let mut m: KeyedVec<u32> = KeyedVec::new();
    assert_eq!(m.insert(local(1), 10), None);
    assert_eq!(m.insert(local(2), 20), None);
    assert_eq!(m.insert(local(1), 11), Some(10));
    assert!(m.contains_key(local(2)));
    assert_eq!(m.remove(local(2)), Some(20));
    assert!(!m.contains_key(local(2)));
    assert_eq!(m.take_all(), vec![11]);
    assert!(!m.contains_key(local(1)));
}
