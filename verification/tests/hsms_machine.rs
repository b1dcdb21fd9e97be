use secs_transport::common::{
    ConnectionRole, FunctionId, SecsTimeoutUnit, SessionId, StreamId, SystemByte, TransactionKey,
    TransactionOwner,
};
use secs_transport::hsms::{HsmsHeader, HsmsMessage, HsmsTransportConfig};
use secs_transport::hsms_assembler::HsmsAssembler;
use secs_transport::hsms_machine::{HsmsMessageEvent, HsmsMessageMachine};
use secs_transport::hsms_transaction::HsmsMessageSignal;

fn config() -> HsmsTransportConfig {
    HsmsTransportConfig {
        session_id: SessionId(10),
        connection_mode: ConnectionRole::Active,
        t3_timeout: 45_000,
        t5_timeout: 10_000,
        t6_timeout: 5_000,
        t7_timeout: 10_000,
        t8_timeout: 5_000,
    }
}

fn drain_events(machine: &mut HsmsMessageMachine) -> Vec<HsmsMessageEvent> {
    let mut events = Vec::new();
    while let Some(e) = machine.poll_event() {
        events.push(e);
    }
    events
}

fn data(function: u8, need_reply: bool, system_byte: u32) -> HsmsMessage {
    let header = HsmsHeader::data(SessionId(10), StreamId(1), FunctionId(function), need_reply, SystemByte(system_byte));
    HsmsMessage::new(header, Some(vec![0x01, 0x00]))
}

#[test]
fn sent_primary_waits_for_its_reply_under_t3() {
    let mut machine = HsmsMessageMachine::new(&config());
    let primary = data(1, true, 7);
    let frame = primary.to_bytes().unwrap();
    machine.handle_write(primary.clone()).unwrap();
    assert_eq!(machine.poll_write().unwrap(), frame);
    assert!(machine.poll_write().is_none());

    machine.handle_event(HsmsMessageSignal::SendSuccess(primary.header)).unwrap();
    let key = TransactionKey::new(TransactionOwner::Local, SystemByte(7));
    assert_eq!(drain_events(&mut machine), vec![HsmsMessageEvent::SendComplete(key)]);
    let t3 = machine.poll_timeout().unwrap();
    assert_eq!(t3.timeout, SecsTimeoutUnit::T3(key));

    let reply = data(2, false, 7);
    machine.handle_read(&reply.to_bytes().unwrap()).unwrap();
    assert_eq!(machine.poll_read().unwrap(), reply);
    assert_eq!(
        drain_events(&mut machine),
        vec![HsmsMessageEvent::RecvComplete(key), HsmsMessageEvent::TransactionEnd(key)]
    );

    machine.handle_timeout(t3).unwrap();
    assert!(drain_events(&mut machine).is_empty());
}

#[test]
fn unanswered_primary_times_out() {
    let mut machine = HsmsMessageMachine::new(&config());
    let primary = data(1, true, 8);
    machine.handle_write(primary.clone()).unwrap();
    let _ = machine.poll_write();
    machine.handle_event(HsmsMessageSignal::SendSuccess(primary.header)).unwrap();
    let _ = drain_events(&mut machine);
    let t3 = machine.poll_timeout().unwrap();
    machine.handle_timeout(t3).unwrap();
    let key = TransactionKey::new(TransactionOwner::Local, SystemByte(8));
    assert_eq!(
        drain_events(&mut machine),
        vec![
            HsmsMessageEvent::MessageTimeout(key, SecsTimeoutUnit::T3(key)),
            HsmsMessageEvent::TransactionEnd(key)
        ]
    );
}

#[test]
fn received_primary_asks_for_a_reply() {
    let mut machine = HsmsMessageMachine::new(&config());
    let primary = data(3, true, 9);
    let bytes = primary.to_bytes().unwrap();
    machine.handle_read(&bytes[..5]).unwrap();
    assert!(machine.poll_read().is_none());
    let t8 = machine.poll_timeout().unwrap();
    assert_eq!(t8.timeout, SecsTimeoutUnit::T8);
    machine.handle_read(&bytes[5..]).unwrap();
    assert_eq!(machine.poll_read().unwrap(), primary);
    let key = TransactionKey::new(TransactionOwner::Remote, SystemByte(9));
    assert_eq!(
        drain_events(&mut machine),
        vec![
            HsmsMessageEvent::RecvComplete(key),
            HsmsMessageEvent::ReplyRequired(key),
            HsmsMessageEvent::TransactionEnd(key)
        ]
    );
}

#[test]
fn assembler_cuts_frames_and_keeps_the_rest() {
    let a = data(1, false, 1).to_bytes().unwrap();
    let b = data(3, true, 2).to_bytes().unwrap();
    let mut stream = a.clone();
    stream.extend_from_slice(&b[..7]);
    let mut assembler = HsmsAssembler::new();
    assembler.handle_read(&stream).unwrap();
    assert!(assembler.has_remained());
    assert_eq!(assembler.poll_message().unwrap(), data(1, false, 1));
    assert!(assembler.poll_message().is_none());
    assembler.handle_read(&b[7..]).unwrap();
    assert!(!assembler.has_remained());
    assert_eq!(assembler.poll_message().unwrap(), data(3, true, 2));
    assembler.handle_read(&a[..3]).unwrap();
    assembler.clear();
    assert!(!assembler.has_remained());
}
