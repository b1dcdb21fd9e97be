use secs_transport::common::{
    ConnectionRole, FunctionId, SecsTimeoutUnit, SessionId, StreamId, SystemByte, SystemByteSource,
    TransactionKey, TransactionOwner,
};
use secs_transport::hsms::{HsmsTransportConfig, HsmsControl, HsmsMessage, HsmsRejectReasonCode, HsmsSType, HsmsSelectStatus};
use secs_transport::hsms_session::{HsmsConnectionState, HsmsSession};
use secs_transport::hsms_transport::{
    control_to_message, hsms_timeout_config, message_to_runtime, outgoing_data_message, runtime_to_message,
    timer_owner, HsmsTimerOwner,
};
use secs_transport::runtime::{MachineError, RuntimeMessage, Secs2Message};

#[test]
fn control_messages_take_the_next_system_byte() {
    let mut source = SystemByteSource::with_range(5, 1, 6);
    let select = control_to_message(HsmsControl::SelectReq, &mut source);
    assert_eq!(select.header.stype, HsmsSType::SelectReq);
    assert_eq!(select.header.system_byte, SystemByte(5));
    assert!(select.payload.is_none());
    let rsp = control_to_message(HsmsControl::SelectRsp(HsmsSelectStatus::AlreadyActive), &mut source);
    assert_eq!(rsp.header.system_byte, SystemByte(6));
    assert_eq!(rsp.header.byte3, 1);
    let wrapped = control_to_message(HsmsControl::LinktestReq, &mut source);
    assert_eq!(wrapped.header.system_byte, SystemByte(1));
}

#[test]
fn reject_keeps_the_rejected_system_byte() {
    let mut source = SystemByteSource::with_range(5, 1, 10);
    let reject = control_to_message(
        HsmsControl::RejectReq(7, HsmsRejectReasonCode::NotSelected, SystemByte(42)),
        &mut source,
    );
    assert_eq!(reject.header.system_byte, SystemByte(42));
    assert_eq!(reject.header.byte2, 7);
    assert_eq!(reject.header.byte3, 4);
    assert_eq!(source.next_system_byte(), SystemByte(5));
}

#[test]
fn runtime_message_round_trip() {
    let key = TransactionKey::new(TransactionOwner::Local, SystemByte(9));
    let payload = Secs2Message::new(StreamId(6), FunctionId(11), true, Some(vec![0x41, 0x01, 0x41]));
    let msg = runtime_to_message(SessionId(3), RuntimeMessage::new(key, payload.clone()));
    assert_eq!(msg.header.session_id, SessionId(3));
    assert_eq!(msg.header.byte2, 0x86);
    assert_eq!(msg.header.byte3, 11);
    let back = message_to_runtime(msg);
    assert_eq!(back.payload, payload);
    assert_eq!(back.transaction_key, TransactionKey::new(TransactionOwner::Remote, SystemByte(9)));
}

#[test]
fn received_reply_belongs_to_our_transaction() {
    let key = TransactionKey::new(TransactionOwner::Remote, SystemByte(9));
    let payload = Secs2Message::new(StreamId(6), FunctionId(12), false, None);
    let msg: HsmsMessage = runtime_to_message(SessionId(3), RuntimeMessage::new(key, payload));
    let back = message_to_runtime(msg);
    assert_eq!(back.transaction_key.owner, TransactionOwner::Local);
}

#[test]
fn timers_are_routed() {
    let key = TransactionKey::new(TransactionOwner::Local, SystemByte(1));
    assert_eq!(timer_owner(SecsTimeoutUnit::T3(key)), Ok(HsmsTimerOwner::Machine));
    assert_eq!(timer_owner(SecsTimeoutUnit::T5), Ok(HsmsTimerOwner::Session));
    assert_eq!(timer_owner(SecsTimeoutUnit::T6), Ok(HsmsTimerOwner::Session));
    assert_eq!(timer_owner(SecsTimeoutUnit::T7), Ok(HsmsTimerOwner::Session));
    assert_eq!(timer_owner(SecsTimeoutUnit::T8), Ok(HsmsTimerOwner::Both));
    assert_eq!(timer_owner(SecsTimeoutUnit::T1), Err(MachineError::InvalidTimeout));
    assert_eq!(timer_owner(SecsTimeoutUnit::T4(key)), Err(MachineError::InvalidTimeout));
}

#[test]
fn data_is_sent_only_when_selected() {
    let key = TransactionKey::new(TransactionOwner::Local, SystemByte(2));
    let msg = RuntimeMessage::new(key, Secs2Message::new(StreamId(1), FunctionId(1), true, None));
    let mut session = HsmsSession::new(SessionId(1), ConnectionRole::Active);
    assert_eq!(
        outgoing_data_message(&session, SessionId(1), msg.clone()),
        Err(MachineError::InvalidState)
    );
    session.state = HsmsConnectionState::Selected;
    let out = outgoing_data_message(&session, SessionId(1), msg).unwrap();
    assert_eq!(out.header.system_byte, SystemByte(2));
    assert!(out.header.is_data());
}

#[test]
fn hsms_timer_lengths() {
    let config = HsmsTransportConfig {
        session_id: SessionId(1),
        connection_mode: ConnectionRole::Passive,
        t3_timeout: 45_000,
        t5_timeout: 10_000,
        t6_timeout: 5_000,
        t7_timeout: 11_000,
        t8_timeout: 6_000,
    };
    let t = hsms_timeout_config(&config);
    assert_eq!((t.t1, t.t2, t.t3, t.t4), (45_000, 45_000, 45_000, 6_000));
    assert_eq!((t.t5, t.t6, t.t7, t.t8), (10_000, 5_000, 11_000, 6_000));
}
