use secs_transport::common::{
    FunctionId, SecsTimeoutUnit, SessionId, StreamId, SystemByte, TransactionKey, TransactionOwner,
};
use secs_transport::error::SecsTransportError;
use secs_transport::hsms::{HsmsHeader, HsmsMessage};
use secs_transport::hsms_transaction::{
    HsmsMessageSignal, HsmsMessageTransaction, HsmsTransactionEffect, HsmsTransactionManager,
    HsmsTransactionState,
};

/// L[2] U4 3001 U4 3002, encoded.
fn primary_body() -> Vec<u8> {
    vec![0x01, 0x02, 0xB1, 0x04, 0x00, 0x00, 0x0B, 0xB9, 0xB1, 0x04, 0x00, 0x00, 0x0B, 0xBA]
}

/// L[2] U8 1500 U8 1501, encoded.
fn secondary_body() -> Vec<u8> {
    vec![
        0x01, 0x02, 0xA1, 0x08, 0, 0, 0, 0, 0, 0, 0x05, 0xDC, 0xA1, 0x08, 0, 0, 0, 0, 0, 0, 0x05,
        0xDD,
    ]
}

fn build_primary_message(
    session_id: SessionId,
    system_byte: SystemByte,
    need_reply: bool,
) -> HsmsMessage {
    let header = HsmsHeader::data(session_id, StreamId(1), FunctionId(3), need_reply, system_byte);
    HsmsMessage::new(header, Some(primary_body()))
}

fn build_secondary_message(
    session_id: SessionId,
    system_byte: SystemByte,
    need_reply: bool,
) -> HsmsMessage {
    let header = HsmsHeader::data(session_id, StreamId(1), FunctionId(4), need_reply, system_byte);
    HsmsMessage::new(header, Some(secondary_body()))
}

fn drain_effects(transaction: &mut HsmsMessageTransaction) -> Vec<HsmsTransactionEffect> {
    let mut effects = Vec::new();
    while let Some(effect) = transaction.poll_event() {
        effects.push(effect);
    }
    effects
}

#[test]
fn test_send_primary_need_reply() {
    let session_id = SessionId(10);
    let system_byte = SystemByte(101);
    let msg = build_primary_message(session_id, system_byte, true);
    let key = TransactionKey::new(TransactionOwner::Local, system_byte);

    let mut transaction = HsmsMessageTransaction::new_send(key, *msg.header());
    transaction.handle_signal(HsmsMessageSignal::SendSuccess(msg.header));

    let effects = drain_effects(&mut transaction);
    assert!(!effects.contains(&HsmsTransactionEffect::TransactionEnd));
    assert!(effects.contains(&HsmsTransactionEffect::SendComplete));
    assert!(effects.contains(&HsmsTransactionEffect::StartTimeout(SecsTimeoutUnit::T3(key))));
    assert!(matches!(transaction.state(), HsmsTransactionState::WaitRecv));

    let msg = build_secondary_message(session_id, system_byte, false);
    transaction.handle_recv(&msg.header);

    let effects = drain_effects(&mut transaction);
    assert!(effects.contains(&HsmsTransactionEffect::RecvComplete));
    assert!(effects.contains(&HsmsTransactionEffect::TransactionEnd));
    assert!(matches!(transaction.state(), HsmsTransactionState::End));
}

#[test]
fn test_send_primary_no_reply() {
    let session_id = SessionId(10);
    let system_byte = SystemByte(101);
    let msg = build_primary_message(session_id, system_byte, false);
    let key = TransactionKey::new(TransactionOwner::Local, system_byte);

    let mut transaction = HsmsMessageTransaction::new_send(key, *msg.header());
    transaction.handle_signal(HsmsMessageSignal::SendSuccess(msg.header));

    let effects = drain_effects(&mut transaction);
    assert!(effects.contains(&HsmsTransactionEffect::SendComplete));
    assert!(effects.contains(&HsmsTransactionEffect::TransactionEnd));
    assert!(matches!(transaction.state(), HsmsTransactionState::End));
}

#[test]
fn test_send_primary_timeout_t3() {
    let session_id = SessionId(10);
    let system_byte = SystemByte(101);
    let msg = build_primary_message(session_id, system_byte, true);
    let key = TransactionKey::new(TransactionOwner::Local, system_byte);

    let mut transaction = HsmsMessageTransaction::new_send(key, *msg.header());
    transaction.handle_signal(HsmsMessageSignal::SendSuccess(msg.header));
    let _ = drain_effects(&mut transaction);

    transaction.handle_timeout(SecsTimeoutUnit::T3(key)).unwrap();

    let effects = drain_effects(&mut transaction);
    assert!(effects.contains(&HsmsTransactionEffect::ErrorOccured(
        SecsTransportError::Timeout(SecsTimeoutUnit::T3(key))
    )));
    assert!(effects.contains(&HsmsTransactionEffect::TransactionEnd));
    assert!(matches!(transaction.state(), HsmsTransactionState::End));
}

#[test]
fn test_recv_primary_need_reply() {
    let session_id = SessionId(10);
    let system_byte = SystemByte(101);
    let msg = build_primary_message(session_id, system_byte, true);
    let key = TransactionKey::new(TransactionOwner::Remote, system_byte);

    let mut transaction = HsmsMessageTransaction::new_recv(key);
    transaction.handle_recv(&msg.header);
    let effects = drain_effects(&mut transaction);

    assert!(effects.contains(&HsmsTransactionEffect::RecvComplete));
    assert!(effects.contains(&HsmsTransactionEffect::ReplyRequired));
    assert!(effects.contains(&HsmsTransactionEffect::TransactionEnd));
    assert!(matches!(transaction.state(), HsmsTransactionState::End));
}

#[test]
fn test_recv_primary_no_reply() {
    let session_id = SessionId(10);
    let system_byte = SystemByte(101);
    let msg = build_primary_message(session_id, system_byte, false);
    let key = TransactionKey::new(TransactionOwner::Remote, system_byte);

    let mut transaction = HsmsMessageTransaction::new_recv(key);
    transaction.handle_recv(&msg.header);
    let effects = drain_effects(&mut transaction);

    assert!(effects.contains(&HsmsTransactionEffect::RecvComplete));
    assert!(effects.contains(&HsmsTransactionEffect::TransactionEnd));
    assert!(!effects
        .iter()
        .any(|effect| matches!(effect, HsmsTransactionEffect::ReplyRequired)));
    assert!(matches!(transaction.state(), HsmsTransactionState::End));
}

#[test]
fn send_failure_ends_the_transaction() {
    let system_byte = SystemByte(7);
    let msg = build_primary_message(SessionId(1), system_byte, true);
    let key = TransactionKey::new(TransactionOwner::Local, system_byte);
    let mut transaction = HsmsMessageTransaction::new_send(key, msg.header);
    transaction.handle_signal(HsmsMessageSignal::SendFailed(msg.header));
    let effects = drain_effects(&mut transaction);
    assert!(effects.contains(&HsmsTransactionEffect::TransactionEnd));
    assert!(!effects.contains(&HsmsTransactionEffect::SendComplete));
    assert_eq!(transaction.state(), HsmsTransactionState::End);
}

#[test]
fn reply_header_must_match_the_primary() {
    let expected = HsmsHeader::data(SessionId(1), StreamId(1), FunctionId(4), true, SystemByte(2));
    let reply = HsmsHeader::data(SessionId(1), StreamId(1), FunctionId(4), false, SystemByte(2));
    let other_stream = HsmsHeader::data(SessionId(1), StreamId(2), FunctionId(4), false, SystemByte(2));
    let other_byte = HsmsHeader::data(SessionId(1), StreamId(1), FunctionId(4), false, SystemByte(3));
    assert!(HsmsMessageTransaction::is_expected_header_for_reply(&expected, &reply));
    assert!(!HsmsMessageTransaction::is_expected_header_for_reply(&expected, &other_stream));
    assert!(!HsmsMessageTransaction::is_expected_header_for_reply(&expected, &other_byte));
}

#[test]
fn transaction_manager_replaces_and_removes() {
    let key = TransactionKey::new(TransactionOwner::Remote, SystemByte(3));
    let header = HsmsHeader::data(SessionId(1), StreamId(1), FunctionId(3), true, SystemByte(3));
    let mut manager = HsmsTransactionManager::new();
    assert!(manager.create_send(&key, header).is_some());
    assert_eq!(manager.find(&key).unwrap().state(), HsmsTransactionState::Send);
    assert!(manager.create_recv(&key).is_some());
    assert!(manager.contains_key(&key));
    assert_eq!(manager.find(&key).unwrap().state(), HsmsTransactionState::Recv);
    manager.remove(&key);
    assert!(!manager.contains_key(&key));
    assert!(manager.find(&key).is_none());
}
