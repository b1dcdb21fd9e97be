use secs_transport::common::{
    ConnectionRole, FunctionId, Rbit, SecsTimeoutUnit, SystemByte, SystemByteSource,
    TransactionKey, TransactionOwner, TransferContext, Wbit,
};
use secs_transport::error::HsmsHeaderError;
use secs_transport::hsms::HsmsRejectReasonCode;
use secs_transport::time::{TimeoutIdGenerator, TimeoutManager};

#[test]
fn rbit_and_wbit() {
    assert_eq!(Rbit::forward(), Rbit(false));
    assert_eq!(Rbit::reverse(), Rbit(true));
    assert_eq!(Rbit::forward().complement(), Rbit::reverse());
    assert!(Wbit(true).need_reply());
    assert!(!Wbit(false).need_reply());
}

#[test]
fn functions_and_their_replies() {
    assert!(FunctionId(1).is_primary());
    assert!(FunctionId(2).is_secondary());
    assert_eq!(FunctionId(13).reply(), FunctionId(14));
    assert_eq!(FunctionId(255).reply(), FunctionId(0));
}

#[test]
fn transaction_owner_follows_direction_and_kind() {
    let b = SystemByte(1);
    assert_eq!(TransactionKey::from(TransferContext::Send, true, b).owner, TransactionOwner::Local);
    assert_eq!(TransactionKey::from(TransferContext::Send, false, b).owner, TransactionOwner::Remote);
    assert_eq!(TransactionKey::from(TransferContext::Recv, true, b).owner, TransactionOwner::Remote);
    assert_eq!(TransactionKey::from(TransferContext::Recv, false, b).owner, TransactionOwner::Local);
    let key = TransactionKey::new(TransactionOwner::Local, b);
    assert_eq!(SecsTimeoutUnit::T3(key).to_transaction_key(), Some(key));
    assert_eq!(SecsTimeoutUnit::T6.to_transaction_key(), None);
}

#[test]
fn system_bytes_cycle_through_their_range() {
    let mut source = SystemByteSource::with_range(2, 1, 3);
    assert_eq!(source.next_system_byte(), SystemByte(2));
    assert_eq!(source.next_system_byte(), SystemByte(3));
    assert_eq!(source.next_system_byte(), SystemByte(1));
}

#[test]
fn roles() {
    assert!(ConnectionRole::Active.is_active());
    assert!(ConnectionRole::Passive.is_passive());
    assert!(!ConnectionRole::Passive.is_active());
}

#[test]
fn header_errors_map_to_reject_reasons() {
    assert_eq!(
        HsmsHeaderError::UnsupportedPType(3).reject_reason(),
        Some(HsmsRejectReasonCode::NotSupportedPType)
    );
    assert_eq!(
        HsmsHeaderError::UnsupportedSType(11).reject_reason(),
        Some(HsmsRejectReasonCode::NotSupportedSType)
    );
}

#[test]
fn timeout_ids_count_up() {
    let mut ids = TimeoutIdGenerator::new();
    assert_eq!(ids.generate().0, 0);
    assert_eq!(ids.generate().0, 1);
}

#[test]
fn restarted_timer_makes_its_old_ticket_stale() {
    let mut timers = TimeoutManager::new();
    let first = timers.issue(SecsTimeoutUnit::T2);
    let second = timers.issue(SecsTimeoutUnit::T2);
    assert_ne!(first.id, second.id);
    assert!(!timers.is_active(&first));
    assert!(timers.is_active(&second));
    assert!(!timers.fire(&first));
    assert!(timers.fire(&second));
    assert!(!timers.fire(&second));
}

#[test]
fn cancelled_timer_does_not_fire() {
    let mut timers = TimeoutManager::new();
    let t1 = timers.issue(SecsTimeoutUnit::T1);
    let t6 = timers.issue(SecsTimeoutUnit::T6);
    assert!(timers.cancel(SecsTimeoutUnit::T1));
    assert!(!timers.cancel(SecsTimeoutUnit::T1));
    assert!(!timers.fire(&t1));
    assert!(timers.fire(&t6));
}
