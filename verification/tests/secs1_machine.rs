use secs_transport::common::{
    DeviceId, FunctionId, Rbit, SecsTimeoutUnit, StreamId, SystemByte, TransactionKey,
    TransactionOwner, Wbit,
};
use secs_transport::error::SecsTransportError;
use secs_transport::secs1_block::Secs1BlockHeader;
use secs_transport::secs1_machine::{
    block_transfer_signal, secs1_timer_owner, Secs1MessageSignal, Secs1TimerOwner,
};
use secs_transport::secs1_transfer::Secs1BlockTransferEvent;

fn header() -> Secs1BlockHeader {
    Secs1BlockHeader {
        device_id: DeviceId(1),
        rbit: Rbit(false),
        wbit: Wbit(true),
        stream: StreamId(1),
        function: FunctionId(1),
        ebit: true,
        block_no: 1,
        system_byte: SystemByte(3),
    }
}

#[test]
fn secs1_timers_are_routed() {
    let key = TransactionKey::new(TransactionOwner::Local, SystemByte(3));
    assert_eq!(secs1_timer_owner(SecsTimeoutUnit::T1), Secs1TimerOwner::BlockTransfer);
    assert_eq!(secs1_timer_owner(SecsTimeoutUnit::T2), Secs1TimerOwner::BlockTransfer);
    assert_eq!(secs1_timer_owner(SecsTimeoutUnit::T3(key)), Secs1TimerOwner::Message);
    assert_eq!(secs1_timer_owner(SecsTimeoutUnit::T4(key)), Secs1TimerOwner::Message);
    assert_eq!(secs1_timer_owner(SecsTimeoutUnit::T6), Secs1TimerOwner::Neither);
}

#[test]
fn block_events_become_signals_or_errors() {
    let h = header();
    assert_eq!(
        block_transfer_signal(Secs1BlockTransferEvent::SendSuccess { header: h }),
        Ok(Some(Secs1MessageSignal::BlockSendSuccess { header: h }))
    );
    assert_eq!(
        block_transfer_signal(Secs1BlockTransferEvent::SendFailed {
            header: h,
            error: SecsTransportError::Timeout(SecsTimeoutUnit::T2)
        }),
        Ok(Some(Secs1MessageSignal::BlockSendFailed { header: h }))
    );
    assert_eq!(block_transfer_signal(Secs1BlockTransferEvent::Retry(1)), Ok(None));
    assert_eq!(
        block_transfer_signal(Secs1BlockTransferEvent::ReceiveFailed {
            error: SecsTransportError::BlockError
        }),
        Err(SecsTransportError::BlockError)
    );
}
