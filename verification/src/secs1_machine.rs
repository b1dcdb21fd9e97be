//! How a SECS-I link splits its work between the block transfer protocol and
//! the message layer above it: which timers each one runs, and what the
//! message layer learns of block transfer outcomes.
use vstd::prelude::*;

use crate::common::{SecsTimeoutUnit, TransactionKey};
use crate::error::SecsTransportError;
use crate::secs1_block::Secs1BlockHeader;
use crate::secs1_transfer::Secs1BlockTransferEvent;

verus! {

/// What the message layer is told about a block it asked to send.
#[derive(Debug, Clone, Copy, PartialEq, Eq, Structural)]
pub enum Secs1MessageSignal {
    /// The block was acknowledged.
    BlockSendSuccess { header: Secs1BlockHeader },
    /// The block could not be sent.
    BlockSendFailed { header: Secs1BlockHeader },
}

/// What the message layer reports.
#[derive(Debug, PartialEq, Eq)]
pub enum Secs1MessageEvent {
    SendComplete { transaction_key: TransactionKey },
    RecvComplete { transaction_key: TransactionKey },
    TransactionEnd { transaction_key: TransactionKey },
    MessageTimeout { transaction_key: TransactionKey, timeout_unit: SecsTimeoutUnit },
    ErrorOccured(SecsTransportError),
}

/// The layer of a SECS-I link that runs a timer.
#[derive(Debug, Clone, Copy, PartialEq, Eq, Structural)]
pub enum Secs1TimerOwner {
    /// T1 and T2.
    BlockTransfer,
    /// T3 and T4.
    Message,
    /// The HSMS timers, which a SECS-I link ignores.
    Neither,
}

/// Which layer handles an expired timer.
pub fn secs1_timer_owner(unit: SecsTimeoutUnit) -> (r: Secs1TimerOwner)
    ensures
        r == match unit {
            SecsTimeoutUnit::T1 | SecsTimeoutUnit::T2 => Secs1TimerOwner::BlockTransfer,
            SecsTimeoutUnit::T3(_) | SecsTimeoutUnit::T4(_) => Secs1TimerOwner::Message,
            _ => Secs1TimerOwner::Neither,
        },
{
    match unit {
        SecsTimeoutUnit::T1 | SecsTimeoutUnit::T2 => Secs1TimerOwner::BlockTransfer,
        SecsTimeoutUnit::T3(_) | SecsTimeoutUnit::T4(_) => Secs1TimerOwner::Message,
        _ => Secs1TimerOwner::Neither,
    }
}

/// What a block transfer event means for the message layer: a sent or
/// failed block becomes a signal, a retry nothing, and a failed reception
/// or other error stops the link with that error.
pub fn block_transfer_signal(event: Secs1BlockTransferEvent) -> (r: Result<Option<Secs1MessageSignal>, SecsTransportError>)
    ensures
        match event {
            Secs1BlockTransferEvent::SendSuccess { header } => r == Ok::<
                Option<Secs1MessageSignal>,
                SecsTransportError,
            >(Some(Secs1MessageSignal::BlockSendSuccess { header })),
            Secs1BlockTransferEvent::SendFailed { header, .. } => r == Ok::<
                Option<Secs1MessageSignal>,
                SecsTransportError,
            >(Some(Secs1MessageSignal::BlockSendFailed { header })),
            Secs1BlockTransferEvent::Retry(_) => r == Ok::<Option<Secs1MessageSignal>, SecsTransportError>(None),
            Secs1BlockTransferEvent::ReceiveFailed { error } => r == Err::<
                Option<Secs1MessageSignal>,
                SecsTransportError,
            >(error),
            Secs1BlockTransferEvent::ErrorOccurred(error) => r == Err::<
                Option<Secs1MessageSignal>,
                SecsTransportError,
            >(error),
        },
{
    match event {
        Secs1BlockTransferEvent::SendSuccess { header } => Ok(Some(Secs1MessageSignal::BlockSendSuccess { header })),
        Secs1BlockTransferEvent::SendFailed { header, .. } => Ok(Some(Secs1MessageSignal::BlockSendFailed { header })),
        Secs1BlockTransferEvent::ReceiveFailed { error } => Err(error),
        Secs1BlockTransferEvent::ErrorOccurred(error) => Err(error),
        Secs1BlockTransferEvent::Retry(_) => Ok(None),
    }
}

} // verus!
