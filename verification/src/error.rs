//! Errors of the transport layers.
use vstd::prelude::*;

use crate::common::{DeviceId, FunctionId, SecsTimeoutUnit, StreamId, TransactionKey};
use crate::hsms::HsmsRejectReasonCode;
use crate::secs1_block::Secs1BlockHeader;

verus! {

/// Failures while running a SECS transport.
#[derive(Debug, Clone, PartialEq, Eq)]
pub enum SecsTransportError {
    ConnectionFailed(&'static str),
    SendFailed(TransactionKey),
    RecvFailed,
    ConnectionClosed,
    Timeout(SecsTimeoutUnit),
    InvalidHeader,
    InvalidBlockHeader,
    InvalidHsmsHeader(HsmsHeaderError),
    InvalidBlockLength(usize),
    MessageConvertFailed(SecsMessageConvertError),
    BlockError,
    UnexpectedBlock(Secs1BlockHeader),
    UnknownDeviceId(DeviceId),
    InvalidState,
    NoMatchReplyTransaction(StreamId, FunctionId),
    NoSuchTransaction(TransactionKey),
}

/// An HSMS header field that this side does not support.
#[derive(Debug, Clone, Copy, PartialEq, Eq, Structural)]
pub enum HsmsHeaderError {
    UnsupportedPType(u8),
    UnsupportedSType(u8),
}

impl HsmsHeaderError {
    /// The reason code of the Reject.req that answers a header with this error.
    pub fn reject_reason(&self) -> (r: Option<HsmsRejectReasonCode>)
        ensures
            r == match *self {
                HsmsHeaderError::UnsupportedPType(_) => Some(
                    HsmsRejectReasonCode::NotSupportedPType,
                ),
                HsmsHeaderError::UnsupportedSType(_) => Some(
                    HsmsRejectReasonCode::NotSupportedSType,
                ),
            },
    {
        match self {
            HsmsHeaderError::UnsupportedPType(_) => Some(HsmsRejectReasonCode::NotSupportedPType),
            HsmsHeaderError::UnsupportedSType(_) => Some(HsmsRejectReasonCode::NotSupportedSType),
        }
    }
}

/// Failures while converting between a SECS message and its blocks.
#[derive(Debug, Clone, PartialEq, Eq)]
pub enum SecsMessageConvertError {
    SequenceGap(u16),
    MissingEbit,
    EmptyBlocks,
    DecodeFailed(String),
    EncodeFailed(String),
}

} // verus!
