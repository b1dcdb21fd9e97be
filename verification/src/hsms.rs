//! HSMS headers, control messages and message framing.
use vstd::prelude::*;

use crate::bytes::{be16, be32, u16_be, u16_from_be, u16_to_be, u32_be, u32_from_be, u32_to_be};
use crate::common::{
    is_primary_function, ConnectionRole, FunctionId, SessionId, StreamId, SystemByte,
};
use crate::error::SecsTransportError;

verus! {

/// HSMS presentation type.
#[derive(Debug, Clone, Copy, PartialEq, Eq, Structural)]
pub enum HsmsPType {
    /// SECS-II encoded message text.
    SECS2,
}

pub open spec fn ptype_byte(p: HsmsPType) -> u8 {
    match p {
        HsmsPType::SECS2 => 0,
    }
}

pub open spec fn ptype_of(b: u8) -> Option<HsmsPType> {
    if b == 0 {
        Some(HsmsPType::SECS2)
    } else {
        None
    }
}

impl HsmsPType {
    pub fn to_byte(&self) -> (r: u8)
        ensures
            r == ptype_byte(*self),
    {
        0
    }

    pub fn from_byte(b: u8) -> (r: Option<HsmsPType>)
        ensures
            r == ptype_of(b),
    {
        if b == 0 {
            Some(HsmsPType::SECS2)
        } else {
            None
        }
    }
}

/// HSMS session type: a data message or one of the control messages.
#[derive(Debug, Clone, Copy, PartialEq, Eq, Structural)]
pub enum HsmsSType {
    DataMessage,
    SelectReq,
    SelectRsp,
    DeselectReq,
    DeselectRsp,
    LinktestReq,
    LinktestRsp,
    RejectReq,
    SeparateReq,
}

pub open spec fn stype_byte(s: HsmsSType) -> u8 {
    match s {
        HsmsSType::DataMessage => 0,
        HsmsSType::SelectReq => 1,
        HsmsSType::SelectRsp => 2,
        HsmsSType::DeselectReq => 3,
        HsmsSType::DeselectRsp => 4,
        HsmsSType::LinktestReq => 5,
        HsmsSType::LinktestRsp => 6,
        HsmsSType::RejectReq => 7,
        HsmsSType::SeparateReq => 9,
    }
}

pub open spec fn stype_of(b: u8) -> Option<HsmsSType> {
    if b == 0 {
        Some(HsmsSType::DataMessage)
    } else if b == 1 {
        Some(HsmsSType::SelectReq)
    } else if b == 2 {
        Some(HsmsSType::SelectRsp)
    } else if b == 3 {
        Some(HsmsSType::DeselectReq)
    } else if b == 4 {
        Some(HsmsSType::DeselectRsp)
    } else if b == 5 {
        Some(HsmsSType::LinktestReq)
    } else if b == 6 {
        Some(HsmsSType::LinktestRsp)
    } else if b == 7 {
        Some(HsmsSType::RejectReq)
    } else if b == 9 {
        Some(HsmsSType::SeparateReq)
    } else {
        None
    }
}

/// The SType byte of each session type is its SEMI E37 value, and each of
/// these bytes reads back as that type; byte 8 and bytes from 10 up name
/// no type.
pub proof fn lemma_stype_bytes_are_standard()
    ensures
        stype_byte(HsmsSType::DataMessage) == 0,
        stype_byte(HsmsSType::SelectReq) == 1,
        stype_byte(HsmsSType::SelectRsp) == 2,
        stype_byte(HsmsSType::DeselectReq) == 3,
        stype_byte(HsmsSType::DeselectRsp) == 4,
        stype_byte(HsmsSType::LinktestReq) == 5,
        stype_byte(HsmsSType::LinktestRsp) == 6,
        stype_byte(HsmsSType::RejectReq) == 7,
        stype_byte(HsmsSType::SeparateReq) == 9,
        stype_of(0) == Some(HsmsSType::DataMessage),
        stype_of(1) == Some(HsmsSType::SelectReq),
        stype_of(2) == Some(HsmsSType::SelectRsp),
        stype_of(3) == Some(HsmsSType::DeselectReq),
        stype_of(4) == Some(HsmsSType::DeselectRsp),
        stype_of(5) == Some(HsmsSType::LinktestReq),
        stype_of(6) == Some(HsmsSType::LinktestRsp),
        stype_of(7) == Some(HsmsSType::RejectReq),
        stype_of(9) == Some(HsmsSType::SeparateReq),
        stype_of(8) == None::<HsmsSType>,
        forall|b: u8| b >= 10 ==> stype_of(b) == None::<HsmsSType>,
{
}

impl HsmsSType {
    pub fn to_byte(&self) -> (r: u8)
        ensures
            r == stype_byte(*self),
    {
        match self {
            HsmsSType::DataMessage => 0,
            HsmsSType::SelectReq => 1,
            HsmsSType::SelectRsp => 2,
            HsmsSType::DeselectReq => 3,
            HsmsSType::DeselectRsp => 4,
            HsmsSType::LinktestReq => 5,
            HsmsSType::LinktestRsp => 6,
            HsmsSType::RejectReq => 7,
            HsmsSType::SeparateReq => 9,
        }
    }

    pub fn from_byte(b: u8) -> (r: Option<HsmsSType>)
        ensures
            r == stype_of(b),
    {
        if b == 0 {
            Some(HsmsSType::DataMessage)
        } else if b == 1 {
            Some(HsmsSType::SelectReq)
        } else if b == 2 {
            Some(HsmsSType::SelectRsp)
        } else if b == 3 {
            Some(HsmsSType::DeselectReq)
        } else if b == 4 {
            Some(HsmsSType::DeselectRsp)
        } else if b == 5 {
            Some(HsmsSType::LinktestReq)
        } else if b == 6 {
            Some(HsmsSType::LinktestRsp)
        } else if b == 7 {
            Some(HsmsSType::RejectReq)
        } else if b == 9 {
            Some(HsmsSType::SeparateReq)
        } else {
            None
        }
    }

    pub fn is_data(self) -> (r: bool)
        ensures
            r == (self == HsmsSType::DataMessage),
    {
        matches!(self, HsmsSType::DataMessage)
    }

    pub fn is_control(self) -> (r: bool)
        ensures
            r == (self != HsmsSType::DataMessage),
    {
        !self.is_data()
    }
}

/// Status carried by a Select.rsp.
#[derive(Debug, Clone, Copy, PartialEq, Eq, Structural)]
pub enum HsmsSelectStatus {
    /// The session is selected.
    Success,
    /// The session was already selected.
    AlreadyActive,
    /// Not ready to select.
    NotReady,
    /// Connected, but already selected with another entity.
    ConnectionExhaust,
}

pub open spec fn select_status_byte(s: HsmsSelectStatus) -> u8 {
    match s {
        HsmsSelectStatus::Success => 0,
        HsmsSelectStatus::AlreadyActive => 1,
        HsmsSelectStatus::NotReady => 2,
        HsmsSelectStatus::ConnectionExhaust => 3,
    }
}

pub open spec fn select_status_of(b: u8) -> Option<HsmsSelectStatus> {
    if b == 0 {
        Some(HsmsSelectStatus::Success)
    } else if b == 1 {
        Some(HsmsSelectStatus::AlreadyActive)
    } else if b == 2 {
        Some(HsmsSelectStatus::NotReady)
    } else if b == 3 {
        Some(HsmsSelectStatus::ConnectionExhaust)
    } else {
        None
    }
}

impl HsmsSelectStatus {
    pub fn to_byte(&self) -> (r: u8)
        ensures
            r == select_status_byte(*self),
    {
        match self {
            HsmsSelectStatus::Success => 0,
            HsmsSelectStatus::AlreadyActive => 1,
            HsmsSelectStatus::NotReady => 2,
            HsmsSelectStatus::ConnectionExhaust => 3,
        }
    }

    pub fn from_byte(b: u8) -> (r: Option<HsmsSelectStatus>)
        ensures
            r == select_status_of(b),
    {
        if b == 0 {
            Some(HsmsSelectStatus::Success)
        } else if b == 1 {
            Some(HsmsSelectStatus::AlreadyActive)
        } else if b == 2 {
            Some(HsmsSelectStatus::NotReady)
        } else if b == 3 {
            Some(HsmsSelectStatus::ConnectionExhaust)
        } else {
            None
        }
    }
}

/// Status carried by a Deselect.rsp.
#[derive(Debug, Clone, Copy, PartialEq, Eq, Structural)]
pub enum HsmsDeselectStatus {
    /// Communication ended.
    CommunicationEnd,
    /// Not selected yet.
    NotEstablished,
    /// Communication still in progress.
    Busy,
}

pub open spec fn deselect_status_byte(s: HsmsDeselectStatus) -> u8 {
    match s {
        HsmsDeselectStatus::CommunicationEnd => 0,
        HsmsDeselectStatus::NotEstablished => 1,
        HsmsDeselectStatus::Busy => 2,
    }
}

pub open spec fn deselect_status_of(b: u8) -> Option<HsmsDeselectStatus> {
    if b == 0 {
        Some(HsmsDeselectStatus::CommunicationEnd)
    } else if b == 1 {
        Some(HsmsDeselectStatus::NotEstablished)
    } else if b == 2 {
        Some(HsmsDeselectStatus::Busy)
    } else {
        None
    }
}

impl HsmsDeselectStatus {
    pub fn to_byte(&self) -> (r: u8)
        ensures
            r == deselect_status_byte(*self),
    {
        match self {
            HsmsDeselectStatus::CommunicationEnd => 0,
            HsmsDeselectStatus::NotEstablished => 1,
            HsmsDeselectStatus::Busy => 2,
        }
    }

    pub fn from_byte(b: u8) -> (r: Option<HsmsDeselectStatus>)
        ensures
            r == deselect_status_of(b),
    {
        if b == 0 {
            Some(HsmsDeselectStatus::CommunicationEnd)
        } else if b == 1 {
            Some(HsmsDeselectStatus::NotEstablished)
        } else if b == 2 {
            Some(HsmsDeselectStatus::Busy)
        } else {
            None
        }
    }
}

/// Reason code carried by a Reject.req.
#[derive(Debug, Clone, Copy, PartialEq, Eq, Structural)]
pub enum HsmsRejectReasonCode {
    NotSupportedSType,
    NotSupportedPType,
    TransactionNotOpen,
    NotSelected,
}

pub open spec fn reject_reason_byte(r: HsmsRejectReasonCode) -> u8 {
    match r {
        HsmsRejectReasonCode::NotSupportedSType => 1,
        HsmsRejectReasonCode::NotSupportedPType => 2,
        HsmsRejectReasonCode::TransactionNotOpen => 3,
        HsmsRejectReasonCode::NotSelected => 4,
    }
}

pub open spec fn reject_reason_of(b: u8) -> Option<HsmsRejectReasonCode> {
    if b == 1 {
        Some(HsmsRejectReasonCode::NotSupportedSType)
    } else if b == 2 {
        Some(HsmsRejectReasonCode::NotSupportedPType)
    } else if b == 3 {
        Some(HsmsRejectReasonCode::TransactionNotOpen)
    } else if b == 4 {
        Some(HsmsRejectReasonCode::NotSelected)
    } else {
        None
    }
}

impl HsmsRejectReasonCode {
    pub fn to_byte(&self) -> (r: u8)
        ensures
            r == reject_reason_byte(*self),
    {
        match self {
            HsmsRejectReasonCode::NotSupportedSType => 1,
            HsmsRejectReasonCode::NotSupportedPType => 2,
            HsmsRejectReasonCode::TransactionNotOpen => 3,
            HsmsRejectReasonCode::NotSelected => 4,
        }
    }

    pub fn from_byte(b: u8) -> (r: Option<HsmsRejectReasonCode>)
        ensures
            r == reject_reason_of(b),
    {
        if b == 1 {
            Some(HsmsRejectReasonCode::NotSupportedSType)
        } else if b == 2 {
            Some(HsmsRejectReasonCode::NotSupportedPType)
        } else if b == 3 {
            Some(HsmsRejectReasonCode::TransactionNotOpen)
        } else if b == 4 {
            Some(HsmsRejectReasonCode::NotSelected)
        } else {
            None
        }
    }
}

/// Every code of the HSMS enumerations reads back from its byte.
pub proof fn lemma_hsms_codes_round_trip(
    p: HsmsPType,
    s: HsmsSType,
    sel: HsmsSelectStatus,
    desel: HsmsDeselectStatus,
    reason: HsmsRejectReasonCode,
)
    ensures
        ptype_of(ptype_byte(p)) == Some(p),
        stype_of(stype_byte(s)) == Some(s),
        select_status_of(select_status_byte(sel)) == Some(sel),
        deselect_status_of(deselect_status_byte(desel)) == Some(desel),
        reject_reason_of(reject_reason_byte(reason)) == Some(reason),
{
}

/// The common HSMS message header.
#[derive(Debug, Clone, Copy, PartialEq, Eq, Structural)]
pub struct HsmsHeader {
    pub session_id: SessionId,
    pub byte2: u8,
    pub byte3: u8,
    pub ptype: HsmsPType,
    pub stype: HsmsSType,
    pub system_byte: SystemByte,
}

/// The ten header bytes on the wire.
pub open spec fn hsms_header_bytes(h: HsmsHeader) -> Seq<u8> {
    u16_be(h.session_id.0) + seq![h.byte2, h.byte3, ptype_byte(h.ptype), stype_byte(h.stype)]
        + u32_be(h.system_byte.0)
}

/// The header that ten bytes stand for, or the error for an unknown type byte.
pub open spec fn hsms_header_of(b: Seq<u8>) -> Result<HsmsHeader, SecsTransportError>
    recommends
        b.len() == 10,
{
    match (ptype_of(b[4]), stype_of(b[5])) {
        (Some(p), Some(s)) => Ok(
            HsmsHeader {
                session_id: SessionId(be16(b[0], b[1]) as u16),
                byte2: b[2],
                byte3: b[3],
                ptype: p,
                stype: s,
                system_byte: SystemByte(be32(b[6], b[7], b[8], b[9]) as u32),
            },
        ),
        _ => Err(SecsTransportError::InvalidBlockHeader),
    }
}

/// The stream that a header carries: byte 2 without its top bit.
pub open spec fn header_stream(h: HsmsHeader) -> StreamId {
    StreamId(h.byte2 % 128)
}

/// Whether a header asks for a reply: the top bit of byte 2.
pub open spec fn header_need_reply(h: HsmsHeader) -> bool {
    h.byte2 >= 128
}

/// The header of a data message.
pub open spec fn data_header(
    session_id: SessionId,
    stream: StreamId,
    function: FunctionId,
    need_reply: bool,
    system_byte: SystemByte,
) -> HsmsHeader {
    HsmsHeader {
        session_id,
        byte2: ((stream.0 % 128) + if need_reply {
            128int
        } else {
            0int
        }) as u8,
        byte3: function.0,
        ptype: HsmsPType::SECS2,
        stype: HsmsSType::DataMessage,
        system_byte,
    }
}

/// The header of a control message: session id 0xFFFF.
pub open spec fn control_header(byte2: u8, byte3: u8, stype: HsmsSType, system_byte: SystemByte) -> HsmsHeader {
    HsmsHeader {
        session_id: SessionId(0xFFFF),
        byte2,
        byte3,
        ptype: HsmsPType::SECS2,
        stype,
        system_byte,
    }
}

impl HsmsHeader {
    pub fn new(
        session_id: SessionId,
        byte2: u8,
        byte3: u8,
        ptype: HsmsPType,
        stype: HsmsSType,
        system_byte: SystemByte,
    ) -> (r: HsmsHeader)
        ensures
            r == (HsmsHeader { session_id, byte2, byte3, ptype, stype, system_byte }),
    {
        HsmsHeader { session_id, byte2, byte3, ptype, stype, system_byte }
    }

    /// Header of a data message: the stream without its top bit, the top bit
    /// set when a reply is wanted.
    pub fn data(
        session_id: SessionId,
        stream: StreamId,
        function: FunctionId,
        need_reply: bool,
        system_byte: SystemByte,
    ) -> (r: HsmsHeader)
        ensures
            r == data_header(session_id, stream, function, need_reply, system_byte),
    {
        let stream = stream.0 % 128;
        let byte2 = if need_reply {
            stream + 128
        } else {
            stream
        };
        Self::new(session_id, byte2, function.0, HsmsPType::SECS2, HsmsSType::DataMessage, system_byte)
    }

    /// Header of a control message.
    pub fn control(byte2: u8, byte3: u8, stype: HsmsSType, system_byte: SystemByte) -> (r: HsmsHeader)
        ensures
            r == control_header(byte2, byte3, stype, system_byte),
    {
        Self::new(SessionId(0xFFFF), byte2, byte3, HsmsPType::SECS2, stype, system_byte)
    }

    pub fn is_data(&self) -> (r: bool)
        ensures
            r == (self.stype == HsmsSType::DataMessage),
    {
        self.stype.is_data()
    }

    pub fn is_control(&self) -> (r: bool)
        ensures
            r == (self.stype != HsmsSType::DataMessage),
    {
        self.stype.is_control()
    }

    pub fn stream(&self) -> (r: StreamId)
        ensures
            r == header_stream(*self),
    {
        StreamId(self.byte2 % 128)
    }

    pub fn function(&self) -> (r: FunctionId)
        ensures
            r == FunctionId(self.byte3),
    {
        FunctionId(self.byte3)
    }

    /// A control message reports success with byte 3 equal to 0.
    pub fn is_control_success(&self) -> (r: bool)
        ensures
            r == (self.stype != HsmsSType::DataMessage && self.byte3 == 0),
    {
        self.is_control() && self.byte3 == 0
    }

    pub fn need_reply(&self) -> (r: bool)
        ensures
            r == header_need_reply(*self),
    {
        self.byte2 >= 128
    }

    pub fn to_bytes(&self) -> (r: [u8; 10])
        ensures
            r@ == hsms_header_bytes(*self),
    {
        let (s0, s1) = u16_to_be(self.session_id.0);
        let (y0, y1, y2, y3) = u32_to_be(self.system_byte.0);
        let r = [s0, s1, self.byte2, self.byte3, self.ptype.to_byte(), self.stype.to_byte(), y0, y1, y2, y3];
        assert(r@ =~= hsms_header_bytes(*self));
        r
    }

    /// Reads a header from its ten bytes.
    pub fn try_from(h: [u8; 10]) -> (r: Result<HsmsHeader, SecsTransportError>)
        ensures
            r == hsms_header_of(h@),
    {
        let ptype = match HsmsPType::from_byte(h[4]) {
            Some(p) => p,
            None => {
                return Err(SecsTransportError::InvalidBlockHeader);
            },
        };
        let stype = match HsmsSType::from_byte(h[5]) {
            Some(s) => s,
            None => {
                return Err(SecsTransportError::InvalidBlockHeader);
            },
        };
        Ok(
            HsmsHeader {
                session_id: SessionId(u16_from_be(h[0], h[1])),
                byte2: h[2],
                byte3: h[3],
                ptype,
                stype,
                system_byte: SystemByte(u32_from_be(h[6], h[7], h[8], h[9])),
            },
        )
    }
}

/// Reading a header back from its bytes gives the header.
pub proof fn lemma_hsms_header_round_trip(h: HsmsHeader)
    ensures
        hsms_header_bytes(h).len() == 10,
        hsms_header_of(hsms_header_bytes(h)) == Ok::<HsmsHeader, SecsTransportError>(h),
{
    let b = hsms_header_bytes(h);
    crate::bytes::lemma_be16_of_u16(h.session_id.0);
    crate::bytes::lemma_be32_of_u32(h.system_byte.0);
    assert(b[0] == u16_be(h.session_id.0)[0]);
    assert(b[1] == u16_be(h.session_id.0)[1]);
    assert(b[6] == u32_be(h.system_byte.0)[0]);
    assert(b[7] == u32_be(h.system_byte.0)[1]);
    assert(b[8] == u32_be(h.system_byte.0)[2]);
    assert(b[9] == u32_be(h.system_byte.0)[3]);
    lemma_hsms_codes_round_trip(
        h.ptype,
        h.stype,
        HsmsSelectStatus::Success,
        HsmsDeselectStatus::Busy,
        HsmsRejectReasonCode::NotSelected,
    );
}

/// A header read from ten bytes writes back out as those bytes.
pub proof fn lemma_hsms_bytes_round_trip(b: Seq<u8>)
    requires
        b.len() == 10,
        hsms_header_of(b) is Ok,
    ensures
        hsms_header_bytes(hsms_header_of(b)->Ok_0) == b,
{
    let h = hsms_header_of(b)->Ok_0;
    crate::bytes::lemma_u16_of_be16(b[0], b[1]);
    crate::bytes::lemma_u32_of_be32(b[6], b[7], b[8], b[9]);
    assert(ptype_byte(h.ptype) == b[4]);
    assert(stype_byte(h.stype) == b[5]);
    assert(hsms_header_bytes(h) =~= b);
}

/// The reading of stream, function and reply flag of a data header gives back
/// what built it, for streams below 128.
pub proof fn lemma_data_header_fields(
    session_id: SessionId,
    stream: StreamId,
    function: FunctionId,
    need_reply: bool,
    system_byte: SystemByte,
)
    requires
        stream.0 < 128,
    ensures
        header_stream(data_header(session_id, stream, function, need_reply, system_byte)) == stream,
        header_need_reply(data_header(session_id, stream, function, need_reply, system_byte))
            == need_reply,
        data_header(session_id, stream, function, need_reply, system_byte).byte3 == function.0,
{
}

/// HSMS control messages, as the session state machine sees them.
#[derive(Debug, Clone, Copy, PartialEq, Eq, Structural)]
pub enum HsmsControl {
    SelectReq,
    SelectRsp(HsmsSelectStatus),
    DeselectReq,
    DeselectRsp(HsmsDeselectStatus),
    LinktestReq,
    LinktestRsp,
    /// Header byte 2 of the rejected message, the reason, and its system byte.
    RejectReq(u8, HsmsRejectReasonCode, SystemByte),
    SeparateReq,
}

/// The header that carries a control message; a Reject.req keeps the system
/// byte of the message it rejects, the others use `system_byte`.
pub open spec fn control_message_header(c: HsmsControl, system_byte: SystemByte) -> HsmsHeader {
    match c {
        HsmsControl::SelectReq => control_header(0, 0, HsmsSType::SelectReq, system_byte),
        HsmsControl::SelectRsp(s) => control_header(
            0,
            select_status_byte(s),
            HsmsSType::SelectRsp,
            system_byte,
        ),
        HsmsControl::DeselectReq => control_header(0, 0, HsmsSType::DeselectReq, system_byte),
        HsmsControl::DeselectRsp(s) => control_header(
            0,
            deselect_status_byte(s),
            HsmsSType::DeselectRsp,
            system_byte,
        ),
        HsmsControl::LinktestReq => control_header(0, 0, HsmsSType::LinktestReq, system_byte),
        HsmsControl::LinktestRsp => control_header(0, 0, HsmsSType::LinktestRsp, system_byte),
        HsmsControl::RejectReq(b2, reason, sb) => control_header(
            b2,
            reject_reason_byte(reason),
            HsmsSType::RejectReq,
            sb,
        ),
        HsmsControl::SeparateReq => control_header(0, 0, HsmsSType::SeparateReq, system_byte),
    }
}

/// The codes a control message carries are their SEMI E37 values: a
/// Select.rsp status of 0 (success) to 3 (connection exhausted), a
/// Deselect.rsp status of 0 to 2, a Reject.req reason of 1 to 4, and PType 0
/// for SECS-II text; each reads back as the same code.
pub proof fn lemma_control_codes_are_standard()
    ensures
        ptype_byte(HsmsPType::SECS2) == 0,
        ptype_of(0) == Some(HsmsPType::SECS2),
        select_status_byte(HsmsSelectStatus::Success) == 0,
        select_status_byte(HsmsSelectStatus::AlreadyActive) == 1,
        select_status_byte(HsmsSelectStatus::NotReady) == 2,
        select_status_byte(HsmsSelectStatus::ConnectionExhaust) == 3,
        select_status_of(0) == Some(HsmsSelectStatus::Success),
        select_status_of(1) == Some(HsmsSelectStatus::AlreadyActive),
        select_status_of(2) == Some(HsmsSelectStatus::NotReady),
        select_status_of(3) == Some(HsmsSelectStatus::ConnectionExhaust),
        deselect_status_byte(HsmsDeselectStatus::CommunicationEnd) == 0,
        deselect_status_byte(HsmsDeselectStatus::NotEstablished) == 1,
        deselect_status_byte(HsmsDeselectStatus::Busy) == 2,
        deselect_status_of(0) == Some(HsmsDeselectStatus::CommunicationEnd),
        deselect_status_of(1) == Some(HsmsDeselectStatus::NotEstablished),
        deselect_status_of(2) == Some(HsmsDeselectStatus::Busy),
        reject_reason_byte(HsmsRejectReasonCode::NotSupportedSType) == 1,
        reject_reason_byte(HsmsRejectReasonCode::NotSupportedPType) == 2,
        reject_reason_byte(HsmsRejectReasonCode::TransactionNotOpen) == 3,
        reject_reason_byte(HsmsRejectReasonCode::NotSelected) == 4,
        reject_reason_of(1) == Some(HsmsRejectReasonCode::NotSupportedSType),
        reject_reason_of(2) == Some(HsmsRejectReasonCode::NotSupportedPType),
        reject_reason_of(3) == Some(HsmsRejectReasonCode::TransactionNotOpen),
        reject_reason_of(4) == Some(HsmsRejectReasonCode::NotSelected),
{
}

/// The ten header bytes: session id (most significant byte first), byte 2
/// (W-bit and stream), byte 3 (function or status), PType, SType, and the
/// system byte (most significant byte first).
pub proof fn lemma_header_layout(h: HsmsHeader)
    ensures
        hsms_header_bytes(h).len() == 10,
        hsms_header_bytes(h)[0] as int * 256 + hsms_header_bytes(h)[1] as int == h.session_id.0 as int,
        hsms_header_bytes(h)[2] == h.byte2,
        hsms_header_bytes(h)[3] == h.byte3,
        hsms_header_bytes(h)[4] == ptype_byte(h.ptype),
        hsms_header_bytes(h)[5] == stype_byte(h.stype),
        hsms_header_bytes(h)[6] as int * 0x100_0000 + hsms_header_bytes(h)[7] as int * 0x1_0000
            + hsms_header_bytes(h)[8] as int * 256 + hsms_header_bytes(h)[9] as int == h.system_byte.0 as int,
{
    crate::bytes::lemma_be16_of_u16(h.session_id.0);
    crate::bytes::lemma_be32_of_u32(h.system_byte.0);
}

/// A control message's header: session id 0xFFFF, PType 0, the SType of
/// the control, the status or reason in byte 3, and the given system byte
/// (a Reject.req its own).
pub proof fn lemma_control_header_fields(c: HsmsControl, system_byte: SystemByte)
    ensures
        ({
            let h = control_message_header(c, system_byte);
            &&& h.session_id == SessionId(0xFFFF)
            &&& h.ptype == HsmsPType::SECS2
            &&& h.stype == match c {
                HsmsControl::SelectReq => HsmsSType::SelectReq,
                HsmsControl::SelectRsp(_) => HsmsSType::SelectRsp,
                HsmsControl::DeselectReq => HsmsSType::DeselectReq,
                HsmsControl::DeselectRsp(_) => HsmsSType::DeselectRsp,
                HsmsControl::LinktestReq => HsmsSType::LinktestReq,
                HsmsControl::LinktestRsp => HsmsSType::LinktestRsp,
                HsmsControl::RejectReq(..) => HsmsSType::RejectReq,
                HsmsControl::SeparateReq => HsmsSType::SeparateReq,
            }
            &&& h.byte3 == match c {
                HsmsControl::SelectRsp(st) => select_status_byte(st),
                HsmsControl::DeselectRsp(st) => deselect_status_byte(st),
                HsmsControl::RejectReq(_, reason, _) => reject_reason_byte(reason),
                _ => 0,
            }
            &&& h.system_byte == match c {
                HsmsControl::RejectReq(_, _, sb) => sb,
                _ => system_byte,
            }
        }),
{
}

/// The control message that a header carries, if any.
pub open spec fn control_of(h: HsmsHeader) -> Option<HsmsControl> {
    match h.stype {
        HsmsSType::DataMessage => None,
        HsmsSType::SelectReq => Some(HsmsControl::SelectReq),
        HsmsSType::SelectRsp => match select_status_of(h.byte3) {
            Some(s) => Some(HsmsControl::SelectRsp(s)),
            None => None,
        },
        HsmsSType::DeselectReq => Some(HsmsControl::DeselectReq),
        HsmsSType::DeselectRsp => match deselect_status_of(h.byte3) {
            Some(s) => Some(HsmsControl::DeselectRsp(s)),
            None => None,
        },
        HsmsSType::LinktestReq => Some(HsmsControl::LinktestReq),
        HsmsSType::LinktestRsp => Some(HsmsControl::LinktestRsp),
        HsmsSType::RejectReq => match reject_reason_of(h.byte3) {
            Some(r) => Some(HsmsControl::RejectReq(h.byte2, r, h.system_byte)),
            None => None,
        },
        HsmsSType::SeparateReq => Some(HsmsControl::SeparateReq),
    }
}

impl HsmsControl {
    /// The header that carries this control message.
    pub fn to_header(&self, system_byte: SystemByte) -> (r: HsmsHeader)
        ensures
            r == control_message_header(*self, system_byte),
    {
        match self {
            HsmsControl::SelectReq => HsmsHeader::control(0, 0, HsmsSType::SelectReq, system_byte),
            HsmsControl::SelectRsp(s) => HsmsHeader::control(
                0,
                s.to_byte(),
                HsmsSType::SelectRsp,
                system_byte,
            ),
            HsmsControl::DeselectReq => HsmsHeader::control(
                0,
                0,
                HsmsSType::DeselectReq,
                system_byte,
            ),
            HsmsControl::DeselectRsp(s) => HsmsHeader::control(
                0,
                s.to_byte(),
                HsmsSType::DeselectRsp,
                system_byte,
            ),
            HsmsControl::LinktestReq => HsmsHeader::control(
                0,
                0,
                HsmsSType::LinktestReq,
                system_byte,
            ),
            HsmsControl::LinktestRsp => HsmsHeader::control(
                0,
                0,
                HsmsSType::LinktestRsp,
                system_byte,
            ),
            HsmsControl::RejectReq(b2, reason, sb) => HsmsHeader::control(
                *b2,
                reason.to_byte(),
                HsmsSType::RejectReq,
                *sb,
            ),
            HsmsControl::SeparateReq => HsmsHeader::control(
                0,
                0,
                HsmsSType::SeparateReq,
                system_byte,
            ),
        }
    }

    /// Reads the control message of a header; data headers, and status or
    /// reason bytes out of range, give `InvalidHeader`.
    pub fn from_header(h: &HsmsHeader) -> (r: Result<HsmsControl, SecsTransportError>)
        ensures
            match control_of(*h) {
                Some(c) => r == Ok::<HsmsControl, SecsTransportError>(c),
                None => r == Err::<HsmsControl, SecsTransportError>(
                    SecsTransportError::InvalidHeader,
                ),
            },
    {
        let r = match h.stype {
            HsmsSType::DataMessage => None,
            HsmsSType::SelectReq => Some(HsmsControl::SelectReq),
            HsmsSType::SelectRsp => match HsmsSelectStatus::from_byte(h.byte3) {
                Some(s) => Some(HsmsControl::SelectRsp(s)),
                None => None,
            },
            HsmsSType::DeselectReq => Some(HsmsControl::DeselectReq),
            HsmsSType::DeselectRsp => match HsmsDeselectStatus::from_byte(h.byte3) {
                Some(s) => Some(HsmsControl::DeselectRsp(s)),
                None => None,
            },
            HsmsSType::LinktestReq => Some(HsmsControl::LinktestReq),
            HsmsSType::LinktestRsp => Some(HsmsControl::LinktestRsp),
            HsmsSType::RejectReq => match HsmsRejectReasonCode::from_byte(h.byte3) {
                Some(reason) => Some(HsmsControl::RejectReq(h.byte2, reason, h.system_byte)),
                None => None,
            },
            HsmsSType::SeparateReq => Some(HsmsControl::SeparateReq),
        };
        match r {
            Some(c) => Ok(c),
            None => Err(SecsTransportError::InvalidHeader),
        }
    }
}

/// A control message read back from the header that carries it is the same
/// control message.
pub proof fn lemma_control_round_trip(c: HsmsControl, system_byte: SystemByte)
    ensures
        control_of(control_message_header(c, system_byte)) == Some(c),
{
    lemma_hsms_codes_round_trip(
        HsmsPType::SECS2,
        HsmsSType::DataMessage,
        match c {
            HsmsControl::SelectRsp(s) => s,
            _ => HsmsSelectStatus::Success,
        },
        match c {
            HsmsControl::DeselectRsp(s) => s,
            _ => HsmsDeselectStatus::Busy,
        },
        match c {
            HsmsControl::RejectReq(_, r, _) => r,
            _ => HsmsRejectReasonCode::NotSelected,
        },
    );
}

/// An HSMS message: header and, for data messages, the encoded message text.
#[derive(Debug, Clone, PartialEq, Eq)]
pub struct HsmsMessage {
    pub header: HsmsHeader,
    pub payload: Option<Vec<u8>>,
}

impl View for HsmsMessage {
    type V = (HsmsHeader, Option<Seq<u8>>);

    open spec fn view(&self) -> (HsmsHeader, Option<Seq<u8>>) {
        (
            self.header,
            match self.payload {
                Some(p) => Some(p@),
                None => None,
            },
        )
    }
}

/// The message text of a message; empty when there is none.
pub open spec fn payload_bytes(m: (HsmsHeader, Option<Seq<u8>>)) -> Seq<u8> {
    match m.1 {
        Some(p) => p,
        None => Seq::empty(),
    }
}

/// Whether a message fits an HSMS frame: the length field counts header and text.
pub open spec fn message_fits(m: (HsmsHeader, Option<Seq<u8>>)) -> bool {
    10 + payload_bytes(m).len() <= u32::MAX
}

/// The frame of a message: the four-byte length, the header, the message text.
pub open spec fn frame_bytes(m: (HsmsHeader, Option<Seq<u8>>)) -> Seq<u8> {
    u32_be((10 + payload_bytes(m).len()) as u32) + hsms_header_bytes(m.0) + payload_bytes(m)
}

/// The length field at the start of `v`.
pub open spec fn frame_length_field(v: Seq<u8>) -> int
    recommends
        v.len() >= 4,
{
    be32(v[0], v[1], v[2], v[3])
}

/// Bytes whose length field claims less than a header while the header says
/// data: the text would end before it starts.
pub open spec fn frame_cuts_text(v: Seq<u8>) -> bool {
    &&& v.len() >= 14
    &&& v.len() >= 4 + frame_length_field(v)
    &&& frame_length_field(v) < 10
    &&& hsms_header_of(v.subrange(4, 14)) matches Ok(h) && h.stype == HsmsSType::DataMessage
}

/// The message that bytes starting with a frame stand for, or why they do not.
/// A data message takes the text up to the end that the length field gives;
/// a control message has no text.
pub open spec fn message_of(v: Seq<u8>) -> Result<(HsmsHeader, Option<Seq<u8>>), SecsTransportError> {
    if v.len() < 14 {
        Err(SecsTransportError::InvalidBlockLength(v.len() as usize))
    } else if v.len() < 4 + frame_length_field(v) {
        Err(SecsTransportError::InvalidBlockLength(v.len() as usize))
    } else {
        match hsms_header_of(v.subrange(4, 14)) {
            Err(e) => Err(e),
            Ok(h) => Ok(
                (
                    h,
                    if h.stype == HsmsSType::DataMessage {
                        Some(v.subrange(14, 4 + frame_length_field(v)))
                    } else {
                        None
                    },
                ),
            ),
        }
    }
}

impl HsmsMessage {
    pub fn new(header: HsmsHeader, payload: Option<Vec<u8>>) -> (r: HsmsMessage)
        ensures
            r.header == header,
            r.payload == payload,
    {
        HsmsMessage { header, payload }
    }

    pub fn header(&self) -> (r: &HsmsHeader)
        ensures
            *r == self.header,
    {
        &self.header
    }

    pub fn payload(&self) -> (r: Option<&Vec<u8>>)
        ensures
            r == match self.payload {
                Some(p) => Some(&p),
                None => None::<&Vec<u8>>,
            },
    {
        match &self.payload {
            Some(p) => Some(p),
            None => None,
        }
    }

    pub fn is_data(&self) -> (r: bool)
        ensures
            r == (self.header.stype == HsmsSType::DataMessage),
    {
        self.header.is_data()
    }

    pub fn is_control(&self) -> (r: bool)
        ensures
            r == (self.header.stype != HsmsSType::DataMessage),
    {
        self.header.is_control()
    }

    /// The frame of this message; a text too long for the length field is refused.
    pub fn to_bytes(&self) -> (r: Result<Vec<u8>, SecsTransportError>)
        ensures
            message_fits(self@) ==> r == Ok::<Vec<u8>, SecsTransportError>(
                r->Ok_0,
            ) && r->Ok_0@ == frame_bytes(self@),
            !message_fits(self@) ==> r == Err::<Vec<u8>, SecsTransportError>(
                SecsTransportError::InvalidBlockHeader,
            ),
    {
        let header_bytes = self.header.to_bytes();
        let text_len: usize = match &self.payload {
            Some(p) => p.len(),
            None => 0,
        };
        if text_len > 0xFFFF_FFF5 {
            return Err(SecsTransportError::InvalidBlockHeader);
        }
        let len = (10 + text_len) as u32;
        let (l0, l1, l2, l3) = u32_to_be(len);
        let mut bytes: Vec<u8> = Vec::new();
        bytes.push(l0);
        bytes.push(l1);
        bytes.push(l2);
        bytes.push(l3);
        let mut i: usize = 0;
        while i < 10
            invariant
                i <= 10,
                header_bytes@ == hsms_header_bytes(self.header),
                bytes@ == u32_be(len) + header_bytes@.take(i as int),
            decreases 10 - i,
        {
            bytes.push(header_bytes[i]);
            assert(bytes@ =~= u32_be(len) + header_bytes@.take(i as int + 1));
            i = i + 1;
        }
        assert(header_bytes@.take(10) =~= header_bytes@);
        match &self.payload {
            Some(p) => {
                let mut j: usize = 0;
                while j < p.len()
                    invariant
                        j <= p@.len(),
                        header_bytes@ == hsms_header_bytes(self.header),
                        bytes@ == u32_be(len) + header_bytes@ + p@.take(j as int),
                    decreases p@.len() - j,
                {
                    bytes.push(p[j]);
                    assert(bytes@ =~= u32_be(len) + header_bytes@ + p@.take(j as int + 1));
                    j = j + 1;
                }
                assert(p@.take(j as int) =~= p@);
            },
            None => {
                assert(bytes@ =~= u32_be(len) + header_bytes@ + Seq::<u8>::empty());
            },
        }
        Ok(bytes)
    }

    /// Reads the message that `value` starts with: at least the length field
    /// and a header, and as many bytes as the length field claims.
    pub fn try_from(value: &[u8]) -> (r: Result<HsmsMessage, SecsTransportError>)
        requires
            !frame_cuts_text(value@),
        ensures
            match message_of(value@) {
                Ok(m) => r is Ok && r->Ok_0@ == m,
                Err(e) => r == Err::<HsmsMessage, SecsTransportError>(e),
            },
    {
        if value.len() < 14 {
            return Err(SecsTransportError::InvalidBlockLength(value.len()));
        }
        let len = u32_from_be(value[0], value[1], value[2], value[3]) as usize;
        if value.len() - 4 < len {
            return Err(SecsTransportError::InvalidBlockLength(value.len()));
        }
        let raw = [
            value[4],
            value[5],
            value[6],
            value[7],
            value[8],
            value[9],
            value[10],
            value[11],
            value[12],
            value[13],
        ];
        assert(raw@ =~= value@.subrange(4, 14));
        let header = match HsmsHeader::try_from(raw) {
            Ok(h) => h,
            Err(e) => {
                return Err(e);
            },
        };
        let payload = if header.is_data() {
            let end = 4 + len;
            let mut body: Vec<u8> = Vec::new();
            let mut i: usize = 14;
            while i < end
                invariant
                    14 <= end <= value@.len(),
                    14 <= i <= end,
                    body@ == value@.subrange(14, i as int),
                decreases end - i,
            {
                body.push(value[i]);
                assert(body@ =~= value@.subrange(14, i as int + 1));
                i = i + 1;
            }
            Some(body)
        } else {
            None
        };
        Ok(HsmsMessage::new(header, payload))
    }
}

/// Reading a message back from its frame gives the message.
pub proof fn lemma_frame_round_trip(m: (HsmsHeader, Option<Seq<u8>>))
    requires
        message_fits(m),
        m.1 is Some <==> m.0.stype == HsmsSType::DataMessage,
    ensures
        !frame_cuts_text(frame_bytes(m)),
        frame_bytes(m).len() == 4 + frame_length_field(frame_bytes(m)),
        message_of(frame_bytes(m)) == Ok::<(HsmsHeader, Option<Seq<u8>>), SecsTransportError>(m),
{
    let v = frame_bytes(m);
    let n = (10 + payload_bytes(m).len()) as u32;
    crate::bytes::lemma_be32_of_u32(n);
    assert(v.subrange(0, 4) =~= u32_be(n));
    assert(v[0] == u32_be(n)[0]);
    assert(v[1] == u32_be(n)[1]);
    assert(v[2] == u32_be(n)[2]);
    assert(v[3] == u32_be(n)[3]);
    assert(v.subrange(4, 14) =~= hsms_header_bytes(m.0));
    lemma_hsms_header_round_trip(m.0);
    assert(v.subrange(14, 4 + frame_length_field(v)) =~= payload_bytes(m));
    if m.1 is None {
        assert(payload_bytes(m) =~= Seq::<u8>::empty());
    }
}

/// Settings of an HSMS link; timeouts are in milliseconds.
#[derive(Debug, Clone, PartialEq, Eq)]
pub struct HsmsTransportConfig {
    pub session_id: SessionId,
    pub connection_mode: ConnectionRole,
    /// Reply timeout.
    pub t3_timeout: u64,
    /// Connect separation timeout.
    pub t5_timeout: u64,
    /// Control transaction timeout.
    pub t6_timeout: u64,
    /// Not-selected timeout.
    pub t7_timeout: u64,
    /// Network inter-character timeout.
    pub t8_timeout: u64,
}

} // verus!
