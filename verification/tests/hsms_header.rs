use secs_transport::common::{FunctionId, SessionId, StreamId, SystemByte};
use secs_transport::hsms::{
    HsmsControl, HsmsHeader, HsmsMessage, HsmsPType, HsmsRejectReasonCode, HsmsSType,
    HsmsSelectStatus,
};

#[test]
fn test_data_header_with_reply() {
    let header = HsmsHeader::data(
        SessionId(10),
        StreamId(1),
        FunctionId(3),
        true,
        SystemByte(100),
    );

    assert!(header.is_data());
    assert!(!header.is_control());
    assert_eq!(header.session_id, SessionId(10));
    assert_eq!(header.stream(), StreamId(1));
    assert_eq!(header.function(), FunctionId(3));
    assert!(header.need_reply());
    assert_eq!(header.byte2, 0x81);
    assert_eq!(header.byte3, 0x03);
    assert_eq!(header.ptype, HsmsPType::SECS2);
    assert_eq!(header.stype, HsmsSType::DataMessage);
    assert_eq!(header.system_byte, SystemByte(100));
}

#[test]
fn test_data_header_without_reply() {
    let header = HsmsHeader::data(
        SessionId(10),
        StreamId(1),
        FunctionId(4),
        false,
        SystemByte(101),
    );

    assert!(header.is_data());
    assert_eq!(header.stream(), StreamId(1));
    assert_eq!(header.function(), FunctionId(4));
    assert!(!header.need_reply());
    assert_eq!(header.byte2, 0x01);
    assert_eq!(header.byte3, 0x04);
}

#[test]
fn header_bytes_round_trip() {
    let header = HsmsHeader::data(
        SessionId(0x1234),
        StreamId(6),
        FunctionId(11),
        true,
        SystemByte(0x0102_0304),
    );
    let bytes = header.to_bytes();
    assert_eq!(bytes, [0x12, 0x34, 0x86, 0x0B, 0x00, 0x00, 0x01, 0x02, 0x03, 0x04]);
    assert_eq!(HsmsHeader::try_from(bytes).unwrap(), header);
}

#[test]
fn header_with_unknown_stype_is_refused() {
    let bytes = [0xFF, 0xFF, 0, 0, 0, 11, 0, 0, 0, 1];
    assert!(HsmsHeader::try_from(bytes).is_err());
}

#[test]
fn control_header_is_control() {
    let header = HsmsHeader::control(0, 0, HsmsSType::LinktestReq, SystemByte(7));
    assert!(header.is_control());
    assert!(!header.is_data());
    assert_eq!(header.session_id, SessionId(0xFFFF));
    assert!(header.is_control_success());
}

#[test]
fn control_round_trip_through_header() {
    let controls = [
        HsmsControl::SelectReq,
        HsmsControl::SelectRsp(HsmsSelectStatus::Success),
        HsmsControl::SelectRsp(HsmsSelectStatus::NotReady),
        HsmsControl::LinktestReq,
        HsmsControl::LinktestRsp,
        HsmsControl::SeparateReq,
        HsmsControl::RejectReq(3, HsmsRejectReasonCode::NotSelected, SystemByte(9)),
    ];
    for control in controls {
        let header = control.to_header(SystemByte(9));
        assert_eq!(HsmsControl::from_header(&header).unwrap(), control);
    }
}

#[test]
fn message_frame_round_trip() {
    let header = HsmsHeader::data(SessionId(1), StreamId(1), FunctionId(1), true, SystemByte(5));
    let msg = HsmsMessage::new(header, Some(vec![0x01, 0x00]));
    let bytes = msg.to_bytes().unwrap();
    assert_eq!(&bytes[0..4], &[0, 0, 0, 12]);
    assert_eq!(HsmsMessage::try_from(&bytes).unwrap(), msg);
}
