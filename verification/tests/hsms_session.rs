use secs_transport::common::{ConnectionRole, SecsTimeoutUnit, SessionId};
use secs_transport::hsms::{HsmsControl, HsmsSelectStatus};
use secs_transport::hsms_session::{
    HsmsConnectionState, HsmsSession, HsmsSessionEffect, HsmsSessionError, HsmsSessionSignal,
};

fn get_active_session() -> HsmsSession {
    HsmsSession::new(SessionId(1), ConnectionRole::Active)
}

fn get_passive_session() -> HsmsSession {
    HsmsSession::new(SessionId(1), ConnectionRole::Passive)
}

#[test]
fn test_active_after_connect() {
    let mut session = get_active_session();
    let effects = session.handle(HsmsSessionSignal::Connected).unwrap();

    assert_eq!(session.state, HsmsConnectionState::NotSelected);
    assert!(effects.contains(&HsmsSessionEffect::StartTimeout(SecsTimeoutUnit::T6)));
    assert!(effects.contains(&HsmsSessionEffect::SendControl(HsmsControl::SelectReq)));
}

#[test]
fn test_active_not_selected_if_disconnect_start_t5_timeout() {
    let mut session = get_active_session();
    session.state = HsmsConnectionState::NotSelected;

    let effects = session.handle(HsmsSessionSignal::Disconnected).unwrap();

    assert_eq!(session.state, HsmsConnectionState::NotConnected);
    assert_eq!(session.can_connect, false);
    assert!(effects.contains(&HsmsSessionEffect::StartTimeout(SecsTimeoutUnit::T5)));
}

#[test]
fn test_active_not_selected_t6_timout_occured() {
    let mut session = get_active_session();
    session.state = HsmsConnectionState::NotSelected;

    let effects = session
        .handle(HsmsSessionSignal::Timeout(SecsTimeoutUnit::T6))
        .unwrap();

    assert_eq!(session.state, HsmsConnectionState::NotSelected);
    assert!(effects.contains(&HsmsSessionEffect::Disconnect));
}

#[test]
fn test_active_not_selected_recv_non_select_rsp() {
    let mut session = get_active_session();
    session.state = HsmsConnectionState::NotSelected;

    let effects = session
        .handle(HsmsSessionSignal::RecvControl(HsmsControl::LinktestReq))
        .unwrap();

    assert_eq!(session.state, HsmsConnectionState::NotSelected);
    assert!(effects.contains(&HsmsSessionEffect::Disconnect));
}

#[test]
fn test_active_not_selected_recv_select_rsp_with_err() {
    let mut session = get_active_session();
    session.state = HsmsConnectionState::NotSelected;

    let effects = session
        .handle(HsmsSessionSignal::RecvControl(HsmsControl::SelectRsp(
            HsmsSelectStatus::NotReady,
        )))
        .unwrap();

    assert_eq!(session.state, HsmsConnectionState::NotSelected);
    assert!(effects.contains(&HsmsSessionEffect::Disconnect));
}

#[test]
fn test_active_not_selected_recv_select_rsp_ok_then_move_to_selected() {
    let mut session = get_active_session();
    session.state = HsmsConnectionState::NotSelected;

    let effects = session
        .handle(HsmsSessionSignal::RecvControl(HsmsControl::SelectRsp(
            HsmsSelectStatus::Success,
        )))
        .unwrap();

    assert_eq!(session.state, HsmsConnectionState::Selected);
    assert!(effects.contains(&HsmsSessionEffect::ClearTimeout(SecsTimeoutUnit::T6)));
}

#[test]
fn test_passive_after_connect() {
    let mut session = get_passive_session();
    let effects = session.handle(HsmsSessionSignal::Connected).unwrap();

    assert_eq!(session.state, HsmsConnectionState::NotSelected);
    assert!(effects.contains(&HsmsSessionEffect::StartTimeout(SecsTimeoutUnit::T7)));
}

#[test]
fn test_passive_not_selected_recv_non_select_req() {
    let mut session = get_passive_session();
    session.state = HsmsConnectionState::NotSelected;

    let effects = session
        .handle(HsmsSessionSignal::RecvControl(HsmsControl::LinktestReq))
        .unwrap();

    assert_eq!(session.state, HsmsConnectionState::NotSelected);
    assert!(effects.contains(&HsmsSessionEffect::Disconnect));
}

#[test]
fn test_passive_not_selected_t7_timeout_request_disconnect() {
    let mut session = get_passive_session();
    session.state = HsmsConnectionState::NotSelected;

    let effects = session
        .handle(HsmsSessionSignal::Timeout(SecsTimeoutUnit::T7))
        .unwrap();

    assert!(effects.contains(&HsmsSessionEffect::Disconnect));
}

#[test]
fn test_passive_not_selected_recv_select_req_move_to_selected() {
    let mut session = get_passive_session();
    session.state = HsmsConnectionState::NotSelected;

    let effects = session
        .handle(HsmsSessionSignal::RecvControl(HsmsControl::SelectReq))
        .unwrap();

    assert_eq!(session.state, HsmsConnectionState::Selected);

    assert!(effects.contains(&HsmsSessionEffect::ClearTimeout(SecsTimeoutUnit::T7)));
    assert!(effects.iter().any(|it| matches!(
        it,
        &HsmsSessionEffect::SendControl(HsmsControl::SelectRsp(HsmsSelectStatus::Success))
    )));
}

#[test]
fn test_passive_not_selected_disconnect_reconnects() {
    let mut session = get_passive_session();
    session.state = HsmsConnectionState::NotSelected;

    let effects = session.handle(HsmsSessionSignal::Disconnected).unwrap();

    assert_eq!(session.state, HsmsConnectionState::NotConnected);
    assert!(effects.contains(&HsmsSessionEffect::Connect));
}

#[test]
fn test_passive_selected_disconnect_reconnects() {
    let mut session = get_passive_session();
    session.state = HsmsConnectionState::Selected;

    let effects = session.handle(HsmsSessionSignal::Disconnected).unwrap();

    assert_eq!(session.state, HsmsConnectionState::NotConnected);
    assert!(effects.contains(&HsmsSessionEffect::Connect));
}

#[test]
fn test_connect_not_allowed_if_t5_waiting() {
    let mut session = get_active_session();
    session.can_connect = false;

    let result = session.connect();

    assert_eq!(result, Err(HsmsSessionError::ConnectNotAllowed));
}

#[test]
fn test_connect_allowed_if_not_connected() {
    let mut session = get_active_session();

    let effects = session.connect().unwrap();

    assert_eq!(session.state, HsmsConnectionState::NotConnected);
    assert_eq!(effects, vec![HsmsSessionEffect::Connect]);
}

#[test]
fn test_connect_invalid_if_already_connected() {
    let mut session = get_active_session();
    session.state = HsmsConnectionState::NotSelected;

    let result = session.connect();

    assert_eq!(
        result,
        Err(HsmsSessionError::InvalidState(
            HsmsConnectionState::NotSelected
        ))
    );
}

#[test]
fn test_connect_invalid_if_selected() {
    let mut session = get_active_session();
    session.state = HsmsConnectionState::Selected;

    let result = session.connect();

    assert_eq!(
        result,
        Err(HsmsSessionError::InvalidState(
            HsmsConnectionState::Selected
        ))
    );
}

#[test]
fn test_error_clears_pending_effects() {
    let mut session = get_active_session();
    session.stack_effect(HsmsSessionEffect::Connect);
    session.state = HsmsConnectionState::Selected;

    let result = session.connect();

    assert_eq!(
        result,
        Err(HsmsSessionError::InvalidState(
            HsmsConnectionState::Selected
        ))
    );
    assert!(session.effects.is_empty());
}

#[test]
fn test_select_allowed_if_active_not_selected() {
    let mut session = get_active_session();
    session.state = HsmsConnectionState::NotSelected;

    let effects = session.select().unwrap();

    assert!(effects.contains(&HsmsSessionEffect::SendControl(HsmsControl::SelectReq)));
    assert!(effects.contains(&HsmsSessionEffect::StartTimeout(SecsTimeoutUnit::T6)));
}

#[test]
fn test_select_invalid_if_not_connected() {
    let mut session = get_active_session();

    let result = session.select();

    assert_eq!(
        result,
        Err(HsmsSessionError::InvalidState(
            HsmsConnectionState::NotConnected
        ))
    );
}

#[test]
fn test_select_invalid_if_passive() {
    let mut session = get_passive_session();
    session.state = HsmsConnectionState::NotSelected;

    let result = session.select();

    assert_eq!(
        result,
        Err(HsmsSessionError::InvalidState(
            HsmsConnectionState::NotSelected
        ))
    );
}

#[test]
fn test_select_invalid_if_selected() {
    let mut session = get_active_session();
    session.state = HsmsConnectionState::Selected;

    let result = session.select();

    assert_eq!(
        result,
        Err(HsmsSessionError::InvalidState(
            HsmsConnectionState::Selected
        ))
    );
}

#[test]
fn test_linktest_allowed_if_selected() {
    let mut session = get_active_session();
    session.state = HsmsConnectionState::Selected;

    let effects = session.linktest().unwrap();

    assert!(effects.contains(&HsmsSessionEffect::SendControl(HsmsControl::LinktestReq)));
    assert!(effects.contains(&HsmsSessionEffect::StartTimeout(SecsTimeoutUnit::T6)));
}

#[test]
fn test_linktest_invalid_if_not_selected() {
    let mut session = get_active_session();
    session.state = HsmsConnectionState::NotSelected;

    let result = session.linktest();

    assert_eq!(
        result,
        Err(HsmsSessionError::InvalidState(
            HsmsConnectionState::NotSelected
        ))
    );
}

#[test]
fn test_separate_allowed_if_selected() {
    let mut session = get_active_session();
    session.state = HsmsConnectionState::Selected;

    let effects = session.separate().unwrap();

    assert!(effects.contains(&HsmsSessionEffect::SendControl(HsmsControl::SeparateReq)));
    assert!(effects.contains(&HsmsSessionEffect::Disconnect));
}

#[test]
fn test_separate_invalid_if_not_selected() {
    let mut session = get_active_session();
    session.state = HsmsConnectionState::NotSelected;

    let result = session.separate();

    assert_eq!(
        result,
        Err(HsmsSessionError::InvalidState(
            HsmsConnectionState::NotSelected
        ))
    );
}

#[test]
fn separated_session_is_not_restarted() {
    let mut session = get_active_session();
    session.state = HsmsConnectionState::Selected;
    session.separate().unwrap();
    let effects = session.handle(HsmsSessionSignal::Disconnected).unwrap();
    assert!(effects.is_empty());
    assert_eq!(session.state, HsmsConnectionState::NotConnected);
    assert_eq!(session.connect(), Err(HsmsSessionError::ConnectNotAllowed));
}

#[test]
fn reject_is_allowed_in_every_state() {
    let header = HsmsControl::RejectReq(0, secs_transport::hsms::HsmsRejectReasonCode::NotSelected, secs_transport::common::SystemByte(7)).to_header(
        secs_transport::common::SystemByte(7),
    );
    let mut session = get_passive_session();
    assert!(session.is_allowed(&header));
    session.state = HsmsConnectionState::NotSelected;
    assert!(session.is_allowed(&header));
    session.state = HsmsConnectionState::Selected;
    assert!(session.is_allowed(&header));
}

#[test]
fn not_connected_session_ignores_control_and_disconnect() {
    let mut session = get_active_session();
    let effects = session.handle(HsmsSessionSignal::RecvControl(HsmsControl::LinktestReq)).unwrap();
    assert!(effects.is_empty());
    let effects = session.handle(HsmsSessionSignal::Disconnected).unwrap();
    assert!(effects.is_empty());
    assert_eq!(session.state, HsmsConnectionState::NotConnected);
}
