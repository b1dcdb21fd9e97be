use secs_transport::common::{
    ConnectionRole, DeviceId, FunctionId, Rbit, SecsTimeoutUnit, StreamId, SystemByte, Wbit,
};
use secs_transport::secs1_block::{
    Secs1Block, Secs1BlockHeader, Secs1HandshakeCode, Secs1TransportConfig,
};
use secs_transport::secs1_transfer::{
    LineControlState, ReceiveState, Secs1BlockTransferEvent, Secs1BlockTransferMachine,
    Secs1BlockTransferState, SendState,
};

fn config_active() -> Secs1TransportConfig {
    Secs1TransportConfig {
        device_id: DeviceId(1),
        local_role: ConnectionRole::Active,
        t1_timeout: 1000,
        t2_timeout: 1000,
        t3_timeout: 1000,
        t4_timeout: 1000,
        t2_rty_limit: 2,
    }
}

fn config_passive() -> Secs1TransportConfig {
    Secs1TransportConfig {
        device_id: DeviceId(1),
        local_role: ConnectionRole::Passive,
        t1_timeout: 1000,
        t2_timeout: 1000,
        t3_timeout: 1000,
        t4_timeout: 1000,
        t2_rty_limit: 2,
    }
}

fn message_block(device_id: DeviceId) -> Secs1Block {
    let header = Secs1BlockHeader {
        device_id: device_id,
        rbit: Rbit(false),
        wbit: Wbit(true),
        stream: StreamId(1),
        function: FunctionId(3),
        ebit: true,
        block_no: 1,
        system_byte: SystemByte(1),
    };

    let block = Secs1Block {
        header,
        data: vec![0x01, 0x01, 0xB1, 0x04, 0x00, 0x00, 0x0B, 0xB8],
    };

    block
}

#[test]
fn test_idle_to_line_control() {
    let config = config_active();
    let mut machine = Secs1BlockTransferMachine::new(&config);
    assert!(matches!(machine.state, Secs1BlockTransferState::IDLE));

    let block = message_block(config.device_id);

    machine.handle_write(block).unwrap();

    assert!(matches!(
        machine.state,
        Secs1BlockTransferState::LINECONTROL(LineControlState::WaitForResponse)
    ));

    let output = machine.poll_write();
    assert!(output.is_some());
    assert_eq!(output.unwrap(), vec![Secs1HandshakeCode::ENQ.to_byte()]);
}

#[test]
fn test_idle_to_recv() {
    let config = config_active();
    let mut machine = Secs1BlockTransferMachine::new(&config);
    assert!(matches!(machine.state, Secs1BlockTransferState::IDLE));

    machine
        .handle_read(&[Secs1HandshakeCode::ENQ.to_byte()])
        .unwrap();

    assert!(matches!(
        machine.state,
        Secs1BlockTransferState::RECEIVE(ReceiveState::WaitingLength)
    ));

    let ticket = machine.poll_timeout().unwrap();
    assert!(matches!(ticket.timeout, SecsTimeoutUnit::T2));
}

#[test]
fn test_line_control_active_recv_enq() {
    let config = config_active();
    let mut machine = Secs1BlockTransferMachine::new(&config);
    machine.state = Secs1BlockTransferState::LINECONTROL(LineControlState::WaitForResponse);

    machine
        .handle_read(&[Secs1HandshakeCode::ENQ.to_byte()])
        .unwrap();

    assert!(matches!(
        machine.state,
        Secs1BlockTransferState::LINECONTROL(LineControlState::WaitForResponse)
    ));
}

#[test]
fn test_line_control_passive_recv_enq_then_move_to_recv() {
    let config = config_passive();

    let mut machine = Secs1BlockTransferMachine::new(&config);
    machine.state = Secs1BlockTransferState::LINECONTROL(LineControlState::WaitForResponse);

    machine
        .handle_read(&[Secs1HandshakeCode::ENQ.to_byte()])
        .unwrap();

    assert!(matches!(
        machine.state,
        Secs1BlockTransferState::RECEIVE(ReceiveState::WaitingLength)
    ));

    let bytes = machine.poll_write();
    assert!(bytes.is_some());
    assert_eq!(bytes.unwrap(), vec![Secs1HandshakeCode::EOT.to_byte()]);

    let timeout = machine.poll_timeout();
    assert!(timeout.is_some());
    assert_eq!(timeout.unwrap().timeout, SecsTimeoutUnit::T2);
}

#[test]
fn test_line_control_fail_send_move_to_idle() {
    let config = config_active();
    let mut machine = Secs1BlockTransferMachine::new(&config);
    let block = message_block(config.device_id);
    machine.handle_write(block).unwrap();

    for rty in 0..(config.t2_rty_limit + 1) {
        assert!(matches!(
            machine.state,
            Secs1BlockTransferState::LINECONTROL(LineControlState::WaitForResponse)
        ));
        assert_eq!(machine.current_retry, rty);
        let output = machine.poll_write().expect("expect bytes but found None");
        assert_eq!(output, vec![Secs1HandshakeCode::ENQ.to_byte()]);
        let ticket = machine
            .poll_timeout()
            .expect("expect timout but found None");
        assert_eq!(ticket.timeout, SecsTimeoutUnit::T2);
        machine.handle_timeout(ticket).unwrap();
    }

    assert_eq!(machine.current_retry, 0);
    assert!(matches!(machine.state, Secs1BlockTransferState::IDLE));
}

#[test]
fn test_send_success_move_to_idle() {
    let config = config_active();
    let mut machine = Secs1BlockTransferMachine::new(&config);
    let block = message_block(config.device_id);

    machine.handle_write(block).unwrap();
    assert!(matches!(
        machine.state,
        Secs1BlockTransferState::LINECONTROL(LineControlState::WaitForResponse)
    ));
    let ticket = machine
        .poll_timeout()
        .expect("expect timout but found None");
    assert_eq!(ticket.timeout, SecsTimeoutUnit::T2);

    machine
        .handle_read(&[Secs1HandshakeCode::EOT.to_byte()])
        .unwrap();
    assert!(matches!(
        machine.state,
        Secs1BlockTransferState::SEND(SendState::WaitForAck)
    ));
    let bytes = machine.poll_write().expect("expect block bytes but None");
    assert!(bytes.len() > 0);
    let ticket = machine
        .poll_timeout()
        .expect("expect timout but found None");
    assert_eq!(ticket.timeout, SecsTimeoutUnit::T2);

    machine
        .handle_read(&[Secs1HandshakeCode::ACK.to_byte()])
        .unwrap();
    assert!(matches!(machine.state, Secs1BlockTransferState::IDLE));
}

#[test]
fn test_send_fail_with_nak_move_to_line_control() {
    let config = config_active();
    let mut machine = Secs1BlockTransferMachine::new(&config);
    let block = message_block(config.device_id);

    machine.handle_write(block).unwrap();
    assert!(matches!(
        machine.state,
        Secs1BlockTransferState::LINECONTROL(LineControlState::WaitForResponse)
    ));
    let ticket = machine
        .poll_timeout()
        .expect("expect timout but found None");
    assert_eq!(ticket.timeout, SecsTimeoutUnit::T2);

    machine
        .handle_read(&[Secs1HandshakeCode::EOT.to_byte()])
        .unwrap();
    assert!(matches!(
        machine.state,
        Secs1BlockTransferState::SEND(SendState::WaitForAck)
    ));
    let bytes = machine.poll_write().expect("expect block bytes but None");
    assert!(bytes.len() > 0);
    let ticket = machine
        .poll_timeout()
        .expect("expect timout but found None");
    assert_eq!(ticket.timeout, SecsTimeoutUnit::T2);

    machine
        .handle_read(&[Secs1HandshakeCode::NAK.to_byte()])
        .unwrap();
    assert!(matches!(
        machine.state,
        Secs1BlockTransferState::LINECONTROL(LineControlState::WaitForResponse)
    ));
    assert_eq!(machine.current_retry, 1);
}

#[test]
fn test_send_fail_with_t2_timeout_move_to_line_control() {
    let config = config_active();
    let mut machine = Secs1BlockTransferMachine::new(&config);
    let block = message_block(config.device_id);

    machine.handle_write(block).unwrap();
    assert!(matches!(
        machine.state,
        Secs1BlockTransferState::LINECONTROL(LineControlState::WaitForResponse)
    ));
    let ticket = machine
        .poll_timeout()
        .expect("expect timout but found None");
    assert_eq!(ticket.timeout, SecsTimeoutUnit::T2);

    machine
        .handle_read(&[Secs1HandshakeCode::EOT.to_byte()])
        .unwrap();
    assert!(matches!(
        machine.state,
        Secs1BlockTransferState::SEND(SendState::WaitForAck)
    ));
    let bytes = machine.poll_write().expect("expect block bytes but None");
    assert!(bytes.len() > 0);
    let ticket = machine
        .poll_timeout()
        .expect("expect timout but found None");
    assert_eq!(ticket.timeout, SecsTimeoutUnit::T2);

    machine.handle_timeout(ticket).unwrap();
    assert!(matches!(
        machine.state,
        Secs1BlockTransferState::LINECONTROL(LineControlState::WaitForResponse)
    ));
    assert_eq!(machine.current_retry, 1);
}

#[test]
fn test_recv_t2_timeout_then_send_nak_move_to_idle() {
    let config = config_passive();

    let mut machine = Secs1BlockTransferMachine::new(&config);
    machine.state = Secs1BlockTransferState::LINECONTROL(LineControlState::WaitForResponse);

    machine
        .handle_read(&[Secs1HandshakeCode::ENQ.to_byte()])
        .unwrap();

    assert!(matches!(
        machine.state,
        Secs1BlockTransferState::RECEIVE(ReceiveState::WaitingLength)
    ));

    let bytes = machine.poll_write().unwrap();
    assert_eq!(bytes, vec![Secs1HandshakeCode::EOT.to_byte()]);

    let ticket = machine.poll_timeout().unwrap();
    assert_eq!(ticket.timeout, SecsTimeoutUnit::T2);

    machine.handle_timeout(ticket).unwrap();

    let bytes = machine.poll_write().unwrap();
    assert_eq!(bytes, vec![Secs1HandshakeCode::NAK.to_byte()]);

    assert!(matches!(machine.state, Secs1BlockTransferState::IDLE));
}

#[test]
fn test_recv_invalid_length_then_move_to_recv_invalidblock() {
    let config = config_passive();

    let mut machine = Secs1BlockTransferMachine::new(&config);
    machine.state = Secs1BlockTransferState::LINECONTROL(LineControlState::WaitForResponse);

    machine
        .handle_read(&[Secs1HandshakeCode::ENQ.to_byte()])
        .unwrap();

    assert!(matches!(
        machine.state,
        Secs1BlockTransferState::RECEIVE(ReceiveState::WaitingLength)
    ));

    let bytes = machine.poll_write().unwrap();
    assert_eq!(bytes, vec![Secs1HandshakeCode::EOT.to_byte()]);

    let ticket = machine.poll_timeout().unwrap();
    assert_eq!(ticket.timeout, SecsTimeoutUnit::T2);

    machine.handle_read(&[255]).unwrap();

    assert!(matches!(
        machine.state,
        Secs1BlockTransferState::RECEIVE(ReceiveState::InvalidBlock)
    ));

    let ticket = machine.poll_timeout().unwrap();
    assert_eq!(ticket.timeout, SecsTimeoutUnit::T1);
}

#[test]
fn test_recv_invalid_block_discard_blocks_and_move_to_idle_with_nak() {
    let config = config_passive();

    let mut machine = Secs1BlockTransferMachine::new(&config);
    machine.state = Secs1BlockTransferState::RECEIVE(ReceiveState::InvalidBlock);

    machine.handle_read(&[0x00, 0x00]).unwrap();

    let ticket = machine.poll_timeout().unwrap();
    assert_eq!(ticket.timeout, SecsTimeoutUnit::T1);

    machine.handle_timeout(ticket).unwrap();

    let bytes = machine.poll_write().unwrap();
    assert_eq!(bytes, vec![Secs1HandshakeCode::NAK.to_byte()]);

    assert!(matches!(machine.state, Secs1BlockTransferState::IDLE));
}

#[test]
fn test_recv_data_t1_timeout_then_move_to_idle_with_nak() {
    let config = config_passive();

    let mut machine = Secs1BlockTransferMachine::new(&config);
    machine.state = Secs1BlockTransferState::RECEIVE(ReceiveState::WaitingData {
        length: 2,
        buffer: Vec::new(),
    });
    machine.handle_read(&[0x00]).unwrap();

    let ticket = machine.poll_timeout().unwrap();
    assert_eq!(ticket.timeout, SecsTimeoutUnit::T1);

    machine.handle_timeout(ticket).unwrap();

    let bytes = machine.poll_write().unwrap();
    assert_eq!(bytes, vec![Secs1HandshakeCode::NAK.to_byte()]);

    assert!(matches!(machine.state, Secs1BlockTransferState::IDLE));
}

#[test]
fn test_recv_success_recv_then_move_idle_with_ack() {
    let config = config_passive();

    let mut machine = Secs1BlockTransferMachine::new(&config);
    machine.state = Secs1BlockTransferState::RECEIVE(ReceiveState::WaitingData {
        length: 18,
        buffer: Vec::new(),
    });

    let expected = message_block(config.device_id);
    let bytes = expected.to_bytes_with_checksum();

    machine.handle_read(&bytes).unwrap();

    println!("state = {}", machine.state.name());

    let bytes = machine.poll_write().unwrap();
    assert_eq!(bytes, vec![Secs1HandshakeCode::ACK.to_byte()]);

    assert!(matches!(machine.state, Secs1BlockTransferState::IDLE));

    let block = machine.poll_read().unwrap();
    assert_eq!(block.data, expected.data);
    assert_eq!(block.header, expected.header);
}

fn drain_events(machine: &mut Secs1BlockTransferMachine) -> Vec<Secs1BlockTransferEvent> {
    let mut events = Vec::new();
    while let Some(event) = machine.poll_event() {
        events.push(event);
    }
    events
}

#[test]
fn receive_block_after_length_byte() {
    let config = config_passive();
    let mut machine = Secs1BlockTransferMachine::new(&config);
    machine.handle_read(&[Secs1HandshakeCode::ENQ.to_byte()]).unwrap();
    assert_eq!(machine.poll_write().unwrap(), vec![Secs1HandshakeCode::EOT.to_byte()]);

    let expected = message_block(config.device_id);
    let mut bytes = vec![18u8];
    bytes.extend(expected.to_bytes_with_checksum());
    machine.handle_read(&bytes).unwrap();

    assert_eq!(machine.poll_write().unwrap(), vec![Secs1HandshakeCode::ACK.to_byte()]);
    assert!(matches!(machine.state, Secs1BlockTransferState::IDLE));
    assert_eq!(machine.poll_read().unwrap(), expected);
    assert!(machine.poll_read().is_none());
}

#[test]
fn block_split_across_reads_is_collected() {
    let config = config_passive();
    let mut machine = Secs1BlockTransferMachine::new(&config);
    machine.state = Secs1BlockTransferState::RECEIVE(ReceiveState::WaitingData {
        length: 18,
        buffer: Vec::new(),
    });
    let expected = message_block(config.device_id);
    let bytes = expected.to_bytes_with_checksum();
    machine.handle_read(&bytes[..5]).unwrap();
    assert!(matches!(
        machine.state,
        Secs1BlockTransferState::RECEIVE(ReceiveState::WaitingData { .. })
    ));
    assert!(machine.poll_write().is_none());
    machine.handle_read(&bytes[5..]).unwrap();
    assert_eq!(machine.poll_write().unwrap(), vec![Secs1HandshakeCode::ACK.to_byte()]);
    assert_eq!(machine.poll_read().unwrap(), expected);
}

#[test]
fn bad_checksum_reports_block_error() {
    let config = config_passive();
    let mut machine = Secs1BlockTransferMachine::new(&config);
    machine.state = Secs1BlockTransferState::RECEIVE(ReceiveState::WaitingData {
        length: 18,
        buffer: Vec::new(),
    });
    let mut bytes = message_block(config.device_id).to_bytes_with_checksum();
    let last = bytes.len() - 1;
    bytes[last] = bytes[last].wrapping_add(1);
    machine.handle_read(&bytes).unwrap();

    assert!(matches!(
        machine.state,
        Secs1BlockTransferState::RECEIVE(ReceiveState::InvalidBlock)
    ));
    assert!(machine.poll_read().is_none());
    assert!(machine.poll_write().is_none());
    assert_eq!(
        drain_events(&mut machine),
        vec![Secs1BlockTransferEvent::ReceiveFailed {
            error: secs_transport::error::SecsTransportError::BlockError
        }]
    );
    assert_eq!(machine.poll_timeout().unwrap().timeout, SecsTimeoutUnit::T1);
}

#[test]
fn stale_ticket_changes_nothing() {
    let config = config_active();
    let mut machine = Secs1BlockTransferMachine::new(&config);
    machine.handle_write(message_block(config.device_id)).unwrap();
    let first = machine.poll_timeout().unwrap();
    machine.handle_read(&[Secs1HandshakeCode::EOT.to_byte()]).unwrap();
    let _ = machine.poll_write();
    let second = machine.poll_timeout().unwrap();
    assert_ne!(first.id, second.id);

    machine.handle_timeout(first).unwrap();
    assert!(matches!(machine.state, Secs1BlockTransferState::SEND(SendState::WaitForAck)));
    assert_eq!(machine.current_retry, 0);
    assert!(machine.poll_write().is_none());
    assert!(drain_events(&mut machine).is_empty());
}

#[test]
fn retries_are_reported_then_send_fails() {
    let config = config_active();
    let mut machine = Secs1BlockTransferMachine::new(&config);
    let block = message_block(config.device_id);
    let header = block.header;
    machine.handle_write(block).unwrap();
    for _ in 0..(config.t2_rty_limit + 1) {
        let ticket = machine.poll_timeout().unwrap();
        let _ = machine.poll_write();
        machine.handle_timeout(ticket).unwrap();
    }
    assert_eq!(
        drain_events(&mut machine),
        vec![
            Secs1BlockTransferEvent::Retry(1),
            Secs1BlockTransferEvent::Retry(2),
            Secs1BlockTransferEvent::SendFailed {
                header,
                error: secs_transport::error::SecsTransportError::Timeout(SecsTimeoutUnit::T2),
            },
        ]
    );
    assert!(machine.poll_write().is_none());
}

#[test]
fn acknowledged_send_reports_success() {
    let config = config_active();
    let mut machine = Secs1BlockTransferMachine::new(&config);
    let block = message_block(config.device_id);
    let header = block.header;
    let frame = block.to_bytes_with_checksum();
    let mut wire = vec![(frame.len() - 2) as u8];
    wire.extend(frame);
    machine.handle_write(block).unwrap();
    assert_eq!(machine.poll_write().unwrap(), vec![Secs1HandshakeCode::ENQ.to_byte()]);
    machine
        .handle_read(&[0x00, Secs1HandshakeCode::NAK.to_byte(), Secs1HandshakeCode::EOT.to_byte()])
        .unwrap();
    assert_eq!(machine.poll_write().unwrap(), wire);
    machine.handle_read(&[Secs1HandshakeCode::ACK.to_byte()]).unwrap();
    assert_eq!(drain_events(&mut machine), vec![Secs1BlockTransferEvent::SendSuccess { header }]);
    assert!(matches!(machine.state, Secs1BlockTransferState::IDLE));
    assert!(machine.handle_event(()).is_ok());
}

#[test]
fn idle_discards_bytes_other_than_enq() {
    let config = config_passive();
    let mut machine = Secs1BlockTransferMachine::new(&config);
    machine.handle_read(&[0x00, 0x15, 0x06, 0x04]).unwrap();
    assert!(matches!(machine.state, Secs1BlockTransferState::IDLE));
    assert!(machine.poll_write().is_none());
    assert!(machine.poll_timeout().is_none());
}

#[test]
fn state_names() {
    assert_eq!(Secs1BlockTransferState::IDLE.name(), "IDLE");
    assert_eq!(
        Secs1BlockTransferState::LINECONTROL(LineControlState::WaitForResponse).name(),
        "LINECONTROL:WaitResp"
    );
    assert_eq!(
        Secs1BlockTransferState::RECEIVE(ReceiveState::InvalidBlock).name(),
        "RECV:InvalidBlock"
    );
}

#[test]
fn sent_block_starts_with_its_length_and_crosses_the_wire() {
    let config = config_active();
    let mut sender = Secs1BlockTransferMachine::new(&config);
    let block = message_block(config.device_id);
    sender.handle_write(message_block(config.device_id)).unwrap();
    assert_eq!(sender.poll_write().unwrap(), vec![Secs1HandshakeCode::ENQ.to_byte()]);
    sender.handle_read(&[Secs1HandshakeCode::EOT.to_byte()]).unwrap();
    let bytes = sender.poll_write().unwrap();
    assert!(bytes.len() > 10);
    assert_eq!(bytes[0] as usize, bytes.len() - 3);
    assert_eq!(bytes.len(), 1 + 10 + block.data.len() + 2);

    let passive = config_passive();
    let mut receiver = Secs1BlockTransferMachine::new(&passive);
    receiver.handle_read(&[Secs1HandshakeCode::ENQ.to_byte()]).unwrap();
    assert_eq!(receiver.poll_write().unwrap(), vec![Secs1HandshakeCode::EOT.to_byte()]);
    receiver.handle_read(&bytes).unwrap();
    let got = receiver.poll_read().unwrap();
    assert_eq!(got.header, block.header);
    assert_eq!(got.data, block.data);
    assert_eq!(receiver.poll_write().unwrap(), vec![Secs1HandshakeCode::ACK.to_byte()]);
}
