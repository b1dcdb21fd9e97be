use std::collections::VecDeque;

use secs_transport::common::{
    ConnectionRole, FunctionId, SecsTimeoutUnit, SessionId, StreamId, SystemByte, SystemByteSource,
    TimeoutId, TimeoutTicket, TransactionKey, TransactionOwner,
};
use secs_transport::hsms::{
    HsmsControl, HsmsHeader, HsmsMessage, HsmsSType, HsmsSelectStatus, HsmsTransportConfig,
};
use secs_transport::hsms_transport::HsmsTransport;
use secs_transport::runtime::{
    ByteDataSourceError, LinkDataSource, MachineError, RuntimeMessage, Secs2Message,
};

struct FakeSource {
    open: bool,
    incoming: VecDeque<u8>,
    written: Vec<Vec<u8>>,
}

impl FakeSource {
    fn new() -> Self {
        FakeSource { open: false, incoming: VecDeque::new(), written: Vec::new() }
    }
}

impl LinkDataSource for FakeSource {
    fn open(&mut self) -> Result<(), ByteDataSourceError> {
        self.open = true;
        Ok(())
    }

    fn close(&mut self) -> Result<(), ByteDataSourceError> {
        self.open = false;
        Ok(())
    }

    fn is_open(&self) -> bool {
        self.open
    }

    fn read(&mut self, buf: &mut [u8]) -> Result<usize, ByteDataSourceError> {
        if self.incoming.is_empty() {
            return Err(ByteDataSourceError::WouldBlock);
        }
        let mut n = 0;
        while n < buf.len() {
            match self.incoming.pop_front() {
                Some(b) => {
                    buf[n] = b;
                    n += 1;
                }
                None => break,
            }
        }
        Ok(n)
    }

    fn write(&mut self, bytes: &[u8]) -> Result<(), ByteDataSourceError> {
        self.written.push(bytes.to_vec());
        Ok(())
    }
}

fn config(role: ConnectionRole) -> HsmsTransportConfig {
    HsmsTransportConfig {
        session_id: SessionId(10),
        connection_mode: role,
        t3_timeout: 45_000,
        t5_timeout: 10_000,
        t6_timeout: 5_000,
        t7_timeout: 10_000,
        t8_timeout: 5_000,
    }
}

fn header_of(frame: &[u8]) -> HsmsHeader {
    HsmsMessage::try_from(frame).unwrap().header
}

fn selected_active() -> (HsmsTransport<FakeSource>, Vec<Vec<u8>>) {
    let mut link = HsmsTransport::new(
        &config(ConnectionRole::Active),
        FakeSource::new(),
        SystemByteSource::with_range(1, 1, 100),
    );
    link.start().unwrap();
    link.poll().unwrap();
    let rsp = HsmsMessage::new(
        HsmsControl::SelectRsp(HsmsSelectStatus::Success).to_header(SystemByte(1)),
        None,
    );
    link.data_source_mut().incoming.extend(rsp.to_bytes().unwrap());
    link.poll().unwrap();
    let written = link.data_source().written.clone();
    (link, written)
}

#[test]
fn active_link_selects_after_connecting() {
    let (mut link, written) = selected_active();
    assert!(link.data_source().open);
    assert_eq!(written.len(), 1);
    let select = header_of(&written[0]);
    assert_eq!(select.stype, HsmsSType::SelectReq);
    assert_eq!(select.system_byte, SystemByte(1));
    let t6 = link.poll_timeout().unwrap();
    assert_eq!(t6.timeout, SecsTimeoutUnit::T6);
    // T6 was stopped by the select response: its ticket changes nothing.
    assert_eq!(link.handle_timeout(t6), Ok(()));
    assert!(link.linktest().is_ok());
}

#[test]
fn requests_are_refused_before_selection() {
    let mut link = HsmsTransport::new(
        &config(ConnectionRole::Active),
        FakeSource::new(),
        SystemByteSource::with_range(1, 1, 100),
    );
    assert_eq!(link.linktest(), Err(MachineError::InvalidState));
    assert_eq!(link.separate(), Err(MachineError::InvalidState));
    let key = TransactionKey::new(TransactionOwner::Local, SystemByte(500));
    let msg = RuntimeMessage::new(key, Secs2Message::new(StreamId(1), FunctionId(1), true, None));
    assert_eq!(link.send(msg), Err(MachineError::InvalidState));
    assert!(link.poll_timeout().is_none());
    link.start().unwrap();
    assert_eq!(link.start(), Err(MachineError::InvalidState));
}

#[test]
fn data_goes_out_and_comes_in_once_selected() {
    let (mut link, _) = selected_active();
    let key = TransactionKey::new(TransactionOwner::Local, SystemByte(500));
    let msg = RuntimeMessage::new(key, Secs2Message::new(StreamId(1), FunctionId(1), true, None));
    link.send(msg).unwrap();
    link.poll().unwrap();
    let sent = header_of(link.data_source().written.last().unwrap());
    assert!(sent.is_data());
    assert_eq!(sent.system_byte, SystemByte(500));

    let primary = HsmsMessage::new(
        HsmsHeader::data(SessionId(10), StreamId(2), FunctionId(13), true, SystemByte(9)),
        Some(vec![0x01, 0x00]),
    );
    link.data_source_mut().incoming.extend(primary.to_bytes().unwrap());
    link.poll().unwrap();
    let received = link.poll_recv().unwrap();
    assert_eq!(received.transaction_key, TransactionKey::new(TransactionOwner::Remote, SystemByte(9)));
    assert_eq!(received.payload.function, FunctionId(13));
    assert_eq!(received.payload.body, Some(vec![0x01, 0x00]));
    assert!(link.poll_recv().is_none());
}

#[test]
fn separate_closes_the_link() {
    let (mut link, _) = selected_active();
    link.separate().unwrap();
    assert!(!link.data_source().open);
    link.poll().unwrap();
    let last = header_of(link.data_source().written.last().unwrap());
    assert_eq!(last.stype, HsmsSType::SeparateReq);
}

#[test]
fn stale_secs1_timer_is_ignored() {
    let mut link = HsmsTransport::new(
        &config(ConnectionRole::Passive),
        FakeSource::new(),
        SystemByteSource::with_range(1, 1, 100),
    );
    let ticket = TimeoutTicket { id: TimeoutId(0), timeout: SecsTimeoutUnit::T1 };
    assert_eq!(link.handle_timeout(ticket), Ok(()));
    assert!(link.poll_timeout().is_none());
}

#[test]
fn stale_session_timer_is_ignored() {
    let mut link = HsmsTransport::new(
        &config(ConnectionRole::Passive),
        FakeSource::new(),
        SystemByteSource::with_range(1, 1, 100),
    );
    link.start().unwrap();
    let t7 = link.poll_timeout().unwrap();
    let stale = TimeoutTicket { id: TimeoutId(t7.id.0 + 1), timeout: SecsTimeoutUnit::T7 };
    assert_eq!(link.handle_timeout(stale), Ok(()));
    assert!(link.data_source().open);
    assert!(link.poll_timeout().is_none());
}

#[test]
fn passive_t7_expiry_reconnects() {
    let mut link = HsmsTransport::new(
        &config(ConnectionRole::Passive),
        FakeSource::new(),
        SystemByteSource::with_range(1, 1, 100),
    );
    link.start().unwrap();
    let t7 = link.poll_timeout().unwrap();
    assert_eq!(t7.timeout, SecsTimeoutUnit::T7);
    // The link closes and opens again to wait for the next peer.
    assert_eq!(link.handle_timeout(t7), Ok(()));
    assert!(link.data_source().open);
    assert_eq!(link.poll_timeout().unwrap().timeout, SecsTimeoutUnit::T7);
    assert!(link.poll_timeout().is_none());
}

#[test]
fn linktest_queues_request_and_t6() {
    let (mut link, _) = selected_active();
    while link.poll_timeout().is_some() {}
    link.linktest().unwrap();
    assert_eq!(link.poll_timeout().unwrap().timeout, SecsTimeoutUnit::T6);
    link.poll().unwrap();
    let last = header_of(link.data_source().written.last().unwrap());
    assert_eq!(last.stype, HsmsSType::LinktestReq);
}

#[test]
fn start_twice_is_refused() {
    let mut link = HsmsTransport::new(
        &config(ConnectionRole::Passive),
        FakeSource::new(),
        SystemByteSource::with_range(1, 1, 100),
    );
    link.start().unwrap();
    assert_eq!(link.start(), Err(MachineError::InvalidState));
}

#[test]
fn expired_t8_drops_the_partial_frame_and_fails() {
    let (mut link, _) = selected_active();
    while link.poll_timeout().is_some() {}
    link.data_source_mut().incoming.extend([0u8, 0, 0, 10, 0xFF]);
    link.poll().unwrap();
    let t8 = link.poll_timeout().unwrap();
    assert_eq!(t8.timeout, SecsTimeoutUnit::T8);
    assert!(link.handle_timeout(t8).is_err());
    // The same ticket is no longer live.
    assert_eq!(link.handle_timeout(t8), Ok(()));
}
