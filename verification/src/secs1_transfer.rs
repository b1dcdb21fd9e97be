//! The SECS-I block transfer protocol (SEMI E4): line control with ENQ/EOT,
//! sending a block and waiting for ACK, receiving a block with its length
//! byte and checksum, with the T1/T2 timers and the retry limit.
use vstd::prelude::*;

use crate::bytes::{be16, u16_be, u16_from_be};
use crate::common::{ConnectionRole, SecsTimeoutUnit, TimeoutId, TimeoutTicket};
use crate::error::SecsTransportError;
use crate::secs1_block::{
    block_bytes, block_header_bytes, block_header_fits, block_header_of, byte_sum, handshake_byte,
    lemma_block_bytes_round_trip, Secs1Block, Secs1BlockHeader, Secs1HandshakeCode,
    Secs1TransportConfig,
};
use crate::time::TimeoutManager;
use std::collections::VecDeque;

verus! {

/// Phases of line control.
pub enum LineControlState {
    /// ENQ not sent yet.
    BeforeSendENQ,
    /// ENQ sent; waiting for EOT (or, on the passive side, a competing ENQ).
    WaitForResponse,
}

/// Phases of receiving a block.
pub enum ReceiveState {
    /// Waiting for the length byte.
    WaitingLength,
    /// Collecting `length` block bytes and two checksum bytes.
    WaitingData { length: u8, buffer: Vec<u8> },
    /// A bad length or block: discarding bytes until T1 expires.
    InvalidBlock,
}

/// Phases of sending a block.
pub enum SendState {
    /// The block is not written yet.
    BeforeSend,
    /// The block is written; waiting for ACK.
    WaitForAck,
}

/// Where the block transfer protocol stands.
pub enum Secs1BlockTransferState {
    IDLE,
    LINECONTROL(LineControlState),
    SEND(SendState),
    RECEIVE(ReceiveState),
}

impl Secs1BlockTransferState {
    pub fn name(&self) -> (r: &'static str)
        ensures
            r@ == match *self {
                Secs1BlockTransferState::IDLE => "IDLE"@,
                Secs1BlockTransferState::LINECONTROL(LineControlState::BeforeSendENQ) => "LINECONTROL:BeforeENQ"@,
                Secs1BlockTransferState::LINECONTROL(LineControlState::WaitForResponse) => "LINECONTROL:WaitResp"@,
                Secs1BlockTransferState::SEND(SendState::BeforeSend) => "SEND:BeforeSend"@,
                Secs1BlockTransferState::SEND(SendState::WaitForAck) => "SEND:WaitForACK"@,
                Secs1BlockTransferState::RECEIVE(ReceiveState::WaitingLength) => "RECV:WaitLength"@,
                Secs1BlockTransferState::RECEIVE(ReceiveState::WaitingData { .. }) => "RECV:WaitData"@,
                Secs1BlockTransferState::RECEIVE(ReceiveState::InvalidBlock) => "RECV:InvalidBlock"@,
            },
    {
        match self {
            Secs1BlockTransferState::IDLE => "IDLE",
            Secs1BlockTransferState::LINECONTROL(line_control_state) => match line_control_state {
                LineControlState::BeforeSendENQ => "LINECONTROL:BeforeENQ",
                LineControlState::WaitForResponse => "LINECONTROL:WaitResp",
            },
            Secs1BlockTransferState::SEND(send_state) => match send_state {
                SendState::BeforeSend => "SEND:BeforeSend",
                SendState::WaitForAck => "SEND:WaitForACK",
            },
            Secs1BlockTransferState::RECEIVE(receive_state) => match receive_state {
                ReceiveState::WaitingLength => "RECV:WaitLength",
                ReceiveState::WaitingData { .. } => "RECV:WaitData",
                ReceiveState::InvalidBlock => "RECV:InvalidBlock",
            },
        }
    }
}

/// What the block transfer protocol reports.
#[derive(Debug, PartialEq, Eq)]
pub enum Secs1BlockTransferEvent {
    /// The block was acknowledged.
    SendSuccess { header: Secs1BlockHeader },
    /// The block could not be sent within the retry limit.
    SendFailed { header: Secs1BlockHeader, error: SecsTransportError },
    /// Line control starts over; the retry count so far.
    Retry(u8),
    /// Receiving a block failed.
    ReceiveFailed { error: SecsTransportError },
    ErrorOccurred(SecsTransportError),
}

/// The phase of the protocol, as the contracts see it.
#[verifier::ext_equal]
pub enum TransferPhase {
    Idle,
    LineBeforeEnq,
    LineWait,
    SendBefore,
    SendWaitAck,
    RecvLength,
    /// The announced length and the bytes collected so far.
    RecvData(u8, Seq<u8>),
    RecvInvalid,
}

/// A block as the contracts see it: its header and data bytes.
pub type BlockView = (Secs1BlockHeader, Seq<u8>);

pub open spec fn block_view(b: Secs1Block) -> BlockView {
    (b.header, b.data@)
}

/// A block's header and data bytes followed by their checksum.
pub open spec fn block_frame(b: BlockView) -> Seq<u8> {
    block_header_bytes(b.0) + b.1 + u16_be((byte_sum(block_header_bytes(b.0) + b.1) % 0x1_0000) as u16)
}

/// The length byte of a block: how many header and data bytes follow, in
/// one byte.
pub open spec fn block_length_byte(b: BlockView) -> u8 {
    ((10 + b.1.len()) % 256) as u8
}

/// The bytes written for a block: the length byte, then header, data, and
/// the checksum.
pub open spec fn block_wire(b: BlockView) -> Seq<u8> {
    seq![block_length_byte(b)] + block_frame(b)
}

/// The state of a block transfer machine.
#[verifier::ext_equal]
pub struct TransferModel {
    pub phase: TransferPhase,
    /// Received bytes not yet consumed.
    pub input: Seq<u8>,
    /// Blocks waiting to be sent; the first is the one in progress.
    pub to_send: Seq<BlockView>,
    /// Bytes to be written.
    pub output: Seq<u8>,
    /// Blocks received and not yet taken.
    pub received: Seq<BlockView>,
    pub timers: Map<SecsTimeoutUnit, TimeoutTicket>,
    pub next_id: u64,
    /// Started timers not yet taken.
    pub timeouts: Seq<TimeoutTicket>,
    /// Events not yet taken.
    pub events: Seq<Secs1BlockTransferEvent>,
    /// Line control retries so far for the block in progress.
    pub retry: u8,
}

pub open spec fn start_timer(m: TransferModel, u: SecsTimeoutUnit) -> TransferModel {
    let ticket = TimeoutTicket { id: TimeoutId(m.next_id), timeout: u };
    TransferModel {
        timers: m.timers.insert(u, ticket),
        next_id: ((m.next_id as int + 1) % 0x1_0000_0000_0000_0000) as u64,
        timeouts: m.timeouts.push(ticket),
        ..m
    }
}

pub open spec fn stop_timer(m: TransferModel, u: SecsTimeoutUnit) -> TransferModel {
    TransferModel { timers: m.timers.remove(u), ..m }
}

pub open spec fn write_code(m: TransferModel, c: Secs1HandshakeCode) -> TransferModel {
    TransferModel { output: m.output.push(handshake_byte(c)), ..m }
}

pub open spec fn emit(m: TransferModel, e: Secs1BlockTransferEvent) -> TransferModel {
    TransferModel { events: m.events.push(e), ..m }
}

pub open spec fn goto(m: TransferModel, p: TransferPhase) -> TransferModel {
    TransferModel { phase: p, ..m }
}

/// Index of the first byte of `s` that satisfies `p`, or `s.len()`.
pub open spec fn find_first(s: Seq<u8>, p: spec_fn(u8) -> bool) -> int
    decreases s.len(),
{
    if s.len() == 0 {
        0
    } else if p(s[0]) {
        0
    } else {
        1 + find_first(s.drop_first(), p)
    }
}

/// Answering an ENQ: stop T2, write EOT, start T2 for the length byte.
pub open spec fn to_receive(m: TransferModel) -> TransferModel {
    goto(start_timer(write_code(stop_timer(m, SecsTimeoutUnit::T2), Secs1HandshakeCode::EOT), SecsTimeoutUnit::T2), TransferPhase::RecvLength)
}

/// The bytes that idle waits for: ENQ.
pub open spec fn enq_pred() -> spec_fn(u8) -> bool {
    |b: u8| b == 0x05
}

/// Idle: with a block to send, start line control; otherwise discard bytes up
/// to an ENQ and answer it.
pub open spec fn idle_step(m: TransferModel) -> (TransferModel, bool) {
    if m.to_send.len() == 0 {
        let i = find_first(m.input, enq_pred());
        if i < m.input.len() {
            (to_receive(TransferModel { input: m.input.skip(i + 1), ..m }), true)
        } else {
            (TransferModel { input: Seq::empty(), ..m }, false)
        }
    } else {
        (TransferModel { retry: 0, phase: TransferPhase::LineBeforeEnq, ..m }, true)
    }
}

/// The bytes that answer our ENQ: EOT, or on the passive side a competing ENQ.
pub open spec fn line_pred(mode: ConnectionRole) -> spec_fn(u8) -> bool {
    |b: u8| b == 0x04 || (mode == ConnectionRole::Passive && b == 0x05)
}

/// Line control: write ENQ and start T2; then wait for EOT (go send) or, on
/// the passive side, yield to a competing ENQ; other bytes are discarded.
pub open spec fn line_step(m: TransferModel, mode: ConnectionRole) -> (TransferModel, bool) {
    match m.phase {
        TransferPhase::LineBeforeEnq => (
            goto(start_timer(write_code(m, Secs1HandshakeCode::ENQ), SecsTimeoutUnit::T2), TransferPhase::LineWait),
            true,
        ),
        _ => {
            let i = find_first(m.input, line_pred(mode));
            if i < m.input.len() {
                let m1 = TransferModel { input: m.input.skip(i + 1), ..m };
                if m.input[i] == 0x04 {
                    (goto(stop_timer(m1, SecsTimeoutUnit::T2), TransferPhase::SendBefore), true)
                } else {
                    (to_receive(m1), true)
                }
            } else {
                (TransferModel { input: Seq::empty(), ..m }, false)
            }
        },
    }
}

/// A failed attempt: stop T2 and count it; past the limit the block is
/// dropped with a T2 timeout failure, else line control starts over.
pub open spec fn retrigger(m: TransferModel, max_retry: u8) -> TransferModel {
    let m1 = stop_timer(m, SecsTimeoutUnit::T2);
    let retry = m1.retry + 1;
    if retry > max_retry {
        emit(
            TransferModel { retry: 0, phase: TransferPhase::Idle, to_send: m1.to_send.drop_first(), ..m1 },
            Secs1BlockTransferEvent::SendFailed {
                header: m1.to_send[0].0,
                error: SecsTransportError::Timeout(SecsTimeoutUnit::T2),
            },
        )
    } else {
        emit(
            TransferModel { retry: retry as u8, phase: TransferPhase::LineBeforeEnq, ..m1 },
            Secs1BlockTransferEvent::Retry(retry as u8),
        )
    }
}

/// Sending: write the first block and start T2; then an ACK completes it,
/// any other byte retries.
pub open spec fn send_step(m: TransferModel, max_retry: u8) -> (TransferModel, bool) {
    match m.phase {
        TransferPhase::SendBefore => (
            goto(
                start_timer(TransferModel { output: m.output + block_wire(m.to_send[0]), ..m }, SecsTimeoutUnit::T2),
                TransferPhase::SendWaitAck,
            ),
            true,
        ),
        _ => if m.input.len() == 0 {
            (m, false)
        } else {
            let b = m.input[0];
            let m1 = stop_timer(TransferModel { input: m.input.drop_first(), ..m }, SecsTimeoutUnit::T2);
            if b == 0x06 {
                (
                    goto(
                        emit(
                            TransferModel { to_send: m1.to_send.drop_first(), ..m1 },
                            Secs1BlockTransferEvent::SendSuccess { header: m1.to_send[0].0 },
                        ),
                        TransferPhase::Idle,
                    ),
                    true,
                )
            } else {
                (retrigger(TransferModel { input: m.input.drop_first(), ..m }, max_retry), true)
            }
        },
    }
}

/// Whether a length byte announces a valid block.
pub open spec fn valid_length(b: u8) -> bool {
    10 <= b <= 254
}

/// Whether collected bytes make a block: `buf` holds `len` block bytes, a
/// block length, and two checksum bytes that match their sum.
pub open spec fn checksum_ok(buf: Seq<u8>, len: int) -> bool {
    &&& 10 <= len <= 254
    &&& byte_sum(buf.take(len)) % 0x1_0000 == be16(buf[len], buf[len + 1])
}

/// The block that `len` collected block bytes stand for.
pub open spec fn collected_block(buf: Seq<u8>, len: int) -> BlockView {
    (block_header_of(buf.take(len).take(10)), buf.take(len).skip(10))
}

/// Receiving: the length byte stops T2 and, if valid, starts collecting,
/// else starts discarding; either way T1 starts. Collected bytes stop and
/// restart T1; a complete block with a good checksum is acknowledged and
/// handed up, a bad one reported and discarded.
pub open spec fn receive_step(m: TransferModel) -> (TransferModel, bool) {
    if m.input.len() == 0 {
        (m, false)
    } else {
        match m.phase {
            TransferPhase::RecvLength => {
                let b = m.input[0];
                let m1 = stop_timer(TransferModel { input: m.input.drop_first(), ..m }, SecsTimeoutUnit::T2);
                let p = if valid_length(b) {
                    TransferPhase::RecvData(b, Seq::empty())
                } else {
                    TransferPhase::RecvInvalid
                };
                (start_timer(goto(m1, p), SecsTimeoutUnit::T1), true)
            },
            TransferPhase::RecvData(len, buf) => {
                let need = len + 2 - buf.len();
                let m1 = stop_timer(m, SecsTimeoutUnit::T1);
                if m.input.len() < need {
                    (
                        start_timer(
                            TransferModel { input: Seq::empty(), phase: TransferPhase::RecvData(len, buf + m.input), ..m1 },
                            SecsTimeoutUnit::T1,
                        ),
                        false,
                    )
                } else {
                    let full = buf + m.input.take(need);
                    let m2 = TransferModel { input: m.input.skip(need), ..m1 };
                    if checksum_ok(full, len as int) {
                        (
                            goto(
                                write_code(
                                    TransferModel { received: m2.received.push(collected_block(full, len as int)), ..m2 },
                                    Secs1HandshakeCode::ACK,
                                ),
                                TransferPhase::Idle,
                            ),
                            true,
                        )
                    } else {
                        (
                            start_timer(
                                goto(
                                    emit(m2, Secs1BlockTransferEvent::ReceiveFailed { error: SecsTransportError::BlockError }),
                                    TransferPhase::RecvInvalid,
                                ),
                                SecsTimeoutUnit::T1,
                            ),
                            true,
                        )
                    }
                }
            },
            _ => (
                start_timer(
                    TransferModel { input: Seq::empty(), ..stop_timer(m, SecsTimeoutUnit::T1) },
                    SecsTimeoutUnit::T1,
                ),
                false,
            ),
        }
    }
}

/// One handler invocation: the next state and whether to run again.
pub open spec fn transfer_step(m: TransferModel, mode: ConnectionRole, max_retry: u8) -> (TransferModel, bool) {
    match m.phase {
        TransferPhase::Idle => idle_step(m),
        TransferPhase::LineBeforeEnq => line_step(m, mode),
        TransferPhase::LineWait => line_step(m, mode),
        TransferPhase::SendBefore => send_step(m, max_retry),
        TransferPhase::SendWaitAck => send_step(m, max_retry),
        _ => receive_step(m),
    }
}

/// Rank of a phase: steps that consume nothing go to a lower rank.
pub open spec fn phase_rank(p: TransferPhase) -> int {
    match p {
        TransferPhase::Idle => 3,
        TransferPhase::LineBeforeEnq => 2,
        TransferPhase::LineWait => 1,
        TransferPhase::SendBefore => 1,
        _ => 0,
    }
}

/// The invariant of the model: a block is in progress while in line control
/// or sending, and collected bytes stay short of a complete block.
pub open spec fn model_wf(m: TransferModel, max_retry: u8) -> bool {
    &&& m.retry <= max_retry
    &&& (match m.phase {
        TransferPhase::LineBeforeEnq | TransferPhase::LineWait | TransferPhase::SendBefore
        | TransferPhase::SendWaitAck => m.to_send.len() > 0,
        TransferPhase::RecvData(len, buf) => buf.len() < len + 2,
        _ => true,
    })
}

/// `find_first` is the index of the first byte that satisfies `p`, when
/// none before `k` does and `k` does or ends the sequence.
pub proof fn lemma_find_first(s: Seq<u8>, p: spec_fn(u8) -> bool, k: int)
    requires
        0 <= k <= s.len(),
        forall|j: int| 0 <= j < k ==> !p(#[trigger] s[j]),
        k == s.len() || p(s[k]),
    ensures
        find_first(s, p) == k,
    decreases k,
{
    if k > 0 {
        assert(!p(s[0]));
        assert forall|j: int| 0 <= j < k - 1 implies !p(#[trigger] s.drop_first()[j]) by {
            assert(s.drop_first()[j] == s[j + 1]);
        }
        lemma_find_first(s.drop_first(), p, k - 1);
    }
}

/// `find_first` stays within the sequence, and what it finds satisfies `p`
/// while nothing before it does.
pub proof fn lemma_find_first_bounds(s: Seq<u8>, p: spec_fn(u8) -> bool)
    ensures
        0 <= find_first(s, p) <= s.len(),
        find_first(s, p) < s.len() ==> p(s[find_first(s, p)]),
        forall|j: int| 0 <= j < find_first(s, p) ==> !p(#[trigger] s[j]),
    decreases s.len(),
{
    if s.len() > 0 && !p(s[0]) {
        lemma_find_first_bounds(s.drop_first(), p);
        assert forall|j: int| 0 <= j < find_first(s, p) implies !p(#[trigger] s[j]) by {
            if j > 0 {
                assert(s[j] == s.drop_first()[j - 1]);
            }
        }
    }
}

/// The measure that each step which asks to run again decreases.
pub open spec fn step_decreases(m: TransferModel, m2: TransferModel) -> bool {
    ||| m2.input.len() < m.input.len()
    ||| (m2.input.len() == m.input.len() && phase_rank(m2.phase) < phase_rank(m.phase))
}

/// A step keeps the invariant, never lengthens the input, and when it asks to
/// run again it consumed input or moved to a lower rank.
pub proof fn lemma_step(m: TransferModel, mode: ConnectionRole, max_retry: u8)
    requires
        model_wf(m, max_retry),
    ensures
        model_wf(transfer_step(m, mode, max_retry).0, max_retry),
        transfer_step(m, mode, max_retry).0.input.len() <= m.input.len(),
        transfer_step(m, mode, max_retry).1 ==> step_decreases(m, transfer_step(m, mode, max_retry).0),
        !transfer_step(m, mode, max_retry).1 && transfer_step(m, mode, max_retry).0.input.len() == m.input.len()
            ==> phase_rank(transfer_step(m, mode, max_retry).0.phase) == phase_rank(m.phase),
{
    lemma_find_first_bounds(m.input, enq_pred());
    lemma_find_first_bounds(m.input, line_pred(mode));
}

/// Running the machine: steps until one does not ask to run again.
pub open spec fn run_model(m: TransferModel, mode: ConnectionRole, max_retry: u8) -> TransferModel
    decreases m.input.len(), phase_rank(m.phase) when model_wf(m, max_retry)
{
    let (m2, again) = transfer_step(m, mode, max_retry);
    if again {
        proof {
            lemma_step(m, mode, max_retry);
        }
        run_model(m2, mode, max_retry)
    } else {
        m2
    }
}

impl View for Secs1BlockTransferState {
    type V = TransferPhase;

    open spec fn view(&self) -> TransferPhase {
        match *self {
            Secs1BlockTransferState::IDLE => TransferPhase::Idle,
            Secs1BlockTransferState::LINECONTROL(LineControlState::BeforeSendENQ) => TransferPhase::LineBeforeEnq,
            Secs1BlockTransferState::LINECONTROL(LineControlState::WaitForResponse) => TransferPhase::LineWait,
            Secs1BlockTransferState::SEND(SendState::BeforeSend) => TransferPhase::SendBefore,
            Secs1BlockTransferState::SEND(SendState::WaitForAck) => TransferPhase::SendWaitAck,
            Secs1BlockTransferState::RECEIVE(ReceiveState::WaitingLength) => TransferPhase::RecvLength,
            Secs1BlockTransferState::RECEIVE(ReceiveState::WaitingData { length, buffer }) => TransferPhase::RecvData(length, buffer@),
            Secs1BlockTransferState::RECEIVE(ReceiveState::InvalidBlock) => TransferPhase::RecvInvalid,
        }
    }
}

pub open spec fn block_views(s: Seq<Secs1Block>) -> Seq<BlockView> {
    s.map_values(|b: Secs1Block| block_view(b))
}

/// The SECS-I block transfer state machine: bytes and blocks go in, bytes,
/// blocks, timer starts and events come out.
pub struct Secs1BlockTransferMachine {
    /// Received bytes not yet consumed.
    incoming_buffer: VecDeque<u8>,
    /// Bytes to be written.
    outgoing_buffer: Vec<u8>,
    /// Blocks to send; the first is the one in progress.
    incoming_blocks: VecDeque<Secs1Block>,
    /// Blocks received and not yet taken.
    outgoing_blocks: VecDeque<Secs1Block>,
    /// Started timers not yet taken.
    outgoing_timeout_queue: VecDeque<TimeoutTicket>,
    /// Events not yet taken.
    outgoing_event_queue: VecDeque<Secs1BlockTransferEvent>,
    timeout_manager: TimeoutManager,
    /// Where the protocol stands.
    pub state: Secs1BlockTransferState,
    mode: ConnectionRole,
    /// Line control retries so far for the block in progress.
    pub current_retry: u8,
    max_retry: u8,
    /// Set by every state change: the new state's handler runs next.
    process_next: bool,
}

impl Secs1BlockTransferMachine {
    pub closed spec fn model(&self) -> TransferModel {
        TransferModel {
            phase: self.state@,
            input: self.incoming_buffer@,
            to_send: block_views(self.incoming_blocks@),
            output: self.outgoing_buffer@,
            received: block_views(self.outgoing_blocks@),
            timers: self.timeout_manager.active_tickets(),
            next_id: self.timeout_manager.next_id(),
            timeouts: self.outgoing_timeout_queue@,
            events: self.outgoing_event_queue@,
            retry: self.current_retry,
        }
    }

    /// The side of the link this machine plays.
    pub closed spec fn role(&self) -> ConnectionRole {
        self.mode
    }

    /// How often line control is retried before a send fails.
    pub closed spec fn retry_limit(&self) -> u8 {
        self.max_retry
    }

    /// Whether the current state's handler is due to run.
    pub closed spec fn again(&self) -> bool {
        self.process_next
    }

    pub closed spec fn wf(&self) -> bool {
        &&& self.timeout_manager.wf()
        &&& model_wf(self.model(), self.max_retry)
    }

    pub fn new(config: &Secs1TransportConfig) -> (r: Secs1BlockTransferMachine)
        ensures
            r.wf(),
            r.role() == config.local_role,
            r.retry_limit() == config.t2_rty_limit,
            r.model() == (TransferModel {
                phase: TransferPhase::Idle,
                input: Seq::empty(),
                to_send: Seq::empty(),
                output: Seq::empty(),
                received: Seq::empty(),
                timers: Map::empty(),
                next_id: 0,
                timeouts: Seq::empty(),
                events: Seq::empty(),
                retry: 0,
            }),
    {
        let r = Secs1BlockTransferMachine {
            incoming_buffer: VecDeque::new(),
            outgoing_buffer: Vec::new(),
            incoming_blocks: VecDeque::new(),
            outgoing_blocks: VecDeque::new(),
            outgoing_timeout_queue: VecDeque::new(),
            outgoing_event_queue: VecDeque::new(),
            timeout_manager: TimeoutManager::new(),
            state: Secs1BlockTransferState::IDLE,
            mode: config.local_role,
            current_retry: 0,
            max_retry: config.t2_rty_limit,
            process_next: true,
        };
        assert(r.model().to_send =~= Seq::<BlockView>::empty());
        assert(r.model().received =~= Seq::<BlockView>::empty());
        r
    }

    fn next(&mut self)
        ensures
            final(self).model() == old(self).model(),
            final(self).again(),
            final(self).role() == old(self).role(),
            final(self).retry_limit() == old(self).retry_limit(),
            final(self).timeout_manager.wf() == old(self).timeout_manager.wf(),
    {
        self.process_next = true;
    }

    fn emit_event(&mut self, output: Secs1BlockTransferEvent)
        ensures
            final(self).model() == emit(old(self).model(), output),
            final(self).again() == old(self).again(),
            final(self).role() == old(self).role(),
            final(self).retry_limit() == old(self).retry_limit(),
            final(self).timeout_manager.wf() == old(self).timeout_manager.wf(),
    {
        self.outgoing_event_queue.push_back(output);
    }

    fn emit_block(&mut self, block: Secs1Block)
        ensures
            final(self).model() == (TransferModel { received: old(self).model().received.push(block_view(block)), ..old(self).model() }),
            final(self).again() == old(self).again(),
            final(self).role() == old(self).role(),
            final(self).retry_limit() == old(self).retry_limit(),
            final(self).timeout_manager.wf() == old(self).timeout_manager.wf(),
    {
        self.outgoing_blocks.push_back(block);
        assert(block_views(self.outgoing_blocks@) =~= block_views(old(self).outgoing_blocks@).push(block_view(block)));
    }

    fn write(&mut self, data: Vec<u8>)
        ensures
            final(self).model() == (TransferModel { output: old(self).model().output + data@, ..old(self).model() }),
            final(self).again() == old(self).again(),
            final(self).role() == old(self).role(),
            final(self).retry_limit() == old(self).retry_limit(),
            final(self).timeout_manager.wf() == old(self).timeout_manager.wf(),
    {
        let mut data = data;
        self.outgoing_buffer.append(&mut data);
    }

    fn write_code(&mut self, code: Secs1HandshakeCode)
        ensures
            final(self).model() == write_code(old(self).model(), code),
            final(self).again() == old(self).again(),
            final(self).role() == old(self).role(),
            final(self).retry_limit() == old(self).retry_limit(),
            final(self).timeout_manager.wf() == old(self).timeout_manager.wf(),
    {
        self.outgoing_buffer.push(code.to_byte());
    }

    fn start_timeout(&mut self, timeout: SecsTimeoutUnit)
        requires
            old(self).timeout_manager.wf(),
        ensures
            final(self).model() == start_timer(old(self).model(), timeout),
            final(self).again() == old(self).again(),
            final(self).role() == old(self).role(),
            final(self).retry_limit() == old(self).retry_limit(),
            final(self).timeout_manager.wf(),
    {
        let ticket = self.timeout_manager.issue(timeout);
        self.outgoing_timeout_queue.push_back(ticket);
    }

    fn cancel_timeout(&mut self, timeout: SecsTimeoutUnit)
        requires
            old(self).timeout_manager.wf(),
        ensures
            final(self).model() == stop_timer(old(self).model(), timeout),
            final(self).again() == old(self).again(),
            final(self).role() == old(self).role(),
            final(self).retry_limit() == old(self).retry_limit(),
            final(self).timeout_manager.wf(),
    {
        self.timeout_manager.cancel(timeout);
    }

    fn state_change(&mut self, state: Secs1BlockTransferState)
        ensures
            final(self).model() == goto(old(self).model(), state@),
            final(self).again(),
            final(self).role() == old(self).role(),
            final(self).retry_limit() == old(self).retry_limit(),
            final(self).timeout_manager.wf() == old(self).timeout_manager.wf(),
    {
        self.state = state;
        self.next();
    }
}

impl Secs1BlockTransferMachine {
    fn pop_incoming_block(&mut self) -> (block: Secs1Block)
        requires
            old(self).model().to_send.len() > 0,
        ensures
            block_view(block) == old(self).model().to_send[0],
            final(self).model() == (TransferModel { to_send: old(self).model().to_send.drop_first(), ..old(self).model() }),
            final(self).again() == old(self).again(),
            final(self).role() == old(self).role(),
            final(self).retry_limit() == old(self).retry_limit(),
            final(self).timeout_manager.wf() == old(self).timeout_manager.wf(),
    {
        let block = self.incoming_blocks.pop_front().unwrap();
        assert(block_views(self.incoming_blocks@) =~= block_views(old(self).incoming_blocks@).drop_first());
        block
    }

    /// Answers an ENQ: writes EOT, restarts T2 for the length byte and waits
    /// for it.
    pub fn switch_to_receive(&mut self)
        requires
            old(self).wf(),
        ensures
            final(self).wf(),
            final(self).model() == to_receive(old(self).model()),
            final(self).again(),
            final(self).role() == old(self).role(),
            final(self).retry_limit() == old(self).retry_limit(),
    {
        self.cancel_timeout(SecsTimeoutUnit::T2);
        self.write_code(Secs1HandshakeCode::EOT);
        self.start_timeout(SecsTimeoutUnit::T2);
        self.state_change(Secs1BlockTransferState::RECEIVE(ReceiveState::WaitingLength));
    }

    /// Ends a failed reception: writes NAK and goes idle.
    pub fn completion_with_send_nak(&mut self)
        requires
            old(self).wf(),
        ensures
            final(self).wf(),
            final(self).model() == goto(write_code(old(self).model(), Secs1HandshakeCode::NAK), TransferPhase::Idle),
            final(self).again(),
            final(self).role() == old(self).role(),
            final(self).retry_limit() == old(self).retry_limit(),
    {
        self.write_code(Secs1HandshakeCode::NAK);
        self.state_change(Secs1BlockTransferState::IDLE);
    }

    /// Ends a good reception: writes ACK and goes idle.
    pub fn completion_with_send_ack(&mut self)
        requires
            old(self).wf(),
        ensures
            final(self).wf(),
            final(self).model() == goto(write_code(old(self).model(), Secs1HandshakeCode::ACK), TransferPhase::Idle),
            final(self).again(),
            final(self).role() == old(self).role(),
            final(self).retry_limit() == old(self).retry_limit(),
    {
        self.write_code(Secs1HandshakeCode::ACK);
        self.state_change(Secs1BlockTransferState::IDLE);
    }

    /// Starts line control for the first block to send, with no retries yet.
    pub fn switch_to_line_control(&mut self)
        requires
            old(self).wf(),
            old(self).model().to_send.len() > 0,
        ensures
            final(self).wf(),
            final(self).model() == (TransferModel { retry: 0, phase: TransferPhase::LineBeforeEnq, ..old(self).model() }),
            final(self).again(),
            final(self).role() == old(self).role(),
            final(self).retry_limit() == old(self).retry_limit(),
    {
        self.current_retry = 0;
        self.state_change(Secs1BlockTransferState::LINECONTROL(LineControlState::BeforeSendENQ));
    }

    fn switch_to_send(&mut self)
        requires
            old(self).wf(),
            old(self).model().to_send.len() > 0,
        ensures
            final(self).wf(),
            final(self).model() == goto(stop_timer(old(self).model(), SecsTimeoutUnit::T2), TransferPhase::SendBefore),
            final(self).again(),
            final(self).role() == old(self).role(),
            final(self).retry_limit() == old(self).retry_limit(),
    {
        self.cancel_timeout(SecsTimeoutUnit::T2);
        self.state_change(Secs1BlockTransferState::SEND(SendState::BeforeSend));
    }

    fn retrigger_line_control(&mut self)
        requires
            old(self).wf(),
            old(self).model().to_send.len() > 0,
        ensures
            final(self).wf(),
            final(self).model() == retrigger(old(self).model(), old(self).retry_limit()),
            final(self).again(),
            final(self).role() == old(self).role(),
            final(self).retry_limit() == old(self).retry_limit(),
    {
        self.cancel_timeout(SecsTimeoutUnit::T2);
        let retry: u16 = self.current_retry as u16 + 1;
        if retry > self.max_retry as u16 {
            self.current_retry = 0;
            self.state_change(Secs1BlockTransferState::IDLE);
            let block = self.pop_incoming_block();
            self.emit_event(
                Secs1BlockTransferEvent::SendFailed {
                    header: block.header,
                    error: SecsTransportError::Timeout(SecsTimeoutUnit::T2),
                },
            );
        } else {
            self.current_retry = retry as u8;
            self.state_change(Secs1BlockTransferState::LINECONTROL(LineControlState::BeforeSendENQ));
            self.emit_event(Secs1BlockTransferEvent::Retry(self.current_retry));
        }
    }
}

impl Secs1BlockTransferMachine {
    /// Idle: with a block to send, starts line control; otherwise discards
    /// received bytes up to an ENQ and answers it.
    pub fn handle_idle(&mut self)
        requires
            old(self).wf(),
            old(self).model().phase == TransferPhase::Idle,
        ensures
            final(self).wf(),
            final(self).model() == idle_step(old(self).model()).0,
            final(self).again() == (old(self).again() || idle_step(old(self).model()).1),
            final(self).role() == old(self).role(),
            final(self).retry_limit() == old(self).retry_limit(),
    {
        if self.incoming_blocks.len() == 0 {
            let ghost m = self.model();
            let ghost s = self.incoming_buffer@;
            let ghost mut k: int = 0;
            loop
                invariant
                    self.wf(),
                    m == old(self).model(),
                    m.to_send.len() == 0,
                    m.phase == TransferPhase::Idle,
                    s == m.input,
                    0 <= k <= s.len(),
                    forall|j: int| 0 <= j < k ==> !enq_pred()(#[trigger] s[j]),
                    self.model() == (TransferModel { input: s.skip(k), ..m }),
                    self.again() == old(self).again(),
                    self.role() == old(self).role(),
                    self.retry_limit() == old(self).retry_limit(),
                decreases s.len() - k,
            {
                match self.incoming_buffer.pop_front() {
                    Some(byte) => {
                        assert(byte == s[k]);
                        assert(self.incoming_buffer@ =~= s.skip(k + 1));
                        match Secs1HandshakeCode::from_byte(byte) {
                            Some(Secs1HandshakeCode::ENQ) => {
                                proof {
                                    lemma_find_first(s, enq_pred(), k);
                                }
                                self.switch_to_receive();
                                return;
                            },
                            _ => {},
                        }
                        proof {
                            k = k + 1;
                        }
                    },
                    None => {
                        proof {
                            lemma_find_first(s, enq_pred(), k);
                        }
                        assert(self.model().input =~= Seq::<u8>::empty());
                        return;
                    },
                }
            }
        } else {
            self.switch_to_line_control();
        }
    }

    /// Line control: writes ENQ and starts T2; then waits for EOT (go send)
    /// or, on the passive side, yields to a competing ENQ; other bytes are
    /// discarded.
    pub fn handle_line_control(&mut self)
        requires
            old(self).wf(),
            old(self).model().phase == TransferPhase::LineBeforeEnq || old(self).model().phase == TransferPhase::LineWait,
        ensures
            final(self).wf(),
            final(self).model() == line_step(old(self).model(), old(self).role()).0,
            final(self).again() == (old(self).again() || line_step(old(self).model(), old(self).role()).1),
            final(self).role() == old(self).role(),
            final(self).retry_limit() == old(self).retry_limit(),
    {
        let before = matches!(self.state, Secs1BlockTransferState::LINECONTROL(LineControlState::BeforeSendENQ));
        if before {
            self.write_code(Secs1HandshakeCode::ENQ);
            self.start_timeout(SecsTimeoutUnit::T2);
            self.state_change(Secs1BlockTransferState::LINECONTROL(LineControlState::WaitForResponse));
            return;
        }
        let ghost m = self.model();
        let ghost s = self.incoming_buffer@;
        let ghost mut k: int = 0;
        loop
            invariant
                self.wf(),
                m == old(self).model(),
                m.to_send.len() > 0,
                m.phase == TransferPhase::LineWait,
                s == m.input,
                0 <= k <= s.len(),
                forall|j: int| 0 <= j < k ==> !line_pred(self.role())(#[trigger] s[j]),
                self.model() == (TransferModel { input: s.skip(k), ..m }),
                self.again() == old(self).again(),
                self.role() == old(self).role(),
                self.retry_limit() == old(self).retry_limit(),
            decreases s.len() - k,
        {
            match self.incoming_buffer.pop_front() {
                Some(byte) => {
                    assert(byte == s[k]);
                    assert(self.incoming_buffer@ =~= s.skip(k + 1));
                    match Secs1HandshakeCode::from_byte(byte) {
                        Some(code) => {
                            if self.mode.is_passive() && code == Secs1HandshakeCode::ENQ {
                                proof {
                                    lemma_find_first(s, line_pred(self.role()), k);
                                }
                                self.switch_to_receive();
                                return;
                            } else if code == Secs1HandshakeCode::EOT {
                                proof {
                                    lemma_find_first(s, line_pred(self.role()), k);
                                }
                                self.switch_to_send();
                                return;
                            }
                        },
                        None => {},
                    }
                    proof {
                        k = k + 1;
                    }
                },
                None => {
                    proof {
                        lemma_find_first(s, line_pred(self.role()), k);
                    }
                    assert(self.model().input =~= Seq::<u8>::empty());
                    return;
                },
            }
        }
    }
}

impl Secs1BlockTransferMachine {
    /// Sending: writes the first block and starts T2; then an ACK completes
    /// it and any other byte counts as a failed attempt.
    pub fn handle_send(&mut self)
        requires
            old(self).wf(),
            old(self).model().phase == TransferPhase::SendBefore || old(self).model().phase == TransferPhase::SendWaitAck,
        ensures
            final(self).wf(),
            final(self).model() == send_step(old(self).model(), old(self).retry_limit()).0,
            final(self).again() == (old(self).again() || send_step(old(self).model(), old(self).retry_limit()).1),
            final(self).role() == old(self).role(),
            final(self).retry_limit() == old(self).retry_limit(),
    {
        let before = matches!(self.state, Secs1BlockTransferState::SEND(SendState::BeforeSend));
        if before {
            self.process_send_block();
        } else {
            self.process_wait_for_ack();
        }
    }

    fn process_send_block(&mut self)
        requires
            old(self).wf(),
            old(self).model().phase == TransferPhase::SendBefore,
        ensures
            final(self).wf(),
            final(self).model() == send_step(old(self).model(), old(self).retry_limit()).0,
            final(self).again(),
            final(self).role() == old(self).role(),
            final(self).retry_limit() == old(self).retry_limit(),
    {
        let mut frame = self.incoming_blocks[0].to_bytes_with_checksum();
        let ghost b = self.model().to_send[0];
        assert(frame@ == block_frame(b));
        assert(block_header_bytes(b.0).len() == 10);
        let n: usize = frame.len() - 2;
        let mut bytes: Vec<u8> = Vec::new();
        bytes.push((n % 256) as u8);
        bytes.append(&mut frame);
        assert(bytes@ =~= block_wire(b));
        self.write(bytes);
        self.start_timeout(SecsTimeoutUnit::T2);
        self.state_change(Secs1BlockTransferState::SEND(SendState::WaitForAck));
    }

    fn process_wait_for_ack(&mut self)
        requires
            old(self).wf(),
            old(self).model().phase == TransferPhase::SendWaitAck,
        ensures
            final(self).wf(),
            final(self).model() == send_step(old(self).model(), old(self).retry_limit()).0,
            final(self).again() == (old(self).again() || send_step(old(self).model(), old(self).retry_limit()).1),
            final(self).role() == old(self).role(),
            final(self).retry_limit() == old(self).retry_limit(),
    {
        let ghost m = self.model();
        match self.incoming_buffer.pop_front() {
            None => {},
            Some(byte) => {
                assert(self.incoming_buffer@ =~= m.input.drop_first());
                self.cancel_timeout(SecsTimeoutUnit::T2);
                match Secs1HandshakeCode::from_byte(byte) {
                    Some(Secs1HandshakeCode::ACK) => {
                        let block = self.pop_incoming_block();
                        self.emit_event(Secs1BlockTransferEvent::SendSuccess { header: block.header });
                        self.state_change(Secs1BlockTransferState::IDLE);
                        return;
                    },
                    _ => {},
                }
                let ghost m2 = TransferModel { input: m.input.drop_first(), ..m };
                assert(stop_timer(stop_timer(m2, SecsTimeoutUnit::T2), SecsTimeoutUnit::T2) =~= stop_timer(m2, SecsTimeoutUnit::T2));
                self.retrigger_line_control();
            },
        }
    }

    /// Receiving: dispatches on the receive phase; outside it does nothing.
    pub fn handle_receive(&mut self)
        requires
            old(self).wf(),
        ensures
            final(self).wf(),
            final(self).model() == match old(self).model().phase {
                TransferPhase::RecvLength | TransferPhase::RecvData(..) | TransferPhase::RecvInvalid => receive_step(old(self).model()).0,
                _ => old(self).model(),
            },
            final(self).again() == match old(self).model().phase {
                TransferPhase::RecvLength | TransferPhase::RecvData(..) | TransferPhase::RecvInvalid => old(self).again() || receive_step(old(self).model()).1,
                _ => old(self).again(),
            },
            final(self).role() == old(self).role(),
            final(self).retry_limit() == old(self).retry_limit(),
    {
        match self.state {
            Secs1BlockTransferState::RECEIVE(ReceiveState::WaitingLength) => self.process_waiting_length(),
            Secs1BlockTransferState::RECEIVE(ReceiveState::WaitingData { .. }) => self.process_waiting_data(),
            Secs1BlockTransferState::RECEIVE(ReceiveState::InvalidBlock) => self.process_invalid_block(),
            _ => {},
        }
    }

    fn process_waiting_length(&mut self)
        requires
            old(self).wf(),
            old(self).model().phase == TransferPhase::RecvLength,
        ensures
            final(self).wf(),
            final(self).model() == receive_step(old(self).model()).0,
            final(self).again() == (old(self).again() || receive_step(old(self).model()).1),
            final(self).role() == old(self).role(),
            final(self).retry_limit() == old(self).retry_limit(),
    {
        let ghost m = self.model();
        match self.incoming_buffer.pop_front() {
            None => {},
            Some(byte) => {
                assert(self.incoming_buffer@ =~= m.input.drop_first());
                self.cancel_timeout(SecsTimeoutUnit::T2);
                if byte >= 10 && byte <= 254 {
                    self.state_change(
                        Secs1BlockTransferState::RECEIVE(ReceiveState::WaitingData { length: byte, buffer: Vec::new() }),
                    );
                    assert(self.model().phase =~= TransferPhase::RecvData(byte, Seq::empty()));
                } else {
                    self.state_change(Secs1BlockTransferState::RECEIVE(ReceiveState::InvalidBlock));
                }
                self.start_timeout(SecsTimeoutUnit::T1);
            },
        }
    }

    fn process_invalid_block(&mut self)
        requires
            old(self).wf(),
            old(self).model().phase == TransferPhase::RecvInvalid,
        ensures
            final(self).wf(),
            final(self).model() == receive_step(old(self).model()).0,
            final(self).again() == (old(self).again() || receive_step(old(self).model()).1),
            final(self).role() == old(self).role(),
            final(self).retry_limit() == old(self).retry_limit(),
    {
        if self.incoming_buffer.len() == 0 {
            return;
        }
        self.cancel_timeout(SecsTimeoutUnit::T1);
        self.incoming_buffer.clear();
        self.start_timeout(SecsTimeoutUnit::T1);
    }
}

impl Secs1BlockTransferMachine {
    fn process_waiting_data(&mut self)
        requires
            old(self).wf(),
            old(self).model().phase is RecvData,
        ensures
            final(self).wf(),
            final(self).model() == receive_step(old(self).model()).0,
            final(self).again() == (old(self).again() || receive_step(old(self).model()).1),
            final(self).role() == old(self).role(),
            final(self).retry_limit() == old(self).retry_limit(),
    {
        if self.incoming_buffer.len() == 0 {
            return;
        }
        let ghost m0 = self.model();
        self.cancel_timeout(SecsTimeoutUnit::T1);
        let ghost m1 = self.model();
        let mut st = Secs1BlockTransferState::IDLE;
        core::mem::swap(&mut st, &mut self.state);
        let (length, mut buffer) = match st {
            Secs1BlockTransferState::RECEIVE(ReceiveState::WaitingData { length, buffer }) => (length, buffer),
            _ => {
                assert(false);
                return;
            },
        };
        let ghost s = m0.input;
        let ghost buf0 = buffer@;
        let ghost need: int = length + 2 - buf0.len();
        let ghost mut k: int = 0;
        assert(m1 == stop_timer(m0, SecsTimeoutUnit::T1));
        loop
            invariant_except_break
                self.timeout_manager.wf(),
                self.current_retry <= self.max_retry,
                self.role() == old(self).role(),
                self.retry_limit() == old(self).retry_limit(),
                self.again() == old(self).again(),
                m0 == old(self).model(),
                m0.phase == TransferPhase::RecvData(length, buf0),
                s == m0.input,
                s.len() > 0,
                m1 == stop_timer(m0, SecsTimeoutUnit::T1),
                need == length + 2 - buf0.len(),
                0 < need,
                0 <= k < need,
                k <= s.len(),
                buffer@ == buf0 + s.take(k),
                self.model() == (TransferModel { phase: TransferPhase::Idle, input: s.skip(k), ..m1 }),
            ensures
                self.timeout_manager.wf(),
                self.current_retry <= self.max_retry,
                self.role() == old(self).role(),
                self.retry_limit() == old(self).retry_limit(),
                s.len() < need ==> self.model() == (TransferModel {
                    input: Seq::empty(),
                    phase: TransferPhase::RecvData(length, buf0 + s),
                    ..m1
                }) && self.again() == old(self).again(),
                s.len() >= need ==> !checksum_ok(buf0 + s.take(need), length as int) && self.model() == goto(
                    emit(
                        TransferModel { input: s.skip(need), ..m1 },
                        Secs1BlockTransferEvent::ReceiveFailed { error: SecsTransportError::BlockError },
                    ),
                    TransferPhase::RecvInvalid,
                ) && self.again(),
            decreases s.len() - k,
        {
            match self.incoming_buffer.pop_front() {
                None => {
                    assert(k == s.len());
                    assert(s.take(k) =~= s);
                    self.state = Secs1BlockTransferState::RECEIVE(ReceiveState::WaitingData { length, buffer });
                    assert(self.model().input =~= Seq::<u8>::empty());
                    break;
                },
                Some(byte) => {
                    assert(byte == s[k]);
                    assert(self.incoming_buffer@ =~= s.skip(k + 1));
                    buffer.push(byte);
                    assert(buffer@ =~= buf0 + s.take(k + 1));
                    assert(buffer@.len() == buf0.len() + k + 1);
                    proof {
                        k = k + 1;
                    }
                    if buffer.len() == length as usize + 2 {
                        let ghost full = buffer@;
                        assert(k == need);
                        let hi = buffer[length as usize];
                        let lo = buffer[length as usize + 1];
                        let expected = u16_from_be(hi, lo);
                        buffer.truncate(length as usize);
                        assert(buffer@ =~= full.take(length as int));
                        let parsed = Secs1Block::try_from(buffer.as_slice());
                        match parsed {
                            Ok(block) => {
                                proof {
                                    lemma_block_bytes_round_trip(full.take(length as int).take(10));
                                    assert(block_bytes(block) =~= full.take(length as int));
                                }
                                if block.verify_checksum(expected) {
                                    self.emit_block(block);
                                    self.completion_with_send_ack();
                                    return;
                                }
                            },
                            Err(_) => {},
                        }
                        self.emit_event(
                            Secs1BlockTransferEvent::ReceiveFailed { error: SecsTransportError::BlockError },
                        );
                        self.state_change(Secs1BlockTransferState::RECEIVE(ReceiveState::InvalidBlock));
                        break;
                    }
                },
            }
        }
        self.start_timeout(SecsTimeoutUnit::T1);
    }
}

/// What an expired timer does: T2 in line control or sending counts as a
/// failed attempt; T2 while waiting for the length byte, and T1 while
/// collecting or discarding block bytes, fail the reception with NAK. Other
/// pairs change nothing.
pub open spec fn timeout_react(m: TransferModel, u: SecsTimeoutUnit, max_retry: u8) -> TransferModel {
    let nak = |m2: TransferModel, e: SecsTransportError|
        goto(
            write_code(emit(m2, Secs1BlockTransferEvent::ReceiveFailed { error: e }), Secs1HandshakeCode::NAK),
            TransferPhase::Idle,
        );
    match m.phase {
        TransferPhase::LineBeforeEnq | TransferPhase::LineWait | TransferPhase::SendBefore
        | TransferPhase::SendWaitAck => if u == SecsTimeoutUnit::T2 {
            retrigger(m, max_retry)
        } else {
            m
        },
        TransferPhase::RecvLength => if u == SecsTimeoutUnit::T2 {
            nak(m, SecsTransportError::Timeout(SecsTimeoutUnit::T2))
        } else {
            m
        },
        TransferPhase::RecvData(..) => if u == SecsTimeoutUnit::T1 {
            nak(m, SecsTransportError::Timeout(SecsTimeoutUnit::T1))
        } else {
            m
        },
        TransferPhase::RecvInvalid => if u == SecsTimeoutUnit::T1 {
            nak(m, SecsTransportError::BlockError)
        } else {
            m
        },
        TransferPhase::Idle => m,
    }
}

/// Whether `ticket` is the live ticket of its timer.
pub open spec fn ticket_live(m: TransferModel, ticket: TimeoutTicket) -> bool {
    m.timers.dom().contains(ticket.timeout) && m.timers[ticket.timeout] == ticket
}

impl Secs1BlockTransferMachine {
    /// Runs state handlers until one leaves nothing more to do.
    pub fn run(&mut self)
        requires
            old(self).wf(),
        ensures
            final(self).wf(),
            final(self).model() == run_model(old(self).model(), old(self).role(), old(self).retry_limit()),
            final(self).role() == old(self).role(),
            final(self).retry_limit() == old(self).retry_limit(),
    {
        let ghost target = run_model(self.model(), self.role(), self.retry_limit());
        loop
            invariant_except_break
                self.wf(),
                run_model(self.model(), self.role(), self.retry_limit()) == target,
                self.role() == old(self).role(),
                self.retry_limit() == old(self).retry_limit(),
            ensures
                self.wf(),
                self.model() == target,
                self.role() == old(self).role(),
                self.retry_limit() == old(self).retry_limit(),
            decreases self.model().input.len(), phase_rank(self.model().phase),
        {
            self.process_next = false;
            let ghost before = self.model();
            match self.state {
                Secs1BlockTransferState::IDLE => self.handle_idle(),
                Secs1BlockTransferState::LINECONTROL(_) => self.handle_line_control(),
                Secs1BlockTransferState::RECEIVE(_) => self.handle_receive(),
                Secs1BlockTransferState::SEND(_) => self.handle_send(),
            }
            proof {
                lemma_step(before, self.role(), self.retry_limit());
            }
            assert(self.model() == transfer_step(before, self.role(), self.retry_limit()).0);
            if !self.process_next {
                break;
            }
        }
    }

    /// Takes received bytes and runs the protocol on them.
    pub fn handle_read(&mut self, msg: &[u8]) -> (r: Result<(), SecsTransportError>)
        requires
            old(self).wf(),
        ensures
            r == Ok::<(), SecsTransportError>(()),
            final(self).wf(),
            final(self).model() == run_model(
                TransferModel { input: old(self).model().input + msg@, ..old(self).model() },
                old(self).role(),
                old(self).retry_limit(),
            ),
            final(self).role() == old(self).role(),
            final(self).retry_limit() == old(self).retry_limit(),
    {
        let mut i: usize = 0;
        while i < msg.len()
            invariant
                i <= msg@.len(),
                self.wf(),
                self.model() == (TransferModel { input: old(self).model().input + msg@.take(i as int), ..old(self).model() }),
                self.role() == old(self).role(),
                self.retry_limit() == old(self).retry_limit(),
            decreases msg@.len() - i,
        {
            self.incoming_buffer.push_back(msg[i]);
            assert(self.incoming_buffer@ =~= old(self).model().input + msg@.take(i as int + 1));
            i = i + 1;
        }
        assert(msg@.take(i as int) =~= msg@);
        self.run();
        Ok(())
    }

    /// Takes the oldest received block.
    pub fn poll_read(&mut self) -> (r: Option<Secs1Block>)
        requires
            old(self).wf(),
        ensures
            final(self).wf(),
            old(self).model().received.len() == 0 ==> r is None && final(self).model() == old(self).model(),
            old(self).model().received.len() > 0 ==> (r matches Some(b) && block_view(b) == old(self).model().received[0])
                && final(self).model() == (TransferModel { received: old(self).model().received.drop_first(), ..old(self).model() }),
            final(self).role() == old(self).role(),
            final(self).retry_limit() == old(self).retry_limit(),
    {
        let r = self.outgoing_blocks.pop_front();
        assert(block_views(self.outgoing_blocks@) =~= block_views(old(self).outgoing_blocks@).drop_first()
            || old(self).outgoing_blocks@.len() == 0);
        r
    }

    /// Queues a block to send and runs the protocol.
    pub fn handle_write(&mut self, msg: Secs1Block) -> (r: Result<(), SecsTransportError>)
        requires
            old(self).wf(),
        ensures
            r == Ok::<(), SecsTransportError>(()),
            final(self).wf(),
            final(self).model() == run_model(
                TransferModel { to_send: old(self).model().to_send.push(block_view(msg)), ..old(self).model() },
                old(self).role(),
                old(self).retry_limit(),
            ),
            final(self).role() == old(self).role(),
            final(self).retry_limit() == old(self).retry_limit(),
    {
        let ghost v = block_view(msg);
        self.incoming_blocks.push_back(msg);
        assert(block_views(self.incoming_blocks@) =~= block_views(old(self).incoming_blocks@).push(v));
        self.run();
        Ok(())
    }

    /// Takes all bytes waiting to be written, or `None` when there are none.
    pub fn poll_write(&mut self) -> (r: Option<Vec<u8>>)
        requires
            old(self).wf(),
        ensures
            final(self).wf(),
            old(self).model().output.len() == 0 ==> r is None,
            old(self).model().output.len() > 0 ==> (r matches Some(v) && v@ == old(self).model().output),
            final(self).model() == (TransferModel { output: Seq::empty(), ..old(self).model() }),
            final(self).role() == old(self).role(),
            final(self).retry_limit() == old(self).retry_limit(),
    {
        let mut data: Vec<u8> = Vec::new();
        core::mem::swap(&mut data, &mut self.outgoing_buffer);
        if data.len() == 0 {
            None
        } else {
            Some(data)
        }
    }

    /// A timer expired. A ticket that is no longer the live one of its timer
    /// changes nothing; a live one stops its timer, acts as `timeout_react`
    /// says, and the protocol runs.
    pub fn handle_timeout(&mut self, timeticket: TimeoutTicket) -> (r: Result<(), SecsTransportError>)
        requires
            old(self).wf(),
        ensures
            r == Ok::<(), SecsTransportError>(()),
            final(self).wf(),
            final(self).model() == if ticket_live(old(self).model(), timeticket) {
                run_model(
                    timeout_react(
                        TransferModel { timers: old(self).model().timers.remove(timeticket.timeout), ..old(self).model() },
                        timeticket.timeout,
                        old(self).retry_limit(),
                    ),
                    old(self).role(),
                    old(self).retry_limit(),
                )
            } else {
                old(self).model()
            },
            final(self).role() == old(self).role(),
            final(self).retry_limit() == old(self).retry_limit(),
    {
        let expired_unit = timeticket.timeout;
        let is_timeout_valid = self.timeout_manager.fire(&timeticket);
        if !is_timeout_valid {
            return Ok(());
        }
        let is_t1 = matches!(expired_unit, SecsTimeoutUnit::T1);
        let is_t2 = matches!(expired_unit, SecsTimeoutUnit::T2);
        match self.state {
            Secs1BlockTransferState::LINECONTROL(_) | Secs1BlockTransferState::SEND(_) => {
                if is_t2 {
                    self.retrigger_line_control();
                }
            },
            Secs1BlockTransferState::RECEIVE(ReceiveState::WaitingLength) => {
                if is_t2 {
                    self.emit_event(
                        Secs1BlockTransferEvent::ReceiveFailed { error: SecsTransportError::Timeout(SecsTimeoutUnit::T2) },
                    );
                    self.completion_with_send_nak();
                }
            },
            Secs1BlockTransferState::RECEIVE(ReceiveState::WaitingData { .. }) => {
                if is_t1 {
                    self.emit_event(
                        Secs1BlockTransferEvent::ReceiveFailed { error: SecsTransportError::Timeout(SecsTimeoutUnit::T1) },
                    );
                    self.completion_with_send_nak();
                }
            },
            Secs1BlockTransferState::RECEIVE(ReceiveState::InvalidBlock) => {
                if is_t1 {
                    self.emit_event(Secs1BlockTransferEvent::ReceiveFailed { error: SecsTransportError::BlockError });
                    self.completion_with_send_nak();
                }
            },
            Secs1BlockTransferState::IDLE => {},
        }
        self.run();
        Ok(())
    }

    /// Takes the oldest started timer.
    pub fn poll_timeout(&mut self) -> (r: Option<TimeoutTicket>)
        requires
            old(self).wf(),
        ensures
            final(self).wf(),
            old(self).model().timeouts.len() == 0 ==> r is None && final(self).model() == old(self).model(),
            old(self).model().timeouts.len() > 0 ==> r == Some(old(self).model().timeouts[0])
                && final(self).model() == (TransferModel { timeouts: old(self).model().timeouts.drop_first(), ..old(self).model() }),
            final(self).role() == old(self).role(),
            final(self).retry_limit() == old(self).retry_limit(),
    {
        let r = self.outgoing_timeout_queue.pop_front();
        assert(old(self).model().timeouts.len() > 0 ==> self.outgoing_timeout_queue@ =~= old(self).model().timeouts.drop_first());
        r
    }

    /// The block transfer takes no events from outside.
    pub fn handle_event(&mut self, evt: ()) -> (r: Result<(), SecsTransportError>)
        ensures
            r == Ok::<(), SecsTransportError>(()),
            *final(self) == *old(self),
    {
        Ok(())
    }

    /// Takes the oldest event.
    pub fn poll_event(&mut self) -> (r: Option<Secs1BlockTransferEvent>)
        requires
            old(self).wf(),
        ensures
            final(self).wf(),
            old(self).model().events.len() == 0 ==> r is None && final(self).model() == old(self).model(),
            old(self).model().events.len() > 0 ==> r == Some(old(self).model().events[0])
                && final(self).model() == (TransferModel { events: old(self).model().events.drop_first(), ..old(self).model() }),
            final(self).role() == old(self).role(),
            final(self).retry_limit() == old(self).retry_limit(),
    {
        let r = self.outgoing_event_queue.pop_front();
        assert(old(self).model().events.len() > 0 ==> self.outgoing_event_queue@ =~= old(self).model().events.drop_first());
        r
    }
}

/// A block travels intact: when a receiver that waits for a length byte
/// gets exactly the bytes a sender writes for a block of valid length, it
/// starts collecting that many bytes, then hands up that block, writes ACK
/// and goes idle.
pub proof fn lemma_block_crosses_the_wire(m: TransferModel, b: BlockView)
    requires
        block_header_fits(b.0),
        b.1.len() <= 244,
        m.phase == TransferPhase::RecvLength,
        m.input == block_wire(b),
    ensures
        ({
            let m1 = receive_step(m).0;
            let m2 = receive_step(m1).0;
            &&& m1.phase == TransferPhase::RecvData((10 + b.1.len()) as u8, Seq::empty())
            &&& m1.input == block_frame(b)
            &&& m2.received == m.received.push(b)
            &&& m2.output == m.output.push(handshake_byte(Secs1HandshakeCode::ACK))
            &&& m2.phase == TransferPhase::Idle
            &&& m2.input.len() == 0
            &&& m2.events == m.events
        }),
{
    let len: int = 10 + b.1.len() as int;
    assert(m.input[0] == block_length_byte(b));
    assert(m.input.drop_first() =~= block_frame(b));
    let m1 = receive_step(m).0;
    assert(m1.phase == TransferPhase::RecvData(len as u8, Seq::empty()));
    let body = block_header_bytes(b.0) + b.1;
    let sum = (byte_sum(body) % 0x1_0000) as u16;
    crate::secs1_block::lemma_block_header_round_trip(b.0);
    crate::bytes::lemma_be16_of_u16(sum);
    let full = Seq::<u8>::empty() + m1.input.take(len + 2);
    assert(full =~= block_frame(b));
    assert(full.take(len) =~= body);
    assert(full[len] == u16_be(sum)[0]);
    assert(full[len + 1] == u16_be(sum)[1]);
    assert(checksum_ok(full, len));
    assert(body.take(10) =~= block_header_bytes(b.0));
    assert(body.skip(10) =~= b.1);
    assert(collected_block(full, len) == b);
    assert(m1.input.skip(len + 2).len() == 0);
}

/// The active side never yields line control: while it waits for EOT, no
/// byte sends it to receive.
pub proof fn lemma_active_never_yields(m: TransferModel, max_retry: u8)
    requires
        m.phase == TransferPhase::LineWait,
    ensures
        transfer_step(m, ConnectionRole::Active, max_retry).0.phase != TransferPhase::RecvLength,
{
    lemma_find_first_bounds(m.input, line_pred(ConnectionRole::Active));
}

/// A failed attempt below the retry limit starts line control over and
/// reports the new count; the attempt that reaches past the limit drops the
/// block with a T2 timeout failure and resets the count.
pub proof fn lemma_retry_limit(m: TransferModel, max_retry: u8)
    requires
        m.retry <= max_retry,
        m.to_send.len() > 0,
    ensures
        m.retry < max_retry ==> {
            let r = retrigger(m, max_retry);
            &&& r.phase == TransferPhase::LineBeforeEnq
            &&& r.retry == m.retry + 1
            &&& r.to_send == m.to_send
            &&& r.events == m.events.push(Secs1BlockTransferEvent::Retry((m.retry + 1) as u8))
        },
        m.retry == max_retry ==> {
            let r = retrigger(m, max_retry);
            &&& r.phase == TransferPhase::Idle
            &&& r.retry == 0
            &&& r.to_send == m.to_send.drop_first()
            &&& r.events == m.events.push(
                Secs1BlockTransferEvent::SendFailed {
                    header: m.to_send[0].0,
                    error: SecsTransportError::Timeout(SecsTimeoutUnit::T2),
                },
            )
        },
        !retrigger(m, max_retry).timers.dom().contains(SecsTimeoutUnit::T2),
{
}

/// Idle with nothing to send writes nothing and stays idle until an ENQ
/// arrives: bytes other than ENQ are discarded.
pub proof fn lemma_idle_waits_for_enq(m: TransferModel)
    requires
        m.phase == TransferPhase::Idle,
        m.to_send.len() == 0,
        forall|j: int| 0 <= j < m.input.len() ==> m.input[j] != 0x05,
    ensures
        idle_step(m).0 == (TransferModel { input: Seq::empty(), ..m }),
        !idle_step(m).1,
{
    lemma_find_first(m.input, enq_pred(), m.input.len() as int);
}

impl Secs1BlockTransferMachine {
    /// The retry count never passes the retry limit.
    pub proof fn lemma_retry_bounded(&self)
        requires
            self.wf(),
        ensures
            self.model().retry <= self.retry_limit(),
    {
    }
}

} // verus!
