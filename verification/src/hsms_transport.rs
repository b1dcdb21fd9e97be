//! The HSMS transport: a session, a message machine and a byte stream put
//! together. Control messages the session asks for become HSMS messages,
//! runtime messages become data messages and back, session effects open and
//! close the stream, and expired timers are routed to their owner.
use vstd::prelude::*;

use crate::common::{
    is_primary_function, owner_for, ConnectionRole, FunctionId, SecsTimeoutUnit, SessionId,
    SystemByte, SystemByteSource, TimeoutId, TimeoutTicket, TransactionKey, TransferContext,
};
use crate::hsms::{
    control_message_header, data_header, frame_bytes, message_fits, header_need_reply, header_stream, HsmsControl, HsmsHeader,
    HsmsMessage, HsmsSType, HsmsTransportConfig,
};
use crate::hsms_assembler::{assemble, message_views};
use crate::hsms_machine::{timeout_step, HsmsMachineModel, HsmsMessageEvent, HsmsMessageMachine};
use crate::hsms_session::{
    lemma_not_connected_ignores, session_step, Transition, HsmsConnectionState, HsmsSession, HsmsSessionEffect, HsmsSessionSignal,
};
use crate::hsms_transaction::HsmsMessageSignal;
use crate::time::TimeoutManager;
use std::collections::VecDeque;
use crate::runtime::{
    next_in_range, ByteDataSourceError, LinkDataSource, MachineError, RuntimeMessage, Secs2Message,
    TimeoutConfig,
};

verus! {

/// The HSMS message that carries a control message. A Reject.req keeps the
/// system byte of the message it rejects; the others take the next system
/// byte of `sb_source`.
pub fn control_to_message(control: HsmsControl, sb_source: &mut SystemByteSource) -> (r: HsmsMessage)
    requires
        old(sb_source).wf(),
    ensures
        final(sb_source).wf(),
        r.header == control_message_header(control, SystemByte(old(sb_source).next_value())),
        r.payload is None,
        final(sb_source).min_value() == old(sb_source).min_value(),
        final(sb_source).max_value() == old(sb_source).max_value(),
        control is RejectReq ==> final(sb_source).next_value() == old(sb_source).next_value(),
        !(control is RejectReq) ==> final(sb_source).next_value() == if old(sb_source).next_value()
            == old(sb_source).max_value() {
            old(sb_source).min_value()
        } else {
            (old(sb_source).next_value() + 1) as u32
        },
{
    let ghost first = old(sb_source).next_value();
    let system_byte = match control {
        HsmsControl::RejectReq(_, _, system_byte) => system_byte,
        _ => sb_source.next_system_byte(),
    };
    let header = control.to_header(system_byte);
    assert(header == control_message_header(control, SystemByte(first)));
    HsmsMessage::new(header, None)
}

/// The data message that carries a runtime message in session `session_id`.
pub fn runtime_to_message(session_id: SessionId, msg: RuntimeMessage) -> (r: HsmsMessage)
    ensures
        r.header == data_header(
            session_id,
            msg.payload.stream,
            msg.payload.function,
            msg.payload.need_reply,
            msg.transaction_key.system_byte,
        ),
        r.payload == msg.payload.body,
{
    let system_byte = msg.system_byte();
    let payload = msg.into_payload();
    let header = HsmsHeader::data(session_id, payload.stream, payload.function, payload.need_reply, system_byte);
    HsmsMessage::new(header, payload.body)
}

/// The runtime message that a received data message stands for; its
/// transaction is ours when it is a reply and the peer's when a primary.
pub fn message_to_runtime(msg: HsmsMessage) -> (r: RuntimeMessage)
    ensures
        r.payload.stream == header_stream(msg.header),
        r.payload.function == FunctionId(msg.header.byte3),
        r.payload.need_reply == header_need_reply(msg.header),
        r.payload.body == msg.payload,
        r.transaction_key == (TransactionKey {
            owner: owner_for(TransferContext::Recv, is_primary_function(FunctionId(msg.header.byte3))),
            system_byte: msg.header.system_byte,
        }),
{
    let header = msg.header;
    let payload = Secs2Message::new(header.stream(), header.function(), header.need_reply(), msg.payload);
    let key = TransactionKey::from(TransferContext::Recv, header.function().is_primary(), header.system_byte);
    RuntimeMessage::new(key, payload)
}

/// A runtime message sent as a data message and read back keeps its stream,
/// function, reply flag, text and system byte; its transaction is seen from
/// the receiving side.
pub proof fn lemma_runtime_message_round_trip(session_id: SessionId, msg: RuntimeMessage)
    requires
        msg.payload.stream.0 < 128,
    ensures
        ({
            let h = data_header(
                session_id,
                msg.payload.stream,
                msg.payload.function,
                msg.payload.need_reply,
                msg.transaction_key.system_byte,
            );
            &&& header_stream(h) == msg.payload.stream
            &&& FunctionId(h.byte3) == msg.payload.function
            &&& header_need_reply(h) == msg.payload.need_reply
            &&& h.system_byte == msg.transaction_key.system_byte
        }),
{
    crate::hsms::lemma_data_header_fields(
        session_id,
        msg.payload.stream,
        msg.payload.function,
        msg.payload.need_reply,
        msg.transaction_key.system_byte,
    );
}

/// The part of the HSMS transport that an expired timer belongs to.
#[derive(Debug, Clone, Copy, PartialEq, Eq, Structural)]
pub enum HsmsTimerOwner {
    /// The reply timer T3 of a transaction.
    Machine,
    /// The session timers T5, T6 and T7.
    Session,
    /// T8 stops a partial frame and concerns the session too.
    Both,
}

/// Who handles an expired timer; the SECS-I timers and T4 have no place in
/// HSMS.
pub fn timer_owner(unit: SecsTimeoutUnit) -> (r: Result<HsmsTimerOwner, MachineError>)
    ensures
        r == match unit {
            SecsTimeoutUnit::T3(_) => Ok::<HsmsTimerOwner, MachineError>(HsmsTimerOwner::Machine),
            SecsTimeoutUnit::T5 | SecsTimeoutUnit::T6 | SecsTimeoutUnit::T7 => Ok(HsmsTimerOwner::Session),
            SecsTimeoutUnit::T8 => Ok(HsmsTimerOwner::Both),
            _ => Err(MachineError::InvalidTimeout),
        },
{
    match unit {
        SecsTimeoutUnit::T3(_) => Ok(HsmsTimerOwner::Machine),
        SecsTimeoutUnit::T5 | SecsTimeoutUnit::T6 | SecsTimeoutUnit::T7 => Ok(HsmsTimerOwner::Session),
        SecsTimeoutUnit::T8 => Ok(HsmsTimerOwner::Both),
        _ => Err(MachineError::InvalidTimeout),
    }
}

/// The data message to send for `msg`, when the session allows data
/// messages (it is selected); else `InvalidState`.
pub fn outgoing_data_message(session: &HsmsSession, session_id: SessionId, msg: RuntimeMessage) -> (r: Result<
    HsmsMessage,
    MachineError,
>)
    ensures
        session.state == HsmsConnectionState::Selected ==> (r matches Ok(m) && m.header == data_header(
            session_id,
            msg.payload.stream,
            msg.payload.function,
            msg.payload.need_reply,
            msg.transaction_key.system_byte,
        ) && m.payload == msg.payload.body),
        session.state != HsmsConnectionState::Selected ==> r == Err::<HsmsMessage, MachineError>(
            MachineError::InvalidState,
        ),
{
    let m = runtime_to_message(session_id, msg);
    if !session.is_allowed(&m.header) {
        return Err(MachineError::InvalidState);
    }
    Ok(m)
}

/// The timer lengths, in milliseconds, that an HSMS link runs with: its
/// configured T3, T5 to T8; the SECS-I timers T1 and T2 take T3's length and
/// T4 takes T8's.
pub fn hsms_timeout_config(config: &HsmsTransportConfig) -> (r: TimeoutConfig<u64>)
    ensures
        r == (TimeoutConfig {
            t1: config.t3_timeout,
            t2: config.t3_timeout,
            t3: config.t3_timeout,
            t4: config.t8_timeout,
            t5: config.t5_timeout,
            t6: config.t6_timeout,
            t7: config.t7_timeout,
            t8: config.t8_timeout,
        }),
{
    TimeoutConfig {
        t1: config.t3_timeout,
        t2: config.t3_timeout,
        t3: config.t3_timeout,
        t4: config.t8_timeout,
        t5: config.t5_timeout,
        t6: config.t6_timeout,
        t7: config.t7_timeout,
        t8: config.t8_timeout,
    }
}

/// A framed message waiting to be written, and the header it carries.
pub struct HsmsWrite {
    pub header: HsmsHeader,
    pub bytes: Vec<u8>,
}

/// How far a session effect can lead: opening the link leads to the
/// `Connected` signal, closing it to `Disconnected` and perhaps to reopening.
pub open spec fn effect_rank(e: HsmsSessionEffect) -> nat {
    match e {
        HsmsSessionEffect::Disconnect => 2,
        HsmsSessionEffect::Connect => 1,
        _ => 0,
    }
}

/// Every effect in `es` ranks below `level`.
pub open spec fn ranked_below(es: Seq<HsmsSessionEffect>, level: nat) -> bool {
    forall|i: int| 0 <= i < es.len() ==> effect_rank(#[trigger] es[i]) < level
}

/// A queued message, as the contracts see it.
pub type MessageView = (HsmsHeader, Option<Seq<u8>>);

/// What the session effects other than opening and closing the stream act
/// on: the queued messages, the session timers with the id of the next
/// ticket, the timers reported to the host, and the system bytes.
#[verifier::ext_equal]
pub struct LinkQueues {
    pub pending: Seq<MessageView>,
    pub timers: Map<SecsTimeoutUnit, TimeoutTicket>,
    pub next_id: u64,
    pub timeouts: Seq<TimeoutTicket>,
    pub next_byte: u32,
    pub byte_range: (u32, u32),
}

/// One effect on the queues: a control message is queued under the next
/// system byte (a Reject.req under its own), a timer starts with a fresh
/// ticket that is also reported, or a timer stops.
pub open spec fn queue_effect(q: LinkQueues, e: HsmsSessionEffect) -> LinkQueues {
    match e {
        HsmsSessionEffect::SendControl(c) => LinkQueues {
            pending: q.pending.push((control_message_header(c, SystemByte(q.next_byte)), None)),
            next_byte: if c is RejectReq {
                q.next_byte
            } else {
                next_in_range(q.next_byte, q.byte_range)
            },
            ..q
        },
        HsmsSessionEffect::StartTimeout(u) => {
            let t = TimeoutTicket { id: TimeoutId(q.next_id), timeout: u };
            LinkQueues {
                timers: q.timers.insert(u, t),
                next_id: ((q.next_id as int + 1) % 0x1_0000_0000_0000_0000) as u64,
                timeouts: q.timeouts.push(t),
                ..q
            }
        },
        HsmsSessionEffect::ClearTimeout(u) => LinkQueues { timers: q.timers.remove(u), ..q },
        _ => q,
    }
}

/// Effects on the queues, in order.
pub open spec fn queue_effects(q: LinkQueues, es: Seq<HsmsSessionEffect>) -> LinkQueues
    decreases es.len(),
{
    if es.len() == 0 {
        q
    } else {
        queue_effect(queue_effects(q, es.drop_last()), es.last())
    }
}

/// What opening and closing the stream act on: the session's state,
/// whether it may connect, and the queues.
#[verifier::ext_equal]
pub struct LinkView {
    pub state: HsmsConnectionState,
    pub can_connect: bool,
    pub queues: LinkQueues,
}

/// The session takes a transition: its state, its permission to connect,
/// and the queues after its effects.
pub open spec fn after_transition(before: LinkView, t: Transition) -> LinkView {
    LinkView { state: t.state, can_connect: t.can_connect, queues: queue_effects(before.queues, t.effects) }
}

/// Opening the stream: it fails with `InvalidState` and nothing changes, or
/// it opens and the session takes the `Connected` signal.
pub open spec fn open_outcome(role: ConnectionRole, before: LinkView, after: LinkView, r: Result<(), MachineError>) -> bool {
    ||| r == Err::<(), MachineError>(MachineError::InvalidState) && after == before
    ||| r is Ok && after == after_transition(
        before,
        session_step(role, before.state, before.can_connect, HsmsSessionSignal::Connected),
    )
}

/// Closing the stream: it fails with `InvalidState` and nothing changes, or
/// it closes and the session takes the `Disconnected` signal; the passive
/// side then opens the stream again to wait for the next peer, which a
/// session that was not connected and may not connect refuses.
pub open spec fn close_outcome(role: ConnectionRole, before: LinkView, after: LinkView, r: Result<(), MachineError>) -> bool {
    let t = session_step(role, before.state, before.can_connect, HsmsSessionSignal::Disconnected);
    ||| r == Err::<(), MachineError>(MachineError::InvalidState) && after == before
    ||| role == ConnectionRole::Active && r is Ok && after == after_transition(before, t)
    ||| role == ConnectionRole::Passive && open_outcome(
        role,
        LinkView { state: t.state, can_connect: t.can_connect, queues: before.queues },
        after,
        r,
    ) && (before.state == HsmsConnectionState::NotConnected && !before.can_connect ==> r is Err)
}

/// A close among effects comes only from a connected session, with only
/// queue changes before it.
pub open spec fn closes_when_connected(state: HsmsConnectionState, es: Seq<HsmsSessionEffect>) -> bool {
    forall|i: int|
        0 <= i < es.len() && #[trigger] es[i] == HsmsSessionEffect::Disconnect ==> state
            != HsmsConnectionState::NotConnected && ranked_below(es.take(i), 1)
}

/// What carrying out one session effect leaves.
pub open spec fn effect_outcome(
    role: ConnectionRole,
    before: LinkView,
    e: HsmsSessionEffect,
    after: LinkView,
    r: Result<(), MachineError>,
) -> bool {
    match e {
        HsmsSessionEffect::Connect => open_outcome(role, before, after, r),
        HsmsSessionEffect::Disconnect => close_outcome(role, before, after, r),
        _ => r is Ok && after == LinkView { queues: queue_effect(before.queues, e), ..before },
    }
}

/// The session takes a transition and its effects are carried out: with
/// no effect it simply moves; else the effects before the last leave only
/// queue changes and the last one is carried out.
pub open spec fn signal_outcome(
    role: ConnectionRole,
    before: LinkView,
    t: Transition,
    after: LinkView,
    r: Result<(), MachineError>,
) -> bool {
    if t.effects.len() == 0 {
        r is Ok && after == after_transition(before, t)
    } else {
        effect_outcome(
            role,
            LinkView { state: t.state, can_connect: t.can_connect, queues: queue_effects(before.queues, t.effects.drop_last()) },
            t.effects.last(),
            after,
            r,
        )
    }
}

/// What moving the queues along can do to the link: it fails only with
/// `InvalidState` or `InvalidMessage`, reported timers stay reported, a
/// link that is not connected stays so, and on success nothing is left
/// queued for the machine.
pub open spec fn settled(before: LinkView, after: LinkView, r: Result<(), MachineError>) -> bool {
    &&& r is Ok || r == Err::<(), MachineError>(MachineError::InvalidState) || r == Err::<(), MachineError>(
        MachineError::InvalidMessage,
    )
    &&& before.queues.timeouts.is_prefix_of(after.queues.timeouts)
    &&& before.state == HsmsConnectionState::NotConnected ==> after.state == HsmsConnectionState::NotConnected
    &&& r is Ok ==> after.queues.pending.len() == 0
}

/// An expired timer `u` reaches the session: the session takes the
/// `Timeout` signal; if carrying it out fails, that is the answer, else
/// the queues move along.
pub open spec fn timeout_routed(
    role: ConnectionRole,
    before: LinkView,
    u: SecsTimeoutUnit,
    after: LinkView,
    r: Result<(), MachineError>,
) -> bool {
    exists|mid: LinkView, r1: Result<(), MachineError>| {
        &&& #[trigger] signal_outcome(
            role,
            before,
            session_step(role, before.state, before.can_connect, HsmsSessionSignal::Timeout(u)),
            mid,
            r1,
        )
        &&& r1 is Err ==> r == r1 && after == mid
        &&& r1 is Ok ==> settled(mid, after, r)
    }
}

/// `after` is `before` with only control messages added behind it.
pub open spec fn grows_by_controls(before: Seq<MessageView>, after: Seq<MessageView>) -> bool {
    &&& before.is_prefix_of(after)
    &&& forall|i: int| before.len() <= i < after.len() ==> (#[trigger] after[i]).0.stype != HsmsSType::DataMessage
}

proof fn lemma_grows_trans(a: Seq<MessageView>, b: Seq<MessageView>, c: Seq<MessageView>)
    requires
        grows_by_controls(a, b),
        grows_by_controls(b, c),
    ensures
        grows_by_controls(a, c),
{
    assert(a =~= c.subrange(0, a.len() as int)) by {
        assert forall|i: int| 0 <= i < a.len() implies a[i] == c[i] by {
            assert(a[i] == b.subrange(0, a.len() as int)[i]);
            assert(b[i] == c.subrange(0, b.len() as int)[i]);
        }
    }
    assert forall|i: int| a.len() <= i < c.len() implies (#[trigger] c[i]).0.stype != HsmsSType::DataMessage by {
        if i < b.len() {
            assert(b[i] == c.subrange(0, b.len() as int)[i]);
            assert(b[i].0.stype != HsmsSType::DataMessage);
        }
    }
}

proof fn lemma_prefix_refl<T>(a: Seq<T>)
    ensures
        a.is_prefix_of(a),
{
    assert(a =~= a.subrange(0, a.len() as int));
}

proof fn lemma_prefix_append<T>(a: Seq<T>, c: Seq<T>)
    ensures
        a.is_prefix_of(a + c),
{
    assert(a =~= (a + c).subrange(0, a.len() as int));
}

proof fn lemma_prefix_trans<T>(a: Seq<T>, b: Seq<T>, c: Seq<T>)
    requires
        a.is_prefix_of(b),
        b.is_prefix_of(c),
    ensures
        a.is_prefix_of(c),
{
    assert(a =~= c.subrange(0, a.len() as int)) by {
        assert forall|i: int| 0 <= i < a.len() implies a[i] == c[i] by {
            assert(a[i] == b.subrange(0, a.len() as int)[i]);
            assert(b[i] == c.subrange(0, b.len() as int)[i]);
        }
    }
}

proof fn lemma_grows_refl(a: Seq<MessageView>)
    ensures
        grows_by_controls(a, a),
{
    assert(a =~= a.subrange(0, a.len() as int));
}

/// The frames written for queued messages, in order, each with its
/// header; a message too long for a frame gets none.
pub open spec fn frames(s: Seq<MessageView>) -> Seq<(HsmsHeader, Seq<u8>)>
    decreases s.len(),
{
    if s.len() == 0 {
        Seq::empty()
    } else if message_fits(s.last()) {
        frames(s.drop_last()).push((s.last().0, frame_bytes(s.last())))
    } else {
        frames(s.drop_last())
    }
}

/// The bytes of each frame in a list of frames with their headers.
pub open spec fn frame_list(ws: Seq<(HsmsHeader, Seq<u8>)>) -> Seq<Seq<u8>> {
    ws.map_values(|w: (HsmsHeader, Seq<u8>)| w.1)
}

/// The frames taken by a stream that had taken `written`, after it took
/// the first `k` of `queued`.
pub open spec fn written_after(written: Seq<Seq<u8>>, queued: Seq<(HsmsHeader, Seq<u8>)>, k: int) -> Seq<Seq<u8>> {
    written + frame_list(queued.take(k))
}

/// The data messages of a sequence of messages, in order.
pub open spec fn data_only(s: Seq<MessageView>) -> Seq<MessageView>
    decreases s.len(),
{
    if s.len() == 0 {
        Seq::empty()
    } else if s.last().0.stype == HsmsSType::DataMessage {
        data_only(s.drop_last()).push(s.last())
    } else {
        data_only(s.drop_last())
    }
}

/// `after` is `before` with only data messages added behind it.
pub open spec fn grows_by_data(before: Seq<MessageView>, after: Seq<MessageView>) -> bool {
    &&& before.is_prefix_of(after)
    &&& forall|i: int| before.len() <= i < after.len() ==> (#[trigger] after[i]).0.stype == HsmsSType::DataMessage
}

proof fn lemma_grows_data_trans(a: Seq<MessageView>, b: Seq<MessageView>, c: Seq<MessageView>)
    requires
        grows_by_data(a, b),
        grows_by_data(b, c),
    ensures
        grows_by_data(a, c),
{
    assert(a =~= c.subrange(0, a.len() as int)) by {
        assert forall|i: int| 0 <= i < a.len() implies a[i] == c[i] by {
            assert(a[i] == b.subrange(0, a.len() as int)[i]);
            assert(b[i] == c.subrange(0, b.len() as int)[i]);
        }
    }
    assert forall|i: int| a.len() <= i < c.len() implies (#[trigger] c[i]).0.stype == HsmsSType::DataMessage by {
        if i < b.len() {
            assert(b[i] == c.subrange(0, b.len() as int)[i]);
            assert(b[i].0.stype == HsmsSType::DataMessage);
        }
    }
}

proof fn lemma_grows_data_refl(a: Seq<MessageView>)
    ensures
        grows_by_data(a, a),
{
    assert(a =~= a.subrange(0, a.len() as int));
}

proof fn lemma_data_only_grows(a: Seq<MessageView>, s: Seq<MessageView>)
    ensures
        grows_by_data(a, a + data_only(s)),
    decreases s.len(),
{
    assert(a =~= (a + data_only(s)).subrange(0, a.len() as int));
    if s.len() > 0 {
        lemma_data_only_grows(a, s.drop_last());
        assert forall|i: int| a.len() <= i < (a + data_only(s)).len() implies (#[trigger] (a + data_only(s))[i]).0.stype
            == HsmsSType::DataMessage by {
            if i < (a + data_only(s.drop_last())).len() {
                assert((a + data_only(s))[i] == (a + data_only(s.drop_last()))[i]);
            }
        }
    }
}

/// An HSMS link: the session, the message machine, and the byte stream
/// under them. Session effects open and close the stream and queue control
/// messages; data messages go through the machine; timers are reported to
/// the host and routed back by their unit.
pub struct HsmsTransport<D> {
    session: HsmsSession,
    machine: HsmsMessageMachine,
    data_source: D,
    pending_messages: VecDeque<HsmsMessage>,
    pending_writes: VecDeque<HsmsWrite>,
    outgoing_messages: VecDeque<HsmsMessage>,
    outgoing_timeouts: VecDeque<TimeoutTicket>,
    timeout_manager: TimeoutManager,
    sb_source: SystemByteSource,
    session_id: SessionId,
    /// The frames the stream took, in order.
    written: Ghost<Seq<Seq<u8>>>,
    /// The bytes read from the stream and handed to the machine, in order.
    fed: Ghost<Seq<u8>>,
    /// How often the stream failed to open, close, read or write.
    failures: Ghost<nat>,
    /// How often the machine reported an error or a received control
    /// message named no control.
    faults: Ghost<nat>,
}

impl<D: LinkDataSource> HsmsTransport<D> {
    pub closed spec fn wf(&self) -> bool {
        &&& self.machine.wf()
        &&& self.timeout_manager.wf()
        &&& self.sb_source.wf()
        &&& self.session.wf()
        &&& self.machine.pending_bytes().len() == 0
    }

    /// The state of the session.
    pub closed spec fn session_state(&self) -> HsmsConnectionState {
        self.session.state
    }

    /// The side of the link.
    pub closed spec fn role(&self) -> ConnectionRole {
        self.session.role
    }

    /// Messages queued for the machine, control messages among them.
    pub closed spec fn pending(&self) -> Seq<(HsmsHeader, Option<Seq<u8>>)> {
        message_views(self.pending_messages@)
    }

    /// Received data messages not yet taken.
    pub closed spec fn inbox(&self) -> Seq<(HsmsHeader, Option<Seq<u8>>)> {
        message_views(self.outgoing_messages@)
    }

    /// Started timers not yet reported.
    pub closed spec fn timeouts(&self) -> Seq<TimeoutTicket> {
        self.outgoing_timeouts@
    }

    /// Live session timers.
    pub closed spec fn session_timers(&self) -> Map<SecsTimeoutUnit, TimeoutTicket> {
        self.timeout_manager.active_tickets()
    }

    /// Whether `ticket` is the live ticket of its timer: T3 and T8 are the
    /// machine's, the others the link's.
    pub closed spec fn ticket_live(&self, ticket: TimeoutTicket) -> bool {
        match ticket.timeout {
            SecsTimeoutUnit::T3(_) | SecsTimeoutUnit::T8 => self.machine.model().timers.dom().contains(ticket.timeout)
                && self.machine.model().timers[ticket.timeout] == ticket,
            _ => self.timeout_manager.spec_is_active(ticket),
        }
    }

    /// The message machine's bookkeeping.
    pub closed spec fn machine_model(&self) -> HsmsMachineModel {
        self.machine.model()
    }

    /// Messages the machine assembled and the link has not taken yet.
    pub closed spec fn unread(&self) -> Seq<MessageView> {
        self.machine.received()
    }

    /// Framed messages waiting to be written, each with its header.
    pub closed spec fn writes(&self) -> Seq<(HsmsHeader, Seq<u8>)> {
        self.pending_writes@.map_values(|w: HsmsWrite| (w.header, w.bytes@))
    }

    /// The frames the stream took, in order.
    pub closed spec fn written(&self) -> Seq<Seq<u8>> {
        self.written@
    }

    /// The bytes read from the stream and handed to the machine, in order.
    pub closed spec fn fed(&self) -> Seq<u8> {
        self.fed@
    }

    /// How often the stream failed to open, close, read or write.
    pub closed spec fn stream_failures(&self) -> nat {
        self.failures@
    }

    /// How often the machine reported an error or a received control
    /// message named no control.
    pub closed spec fn message_faults(&self) -> nat {
        self.faults@
    }

    /// Bytes of a frame not yet complete.
    pub closed spec fn partial_frame(&self) -> Seq<u8> {
        self.machine.partial_frame()
    }

    /// What was written to and read from the stream.
    pub closed spec fn logs(&self) -> (Seq<Seq<u8>>, Seq<u8>) {
        (self.written@, self.fed@)
    }

    /// What opening and closing the stream act on.
    pub closed spec fn link(&self) -> LinkView {
        LinkView { state: self.session.state, can_connect: self.session.can_connect, queues: self.queues() }
    }

    /// The queues that session effects act on.
    pub closed spec fn queues(&self) -> LinkQueues {
        LinkQueues {
            pending: self.pending(),
            timers: self.timeout_manager.active_tickets(),
            next_id: self.timeout_manager.next_id(),
            timeouts: self.outgoing_timeouts@,
            next_byte: self.sb_source.next_value(),
            byte_range: (self.sb_source.min_value(), self.sb_source.max_value()),
        }
    }

    /// The session the link's data messages carry.
    pub closed spec fn spec_session_id(&self) -> SessionId {
        self.session_id
    }

    /// The system byte the next control message gets.
    pub closed spec fn next_system_byte(&self) -> u32 {
        self.sb_source.next_value()
    }

    pub fn new(config: &HsmsTransportConfig, data_source: D, sb_source: SystemByteSource) -> (r: HsmsTransport<D>)
        requires
            sb_source.wf(),
        ensures
            r.wf(),
            r.session_state() == HsmsConnectionState::NotConnected,
            r.role() == config.connection_mode,
            r.pending() == Seq::<(HsmsHeader, Option<Seq<u8>>)>::empty(),
            r.inbox() == Seq::<(HsmsHeader, Option<Seq<u8>>)>::empty(),
            r.timeouts() == Seq::<TimeoutTicket>::empty(),
            r.session_timers() == Map::<SecsTimeoutUnit, TimeoutTicket>::empty(),
            r.next_system_byte() == sb_source.next_value(),
    {
        let r = HsmsTransport {
            session: HsmsSession::new(config.session_id, config.connection_mode),
            machine: HsmsMessageMachine::new(config),
            data_source,
            pending_messages: VecDeque::new(),
            pending_writes: VecDeque::new(),
            outgoing_messages: VecDeque::new(),
            outgoing_timeouts: VecDeque::new(),
            timeout_manager: TimeoutManager::new(),
            sb_source,
            session_id: config.session_id,
            written: Ghost(Seq::empty()),
            fed: Ghost(Seq::empty()),
            failures: Ghost(0),
            faults: Ghost(0),
        };
        assert(r.pending() =~= Seq::<(HsmsHeader, Option<Seq<u8>>)>::empty());
        assert(r.inbox() =~= Seq::<(HsmsHeader, Option<Seq<u8>>)>::empty());
        r
    }

    /// Carries out one session effect: open or close the stream (reporting
    /// the outcome to the session, and on the passive side opening it again
    /// after a close, unless the session already did), queue a control
    /// message, or start or stop a session timer.
    fn handle_effect(&mut self, effect: HsmsSessionEffect) -> (r: Result<(), MachineError>)
        requires
            old(self).wf(),
        ensures
            final(self).message_faults() == old(self).message_faults(),
            r is Err && (effect == HsmsSessionEffect::Disconnect ==> old(self).link().state
                != HsmsConnectionState::NotConnected) ==> old(self).stream_failures() < final(self).stream_failures(),
            old(self).stream_failures() <= final(self).stream_failures(),
            final(self).logs() == old(self).logs(),
            final(self).wf(),
            final(self).role() == old(self).role(),
            final(self).machine == old(self).machine,
            final(self).pending_writes == old(self).pending_writes,
            final(self).outgoing_messages == old(self).outgoing_messages,
            r is Ok || r == Err::<(), MachineError>(MachineError::InvalidState),
            grows_by_controls(old(self).pending(), final(self).pending()),
            old(self).timeouts().is_prefix_of(final(self).timeouts()),
            effect_rank(effect) == 0 ==> r is Ok && final(self).session == old(self).session && final(self).queues()
                == queue_effect(old(self).queues(), effect),
            effect_outcome(old(self).role(), old(self).link(), effect, final(self).link(), r),
        decreases effect_rank(effect), 3nat,
    {
        match effect {
            HsmsSessionEffect::Connect => {
                let opened = self.data_source.open();
                self.handle_open_result(opened)
            },
            HsmsSessionEffect::Disconnect => {
                let closed = self.data_source.close();
                self.handle_close_result(closed)
            },
            HsmsSessionEffect::SendControl(control) => {
                let msg = control_to_message(control, &mut self.sb_source);
                let ghost v = msg@;
                self.pending_messages.push_back(msg);
                assert(self.pending() =~= old(self).pending().push(v));
                assert(old(self).pending() =~= self.pending().subrange(0, old(self).pending().len() as int));
                assert(self.queues() =~= queue_effect(old(self).queues(), effect));
                assert(self.link() =~= LinkView { queues: queue_effect(old(self).queues(), effect), ..old(self).link() });
                assert(old(self).timeouts() =~= self.timeouts().subrange(0, old(self).timeouts().len() as int));
                Ok(())
            },
            HsmsSessionEffect::StartTimeout(timeout) => {
                let ticket = self.timeout_manager.issue(timeout);
                self.outgoing_timeouts.push_back(ticket);
                proof {
                    lemma_grows_refl(self.pending());
                }
                assert(self.queues() =~= queue_effect(old(self).queues(), effect));
                assert(self.link() =~= LinkView { queues: queue_effect(old(self).queues(), effect), ..old(self).link() });
                assert(old(self).timeouts() =~= self.timeouts().subrange(0, old(self).timeouts().len() as int));
                Ok(())
            },
            HsmsSessionEffect::ClearTimeout(timeout) => {
                self.timeout_manager.cancel(timeout);
                proof {
                    lemma_grows_refl(self.pending());
                }
                assert(self.queues() =~= queue_effect(old(self).queues(), effect));
                assert(self.link() =~= LinkView { queues: queue_effect(old(self).queues(), effect), ..old(self).link() });
                assert(old(self).timeouts() =~= self.timeouts().subrange(0, old(self).timeouts().len() as int));
                Ok(())
            },
        }
    }

    /// What follows an attempt to open the stream: on success the session
    /// takes the `Connected` signal; a failure is `InvalidState` and changes
    /// nothing.
    fn handle_open_result(&mut self, opened: Result<(), ByteDataSourceError>) -> (r: Result<(), MachineError>)
        requires
            old(self).wf(),
        ensures
            final(self).message_faults() == old(self).message_faults(),
            r is Err ==> old(self).stream_failures() < final(self).stream_failures(),
            old(self).stream_failures() <= final(self).stream_failures(),
            final(self).logs() == old(self).logs(),
            final(self).wf(),
            final(self).role() == old(self).role(),
            final(self).machine == old(self).machine,
            final(self).pending_writes == old(self).pending_writes,
            final(self).outgoing_messages == old(self).outgoing_messages,
            grows_by_controls(old(self).pending(), final(self).pending()),
            old(self).timeouts().is_prefix_of(final(self).timeouts()),
            opened is Ok ==> r is Ok && final(self).link() == after_transition(
                old(self).link(),
                session_step(old(self).role(), old(self).link().state, old(self).link().can_connect, HsmsSessionSignal::Connected),
            ),
            opened is Err ==> r == Err::<(), MachineError>(MachineError::InvalidState) && final(self).link()
                == old(self).link(),
        decreases 1nat, 2nat,
    {
        match opened {
            Ok(()) => {
                proof {
                    lemma_link_effects_settle(self.session.role, self.session.state, self.session.can_connect);
                }
                let r = self.handle_session_signal(HsmsSessionSignal::Connected, Ghost(1));
                assert(self.link() =~= after_transition(
                    old(self).link(),
                    session_step(old(self).role(), old(self).link().state, old(self).link().can_connect, HsmsSessionSignal::Connected),
                ));
                r
            },
            Err(_) => {
                self.failures = Ghost(self.failures@ + 1);
                proof {
                    lemma_grows_refl(self.pending());
                    lemma_prefix_refl(self.timeouts());
                }
                assert(self.link() =~= old(self).link());
                Err(MachineError::InvalidState)
            },
        }
    }

    /// What follows an attempt to close the stream: on success the session
    /// takes the `Disconnected` signal, and a passive side that is left not
    /// connected opens the stream again to wait for the next peer; a failure
    /// is `InvalidState` and changes nothing.
    fn handle_close_result(&mut self, closed: Result<(), ByteDataSourceError>) -> (r: Result<(), MachineError>)
        requires
            old(self).wf(),
        ensures
            final(self).message_faults() == old(self).message_faults(),
            r is Err && old(self).link().state != HsmsConnectionState::NotConnected ==> old(self).stream_failures()
                < final(self).stream_failures(),
            old(self).stream_failures() <= final(self).stream_failures(),
            final(self).logs() == old(self).logs(),
            final(self).wf(),
            final(self).role() == old(self).role(),
            final(self).machine == old(self).machine,
            final(self).pending_writes == old(self).pending_writes,
            final(self).outgoing_messages == old(self).outgoing_messages,
            r is Ok || r == Err::<(), MachineError>(MachineError::InvalidState),
            grows_by_controls(old(self).pending(), final(self).pending()),
            old(self).timeouts().is_prefix_of(final(self).timeouts()),
            closed is Err ==> r == Err::<(), MachineError>(MachineError::InvalidState) && final(self).link()
                == old(self).link(),
            closed is Ok ==> ({
                let t = session_step(old(self).role(), old(self).link().state, old(self).link().can_connect, HsmsSessionSignal::Disconnected);
                &&& old(self).role() == ConnectionRole::Active ==> r is Ok && final(self).link() == after_transition(old(self).link(), t)
                &&& old(self).role() == ConnectionRole::Passive ==> open_outcome(
                    old(self).role(),
                    LinkView { state: t.state, can_connect: t.can_connect, queues: old(self).queues() },
                    final(self).link(),
                    r,
                )
                &&& old(self).role() == ConnectionRole::Passive && old(self).link().state == HsmsConnectionState::NotConnected
                    && !old(self).link().can_connect ==> r is Err
            }),
            close_outcome(old(self).role(), old(self).link(), final(self).link(), r),
        decreases 2nat, 2nat,
    {
        match closed {
            Ok(()) => {
                let ghost before = self.pending();
                let ghost t = session_step(self.session.role, self.session.state, self.session.can_connect, HsmsSessionSignal::Disconnected);
                proof {
                    lemma_link_effects_settle(self.session.role, self.session.state, self.session.can_connect);
                    lemma_disconnected_effects(self.session.role, self.session.state, self.session.can_connect);
                }
                let r1 = self.handle_session_signal(HsmsSessionSignal::Disconnected, Ghost(2));
                proof {
                    if t.effects.len() == 0 {
                        assert(self.link() =~= after_transition(old(self).link(), t));
                    } else if self.session.role == ConnectionRole::Active {
                        assert(self.link() =~= after_transition(old(self).link(), t));
                    } else {
                        assert(t.effects.drop_last() =~= Seq::<HsmsSessionEffect>::empty());
                        assert(old(self).queues() == queue_effects(old(self).queues(), t.effects.drop_last()));
                    }
                }
                match r1 {
                    Ok(()) => {},
                    Err(e) => {
                        return Err(e);
                    },
                }
                if self.session.is_passive() && self.session.state.is_not_connected() {
                    let ghost middle = self.pending();
                    let ghost mid_link = self.link();
                    let effects = match self.session.connect() {
                        Ok(effects) => effects,
                        Err(_) => {
                            proof {
                                lemma_grows_trans(before, middle, self.pending());
                            }
                            assert(self.link() =~= mid_link);
                            return Err(MachineError::InvalidState);
                        },
                    };
                    assert(effects@ =~= seq![HsmsSessionEffect::Connect]);
                    let r = self.handle_effects(effects, Ghost(2));
                    proof {
                        lemma_grows_trans(before, middle, self.pending());
                        assert(effects@.drop_last() =~= Seq::<HsmsSessionEffect>::empty());
                        assert(mid_link.queues == queue_effects(mid_link.queues, effects@.drop_last()));
                    }
                    r
                } else {
                    Ok(())
                }
            },
            Err(_) => {
                self.failures = Ghost(self.failures@ + 1);
                proof {
                    lemma_grows_refl(self.pending());
                    lemma_prefix_refl(self.timeouts());
                }
                assert(self.link() =~= old(self).link());
                Err(MachineError::InvalidState)
            },
        }
    }

    /// Carries out effects in order, stopping at the first failure.
    fn handle_effects(&mut self, effects: Vec<HsmsSessionEffect>, Ghost(level): Ghost<nat>) -> (r: Result<(), MachineError>)
        requires
            old(self).wf(),
            ranked_below(effects@, level),
        ensures
            final(self).message_faults() == old(self).message_faults(),
            r is Err && closes_when_connected(old(self).link().state, effects@) ==> old(self).stream_failures()
                < final(self).stream_failures(),
            old(self).stream_failures() <= final(self).stream_failures(),
            final(self).logs() == old(self).logs(),
            final(self).wf(),
            final(self).role() == old(self).role(),
            final(self).machine == old(self).machine,
            final(self).pending_writes == old(self).pending_writes,
            final(self).outgoing_messages == old(self).outgoing_messages,
            r is Ok || r == Err::<(), MachineError>(MachineError::InvalidState),
            grows_by_controls(old(self).pending(), final(self).pending()),
            old(self).timeouts().is_prefix_of(final(self).timeouts()),
            ranked_below(effects@, 1) ==> r is Ok && final(self).session == old(self).session && final(self).queues()
                == queue_effects(old(self).queues(), effects@),
            effects@.len() > 0 && ranked_below(effects@.drop_last(), 1) ==> effect_outcome(
                old(self).role(),
                LinkView { queues: queue_effects(old(self).queues(), effects@.drop_last()), ..old(self).link() },
                effects@.last(),
                final(self).link(),
                r,
            ),
        decreases level, 0nat,
    {
        let mut i: usize = 0;
        proof {
            assert(effects@.take(0) =~= Seq::<HsmsSessionEffect>::empty());
            lemma_prefix_refl(self.timeouts());
        }
        while i < effects.len()
            invariant
                self.message_faults() == old(self).message_faults(),
                old(self).stream_failures() <= self.stream_failures(),
                self.logs() == old(self).logs(),
                self.wf(),
                self.role() == old(self).role(),
                ranked_below(effects@, level),
                i <= effects@.len(),
                self.machine == old(self).machine,
                self.pending_writes == old(self).pending_writes,
                self.outgoing_messages == old(self).outgoing_messages,
                grows_by_controls(old(self).pending(), self.pending()),
                old(self).timeouts().is_prefix_of(self.timeouts()),
                ranked_below(effects@.take(i as int), 1) ==> self.session == old(self).session && self.queues()
                    == queue_effects(old(self).queues(), effects@.take(i as int)),
                i > 0 && ranked_below(effects@.take(i - 1), 1) ==> effect_outcome(
                    old(self).role(),
                    LinkView { queues: queue_effects(old(self).queues(), effects@.take(i - 1)), ..old(self).link() },
                    effects@[i - 1],
                    self.link(),
                    Ok(()),
                ),
            decreases effects@.len() - i,
        {
            let e = effects[i];
            assert(effect_rank(effects@[i as int]) < level);
            let ghost before = self.pending();
            let ghost before_t = self.timeouts();
            let ghost before_link = self.link();
            proof {
                if ranked_below(effects@.take(i as int), 1) {
                    assert(before_link =~= LinkView { queues: queue_effects(old(self).queues(), effects@.take(i as int)), ..old(self).link() });
                }
            }
            match self.handle_effect(e) {
                Ok(()) => {},
                Err(err) => {
                    proof {
                        lemma_grows_trans(old(self).pending(), before, self.pending());
                        lemma_prefix_trans(old(self).timeouts(), before_t, self.timeouts());
                        if effects@.len() > 0 && ranked_below(effects@.drop_last(), 1) {
                            if (i as int) < effects@.len() - 1 {
                                assert(effects@.drop_last()[i as int] == effects@[i as int]);
                                assert(effect_rank(effects@[i as int]) < 1);
                            }
                            assert(i as int == effects@.len() - 1);
                            assert(effects@.take(i as int) =~= effects@.drop_last());
                            assert forall|k: int| 0 <= k < effects@.take(i as int).len() implies effect_rank(
                                #[trigger] effects@.take(i as int)[k],
                            ) < 1 by {
                                assert(effects@.take(i as int)[k] == effects@.drop_last()[k]);
                            }
                        }
                    }
                    return Err(err);
                },
            }
            proof {
                lemma_grows_trans(old(self).pending(), before, self.pending());
                lemma_prefix_trans(old(self).timeouts(), before_t, self.timeouts());
                assert(effects@.take(i as int + 1).drop_last() =~= effects@.take(i as int));
                assert(effects@.take(i as int + 1).last() == effects@[i as int]);
                if ranked_below(effects@.take(i as int + 1), 1) {
                    assert(effects@.take(i as int + 1)[i as int] == effects@[i as int]);
                    assert forall|k: int| 0 <= k < effects@.take(i as int).len() implies effect_rank(
                        #[trigger] effects@.take(i as int)[k],
                    ) < 1 by {
                        assert(effects@.take(i as int)[k] == effects@.take(i as int + 1)[k]);
                    }
                }
                assert(effects@.take(i as int + 1 - 1) =~= effects@.take(i as int));
            }
            i = i + 1;
        }
        proof {
            if i == 0 {
                lemma_grows_refl(self.pending());
            }
            assert(effects@.take(i as int) =~= effects@);
            if effects@.len() > 0 {
                assert(effects@.take(i - 1) =~= effects@.drop_last());
            }
        }
        Ok(())
    }

    /// Hands a signal to the session and carries out the effects it asks for.
    fn handle_session_signal(&mut self, signal: HsmsSessionSignal, Ghost(level): Ghost<nat>) -> (r: Result<(), MachineError>)
        requires
            old(self).wf(),
            ranked_below(
                session_step(old(self).session.role, old(self).session.state, old(self).session.can_connect, signal).effects,
                level,
            ),
        ensures
            final(self).message_faults() == old(self).message_faults(),
            r is Err ==> old(self).stream_failures() < final(self).stream_failures(),
            old(self).stream_failures() <= final(self).stream_failures(),
            final(self).logs() == old(self).logs(),
            final(self).wf(),
            final(self).role() == old(self).role(),
            final(self).machine == old(self).machine,
            final(self).pending_writes == old(self).pending_writes,
            final(self).outgoing_messages == old(self).outgoing_messages,
            r is Ok || r == Err::<(), MachineError>(MachineError::InvalidState),
            grows_by_controls(old(self).pending(), final(self).pending()),
            old(self).timeouts().is_prefix_of(final(self).timeouts()),
            ({
                let t = session_step(old(self).session.role, old(self).session.state, old(self).session.can_connect, signal);
                &&& ranked_below(t.effects, 1) ==> r is Ok && final(self).session.state == t.state
                    && final(self).session.can_connect == t.can_connect && final(self).queues() == queue_effects(
                    old(self).queues(),
                    t.effects,
                )
                &&& t.effects.len() > 0 && ranked_below(t.effects.drop_last(), 1) ==> effect_outcome(
                    old(self).role(),
                    LinkView {
                        state: t.state,
                        can_connect: t.can_connect,
                        queues: queue_effects(old(self).queues(), t.effects.drop_last()),
                    },
                    t.effects.last(),
                    final(self).link(),
                    r,
                )
            }),
        decreases level, 1nat,
    {
        match self.session.handle(signal) {
            Ok(effects) => {
                assert(effects@ =~= session_step(old(self).session.role, old(self).session.state, old(self).session.can_connect, signal).effects);
                self.handle_effects(effects, Ghost(level))
            },
            Err(_) => {
                proof {
                    lemma_grows_refl(self.pending());
                    lemma_prefix_refl(self.timeouts());
                }
                Err(MachineError::InvalidState)
            },
        }
    }
}

impl<D: LinkDataSource> HsmsTransport<D> {
    /// Reports the machine's started timers to the host, in order, and takes
    /// the machine's events: an error event fails with `InvalidMessage`,
    /// leaving the events behind it; the others are dropped.
    fn handle_machine_events(&mut self) -> (r: Result<(), MachineError>)
        requires
            old(self).wf(),
        ensures
            r is Ok ==> final(self).message_faults() == old(self).message_faults(),
            r == Err::<(), MachineError>(MachineError::InvalidMessage) ==> old(self).message_faults() < final(self).message_faults(),
            old(self).message_faults() <= final(self).message_faults(),
            final(self).stream_failures() == old(self).stream_failures(),
            final(self).logs() == old(self).logs(),
            final(self).wf(),
            final(self).role() == old(self).role(),
            final(self).session_state() == old(self).session_state(),
            final(self).pending() == old(self).pending(),
            final(self).inbox() == old(self).inbox(),
            final(self).session == old(self).session,
            final(self).pending_messages == old(self).pending_messages,
            final(self).pending_writes == old(self).pending_writes,
            final(self).outgoing_messages == old(self).outgoing_messages,
            final(self).timeout_manager == old(self).timeout_manager,
            final(self).sb_source == old(self).sb_source,
            final(self).data_source == old(self).data_source,
            r is Ok || r == Err::<(), MachineError>(MachineError::InvalidMessage),
            final(self).timeouts() == old(self).timeouts() + old(self).machine.model().timeouts,
            final(self).machine.model() == (HsmsMachineModel {
                timeouts: Seq::empty(),
                events: final(self).machine.model().events,
                ..old(self).machine.model()
            }),
            final(self).machine.received() == old(self).machine.received(),
            final(self).machine.pending_bytes() == old(self).machine.pending_bytes(),
            final(self).machine.partial_frame() == old(self).machine.partial_frame(),
            final(self).machine.unhandled() == old(self).machine.unhandled(),
            (forall|i: int| 0 <= i < old(self).machine.model().events.len()
                ==> !(#[trigger] old(self).machine.model().events[i] is ErrorOccured)) <==> r is Ok,
            r is Ok ==> final(self).machine.model().events.len() == 0,
            r is Err ==> exists|k: int| {
                &&& 0 <= k < old(self).machine.model().events.len()
                &&& #[trigger] old(self).machine.model().events[k] is ErrorOccured
                &&& forall|j: int| 0 <= j < k ==> !(#[trigger] old(self).machine.model().events[j] is ErrorOccured)
                &&& final(self).machine.model().events == old(self).machine.model().events.skip(k + 1)
            },
    {
        let ghost m0 = self.machine.model();
        let ghost t0 = self.outgoing_timeouts@;
        let ghost mut k: int = 0;
        assert(m0.timeouts.skip(0) =~= m0.timeouts);
        assert(t0 + m0.timeouts.take(0) =~= t0);
        loop
            invariant
                self.message_faults() == old(self).message_faults(),
                self.stream_failures() == old(self).stream_failures(),
                self.logs() == old(self).logs(),
                self.wf(),
                self.session == old(self).session,
                self.pending_messages == old(self).pending_messages,
                self.pending_writes == old(self).pending_writes,
                self.outgoing_messages == old(self).outgoing_messages,
                self.timeout_manager == old(self).timeout_manager,
                self.sb_source == old(self).sb_source,
                self.data_source == old(self).data_source,
                m0 == old(self).machine.model(),
                t0 == old(self).timeouts(),
                0 <= k <= m0.timeouts.len(),
                self.outgoing_timeouts@ == t0 + m0.timeouts.take(k),
                self.machine.model() == (HsmsMachineModel { timeouts: m0.timeouts.skip(k), ..m0 }),
                self.machine.received() == old(self).machine.received(),
                self.machine.pending_bytes() == old(self).machine.pending_bytes(),
                self.machine.partial_frame() == old(self).machine.partial_frame(),
                self.machine.unhandled() == old(self).machine.unhandled(),
            ensures
                self.message_faults() == old(self).message_faults(),
                self.stream_failures() == old(self).stream_failures(),
                self.logs() == old(self).logs(),
                self.wf(),
                self.session == old(self).session,
                self.pending_messages == old(self).pending_messages,
                self.pending_writes == old(self).pending_writes,
                self.outgoing_messages == old(self).outgoing_messages,
                self.timeout_manager == old(self).timeout_manager,
                self.sb_source == old(self).sb_source,
                self.data_source == old(self).data_source,
                self.outgoing_timeouts@ == t0 + m0.timeouts,
                self.machine.model() == (HsmsMachineModel { timeouts: Seq::empty(), ..m0 }),
                self.machine.received() == old(self).machine.received(),
                self.machine.pending_bytes() == old(self).machine.pending_bytes(),
                self.machine.partial_frame() == old(self).machine.partial_frame(),
                self.machine.unhandled() == old(self).machine.unhandled(),
            decreases self.machine.model().timeouts.len(),
        {
            match self.machine.poll_timeout() {
                Some(ticket) => {
                    self.outgoing_timeouts.push_back(ticket);
                    proof {
                        assert(m0.timeouts.take(k + 1) =~= m0.timeouts.take(k).push(m0.timeouts[k]));
                        assert(m0.timeouts.skip(k).drop_first() =~= m0.timeouts.skip(k + 1));
                        k = k + 1;
                    }
                },
                None => {
                    assert(m0.timeouts.take(k) =~= m0.timeouts);
                    assert(m0.timeouts.skip(k) =~= Seq::<TimeoutTicket>::empty());
                    assert(self.machine.model() == (HsmsMachineModel { timeouts: Seq::empty(), ..m0 }));
                    break;
                },
            }
        }
        let ghost mut e: int = 0;
        assert(m0.events.skip(0) =~= m0.events);
        loop
            invariant
                self.message_faults() == old(self).message_faults(),
                self.stream_failures() == old(self).stream_failures(),
                self.logs() == old(self).logs(),
                self.wf(),
                self.session == old(self).session,
                self.pending_messages == old(self).pending_messages,
                self.pending_writes == old(self).pending_writes,
                self.outgoing_messages == old(self).outgoing_messages,
                self.timeout_manager == old(self).timeout_manager,
                self.sb_source == old(self).sb_source,
                self.data_source == old(self).data_source,
                m0 == old(self).machine.model(),
                self.outgoing_timeouts@ == t0 + m0.timeouts,
                t0 == old(self).timeouts(),
                0 <= e <= m0.events.len(),
                forall|j: int| 0 <= j < e ==> !(#[trigger] m0.events[j] is ErrorOccured),
                self.machine.model() == (HsmsMachineModel { timeouts: Seq::empty(), events: m0.events.skip(e), ..m0 }),
                self.machine.received() == old(self).machine.received(),
                self.machine.pending_bytes() == old(self).machine.pending_bytes(),
                self.machine.partial_frame() == old(self).machine.partial_frame(),
                self.machine.unhandled() == old(self).machine.unhandled(),
            ensures
                self.message_faults() == old(self).message_faults(),
                self.stream_failures() == old(self).stream_failures(),
                self.logs() == old(self).logs(),
                self.wf(),
                self.session == old(self).session,
                self.pending_messages == old(self).pending_messages,
                self.pending_writes == old(self).pending_writes,
                self.outgoing_messages == old(self).outgoing_messages,
                self.timeout_manager == old(self).timeout_manager,
                self.sb_source == old(self).sb_source,
                self.data_source == old(self).data_source,
                self.outgoing_timeouts@ == t0 + m0.timeouts,
                forall|j: int| 0 <= j < m0.events.len() ==> !(#[trigger] m0.events[j] is ErrorOccured),
                self.machine.model() == (HsmsMachineModel { timeouts: Seq::empty(), events: Seq::empty(), ..m0 }),
                self.machine.received() == old(self).machine.received(),
                self.machine.pending_bytes() == old(self).machine.pending_bytes(),
                self.machine.partial_frame() == old(self).machine.partial_frame(),
                self.machine.unhandled() == old(self).machine.unhandled(),
            decreases self.machine.model().events.len(),
        {
            let ev = self.machine.poll_event();
            proof {
                if e < m0.events.len() {
                    assert(m0.events.skip(e).drop_first() =~= m0.events.skip(e + 1));
                }
            }
            match ev {
                Some(HsmsMessageEvent::ErrorOccured(err)) => {
                    self.faults = Ghost(self.faults@ + 1);
                    assert(m0.events[e] is ErrorOccured);
                    return Err(MachineError::InvalidMessage);
                },
                Some(_) => {
                    proof {
                        e = e + 1;
                    }
                },
                None => {
                    assert(m0.events.skip(e) =~= Seq::<HsmsMessageEvent>::empty());
                    assert(self.machine.model() == (HsmsMachineModel { timeouts: Seq::empty(), events: Seq::empty(), ..m0 }));
                    break;
                },
            }
        }
        Ok(())
    }

    /// Takes the machine's received messages: control messages go to the
    /// session, data messages to the inbox. A control message that names no
    /// control fails with `InvalidMessage`, and one the session refuses with
    /// `InvalidState`; the messages behind it stay with the machine.
    fn process_received_messages(&mut self) -> (r: Result<(), MachineError>)
        requires
            old(self).wf(),
        ensures
            r == Err::<(), MachineError>(MachineError::InvalidMessage) ==> old(self).message_faults() < final(self).message_faults(),
            old(self).message_faults() <= final(self).message_faults(),
            r == Err::<(), MachineError>(MachineError::InvalidState) ==> old(self).stream_failures() < final(self).stream_failures(),
            old(self).stream_failures() <= final(self).stream_failures(),
            final(self).partial_frame() == old(self).partial_frame(),
            final(self).logs() == old(self).logs(),
            final(self).wf(),
            final(self).role() == old(self).role(),
            r is Ok || r == Err::<(), MachineError>(MachineError::InvalidState) || r == Err::<(), MachineError>(
                MachineError::InvalidMessage,
            ),
            final(self).machine.model() == old(self).machine.model(),
            final(self).pending_writes == old(self).pending_writes,
            grows_by_controls(old(self).pending(), final(self).pending()),
            exists|n: int| {
                &&& 0 <= n <= old(self).machine.received().len()
                &&& final(self).machine.received() == old(self).machine.received().skip(n)
                &&& final(self).inbox() == old(self).inbox() + data_only(old(self).machine.received().take(n))
                &&& r is Ok ==> n == old(self).machine.received().len()
            },
            (forall|i: int| 0 <= i < old(self).machine.received().len()
                ==> (#[trigger] old(self).machine.received()[i]).0.stype == HsmsSType::DataMessage) ==> r is Ok
                && final(self).session == old(self).session && final(self).pending() == old(self).pending(),
            grows_by_data(old(self).inbox(), final(self).inbox()),
            old(self).timeouts().is_prefix_of(final(self).timeouts()),
            old(self).session_state() == HsmsConnectionState::NotConnected ==> final(self).session_state()
                == HsmsConnectionState::NotConnected,
    {
        let ghost rec = self.machine.received();
        let ghost mut n: int = 0;
        proof {
            lemma_grows_refl(self.pending());
            lemma_prefix_refl(self.timeouts());
            assert(rec.skip(0) =~= rec);
            assert(rec.take(0) =~= Seq::<MessageView>::empty());
            assert(old(self).inbox() + data_only(rec.take(0)) =~= old(self).inbox());
        }
        loop
            invariant
                old(self).message_faults() <= self.message_faults(),
                old(self).stream_failures() <= self.stream_failures(),
                self.logs() == old(self).logs(),
                self.partial_frame() == old(self).partial_frame(),
                self.wf(),
                self.role() == old(self).role(),
                rec == old(self).machine.received(),
                self.machine.model() == old(self).machine.model(),
                self.pending_writes == old(self).pending_writes,
                grows_by_controls(old(self).pending(), self.pending()),
                old(self).timeouts().is_prefix_of(self.timeouts()),
                old(self).session_state() == HsmsConnectionState::NotConnected ==> self.session_state()
                    == HsmsConnectionState::NotConnected,
                0 <= n <= rec.len(),
                self.machine.received() == rec.skip(n),
                self.inbox() == old(self).inbox() + data_only(rec.take(n)),
                (forall|i: int| 0 <= i < rec.len() ==> (#[trigger] rec[i]).0.stype == HsmsSType::DataMessage)
                    ==> self.session == old(self).session && self.pending() == old(self).pending(),
            ensures
                old(self).message_faults() <= self.message_faults(),
                old(self).stream_failures() <= self.stream_failures(),
                self.logs() == old(self).logs(),
                self.partial_frame() == old(self).partial_frame(),
                self.wf(),
                self.role() == old(self).role(),
                self.machine.model() == old(self).machine.model(),
                self.pending_writes == old(self).pending_writes,
                grows_by_controls(old(self).pending(), self.pending()),
                old(self).timeouts().is_prefix_of(self.timeouts()),
                old(self).session_state() == HsmsConnectionState::NotConnected ==> self.session_state()
                    == HsmsConnectionState::NotConnected,
                self.machine.received() == Seq::<MessageView>::empty(),
                self.inbox() == old(self).inbox() + data_only(rec),
                (forall|i: int| 0 <= i < rec.len() ==> (#[trigger] rec[i]).0.stype == HsmsSType::DataMessage)
                    ==> self.session == old(self).session && self.pending() == old(self).pending(),
            decreases self.machine.received().len(),
        {
            let ghost before = self.pending();
            let ghost before_t = self.timeouts();
            match self.machine.poll_read() {
                Some(msg) => {
                    proof {
                        assert(rec.skip(n)[0] == rec[n]);
                        assert(rec.skip(n).drop_first() =~= rec.skip(n + 1));
                        assert(rec.take(n + 1).drop_last() =~= rec.take(n));
                        assert(rec.take(n + 1).last() == rec[n]);
                    }
                    if msg.is_control() {
                        let control = match HsmsControl::from_header(&msg.header) {
                            Ok(c) => c,
                            Err(_) => {
                                proof {
                                    assert(rec.take(n + 1) == rec.take(n).push(rec[n]));
                                    assert(old(self).inbox() + data_only(rec.take(n + 1)) =~= self.inbox());
                                    assert(self.machine.received() == rec.skip(n + 1));
                                    lemma_data_only_grows(old(self).inbox(), rec.take(n + 1));
                                }
                                self.faults = Ghost(self.faults@ + 1);
                                return Err(MachineError::InvalidMessage);
                            },
                        };
                        proof {
                            lemma_not_connected_ignores(self.session.role, self.session.can_connect, HsmsSessionSignal::RecvControl(control));
                        }
                        match self.handle_session_signal(HsmsSessionSignal::RecvControl(control), Ghost(3)) {
                            Ok(()) => {},
                            Err(e) => {
                                proof {
                                    lemma_grows_trans(old(self).pending(), before, self.pending());
                                    assert(old(self).inbox() + data_only(rec.take(n + 1)) =~= self.inbox());
                                    lemma_data_only_grows(old(self).inbox(), rec.take(n + 1));
                                    lemma_prefix_trans(old(self).timeouts(), before_t, self.timeouts());
                                }
                                return Err(e);
                            },
                        }
                        proof {
                            lemma_grows_trans(old(self).pending(), before, self.pending());
                            lemma_prefix_trans(old(self).timeouts(), before_t, self.timeouts());
                            assert(old(self).inbox() + data_only(rec.take(n + 1)) =~= self.inbox());
                        }
                    } else {
                        let ghost v = msg@;
                        let ghost mid = self.inbox();
                        self.outgoing_messages.push_back(msg);
                        proof {
                            assert(v == rec[n]);
                            assert(data_only(rec.take(n + 1)) == data_only(rec.take(n)).push(v));
                            assert(self.inbox() =~= mid.push(v));
                            assert(self.inbox() =~= old(self).inbox() + data_only(rec.take(n + 1)));
                        }
                    }
                    proof {
                        n = n + 1;
                    }
                },
                None => {
                    proof {
                        assert(rec.take(n) =~= rec);
                    }
                    break;
                },
            }
        }
        proof {
            lemma_data_only_grows(old(self).inbox(), rec);
        }
        Ok(())
    }

    /// Hands queued messages to the machine and keeps the frame of each,
    /// with its header, for writing.
    fn process_pending_messages(&mut self) -> (r: Result<(), MachineError>)
        requires
            old(self).wf(),
        ensures
            r == Err::<(), MachineError>(MachineError::InvalidMessage) ==> old(self).message_faults() < final(self).message_faults(),
            old(self).message_faults() <= final(self).message_faults(),
            final(self).stream_failures() == old(self).stream_failures(),
            final(self).partial_frame() == old(self).partial_frame(),
            final(self).logs() == old(self).logs(),
            final(self).wf(),
            final(self).role() == old(self).role(),
            final(self).session_state() == old(self).session_state(),
            final(self).link().can_connect == old(self).link().can_connect,
            final(self).inbox() == old(self).inbox(),
            final(self).unread() == old(self).unread(),
            old(self).timeouts().is_prefix_of(final(self).timeouts()),
            r is Ok || r == Err::<(), MachineError>(MachineError::InvalidMessage),
            exists|n: int| {
                &&& 0 <= n <= old(self).pending().len()
                &&& final(self).pending() == old(self).pending().skip(n)
                &&& final(self).writes() == old(self).writes() + frames(old(self).pending().take(n))
                &&& r is Ok ==> n == old(self).pending().len()
            },
            r is Ok ==> final(self).pending().len() == 0 && final(self).writes() == old(self).writes() + frames(
                old(self).pending(),
            ),
            old(self).pending().len() == 0 ==> r is Ok && final(self).machine == old(self).machine
                && final(self).pending_writes == old(self).pending_writes,
    {
        let ghost p0 = self.pending();
        let ghost w0 = self.writes();
        let ghost mut n: int = 0;
        proof {
            lemma_prefix_refl(self.timeouts());
            assert(p0.skip(0) =~= p0);
            assert(p0.take(0) =~= Seq::<MessageView>::empty());
            assert(w0 + frames(p0.take(0)) =~= w0);
        }
        loop
            invariant
                old(self).message_faults() <= self.message_faults(),
                self.stream_failures() == old(self).stream_failures(),
                self.logs() == old(self).logs(),
                self.partial_frame() == old(self).partial_frame(),
                self.wf(),
                self.role() == old(self).role(),
                self.session == old(self).session,
                self.inbox() == old(self).inbox(),
                self.unread() == old(self).unread(),
                old(self).timeouts().is_prefix_of(self.timeouts()),
                p0 == old(self).pending(),
                w0 == old(self).writes(),
                0 <= n <= p0.len(),
                self.pending() == p0.skip(n),
                self.writes() == w0 + frames(p0.take(n)),
                n == 0 ==> self.machine == old(self).machine && self.pending_writes == old(self).pending_writes,
            ensures
                old(self).message_faults() <= self.message_faults(),
                self.stream_failures() == old(self).stream_failures(),
                self.logs() == old(self).logs(),
                self.partial_frame() == old(self).partial_frame(),
                self.wf(),
                self.role() == old(self).role(),
                self.session == old(self).session,
                self.inbox() == old(self).inbox(),
                self.unread() == old(self).unread(),
                old(self).timeouts().is_prefix_of(self.timeouts()),
                n == p0.len(),
                self.pending() == p0.skip(n),
                self.writes() == w0 + frames(p0.take(n)),
                n == 0 ==> self.machine == old(self).machine && self.pending_writes == old(self).pending_writes,
            decreases self.pending_messages@.len(),
        {
            match self.pending_messages.pop_front() {
                Some(msg) => {
                    let ghost v = msg@;
                    proof {
                        assert(p0.skip(n)[0] == p0[n]);
                        assert(v == p0[n]);
                        assert(p0.skip(n).drop_first() =~= p0.skip(n + 1));
                        assert(self.pending() =~= p0.skip(n + 1));
                        assert(p0.take(n + 1).drop_last() =~= p0.take(n));
                        assert(p0.take(n + 1).last() == p0[n]);
                    }
                    let header = msg.header;
                    match self.machine.handle_write(msg) {
                        Ok(()) => {},
                        Err(_) => {
                            return Err(MachineError::EncodeFailed);
                        },
                    }
                    let ghost wbefore = self.pending_writes@;
                    match self.machine.poll_write() {
                        Some(bytes) => {
                            let ghost b = bytes@;
                            let ghost wprev = self.writes();
                            proof {
                                assert(message_fits(v));
                                assert(Seq::<u8>::empty() + frame_bytes(v) =~= frame_bytes(v));
                                assert(b == frame_bytes(v));
                            }
                            self.pending_writes.push_back(HsmsWrite { header, bytes });
                            proof {
                                assert(self.pending_writes@ == wbefore.push(self.pending_writes@.last()));
                                assert(self.writes() =~= wprev.push((header, b)));
                                assert(header == v.0);
                                assert(self.writes() =~= w0 + frames(p0.take(n)).push((v.0, b)));
                            }
                        },
                        None => {
                            proof {
                                if message_fits(v) {
                                    assert(frame_bytes(v).len() > 0);
                                }
                            }
                        },
                    }
                    proof {
                        n = n + 1;
                        assert(self.writes() =~= w0 + frames(p0.take(n)));
                    }
                    let ghost before_t = self.timeouts();
                    let ghost mt = self.machine.model().timeouts;
                    let r1 = self.handle_machine_events();
                    proof {
                        lemma_prefix_append(before_t, mt);
                        lemma_prefix_trans(old(self).timeouts(), before_t, self.timeouts());
                    }
                    match r1 {
                        Ok(()) => {},
                        Err(e) => {
                            return Err(e);
                        },
                    }
                },
                None => {
                    proof {
                        assert(p0.skip(n).len() == 0);
                    }
                    break;
                },
            }
        }
        assert(self.pending() =~= Seq::<(HsmsHeader, Option<Seq<u8>>)>::empty());
        assert(p0.take(n) =~= p0);
        Ok(())
    }

    /// Writes the framed messages in order, telling the machine of each
    /// success. A stream that cannot take bytes now keeps the rest for later;
    /// a failed write fails the message, loses the connection, and reports
    /// `InvalidState`.
    fn flush_writes(&mut self) -> (r: Result<(), MachineError>)
        requires
            old(self).wf(),
        ensures
            r == Err::<(), MachineError>(MachineError::InvalidMessage) ==> old(self).message_faults() < final(self).message_faults(),
            old(self).message_faults() <= final(self).message_faults(),
            r == Err::<(), MachineError>(MachineError::InvalidState) ==> old(self).stream_failures() < final(self).stream_failures(),
            old(self).stream_failures() <= final(self).stream_failures(),
            final(self).fed() == old(self).fed(),
            final(self).partial_frame() == old(self).partial_frame(),
            final(self).wf(),
            final(self).role() == old(self).role(),
            r is Ok || r == Err::<(), MachineError>(MachineError::InvalidState) || r == Err::<(), MachineError>(
                MachineError::InvalidMessage,
            ),
            grows_by_controls(old(self).pending(), final(self).pending()),
            final(self).inbox() == old(self).inbox(),
            old(self).timeouts().is_prefix_of(final(self).timeouts()),
            old(self).session_state() == HsmsConnectionState::NotConnected ==> final(self).session_state()
                == HsmsConnectionState::NotConnected,
            exists|n: int|
                0 <= n <= old(self).pending_writes@.len() && #[trigger] final(self).pending_writes@
                    == old(self).pending_writes@.skip(n),
            r is Ok ==> final(self).session == old(self).session && final(self).pending() == old(self).pending(),
            old(self).pending_writes@.len() == 0 ==> r is Ok && final(self).machine == old(self).machine
                && final(self).data_source == old(self).data_source && final(self).timeouts() == old(self).timeouts()
                && final(self).written() == old(self).written(),
            exists|k: int| {
                &&& 0 <= k <= old(self).writes().len()
                &&& #[trigger] final(self).written() == old(self).written() + frame_list(old(self).writes().take(k))
                &&& final(self).writes() == old(self).writes().skip(k) || (r == Err::<(), MachineError>(
                    MachineError::InvalidState,
                ) && k < old(self).writes().len() && final(self).writes() == old(self).writes().skip(k + 1))
                &&& r is Ok ==> final(self).writes() == old(self).writes().skip(k)
            },
    {
        let ghost v0 = self.writes();
        let ghost w0 = self.pending_writes@;
        let ghost mut n: int = 0;
        proof {
            lemma_grows_refl(self.pending());
            lemma_prefix_refl(self.timeouts());
            assert(w0.skip(0) =~= w0);
            assert(v0.take(0) =~= Seq::<(HsmsHeader, Seq<u8>)>::empty());
            assert(old(self).written() + frame_list(v0.take(0)) =~= old(self).written());
        }
        loop
            invariant
                old(self).message_faults() <= self.message_faults(),
                old(self).stream_failures() <= self.stream_failures(),
                self.fed() == old(self).fed(),
                self.partial_frame() == old(self).partial_frame(),
                self.wf(),
                self.role() == old(self).role(),
                w0 == old(self).pending_writes@,
                v0 == old(self).writes(),
                v0.len() == w0.len(),
                self.written() == old(self).written() + frame_list(v0.take(n)),
                0 <= n <= w0.len(),
                self.pending_writes@ == w0.skip(n),
                self.session == old(self).session,
                self.pending() == old(self).pending(),
                self.inbox() == old(self).inbox(),
                old(self).timeouts().is_prefix_of(self.timeouts()),
                n == 0 ==> self.machine == old(self).machine && self.data_source == old(self).data_source
                    && self.timeouts() == old(self).timeouts() && self.written() == old(self).written(),
            ensures
                old(self).message_faults() <= self.message_faults(),
                old(self).stream_failures() <= self.stream_failures(),
                v0 == old(self).writes(),
                v0.len() == w0.len(),
                self.written() == old(self).written() + frame_list(v0.take(n)),
                self.fed() == old(self).fed(),
                self.partial_frame() == old(self).partial_frame(),
                self.wf(),
                self.role() == old(self).role(),
                0 <= n <= w0.len(),
                self.pending_writes@ == w0.skip(n),
                self.session == old(self).session,
                self.pending() == old(self).pending(),
                self.inbox() == old(self).inbox(),
                old(self).timeouts().is_prefix_of(self.timeouts()),
                w0.len() == 0 ==> self.machine == old(self).machine && self.data_source == old(self).data_source
                    && self.timeouts() == old(self).timeouts() && self.written() == old(self).written(),
            decreases self.pending_writes@.len(),
        {
            match self.pending_writes.pop_front() {
                Some(write) => {
                    proof {
                        assert(w0.skip(n).drop_first() =~= w0.skip(n + 1));
                        assert(w0.skip(n)[0] == w0[n]);
                        assert(v0[n] == (w0[n].header, w0[n].bytes@));
                        assert(v0.take(n + 1).drop_last() =~= v0.take(n));
                        assert(frame_list(v0.take(n + 1)) =~= frame_list(v0.take(n)).push(v0[n].1));
                        n = n + 1;
                    }
                    let header = write.header;
                    match self.data_source.write(write.bytes.as_slice()) {
                        Ok(()) => {
                            self.written = Ghost(self.written@.push(write.bytes@));
                            assert(self.written() =~= old(self).written() + frame_list(v0.take(n)));
                            match self.machine.handle_event(HsmsMessageSignal::SendSuccess(header)) {
                                Ok(()) => {},
                                Err(_) => {
                                    proof {
                                        lemma_grows_refl(self.pending());
                                        assert(self.writes() =~= v0.skip(n));
                                    }
                                    return Err(MachineError::InvalidState);
                                },
                            }
                            let ghost before_t = self.timeouts();
                            let ghost mt = self.machine.model().timeouts;
                            let r1 = self.handle_machine_events();
                            proof {
                                lemma_prefix_append(before_t, mt);
                                lemma_prefix_trans(old(self).timeouts(), before_t, self.timeouts());
                            }
                            match r1 {
                                Ok(()) => {},
                                Err(e) => {
                                    proof {
                                        lemma_grows_refl(self.pending());
                                        assert(self.writes() =~= v0.skip(n));
                                    }
                                    return Err(e);
                                },
                            }
                        },
                        Err(error) => {
                            if error.is_temporary() {
                                self.pending_writes.push_front(write);
                                proof {
                                    assert(self.pending_writes@ =~= w0.skip(n - 1));
                                    lemma_grows_refl(self.pending());
                                    assert(self.writes() =~= v0.skip(n - 1));
                                }
                                return Ok(());
                            }
                            self.failures = Ghost(self.failures@ + 1);
                            let _ = self.machine.handle_event(HsmsMessageSignal::SendFailed(header));
                            let ghost before_t = self.timeouts();
                            proof {
                                lemma_not_connected_ignores(self.session.role, self.session.can_connect, HsmsSessionSignal::Disconnected);
                            }
                            let _ = self.handle_session_signal(HsmsSessionSignal::Disconnected, Ghost(3));
                            proof {
                                lemma_prefix_trans(old(self).timeouts(), before_t, self.timeouts());
                                assert(self.writes() =~= v0.skip(n));
                                assert(frame_list(v0.take(n - 1)) =~= frame_list(v0.take(n)).drop_last());
                            }
                            return Err(MachineError::InvalidState);
                        },
                    }
                },
                None => break,
            }
        }
        proof {
            lemma_grows_refl(self.pending());
            assert(self.writes() =~= v0.skip(n));
        }
        Ok(())
    }

    /// Reads what the stream has. Nothing happens while it is closed or has
    /// nothing now; a lost connection is reported to the session; a failed
    /// read, or a stream that claims more bytes than it was given room for,
    /// loses the connection and reports `InvalidState`. Received bytes go to
    /// the machine, and what it assembled is taken.
    fn poll_source_read(&mut self) -> (r: Result<(), MachineError>)
        requires
            old(self).wf(),
        ensures
            r == Err::<(), MachineError>(MachineError::InvalidMessage) ==> old(self).message_faults() < final(self).message_faults(),
            old(self).message_faults() <= final(self).message_faults(),
            r == Err::<(), MachineError>(MachineError::InvalidState) ==> old(self).stream_failures() < final(self).stream_failures(),
            old(self).stream_failures() <= final(self).stream_failures(),
            final(self).wf(),
            final(self).role() == old(self).role(),
            r is Ok || r == Err::<(), MachineError>(MachineError::InvalidState) || r == Err::<(), MachineError>(
                MachineError::InvalidMessage,
            ) || r == Err::<(), MachineError>(MachineError::DecodeFailed),
            grows_by_controls(old(self).pending(), final(self).pending()),
            grows_by_data(old(self).inbox(), final(self).inbox()),
            final(self).pending_writes == old(self).pending_writes,
            final(self).written() == old(self).written(),
            exists|data: Seq<u8>| {
                &&& final(self).fed() == #[trigger] (old(self).fed() + data)
                &&& data.len() > 0 ==> final(self).partial_frame() == assemble(old(self).partial_frame() + data).1
                &&& r == Err::<(), MachineError>(MachineError::DecodeFailed) ==> data.len() > 0 && assemble(
                    old(self).partial_frame() + data,
                ).2 is Some
            },
    {
        proof {
            assert(old(self).fed() + Seq::<u8>::empty() =~= old(self).fed());
            lemma_grows_refl(self.pending());
            lemma_data_only_grows(self.inbox(), Seq::empty());
            assert(self.inbox() + data_only(Seq::empty()) =~= self.inbox());
        }
        if !self.data_source.is_open() {
            return Ok(());
        }
        let mut buf = [0u8; 4096];
        let len = match self.data_source.read(&mut buf) {
            Ok(len) => len,
            Err(error) => {
                if error.is_temporary() {
                    return Ok(());
                }
                self.failures = Ghost(self.failures@ + 1);
                match error {
                    ByteDataSourceError::Disconnected => {
                        return self.handle_session_signal(HsmsSessionSignal::Disconnected, Ghost(3));
                    },
                    _ => {
                        match self.handle_session_signal(HsmsSessionSignal::Disconnected, Ghost(3)) {
                            Ok(()) => {},
                            Err(e) => {
                                return Err(e);
                            },
                        }
                        return Err(MachineError::InvalidState);
                    },
                }
            },
        };
        if len == 0 {
            return Ok(());
        }
        if len > buf.len() {
            self.failures = Ghost(self.failures@ + 1);
            match self.handle_session_signal(HsmsSessionSignal::Disconnected, Ghost(3)) {
                Ok(()) => {},
                Err(e) => {
                    return Err(e);
                },
            }
            return Err(MachineError::InvalidState);
        }
        let mut data: Vec<u8> = Vec::new();
        let mut i: usize = 0;
        while i < len
            invariant
                i <= len,
                len <= buf@.len(),
                data@ == buf@.take(i as int),
            decreases len - i,
        {
            data.push(buf[i]);
            i = i + 1;
            assert(data@ =~= buf@.take(i as int));
        }
        let ghost pf = self.machine.partial_frame();
        self.fed = Ghost(self.fed@ + data@);
        match self.machine.handle_read(data.as_slice()) {
            Ok(()) => {},
            Err(_) => {
                assert(self.fed() == old(self).fed() + data@);
                return Err(MachineError::DecodeFailed);
            },
        }
        assert(self.fed() == old(self).fed() + data@);
        match self.handle_machine_events() {
            Ok(()) => {},
            Err(e) => {
                return Err(e);
            },
        }
        let ghost i0 = self.inbox();
        let ghost rec = self.machine.received();
        let r = self.process_received_messages();
        proof {
            let n = choose|n: int| {
                &&& 0 <= n <= rec.len()
                &&& self.machine.received() == rec.skip(n)
                &&& self.inbox() == i0 + data_only(rec.take(n))
                &&& r is Ok ==> n == rec.len()
            };
            lemma_data_only_grows(i0, rec.take(n));
        }
        r
    }
}

impl<D: LinkDataSource> HsmsTransport<D> {
    pub closed spec fn spec_data_source(&self) -> D {
        self.data_source
    }

    /// The byte stream under the link.
    pub fn data_source(&self) -> (r: &D)
        ensures
            *r == self.spec_data_source(),
    {
        &self.data_source
    }

    /// The byte stream under the link, to feed or steer it.
    pub fn data_source_mut(&mut self) -> (r: &mut D)
        requires
            old(self).wf(),
        ensures
            *r == old(self).spec_data_source(),
            final(self).spec_data_source() == *final(r),
            final(self).wf(),
            final(self).role() == old(self).role(),
            final(self).session_state() == old(self).session_state(),
            final(self).pending() == old(self).pending(),
            final(self).inbox() == old(self).inbox(),
            final(self).timeouts() == old(self).timeouts(),
            final(self).session_timers() == old(self).session_timers(),
    {
        &mut self.data_source
    }

    /// Whether the session would take a connect request now.
    pub closed spec fn connect_allowed(&self) -> bool {
        self.session.state == HsmsConnectionState::NotConnected && self.session.can_connect
    }

    /// Opens the link: the session asks to connect, and the stream is
    /// opened. A session that is connected, or waits for T5, refuses with
    /// `InvalidState` and nothing changes.
    pub fn start(&mut self) -> (r: Result<(), MachineError>)
        requires
            old(self).wf(),
        ensures
            final(self).wf(),
            final(self).role() == old(self).role(),
            r is Ok || r == Err::<(), MachineError>(MachineError::InvalidState),
            !old(self).connect_allowed() ==> r == Err::<(), MachineError>(MachineError::InvalidState)
                && final(self).link() == old(self).link(),
            old(self).connect_allowed() ==> open_outcome(old(self).role(), old(self).link(), final(self).link(), r),
            final(self).inbox() == old(self).inbox(),
    {
        match self.session.connect() {
            Ok(effects) => {
                assert(effects@ =~= seq![HsmsSessionEffect::Connect]);
                assert(effects@.drop_last() =~= Seq::<HsmsSessionEffect>::empty());
                assert(old(self).link() =~= LinkView {
                    queues: queue_effects(old(self).queues(), effects@.drop_last()),
                    ..old(self).link()
                });
                self.handle_effects(effects, Ghost(2))
            },
            Err(_) => {
                assert(self.link() =~= old(self).link());
                Err(MachineError::InvalidState)
            },
        }
    }

    /// Sends Linktest.req and starts T6; only while selected, else
    /// `InvalidState` and nothing changes.
    pub fn linktest(&mut self) -> (r: Result<(), MachineError>)
        requires
            old(self).wf(),
        ensures
            final(self).wf(),
            final(self).role() == old(self).role(),
            final(self).inbox() == old(self).inbox(),
            old(self).session_state() == HsmsConnectionState::Selected ==> r is Ok && final(self).link() == (LinkView {
                queues: queue_effects(
                    old(self).queues(),
                    seq![
                        HsmsSessionEffect::SendControl(HsmsControl::LinktestReq),
                        HsmsSessionEffect::StartTimeout(SecsTimeoutUnit::T6),
                    ],
                ),
                ..old(self).link()
            }),
            old(self).session_state() != HsmsConnectionState::Selected ==> r == Err::<(), MachineError>(
                MachineError::InvalidState,
            ) && final(self).link() == old(self).link(),
    {
        match self.session.linktest() {
            Ok(effects) => {
                assert(effects@ =~= seq![
                    HsmsSessionEffect::SendControl(HsmsControl::LinktestReq),
                    HsmsSessionEffect::StartTimeout(SecsTimeoutUnit::T6),
                ]);
                let r = self.handle_effects(effects, Ghost(3));
                assert(self.link() =~= LinkView { queues: queue_effects(old(self).queues(), effects@), ..old(self).link() });
                r
            },
            Err(_) => {
                assert(self.link() =~= old(self).link());
                Err(MachineError::InvalidState)
            },
        }
    }

    /// Sends Separate.req and closes the link; only while selected, else
    /// `InvalidState` and nothing changes. The session may not connect
    /// again on request until T5 runs out.
    pub fn separate(&mut self) -> (r: Result<(), MachineError>)
        requires
            old(self).wf(),
        ensures
            final(self).wf(),
            final(self).role() == old(self).role(),
            final(self).inbox() == old(self).inbox(),
            r is Ok || r == Err::<(), MachineError>(MachineError::InvalidState),
            old(self).session_state() == HsmsConnectionState::Selected ==> close_outcome(
                old(self).role(),
                LinkView {
                    can_connect: false,
                    queues: queue_effect(old(self).queues(), HsmsSessionEffect::SendControl(HsmsControl::SeparateReq)),
                    ..old(self).link()
                },
                final(self).link(),
                r,
            ),
            old(self).session_state() != HsmsConnectionState::Selected ==> r == Err::<(), MachineError>(
                MachineError::InvalidState,
            ) && final(self).link() == old(self).link(),
    {
        match self.session.separate() {
            Ok(effects) => {
                let ghost es = effects@;
                assert(es =~= seq![
                    HsmsSessionEffect::SendControl(HsmsControl::SeparateReq),
                    HsmsSessionEffect::Disconnect,
                ]);
                assert(es.drop_last() =~= seq![HsmsSessionEffect::SendControl(HsmsControl::SeparateReq)]);
                assert(es.drop_last().drop_last() =~= Seq::<HsmsSessionEffect>::empty());
                assert(ranked_below(es.drop_last(), 1));
                let ghost sep = self.link();
                let r = self.handle_effects(effects, Ghost(3));
                assert(queue_effects(sep.queues, es.drop_last()) == queue_effect(
                    queue_effects(sep.queues, es.drop_last().drop_last()),
                    es.drop_last().last(),
                ));
                assert(queue_effects(sep.queues, es.drop_last().drop_last()) == sep.queues);
                r
            },
            Err(_) => {
                assert(self.link() =~= old(self).link());
                Err(MachineError::InvalidState)
            },
        }
    }

    /// Queues a runtime message as a data message; only while selected,
    /// else `InvalidState` and nothing changes.
    pub fn send(&mut self, msg: RuntimeMessage) -> (r: Result<(), MachineError>)
        requires
            old(self).wf(),
        ensures
            final(self).wf(),
            final(self).role() == old(self).role(),
            final(self).session_state() == old(self).session_state(),
            final(self).timeouts() == old(self).timeouts(),
            final(self).inbox() == old(self).inbox(),
            old(self).session_state() == HsmsConnectionState::Selected ==> {
                &&& r is Ok
                &&& final(self).pending().len() == old(self).pending().len() + 1
                &&& final(self).pending().drop_last() == old(self).pending()
                &&& final(self).pending().last().0 == data_header(
                    old(self).spec_session_id(),
                    msg.payload.stream,
                    msg.payload.function,
                    msg.payload.need_reply,
                    msg.transaction_key.system_byte,
                )
                &&& final(self).pending().last().1 == match msg.payload.body {
                    Some(b) => Some(b@),
                    None => None::<Seq<u8>>,
                }
            },
            old(self).session_state() != HsmsConnectionState::Selected ==> r == Err::<(), MachineError>(
                MachineError::InvalidState,
            ) && final(self).pending() == old(self).pending(),
    {
        match outgoing_data_message(&self.session, self.session_id, msg) {
            Ok(m) => {
                self.pending_messages.push_back(m);
                assert(self.pending().drop_last() =~= old(self).pending());
                Ok(())
            },
            Err(e) => Err(e),
        }
    }

    /// Takes the oldest received data message as a runtime message.
    pub fn poll_recv(&mut self) -> (r: Option<RuntimeMessage>)
        requires
            old(self).wf(),
        ensures
            final(self).wf(),
            final(self).role() == old(self).role(),
            final(self).session_state() == old(self).session_state(),
            final(self).pending() == old(self).pending(),
            final(self).timeouts() == old(self).timeouts(),
            old(self).inbox().len() == 0 ==> r is None && final(self).inbox() == old(self).inbox(),
            old(self).inbox().len() > 0 ==> ({
                let h = old(self).inbox()[0].0;
                &&& r matches Some(m) && m.transaction_key == (TransactionKey {
                    owner: owner_for(TransferContext::Recv, is_primary_function(FunctionId(h.byte3))),
                    system_byte: h.system_byte,
                }) && m.payload.function == FunctionId(h.byte3) && m.payload.stream == header_stream(h)
                    && m.payload.need_reply == header_need_reply(h) && (match m.payload.body {
                    Some(b) => Some(b@),
                    None => None::<Seq<u8>>,
                }) == old(self).inbox()[0].1
                &&& final(self).inbox() == old(self).inbox().drop_first()
            }),
    {
        match self.outgoing_messages.pop_front() {
            Some(msg) => {
                assert(self.inbox() =~= old(self).inbox().drop_first());
                Some(message_to_runtime(msg))
            },
            None => None,
        }
    }

    /// Takes the oldest started timer.
    pub fn poll_timeout(&mut self) -> (r: Option<TimeoutTicket>)
        requires
            old(self).wf(),
        ensures
            final(self).wf(),
            final(self).role() == old(self).role(),
            final(self).session_state() == old(self).session_state(),
            final(self).pending() == old(self).pending(),
            final(self).inbox() == old(self).inbox(),
            old(self).timeouts().len() == 0 ==> r is None && final(self).timeouts() == old(self).timeouts(),
            old(self).timeouts().len() > 0 ==> r == Some(old(self).timeouts()[0]) && final(self).timeouts()
                == old(self).timeouts().drop_first(),
    {
        let r = self.outgoing_timeouts.pop_front();
        assert(old(self).timeouts().len() > 0 ==> self.outgoing_timeouts@ =~= old(self).timeouts().drop_first());
        r
    }

    /// Moves everything along: reads the stream, takes what the machine
    /// assembled, hands queued messages to the machine, and writes frames.
    pub fn poll(&mut self) -> (r: Result<(), MachineError>)
        requires
            old(self).wf(),
        ensures
            r == Err::<(), MachineError>(MachineError::InvalidMessage) ==> old(self).message_faults() < final(self).message_faults(),
            old(self).message_faults() <= final(self).message_faults(),
            old(self).stream_failures() <= final(self).stream_failures(),
            r == Err::<(), MachineError>(MachineError::InvalidState) ==> old(self).stream_failures() < final(self).stream_failures(),
            final(self).wf(),
            final(self).role() == old(self).role(),
            r is Ok || r == Err::<(), MachineError>(MachineError::InvalidState) || r == Err::<(), MachineError>(
                MachineError::InvalidMessage,
            ) || r == Err::<(), MachineError>(MachineError::DecodeFailed),
            grows_by_data(old(self).inbox(), final(self).inbox()),
            exists|data: Seq<u8>| {
                &&& final(self).fed() == #[trigger] (old(self).fed() + data)
                &&& data.len() > 0 ==> final(self).partial_frame() == assemble(old(self).partial_frame() + data).1
                &&& r == Err::<(), MachineError>(MachineError::DecodeFailed) ==> data.len() > 0 && assemble(
                    old(self).partial_frame() + data,
                ).2 is Some
            },
            r is Ok ==> forall|i: int|
                0 <= i < final(self).pending().len() ==> (#[trigger] final(self).pending()[i]).0.stype
                    != HsmsSType::DataMessage,
            r is Ok ==> exists|p: Seq<MessageView>, k: int| {
                &&& grows_by_controls(old(self).pending(), p)
                &&& 0 <= k <= (old(self).writes() + frames(p)).len()
                &&& final(self).written() == #[trigger] written_after(old(self).written(), old(self).writes() + frames(p), k)
                &&& final(self).writes() == (old(self).writes() + frames(p)).skip(k)
            },
    {
        let ghost i0 = self.inbox();
        let ghost mut i1 = self.inbox();
        let r0 = self.poll_source_read();
        let ghost d = choose|data: Seq<u8>| {
            &&& self.fed() == #[trigger] (old(self).fed() + data)
            &&& data.len() > 0 ==> self.partial_frame() == assemble(old(self).partial_frame() + data).1
            &&& r0 == Err::<(), MachineError>(MachineError::DecodeFailed) ==> data.len() > 0 && assemble(
                old(self).partial_frame() + data,
            ).2 is Some
        };
        let ghost pr0 = self.pending();
        match r0 {
            Ok(()) => {},
            Err(e) => {
                assert(self.fed() == old(self).fed() + d);
                return Err(e);
            },
        }
        proof {
            i1 = self.inbox();
        }
        match self.handle_machine_events() {
            Ok(()) => {},
            Err(e) => {
                assert(self.fed() == old(self).fed() + d);
                return Err(e);
            },
        }
        let ghost pr1 = self.pending();
        match self.process_received_messages() {
            Ok(()) => {},
            Err(e) => {
                proof {
                    lemma_grows_data_trans(i0, i1, self.inbox());
                }
                assert(self.fed() == old(self).fed() + d);
                return Err(e);
            },
        }
        proof {
            lemma_grows_data_trans(i0, i1, self.inbox());
            i1 = self.inbox();
            lemma_grows_trans(old(self).pending(), pr0, pr1);
            lemma_grows_trans(old(self).pending(), pr1, self.pending());
        }
        let ghost p = self.pending();
        let ghost out = old(self).writes() + frames(p);
        match self.process_pending_messages() {
            Ok(()) => {},
            Err(e) => {
                assert(self.fed() == old(self).fed() + d);
                return Err(e);
            },
        }
        assert(self.writes() == out);
        let ghost p1 = self.pending();
        match self.handle_machine_events() {
            Ok(()) => {},
            Err(e) => {
                assert(self.fed() == old(self).fed() + d);
                return Err(e);
            },
        }
        let ghost w1 = self.written();
        let rf = self.flush_writes();
        let ghost k = choose|k: int| {
            &&& 0 <= k <= out.len()
            &&& #[trigger] self.written() == w1 + frame_list(out.take(k))
            &&& self.writes() == out.skip(k) || (rf == Err::<(), MachineError>(MachineError::InvalidState)
                && k < out.len() && self.writes() == out.skip(k + 1))
            &&& rf is Ok ==> self.writes() == out.skip(k)
        };
        match rf {
            Ok(()) => {},
            Err(e) => {
                assert(self.fed() == old(self).fed() + d);
                return Err(e);
            },
        }
        match self.handle_machine_events() {
            Ok(()) => {},
            Err(e) => {
                assert(self.fed() == old(self).fed() + d);
                return Err(e);
            },
        }
        let r = self.process_received_messages();
        proof {
            lemma_grows_data_trans(i0, i1, self.inbox());
            if r is Ok {
                assert(p1.len() == 0);
                assert(self.written() == written_after(old(self).written(), out, k));
            }
        }
        assert(self.fed() == old(self).fed() + d);
        r
    }

    /// Moves the queues along after a timer: takes the machine's events and
    /// received messages, hands queued messages to the machine, and writes
    /// frames.
    fn advance_queues(&mut self) -> (r: Result<(), MachineError>)
        requires
            old(self).wf(),
        ensures
            final(self).wf(),
            final(self).role() == old(self).role(),
            settled(old(self).link(), final(self).link(), r),
            grows_by_data(old(self).inbox(), final(self).inbox()),
            old(self).pending().len() == 0 && old(self).writes().len() == 0 && old(self).unread().len() == 0
                ==> final(self).machine_model().timers == old(self).machine_model().timers
                && final(self).machine_model().txs == old(self).machine_model().txs,
            (exists|i: int| 0 <= i < old(self).machine_model().events.len()
                && #[trigger] old(self).machine_model().events[i] is ErrorOccured) ==> r == Err::<(), MachineError>(
                MachineError::InvalidMessage,
            ) && final(self).machine_model().timers == old(self).machine_model().timers
                && final(self).machine_model().txs == old(self).machine_model().txs,
    {
        let ghost t0 = self.timeouts();
        let ghost mt = self.machine.model().timeouts;
        let r1 = self.handle_machine_events();
        proof {
            lemma_prefix_append(t0, mt);
            lemma_grows_data_refl(self.inbox());
        }
        match r1 {
            Ok(()) => {},
            Err(e) => {
                return Err(e);
            },
        }
        let ghost t1 = self.timeouts();
        let ghost i1 = self.inbox();
        match self.process_received_messages() {
            Ok(()) => {},
            Err(e) => {
                proof {
                    lemma_prefix_trans(t0, t1, self.timeouts());
                }
                return Err(e);
            },
        }
        let ghost t2 = self.timeouts();
        proof {
            lemma_prefix_trans(t0, t1, t2);
        }
        match self.process_pending_messages() {
            Ok(()) => {},
            Err(e) => {
                proof {
                    lemma_prefix_trans(t0, t2, self.timeouts());
                }
                return Err(e);
            },
        }
        let ghost t3 = self.timeouts();
        let ghost mt3 = self.machine.model().timeouts;
        proof {
            lemma_prefix_trans(t0, t2, t3);
        }
        let r2 = self.handle_machine_events();
        proof {
            lemma_prefix_append(t3, mt3);
            lemma_prefix_trans(t0, t3, self.timeouts());
        }
        match r2 {
            Ok(()) => {},
            Err(e) => {
                return Err(e);
            },
        }
        let ghost t4 = self.timeouts();
        let r = self.flush_writes();
        proof {
            lemma_prefix_trans(t0, t4, self.timeouts());
        }
        r
    }

    /// A timer expired. A ticket that is not the live one of its timer
    /// changes nothing. Session timers (T5, T6, T7) go to the session; T3
    /// goes to the machine; T8 goes to both; a live SECS-I timer or T4 fails
    /// with `InvalidTimeout`. Afterwards the queues move along as in `poll`,
    /// without reading.
    pub fn handle_timeout(&mut self, ticket: TimeoutTicket) -> (r: Result<(), MachineError>)
        requires
            old(self).wf(),
        ensures
            final(self).wf(),
            final(self).role() == old(self).role(),
            !old(self).ticket_live(ticket) ==> r is Ok && final(self).link() == old(self).link() && final(self).inbox()
                == old(self).inbox(),
            old(self).ticket_live(ticket) && (ticket.timeout is T1 || ticket.timeout is T2 || ticket.timeout is T4)
                ==> r == Err::<(), MachineError>(MachineError::InvalidTimeout) && final(self).link() == (LinkView {
                queues: LinkQueues { timers: old(self).queues().timers.remove(ticket.timeout), ..old(self).queues() },
                ..old(self).link()
            }),
            old(self).ticket_live(ticket) && (ticket.timeout is T5 || ticket.timeout is T6 || ticket.timeout is T7)
                ==> timeout_routed(
                old(self).role(),
                LinkView {
                    queues: LinkQueues { timers: old(self).queues().timers.remove(ticket.timeout), ..old(self).queues() },
                    ..old(self).link()
                },
                ticket.timeout,
                final(self).link(),
                r,
            ),
            old(self).ticket_live(ticket) && ticket.timeout is T8 ==> timeout_routed(
                old(self).role(),
                old(self).link(),
                ticket.timeout,
                final(self).link(),
                r,
            ),
            old(self).ticket_live(ticket) && ticket.timeout is T3 ==> settled(old(self).link(), final(self).link(), r),
            old(self).ticket_live(ticket) && ticket.timeout is T3 && old(self).pending().len() == 0
                && old(self).writes().len() == 0 && old(self).unread().len() == 0 ==> final(self).machine_model().timers
                == timeout_step(old(self).machine_model(), ticket).timers && final(self).machine_model().txs
                == timeout_step(old(self).machine_model(), ticket).txs,
            old(self).ticket_live(ticket) && ticket.timeout is T8 ==> r is Err && final(self).machine_model().timers
                == old(self).machine_model().timers.remove(ticket.timeout) && final(self).machine_model().txs
                == old(self).machine_model().txs,
    {
        let live = match ticket.timeout {
            SecsTimeoutUnit::T3(_) | SecsTimeoutUnit::T8 => self.machine.is_live(&ticket),
            _ => self.timeout_manager.fire(&ticket),
        };
        if !live {
            assert(self.link() =~= old(self).link());
            return Ok(());
        }
        let ghost before = self.link();
        let ghost t = session_step(self.session.role, self.session.state, self.session.can_connect, HsmsSessionSignal::Timeout(ticket.timeout));
        proof {
            lemma_timeout_effects(self.session.role, self.session.state, self.session.can_connect, ticket.timeout);
        }
        let r1 = match timer_owner(ticket.timeout) {
            Ok(HsmsTimerOwner::Session) => self.handle_session_signal(HsmsSessionSignal::Timeout(ticket.timeout), Ghost(3)),
            Ok(HsmsTimerOwner::Machine) => {
                let _ = self.machine.handle_timeout(ticket);
                Ok(())
            },
            Ok(HsmsTimerOwner::Both) => {
                let _ = self.machine.handle_timeout(ticket);
                self.handle_session_signal(HsmsSessionSignal::Timeout(ticket.timeout), Ghost(3))
            },
            Err(e) => Err(e),
        };
        let ghost mid = self.link();
        proof {
            if t.effects.len() == 0 && !(ticket.timeout is T3) && !(ticket.timeout is T1 || ticket.timeout is T2
                || ticket.timeout is T4) {
                assert(mid =~= after_transition(before, t));
            }
            if t.effects.len() > 0 && !(ticket.timeout is T3) && !(ticket.timeout is T1 || ticket.timeout is T2
                || ticket.timeout is T4) {
                assert(ranked_below(t.effects.drop_last(), 1));
            }
            if ticket.timeout is T1 || ticket.timeout is T2 || ticket.timeout is T4 {
                assert(mid =~= LinkView {
                    queues: LinkQueues { timers: old(self).queues().timers.remove(ticket.timeout), ..old(self).queues() },
                    ..old(self).link()
                });
            }
            if ticket.timeout is T3 {
                assert(mid =~= old(self).link());
            }
        }
        match r1 {
            Ok(()) => {},
            Err(e) => {
                proof {
                    if !(ticket.timeout is T1 || ticket.timeout is T2 || ticket.timeout is T4) {
                        assert(signal_outcome(self.session.role, before, t, mid, r1));
                    }
                }
                return Err(e);
            },
        }
        let ghost mm = self.machine.model();
        proof {
            if ticket.timeout is T8 {
                let k = mm.events.len() - 1;
                assert(mm.events[k] is ErrorOccured);
            }
        }
        let r = self.advance_queues();
        proof {
            if !(ticket.timeout is T3) {
                assert(signal_outcome(self.session.role, before, t, mid, r1));
            }
        }
        r
    }
}

/// Carrying out session effects always ends: a session that learns of an
/// opened connection asks neither to connect nor to disconnect, and one that
/// learns of a lost connection asks at most to connect again.
/// Losing the connection asks the active side for no more than session
/// timers, and the passive side for nothing but, when it was connected,
/// opening the stream again.
pub proof fn lemma_disconnected_effects(role: ConnectionRole, state: HsmsConnectionState, can_connect: bool)
    ensures
        ({
            let t = session_step(role, state, can_connect, HsmsSessionSignal::Disconnected);
            &&& t.state == HsmsConnectionState::NotConnected
            &&& role == ConnectionRole::Active ==> ranked_below(t.effects, 1)
            &&& role == ConnectionRole::Passive && state != HsmsConnectionState::NotConnected ==> t.effects
                == seq![HsmsSessionEffect::Connect] && t.can_connect == can_connect
            &&& role == ConnectionRole::Passive && state == HsmsConnectionState::NotConnected ==> t.effects.len() == 0
                && t.can_connect == can_connect
        }),
{
    let t = session_step(role, state, can_connect, HsmsSessionSignal::Disconnected);
    if role == ConnectionRole::Passive && state != HsmsConnectionState::NotConnected {
        assert(t.effects =~= seq![HsmsSessionEffect::Connect]);
    }
}

/// An expired timer asks the session for at most one effect.
pub proof fn lemma_timeout_effects(role: ConnectionRole, state: HsmsConnectionState, can_connect: bool, u: SecsTimeoutUnit)
    ensures
        session_step(role, state, can_connect, HsmsSessionSignal::Timeout(u)).effects.len() <= 1,
        ranked_below(session_step(role, state, can_connect, HsmsSessionSignal::Timeout(u)).effects, 3),
{
}

pub proof fn lemma_link_effects_settle(role: ConnectionRole, state: HsmsConnectionState, can_connect: bool)
    ensures
        ranked_below(session_step(role, state, can_connect, HsmsSessionSignal::Connected).effects, 1),
        ranked_below(session_step(role, state, can_connect, HsmsSessionSignal::Disconnected).effects, 2),
{
}

} // verus!
