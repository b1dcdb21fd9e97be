//! The HSMS message machine: frames outgoing messages, assembles incoming
//! ones, runs one transaction per exchange, and reports events and timers.
use vstd::prelude::*;

use crate::common::{
    is_primary_function, owner_for, FunctionId, SecsTimeoutUnit, TimeoutTicket, TransactionKey,
    TransferContext,
};
use crate::error::SecsTransportError;
use crate::hsms::{frame_bytes, message_fits, HsmsHeader, HsmsMessage, HsmsTransportConfig};
use crate::hsms_assembler::{assemble, message_views, HsmsAssembler};
use crate::hsms_transaction::{
    expects_reply, reply_header, HsmsMessageSignal, HsmsMessageTransaction, HsmsTransactionEffect,
    HsmsTransactionManager, HsmsTransactionState,
};
use crate::time::TimeoutManager;

verus! {

/// What the message machine reports.
#[derive(Debug, PartialEq, Eq)]
pub enum HsmsMessageEvent {
    SendComplete(TransactionKey),
    RecvComplete(TransactionKey),
    TransactionEnd(TransactionKey),
    /// The received primary asks for a reply.
    ReplyRequired(TransactionKey),
    MessageTimeout(TransactionKey, SecsTimeoutUnit),
    ErrorOccured(SecsTransportError),
}

/// The transaction that a message with header `h`, sent or received, belongs to.
pub open spec fn message_key(context: TransferContext, h: HsmsHeader) -> TransactionKey {
    TransactionKey {
        owner: owner_for(context, is_primary_function(FunctionId(h.byte3))),
        system_byte: h.system_byte,
    }
}

/// The bookkeeping of a message machine.
pub struct HsmsMachineModel {
    /// Live timers.
    pub timers: Map<SecsTimeoutUnit, TimeoutTicket>,
    /// Id of the next timer ticket.
    pub next_id: u64,
    /// Started timers not yet taken by `poll_timeout`.
    pub timeouts: Seq<TimeoutTicket>,
    /// Events not yet taken by `poll_event`.
    pub events: Seq<HsmsMessageEvent>,
    /// Open transactions: their state and the header they expect.
    pub txs: Map<TransactionKey, (HsmsTransactionState, Option<HsmsHeader>)>,
}

/// Starting timer `u`: a fresh ticket replaces the timer's live one and is
/// reported.
pub open spec fn issue_timer(m: HsmsMachineModel, u: SecsTimeoutUnit) -> HsmsMachineModel {
    let ticket = TimeoutTicket { id: crate::common::TimeoutId(m.next_id), timeout: u };
    HsmsMachineModel {
        timers: m.timers.insert(u, ticket),
        next_id: ((m.next_id as int + 1) % 0x1_0000_0000_0000_0000) as u64,
        timeouts: m.timeouts.push(ticket),
        ..m
    }
}

/// The effect of one transaction effect of transaction `key` on the machine.
pub open spec fn effect_step(m: HsmsMachineModel, key: TransactionKey, e: HsmsTransactionEffect) -> HsmsMachineModel {
    match e {
        HsmsTransactionEffect::StartTimeout(u) => issue_timer(m, u),
        HsmsTransactionEffect::ClearTimeout(u) => HsmsMachineModel { timers: m.timers.remove(u), ..m },
        HsmsTransactionEffect::ErrorOccured(err) => HsmsMachineModel {
            events: m.events.push(
                match err {
                    SecsTransportError::Timeout(u) => HsmsMessageEvent::MessageTimeout(key, u),
                    _ => HsmsMessageEvent::ErrorOccured(err),
                },
            ),
            ..m
        },
        HsmsTransactionEffect::RecvComplete => HsmsMachineModel {
            events: m.events.push(HsmsMessageEvent::RecvComplete(key)),
            ..m
        },
        HsmsTransactionEffect::SendComplete => HsmsMachineModel {
            events: m.events.push(HsmsMessageEvent::SendComplete(key)),
            ..m
        },
        HsmsTransactionEffect::TransactionEnd => HsmsMachineModel {
            txs: m.txs.remove(key),
            events: m.events.push(HsmsMessageEvent::TransactionEnd(key)),
            ..m
        },
        HsmsTransactionEffect::ReplyRequired => HsmsMachineModel {
            events: m.events.push(HsmsMessageEvent::ReplyRequired(key)),
            ..m
        },
    }
}

/// The effects `es` of transaction `key`, applied in order.
pub open spec fn apply_effects(m: HsmsMachineModel, key: TransactionKey, es: Seq<HsmsTransactionEffect>) -> HsmsMachineModel
    decreases es.len(),
{
    if es.len() == 0 {
        m
    } else {
        effect_step(apply_effects(m, key, es.drop_last()), key, es.last())
    }
}

/// Receiving a message with header `h`: its transaction completes and
/// closes; a reply stops T3, a primary that wants a reply says so.
pub open spec fn receive_step(m: HsmsMachineModel, h: HsmsHeader) -> HsmsMachineModel {
    let k = message_key(TransferContext::Recv, h);
    HsmsMachineModel {
        timers: if is_primary_function(FunctionId(h.byte3)) {
            m.timers
        } else {
            m.timers.remove(SecsTimeoutUnit::T3(k))
        },
        events: m.events + seq![HsmsMessageEvent::RecvComplete(k)] + (if expects_reply(h) {
            seq![HsmsMessageEvent::ReplyRequired(k)]
        } else {
            Seq::empty()
        }) + seq![HsmsMessageEvent::TransactionEnd(k)],
        txs: m.txs.remove(k),
        ..m
    }
}

/// Receiving the messages `msgs` in order.
pub open spec fn receive_all(m: HsmsMachineModel, msgs: Seq<(HsmsHeader, Option<Seq<u8>>)>) -> HsmsMachineModel
    decreases msgs.len(),
{
    if msgs.len() == 0 {
        m
    } else {
        receive_step(receive_all(m, msgs.drop_last()), msgs.last().0)
    }
}

/// The outcome of a send signal for header `h`.
pub open spec fn signal_step(m: HsmsMachineModel, signal: HsmsMessageSignal) -> HsmsMachineModel {
    let h = match signal {
        HsmsMessageSignal::SendSuccess(h) => h,
        HsmsMessageSignal::SendFailed(h) => h,
    };
    let k = message_key(TransferContext::Send, h);
    if !m.txs.dom().contains(k) {
        m
    } else {
        match signal {
            HsmsMessageSignal::SendFailed(_) => HsmsMachineModel {
                txs: m.txs.remove(k),
                events: m.events + seq![
                    HsmsMessageEvent::ErrorOccured(SecsTransportError::SendFailed(k)),
                    HsmsMessageEvent::TransactionEnd(k),
                ],
                ..m
            },
            HsmsMessageSignal::SendSuccess(_) => if m.txs[k].0 == HsmsTransactionState::Send
                && m.txs[k].1 == Some(h) {
                if expects_reply(h) {
                    issue_timer(
                        HsmsMachineModel {
                            txs: m.txs.insert(
                                k,
                                (HsmsTransactionState::WaitRecv, Some(reply_header(h))),
                            ),
                            events: m.events.push(HsmsMessageEvent::SendComplete(k)),
                            ..m
                        },
                        SecsTimeoutUnit::T3(k),
                    )
                } else {
                    HsmsMachineModel {
                        txs: m.txs.remove(k),
                        events: m.events + seq![
                            HsmsMessageEvent::SendComplete(k),
                            HsmsMessageEvent::TransactionEnd(k),
                        ],
                        ..m
                    }
                }
            } else {
                m
            },
        }
    }
}

/// Sending a message with header `h` opens its transaction, replacing any open
/// one with the same key.
pub open spec fn send_step(m: HsmsMachineModel, h: HsmsHeader) -> HsmsMachineModel {
    HsmsMachineModel {
        txs: m.txs.insert(
            message_key(TransferContext::Send, h),
            (HsmsTransactionState::Send, Some(h)),
        ),
        ..m
    }
}

/// An expired ticket: ignored unless it is the live ticket of its timer; an
/// expired T3 ends its transaction with a timeout, an expired T8 reports a
/// failed receive.
pub open spec fn timeout_step(m: HsmsMachineModel, ticket: TimeoutTicket) -> HsmsMachineModel {
    if !(m.timers.dom().contains(ticket.timeout) && m.timers[ticket.timeout] == ticket) {
        m
    } else {
        let m1 = HsmsMachineModel { timers: m.timers.remove(ticket.timeout), ..m };
        match ticket.timeout {
            SecsTimeoutUnit::T3(k) => if m1.txs.dom().contains(k) {
                HsmsMachineModel {
                    txs: m1.txs.remove(k),
                    events: m1.events + seq![
                        HsmsMessageEvent::MessageTimeout(k, SecsTimeoutUnit::T3(k)),
                        HsmsMessageEvent::TransactionEnd(k),
                    ],
                    ..m1
                }
            } else {
                m1
            },
            SecsTimeoutUnit::T8 => HsmsMachineModel {
                events: m1.events.push(HsmsMessageEvent::ErrorOccured(SecsTransportError::RecvFailed)),
                ..m1
            },
            _ => m1,
        }
    }
}

/// The state and expected header of each open transaction.
pub open spec fn tx_models(t: Map<TransactionKey, HsmsMessageTransaction>) -> Map<
    TransactionKey,
    (HsmsTransactionState, Option<HsmsHeader>),
> {
    Map::new(|k: TransactionKey| t.dom().contains(k), |k: TransactionKey| (t[k].current_state(), t[k].expected()))
}

/// Frames messages, assembles received bytes, and keeps one transaction per
/// exchange.
pub struct HsmsMessageMachine {
    msg_assembler: HsmsAssembler,
    outgoing_buffer: Vec<u8>,
    outgoing_msgs: std::collections::VecDeque<HsmsMessage>,
    outgoing_timeouts: std::collections::VecDeque<TimeoutTicket>,
    outgoing_events: std::collections::VecDeque<HsmsMessageEvent>,
    timeout_manager: TimeoutManager,
    transaction_manager: HsmsTransactionManager,
}

impl HsmsMessageMachine {
    /// Bytes to be written to the connection.
    pub closed spec fn pending_bytes(&self) -> Seq<u8> {
        self.outgoing_buffer@
    }

    /// Messages received and not yet taken.
    pub closed spec fn received(&self) -> Seq<(HsmsHeader, Option<Seq<u8>>)> {
        message_views(self.outgoing_msgs@)
    }

    /// Bytes of an incomplete frame.
    pub closed spec fn partial_frame(&self) -> Seq<u8> {
        self.msg_assembler.buffered()
    }

    /// Messages cut from the stream and not yet handled, left behind by a
    /// read that met a malformed frame.
    pub closed spec fn unhandled(&self) -> Seq<(HsmsHeader, Option<Seq<u8>>)> {
        self.msg_assembler.ready()
    }

    pub closed spec fn model(&self) -> HsmsMachineModel {
        HsmsMachineModel {
            timers: self.timeout_manager.active_tickets(),
            next_id: self.timeout_manager.next_id(),
            timeouts: self.outgoing_timeouts@,
            events: self.outgoing_events@,
            txs: tx_models(self.transaction_manager@),
        }
    }

    pub closed spec fn wf(&self) -> bool {
        &&& self.timeout_manager.wf()
        &&& self.transaction_manager.wf()
        &&& forall|k: TransactionKey| #[trigger] self.transaction_manager@.dom().contains(k) ==> {
            &&& self.transaction_manager@[k].key() == k
            &&& self.transaction_manager@[k].effects().len() == 0
            &&& self.transaction_manager@[k].current_state() != HsmsTransactionState::End
        }
    }

    pub fn new(config: &HsmsTransportConfig) -> (r: HsmsMessageMachine)
        ensures
            r.wf(),
            r.pending_bytes() == Seq::<u8>::empty(),
            r.received() == Seq::<(HsmsHeader, Option<Seq<u8>>)>::empty(),
            r.partial_frame() == Seq::<u8>::empty(),
            r.unhandled() == Seq::<(HsmsHeader, Option<Seq<u8>>)>::empty(),
            r.model().timers == Map::<SecsTimeoutUnit, TimeoutTicket>::empty(),
            r.model().next_id == 0,
            r.model().timeouts == Seq::<TimeoutTicket>::empty(),
            r.model().events == Seq::<HsmsMessageEvent>::empty(),
            r.model().txs == Map::<TransactionKey, (HsmsTransactionState, Option<HsmsHeader>)>::empty(),
    {
        let r = HsmsMessageMachine {
            msg_assembler: HsmsAssembler::new(),
            outgoing_buffer: Vec::new(),
            outgoing_msgs: std::collections::VecDeque::new(),
            outgoing_timeouts: std::collections::VecDeque::new(),
            outgoing_events: std::collections::VecDeque::new(),
            timeout_manager: TimeoutManager::new(),
            transaction_manager: HsmsTransactionManager::new(),
        };
        assert(r.received() =~= Seq::<(HsmsHeader, Option<Seq<u8>>)>::empty());
        assert(r.model().txs =~= Map::<TransactionKey, (HsmsTransactionState, Option<HsmsHeader>)>::empty());
        r
    }
}


impl HsmsMessageMachine {
    /// The invariant, except for the transaction `key` which an operation is
    /// working on.
    pub closed spec fn wf_except(&self, key: TransactionKey) -> bool {
        &&& self.timeout_manager.wf()
        &&& self.transaction_manager.wf()
        &&& forall|k: TransactionKey| #[trigger] self.transaction_manager@.dom().contains(k) && k != key ==> {
            &&& self.transaction_manager@[k].key() == k
            &&& self.transaction_manager@[k].effects().len() == 0
            &&& self.transaction_manager@[k].current_state() != HsmsTransactionState::End
        }
    }

    fn emit_event(&mut self, event: HsmsMessageEvent)
        ensures
            final(self).model() == (HsmsMachineModel { events: old(self).model().events.push(event), ..old(self).model() }),
            final(self).transaction_manager == old(self).transaction_manager,
            final(self).timeout_manager == old(self).timeout_manager,
            final(self).msg_assembler == old(self).msg_assembler,
            final(self).outgoing_buffer == old(self).outgoing_buffer,
            final(self).outgoing_msgs == old(self).outgoing_msgs,
    {
        self.outgoing_events.push_back(event);
    }

    fn start_timeout(&mut self, timeout: SecsTimeoutUnit)
        requires
            old(self).timeout_manager.wf(),
        ensures
            final(self).timeout_manager.wf(),
            final(self).model() == issue_timer(old(self).model(), timeout),
            final(self).transaction_manager == old(self).transaction_manager,
            final(self).msg_assembler == old(self).msg_assembler,
            final(self).outgoing_buffer == old(self).outgoing_buffer,
            final(self).outgoing_msgs == old(self).outgoing_msgs,
    {
        let ticket = self.timeout_manager.issue(timeout);
        self.outgoing_timeouts.push_back(ticket);
    }

    fn cancel_timeout(&mut self, timeout: SecsTimeoutUnit)
        requires
            old(self).timeout_manager.wf(),
        ensures
            final(self).timeout_manager.wf(),
            final(self).model() == (HsmsMachineModel { timers: old(self).model().timers.remove(timeout), ..old(self).model() }),
            final(self).transaction_manager == old(self).transaction_manager,
            final(self).msg_assembler == old(self).msg_assembler,
            final(self).outgoing_buffer == old(self).outgoing_buffer,
            final(self).outgoing_msgs == old(self).outgoing_msgs,
    {
        self.timeout_manager.cancel(timeout);
    }

    /// The key of the transaction a header belongs to.
    fn get_transaction_key(context: TransferContext, header: &HsmsHeader) -> (r: TransactionKey)
        ensures
            r == message_key(context, *header),
    {
        TransactionKey::from(context, header.function().is_primary(), header.system_byte)
    }

    fn take_transaction_outputs(transaction: &mut HsmsMessageTransaction) -> (r: Vec<HsmsTransactionEffect>)
        ensures
            r@ == old(transaction).effects(),
            final(transaction).effects().len() == 0,
            final(transaction).key() == old(transaction).key(),
            final(transaction).current_state() == old(transaction).current_state(),
            final(transaction).expected() == old(transaction).expected(),
    {
        let mut effects: Vec<HsmsTransactionEffect> = Vec::new();
        loop
            invariant
                effects@ + transaction.effects() == old(transaction).effects(),
                transaction.key() == old(transaction).key(),
                transaction.current_state() == old(transaction).current_state(),
                transaction.expected() == old(transaction).expected(),
            decreases transaction.effects().len(),
        {
            let ghost before = transaction.effects();
            match transaction.poll_event() {
                Some(e) => {
                    effects.push(e);
                    assert(effects@ + transaction.effects() =~= old(transaction).effects()) by {
                        assert(before =~= seq![e] + before.drop_first());
                    }
                },
                None => {
                    assert(effects@ =~= old(transaction).effects());
                    return effects;
                },
            }
        }
    }

    fn handle_transaction_outputs(&mut self, effects: Vec<HsmsTransactionEffect>, key: &TransactionKey)
        requires
            old(self).wf_except(*key),
        ensures
            final(self).wf_except(*key),
            final(self).model() == apply_effects(old(self).model(), *key, effects@),
            forall|k: TransactionKey| #[trigger] final(self).transaction_manager@.dom().contains(k) ==> old(
                self,
            ).transaction_manager@.dom().contains(k) && final(self).transaction_manager@[k] == old(
                self,
            ).transaction_manager@[k],
            final(self).msg_assembler == old(self).msg_assembler,
            final(self).outgoing_buffer == old(self).outgoing_buffer,
            final(self).outgoing_msgs == old(self).outgoing_msgs,
    {
        let ghost es = effects@;
        let ghost m0 = self.model();
        let mut effects = effects;
        let ghost mut n: int = 0;
        while effects.len() > 0
            invariant
                0 <= n <= es.len(),
                effects@ == es.skip(n),
                self.wf_except(*key),
                self.model() == apply_effects(m0, *key, es.take(n)),
                forall|k: TransactionKey| #[trigger] self.transaction_manager@.dom().contains(k) ==> old(
                    self,
                ).transaction_manager@.dom().contains(k) && self.transaction_manager@[k] == old(
                    self,
                ).transaction_manager@[k],
                self.msg_assembler == old(self).msg_assembler,
                self.outgoing_buffer == old(self).outgoing_buffer,
                self.outgoing_msgs == old(self).outgoing_msgs,
                m0 == old(self).model(),
            decreases effects@.len(),
        {
            let effect = effects.remove(0);
            assert(effect == es[n]);
            assert(es.take(n + 1).drop_last() =~= es.take(n));
            assert(es.take(n + 1).last() == es[n]);
            let ghost before = self.model();
            match effect {
                HsmsTransactionEffect::StartTimeout(u) => {
                    self.start_timeout(u);
                },
                HsmsTransactionEffect::ClearTimeout(u) => {
                    self.cancel_timeout(u);
                },
                HsmsTransactionEffect::ErrorOccured(error) => {
                    match error {
                        SecsTransportError::Timeout(u) => {
                            self.emit_event(HsmsMessageEvent::MessageTimeout(*key, u));
                        },
                        _ => {
                            self.emit_event(HsmsMessageEvent::ErrorOccured(error));
                        },
                    }
                },
                HsmsTransactionEffect::RecvComplete => {
                    self.emit_event(HsmsMessageEvent::RecvComplete(*key));
                },
                HsmsTransactionEffect::SendComplete => {
                    self.emit_event(HsmsMessageEvent::SendComplete(*key));
                },
                HsmsTransactionEffect::TransactionEnd => {
                    self.transaction_manager.remove(key);
                    self.emit_event(HsmsMessageEvent::TransactionEnd(*key));
                    assert(self.model().txs =~= before.txs.remove(*key));
                },
                HsmsTransactionEffect::ReplyRequired => {
                    self.emit_event(HsmsMessageEvent::ReplyRequired(*key));
                },
            }
            proof {
                n = n + 1;
            }
            assert(effects@ =~= es.skip(n));
        }
        assert(es.take(n) =~= es);
    }
}

impl HsmsMessageMachine {
    fn process_send(&mut self, msg: HsmsMessage)
        requires
            old(self).wf(),
        ensures
            final(self).wf(),
            final(self).model() == send_step(
                if message_fits(msg@) {
                    old(self).model()
                } else {
                    HsmsMachineModel {
                        events: old(self).model().events.push(
                            HsmsMessageEvent::ErrorOccured(SecsTransportError::InvalidBlockHeader),
                        ),
                        ..old(self).model()
                    }
                },
                msg.header,
            ),
            final(self).pending_bytes() == if message_fits(msg@) {
                old(self).pending_bytes() + frame_bytes(msg@)
            } else {
                old(self).pending_bytes()
            },
            final(self).received() == old(self).received(),
            final(self).partial_frame() == old(self).partial_frame(),
            final(self).unhandled() == old(self).unhandled(),
    {
        match msg.to_bytes() {
            Ok(bytes) => {
                let mut bytes = bytes;
                self.outgoing_buffer.append(&mut bytes);
            },
            Err(error) => {
                self.emit_event(HsmsMessageEvent::ErrorOccured(error));
            },
        }
        let ghost m1 = self.model();
        let ghost map1 = self.transaction_manager@;
        let header = msg.header;
        let transaction_key = Self::get_transaction_key(TransferContext::Send, &header);
        match self.transaction_manager.create_send(&transaction_key, header) {
            Some(transaction) => {
                let outputs = Self::take_transaction_outputs(transaction);
                assert(outputs@.len() == 0);
                assert(self.transaction_manager@ == map1.insert(transaction_key, self.transaction_manager@[transaction_key]));
                assert(self.wf_except(transaction_key));
                let ghost m2 = self.model();
                assert(m2.txs =~= send_step(m1, header).txs);
                self.handle_transaction_outputs(outputs, &transaction_key);
                assert(self.model() == apply_effects(m2, transaction_key, Seq::<HsmsTransactionEffect>::empty()));
            },
            None => {
                self.emit_event(
                    HsmsMessageEvent::ErrorOccured(SecsTransportError::NoSuchTransaction(transaction_key)),
                );
            },
        }
    }
}

/// The effects a transaction raises when a message with header `h` arrives.
pub open spec fn receive_effects(h: HsmsHeader, k: TransactionKey) -> Seq<HsmsTransactionEffect> {
    (if !is_primary_function(FunctionId(h.byte3)) {
        seq![HsmsTransactionEffect::ClearTimeout(SecsTimeoutUnit::T3(k))]
    } else {
        Seq::empty()
    }) + seq![HsmsTransactionEffect::RecvComplete] + (if expects_reply(h) {
        seq![HsmsTransactionEffect::ReplyRequired]
    } else {
        Seq::empty()
    }) + seq![HsmsTransactionEffect::TransactionEnd]
}

proof fn lemma_receive_effects(m: HsmsMachineModel, h: HsmsHeader)
    ensures
        apply_effects(m, message_key(TransferContext::Recv, h), receive_effects(h, message_key(TransferContext::Recv, h)))
            == receive_step(m, h),
{
    let k = message_key(TransferContext::Recv, h);
    let es = receive_effects(h, k);
    reveal_with_fuel(apply_effects, 5);
    let r = receive_step(m, h);
    let a = apply_effects(m, k, es);
    if !is_primary_function(FunctionId(h.byte3)) {
        if expects_reply(h) {
            assert(es =~= seq![HsmsTransactionEffect::ClearTimeout(SecsTimeoutUnit::T3(k)), HsmsTransactionEffect::RecvComplete, HsmsTransactionEffect::ReplyRequired, HsmsTransactionEffect::TransactionEnd]);
            assert(es.drop_last() =~= seq![HsmsTransactionEffect::ClearTimeout(SecsTimeoutUnit::T3(k)), HsmsTransactionEffect::RecvComplete, HsmsTransactionEffect::ReplyRequired]);
            assert(es.drop_last().drop_last() =~= seq![HsmsTransactionEffect::ClearTimeout(SecsTimeoutUnit::T3(k)), HsmsTransactionEffect::RecvComplete]);
            assert(es.drop_last().drop_last().drop_last() =~= seq![HsmsTransactionEffect::ClearTimeout(SecsTimeoutUnit::T3(k))]);
            assert(es.drop_last().drop_last().drop_last().drop_last() =~= Seq::<HsmsTransactionEffect>::empty());
        } else {
            assert(es =~= seq![HsmsTransactionEffect::ClearTimeout(SecsTimeoutUnit::T3(k)), HsmsTransactionEffect::RecvComplete, HsmsTransactionEffect::TransactionEnd]);
            assert(es.drop_last() =~= seq![HsmsTransactionEffect::ClearTimeout(SecsTimeoutUnit::T3(k)), HsmsTransactionEffect::RecvComplete]);
            assert(es.drop_last().drop_last() =~= seq![HsmsTransactionEffect::ClearTimeout(SecsTimeoutUnit::T3(k))]);
            assert(es.drop_last().drop_last().drop_last() =~= Seq::<HsmsTransactionEffect>::empty());
        }
    } else {
        if expects_reply(h) {
            assert(es =~= seq![HsmsTransactionEffect::RecvComplete, HsmsTransactionEffect::ReplyRequired, HsmsTransactionEffect::TransactionEnd]);
            assert(es.drop_last() =~= seq![HsmsTransactionEffect::RecvComplete, HsmsTransactionEffect::ReplyRequired]);
            assert(es.drop_last().drop_last() =~= seq![HsmsTransactionEffect::RecvComplete]);
            assert(es.drop_last().drop_last().drop_last() =~= Seq::<HsmsTransactionEffect>::empty());
        } else {
            assert(es =~= seq![HsmsTransactionEffect::RecvComplete, HsmsTransactionEffect::TransactionEnd]);
            assert(es.drop_last() =~= seq![HsmsTransactionEffect::RecvComplete]);
            assert(es.drop_last().drop_last() =~= Seq::<HsmsTransactionEffect>::empty());
        }
    }
    assert(a.events =~= r.events);
    assert(a.txs =~= r.txs);
    assert(a.timers =~= r.timers);
}

impl HsmsMessageMachine {
    fn process_receive(&mut self, msg: HsmsMessage)
        requires
            old(self).wf(),
        ensures
            final(self).wf(),
            final(self).model() == receive_step(old(self).model(), msg.header),
            final(self).received() == old(self).received().push(msg@),
            final(self).pending_bytes() == old(self).pending_bytes(),
            final(self).partial_frame() == old(self).partial_frame(),
            final(self).unhandled() == old(self).unhandled(),
    {
        let header = msg.header;
        let transaction_key = Self::get_transaction_key(TransferContext::Recv, &header);
        if !self.transaction_manager.contains_key(&transaction_key) {
            let _ = self.transaction_manager.create_recv(&transaction_key);
        }
        assert(self.wf());
        let ghost m1 = self.model();
        assert(m1.txs.remove(transaction_key) =~= old(self).model().txs.remove(transaction_key));
        assert(receive_step(m1, header) == receive_step(old(self).model(), header));
        match self.transaction_manager.find(&transaction_key) {
            Some(transaction) => {
                transaction.handle_recv(&header);
                let outputs = Self::take_transaction_outputs(transaction);
                assert(outputs@ =~= receive_effects(header, transaction_key));
                assert(self.wf_except(transaction_key));
                let ghost m2 = self.model();
                assert(m2.txs =~= m1.txs.insert(transaction_key, m2.txs[transaction_key]));
                self.handle_transaction_outputs(outputs, &transaction_key);
                proof {
                    lemma_receive_effects(m2, header);
                    assert(receive_step(m2, header).txs =~= receive_step(m1, header).txs);
                    assert(receive_step(m2, header) == receive_step(m1, header));
                    assert(!self.transaction_manager@.dom().contains(transaction_key)) by {
                        assert(!self.model().txs.dom().contains(transaction_key));
                    }
                }
            },
            None => {},
        }
        let ghost q = self.outgoing_msgs@;
        self.outgoing_msgs.push_back(msg);
        assert(self.received() =~= old(self).received().push(msg@)) by {
            assert(message_views(q.push(msg)) =~= message_views(q).push(msg@));
        }
    }
}

proof fn lemma_apply_two(m: HsmsMachineModel, k: TransactionKey, e1: HsmsTransactionEffect, e2: HsmsTransactionEffect)
    ensures
        apply_effects(m, k, seq![e1, e2]) == effect_step(effect_step(m, k, e1), k, e2),
{
    reveal_with_fuel(apply_effects, 3);
    assert(seq![e1, e2].drop_last() =~= seq![e1]);
    assert(seq![e1].drop_last() =~= Seq::<HsmsTransactionEffect>::empty());
}

impl HsmsMessageMachine {
    fn process_signal(&mut self, signal: HsmsMessageSignal)
        requires
            old(self).wf(),
        ensures
            final(self).wf(),
            final(self).model() == signal_step(old(self).model(), signal),
            final(self).received() == old(self).received(),
            final(self).pending_bytes() == old(self).pending_bytes(),
            final(self).partial_frame() == old(self).partial_frame(),
            final(self).unhandled() == old(self).unhandled(),
    {
        let header = match signal {
            HsmsMessageSignal::SendSuccess(h) => h,
            HsmsMessageSignal::SendFailed(h) => h,
        };
        let transaction_key = Self::get_transaction_key(TransferContext::Send, &header);
        let ghost m0 = self.model();
        let ghost map0 = self.transaction_manager@;
        match self.transaction_manager.find(&transaction_key) {
            Some(transaction) => {
                assert(map0.dom().contains(transaction_key));
                assert(m0.txs[transaction_key] == (map0[transaction_key].current_state(), map0[transaction_key].expected()));
                let _ = transaction.handle_event(signal);
                let outputs = Self::take_transaction_outputs(transaction);
                let ghost m2 = self.model();
                let ghost map2 = self.transaction_manager@;
                assert(self.wf_except(transaction_key));
                let ghost es = outputs@;
                self.handle_transaction_outputs(outputs, &transaction_key);
                proof {
                    let k = transaction_key;
                    let r = signal_step(m0, signal);
                    match signal {
                        HsmsMessageSignal::SendFailed(_) => {
                            lemma_apply_two(m2, k, HsmsTransactionEffect::ErrorOccured(SecsTransportError::SendFailed(k)), HsmsTransactionEffect::TransactionEnd);
                            assert(self.model().txs =~= r.txs);
                            assert(self.model().events =~= r.events);
                            assert(!self.transaction_manager@.dom().contains(k)) by {
                                assert(!self.model().txs.dom().contains(k));
                            }
                        },
                        HsmsMessageSignal::SendSuccess(h) => {
                            if m0.txs[k].0 == HsmsTransactionState::Send && m0.txs[k].1 == Some(h) {
                                if expects_reply(h) {
                                    lemma_apply_two(m2, k, HsmsTransactionEffect::SendComplete, HsmsTransactionEffect::StartTimeout(SecsTimeoutUnit::T3(k)));
                                    assert(self.model().txs =~= r.txs);
                                    assert(self.model().timers =~= r.timers);
                                    assert(map2[k].current_state() == HsmsTransactionState::WaitRecv);
                                } else {
                                    lemma_apply_two(m2, k, HsmsTransactionEffect::SendComplete, HsmsTransactionEffect::TransactionEnd);
                                    assert(self.model().txs =~= r.txs);
                                    assert(self.model().events =~= r.events);
                                    assert(!self.transaction_manager@.dom().contains(k)) by {
                                        assert(!self.model().txs.dom().contains(k));
                                    }
                                }
                            } else {
                                assert(es =~= Seq::<HsmsTransactionEffect>::empty());
                                assert(self.model().txs =~= r.txs);
                                assert(map2[k].current_state() == map0[k].current_state());
                            }
                        },
                    }
                }
            },
            None => {},
        }
    }

    fn process_timeout(&mut self, ticket: TimeoutTicket)
        requires
            old(self).wf(),
        ensures
            final(self).wf(),
            final(self).model() == timeout_step(old(self).model(), ticket),
            final(self).received() == old(self).received(),
            final(self).pending_bytes() == old(self).pending_bytes(),
            final(self).partial_frame() == if old(self).model().timers.dom().contains(ticket.timeout)
                && old(self).model().timers[ticket.timeout] == ticket && ticket.timeout == SecsTimeoutUnit::T8 {
                Seq::<u8>::empty()
            } else {
                old(self).partial_frame()
            },
            final(self).unhandled() == old(self).unhandled(),
    {
        let expired_unit = ticket.timeout;
        if !self.timeout_manager.fire(&ticket) {
            return ;
        }
        let ghost m1 = self.model();
        match expired_unit {
            SecsTimeoutUnit::T3(key) => {
                let ghost map0 = self.transaction_manager@;
                match self.transaction_manager.find(&key) {
                    Some(transaction) => {
                        let _ = transaction.handle_timeout(expired_unit);
                        let outputs = Self::take_transaction_outputs(transaction);
                        let ghost m2 = self.model();
                        assert(self.wf_except(key));
                        self.handle_transaction_outputs(outputs, &key);
                        proof {
                            lemma_apply_two(m2, key, HsmsTransactionEffect::ErrorOccured(SecsTransportError::Timeout(expired_unit)), HsmsTransactionEffect::TransactionEnd);
                            let r = timeout_step(old(self).model(), ticket);
                            assert(self.model().txs =~= r.txs);
                            assert(self.model().events =~= r.events);
                            assert(!self.transaction_manager@.dom().contains(key)) by {
                                assert(!self.model().txs.dom().contains(key));
                            }
                        }
                    },
                    None => {},
                }
            },
            SecsTimeoutUnit::T8 => {
                self.msg_assembler.clear();
                self.emit_event(HsmsMessageEvent::ErrorOccured(SecsTransportError::RecvFailed));
            },
            _ => {},
        }
    }
}

impl HsmsMessageMachine {
    /// Takes received bytes: any running T8 stops; complete frames become
    /// messages, each closing its transaction; a malformed frame stops the
    /// read with its error and leaves the messages cut before it unhandled
    /// until the next read; a partial frame left over restarts T8.
    pub fn handle_read(&mut self, bytes: &[u8]) -> (r: Result<(), SecsTransportError>)
        requires
            old(self).wf(),
        ensures
            final(self).wf(),
            final(self).pending_bytes() == old(self).pending_bytes(),
            ({
                let m1 = HsmsMachineModel { timers: old(self).model().timers.remove(SecsTimeoutUnit::T8), ..old(self).model() };
                let a = assemble(old(self).partial_frame() + bytes@);
                let all = old(self).unhandled() + a.0;
                &&& final(self).partial_frame() == a.1
                &&& match a.2 {
                    Some(e) => {
                        &&& r == Err::<(), SecsTransportError>(e)
                        &&& final(self).model() == m1
                        &&& final(self).unhandled() == all
                        &&& final(self).received() == old(self).received()
                    },
                    None => {
                        &&& r == Ok::<(), SecsTransportError>(())
                        &&& final(self).unhandled() == Seq::<(HsmsHeader, Option<Seq<u8>>)>::empty()
                        &&& final(self).received() == old(self).received() + all
                        &&& final(self).model() == if a.1.len() > 0 {
                            issue_timer(receive_all(m1, all), SecsTimeoutUnit::T8)
                        } else {
                            receive_all(m1, all)
                        }
                    },
                }
            }),
    {
        self.cancel_timeout(SecsTimeoutUnit::T8);
        let ghost m1 = self.model();
        match self.msg_assembler.handle_read(bytes) {
            Ok(()) => {},
            Err(e) => {
                return Err(e);
            },
        }
        let ghost all = self.unhandled();
        let ghost mut n: int = 0;
        loop
            invariant_except_break
                self.wf(),
                0 <= n <= all.len(),
                self.unhandled() == all.skip(n),
                self.received() == old(self).received() + all.take(n),
                self.model() == receive_all(m1, all.take(n)),
                self.partial_frame() == assemble(old(self).partial_frame() + bytes@).1,
                self.pending_bytes() == old(self).pending_bytes(),
            ensures
                self.wf(),
                n == all.len(),
                self.unhandled().len() == 0,
                self.received() == old(self).received() + all.take(n),
                self.model() == receive_all(m1, all.take(n)),
                self.partial_frame() == assemble(old(self).partial_frame() + bytes@).1,
                self.pending_bytes() == old(self).pending_bytes(),
            decreases all.len() - n,
        {
            match self.msg_assembler.poll_message() {
                Some(msg) => {
                    assert(msg@ == all[n]);
                    self.process_receive(msg);
                    proof {
                        assert(all.take(n + 1).drop_last() =~= all.take(n));
                        assert(all.take(n + 1).last() == all[n]);
                        assert(self.received() =~= old(self).received() + all.take(n + 1));
                        assert(all.skip(n).drop_first() =~= all.skip(n + 1));
                        n = n + 1;
                    }
                },
                None => {
                    assert(all.skip(n).len() == 0);
                    break;
                },
            }
        }
        assert(all.take(n) =~= all);
        assert(self.unhandled() =~= Seq::<(HsmsHeader, Option<Seq<u8>>)>::empty());
        if self.msg_assembler.has_remained() {
            self.start_timeout(SecsTimeoutUnit::T8);
        }
        Ok(())
    }

    /// Takes the oldest received message.
    pub fn poll_read(&mut self) -> (r: Option<HsmsMessage>)
        requires
            old(self).wf(),
        ensures
            final(self).wf(),
            old(self).received().len() == 0 ==> r is None && final(self).received() == old(self).received(),
            old(self).received().len() > 0 ==> (r is Some && r->Some_0@ == old(self).received()[0]
                && final(self).received() == old(self).received().drop_first()),
            final(self).model() == old(self).model(),
            final(self).pending_bytes() == old(self).pending_bytes(),
            final(self).partial_frame() == old(self).partial_frame(),
            final(self).unhandled() == old(self).unhandled(),
    {
        let r = self.outgoing_msgs.pop_front();
        assert(self.received() =~= old(self).received().drop_first() || old(self).received().len() == 0);
        r
    }

    /// Queues a message: its frame joins the bytes to write (a message too
    /// long for a frame raises an error event instead) and its transaction opens.
    pub fn handle_write(&mut self, msg: HsmsMessage) -> (r: Result<(), SecsTransportError>)
        requires
            old(self).wf(),
        ensures
            r is Ok,
            final(self).wf(),
            final(self).model() == send_step(
                if message_fits(msg@) {
                    old(self).model()
                } else {
                    HsmsMachineModel {
                        events: old(self).model().events.push(
                            HsmsMessageEvent::ErrorOccured(SecsTransportError::InvalidBlockHeader),
                        ),
                        ..old(self).model()
                    }
                },
                msg.header,
            ),
            final(self).pending_bytes() == if message_fits(msg@) {
                old(self).pending_bytes() + frame_bytes(msg@)
            } else {
                old(self).pending_bytes()
            },
            final(self).received() == old(self).received(),
            final(self).partial_frame() == old(self).partial_frame(),
            final(self).unhandled() == old(self).unhandled(),
    {
        self.process_send(msg);
        Ok(())
    }

    /// Takes all bytes waiting to be written, or `None` when there are none.
    pub fn poll_write(&mut self) -> (r: Option<Vec<u8>>)
        requires
            old(self).wf(),
        ensures
            final(self).wf(),
            old(self).pending_bytes().len() == 0 ==> r is None,
            old(self).pending_bytes().len() > 0 ==> (r is Some && r->Some_0@ == old(self).pending_bytes()),
            final(self).pending_bytes() == Seq::<u8>::empty(),
            final(self).model() == old(self).model(),
            final(self).received() == old(self).received(),
            final(self).partial_frame() == old(self).partial_frame(),
            final(self).unhandled() == old(self).unhandled(),
    {
        let mut data: Vec<u8> = Vec::new();
        core::mem::swap(&mut data, &mut self.outgoing_buffer);
        if data.len() == 0 {
            None
        } else {
            Some(data)
        }
    }

    /// A timer expired; see `timeout_step`. An expired T8 also drops the
    /// partial frame.
    pub fn handle_timeout(&mut self, timeticket: TimeoutTicket) -> (r: Result<(), SecsTransportError>)
        requires
            old(self).wf(),
        ensures
            r is Ok,
            final(self).wf(),
            final(self).model() == timeout_step(old(self).model(), timeticket),
            final(self).received() == old(self).received(),
            final(self).pending_bytes() == old(self).pending_bytes(),
            final(self).partial_frame() == if old(self).model().timers.dom().contains(timeticket.timeout)
                && old(self).model().timers[timeticket.timeout] == timeticket && timeticket.timeout == SecsTimeoutUnit::T8 {
                Seq::<u8>::empty()
            } else {
                old(self).partial_frame()
            },
            final(self).unhandled() == old(self).unhandled(),
    {
        self.process_timeout(timeticket);
        Ok(())
    }

    /// Whether `ticket` is the live ticket of its timer.
    pub fn is_live(&self, ticket: &TimeoutTicket) -> (r: bool)
        requires
            self.wf(),
        ensures
            r == (self.model().timers.dom().contains(ticket.timeout) && self.model().timers[ticket.timeout] == *ticket),
    {
        self.timeout_manager.is_active(ticket)
    }

    /// Takes the oldest started timer.
    pub fn poll_timeout(&mut self) -> (r: Option<TimeoutTicket>)
        requires
            old(self).wf(),
        ensures
            final(self).wf(),
            old(self).model().timeouts.len() == 0 ==> r is None && final(self).model() == old(self).model(),
            old(self).model().timeouts.len() > 0 ==> r == Some(old(self).model().timeouts[0])
                && final(self).model() == (HsmsMachineModel { timeouts: old(self).model().timeouts.drop_first(), ..old(self).model() }),
            final(self).received() == old(self).received(),
            final(self).pending_bytes() == old(self).pending_bytes(),
            final(self).partial_frame() == old(self).partial_frame(),
            final(self).unhandled() == old(self).unhandled(),
    {
        let r = self.outgoing_timeouts.pop_front();
        assert(old(self).model().timeouts.len() > 0 ==> self.outgoing_timeouts@ =~= old(self).model().timeouts.drop_first());
        r
    }

    /// Reports the outcome of writing the frame of the message with the
    /// signal's header; see `signal_step`.
    pub fn handle_event(&mut self, signal: HsmsMessageSignal) -> (r: Result<(), SecsTransportError>)
        requires
            old(self).wf(),
        ensures
            r is Ok,
            final(self).wf(),
            final(self).model() == signal_step(old(self).model(), signal),
            final(self).received() == old(self).received(),
            final(self).pending_bytes() == old(self).pending_bytes(),
            final(self).partial_frame() == old(self).partial_frame(),
            final(self).unhandled() == old(self).unhandled(),
    {
        self.process_signal(signal);
        Ok(())
    }

    /// Takes the oldest event.
    pub fn poll_event(&mut self) -> (r: Option<HsmsMessageEvent>)
        requires
            old(self).wf(),
        ensures
            final(self).wf(),
            old(self).model().events.len() == 0 ==> r is None && final(self).model() == old(self).model(),
            old(self).model().events.len() > 0 ==> r == Some(old(self).model().events[0])
                && final(self).model() == (HsmsMachineModel { events: old(self).model().events.drop_first(), ..old(self).model() }),
            final(self).received() == old(self).received(),
            final(self).pending_bytes() == old(self).pending_bytes(),
            final(self).partial_frame() == old(self).partial_frame(),
            final(self).unhandled() == old(self).unhandled(),
    {
        let r = self.outgoing_events.pop_front();
        assert(old(self).model().events.len() > 0 ==> self.outgoing_events@ =~= old(self).model().events.drop_first());
        r
    }
}

/// A ticket that is not the live ticket of its timer, because the timer was
/// cancelled or restarted since, changes nothing.
pub proof fn lemma_stale_ticket_ignored(m: HsmsMachineModel, ticket: TimeoutTicket)
    requires
        !(m.timers.dom().contains(ticket.timeout) && m.timers[ticket.timeout] == ticket),
    ensures
        timeout_step(m, ticket) == m,
{
}

/// A reply received stops the reply timer of the transaction it answers and
/// closes that transaction.
pub proof fn lemma_reply_stops_t3(m: HsmsMachineModel, h: HsmsHeader)
    requires
        !is_primary_function(FunctionId(h.byte3)),
    ensures
        !receive_step(m, h).timers.dom().contains(
            SecsTimeoutUnit::T3(message_key(TransferContext::Recv, h)),
        ),
        !receive_step(m, h).txs.dom().contains(message_key(TransferContext::Recv, h)),
        message_key(TransferContext::Recv, h).owner == crate::common::TransactionOwner::Local,
{
}

} // verus!
