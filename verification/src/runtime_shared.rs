//! The state that a runtime shares with its handles: messages to send, the
//! calls waiting for their reply (with whoever waits for each), received
//! messages nobody has asked for yet, and those waiting to receive one.
//!
//! Waiters are opaque here: `R` stands for whoever waits for a reply and `W`
//! for whoever waits for the next received message. The operations say whom
//! to resolve or reject; doing it is up to the caller.
use vstd::prelude::*;

use std::collections::VecDeque;

use crate::common::{
    is_primary_function, SecsTimeoutUnit, SystemByte, SystemByteSource, TransactionKey,
    TransactionOwner,
};
use crate::keyed::KeyedVec;
use crate::runtime::{next_in_range, RuntimeMessage, Secs2Message};

verus! {

/// What a handle asks the runtime to do.
pub enum RuntimeCommand {
    /// Send `message`; `call` is its key when a reply is awaited.
    Send { message: RuntimeMessage, call: Option<TransactionKey> },
}

/// Whether a message waits for a reply: a primary with the W-bit set.
pub open spec fn waits_for_reply(msg: Secs2Message) -> bool {
    is_primary_function(msg.function) && msg.need_reply
}

/// The outcome of asking for the reply of a call.
pub enum RecvCall<R> {
    /// No call waits under that key: reject the asker.
    Unknown(R),
    /// The asker now waits for the reply.
    Registered,
    /// Another asker already waited: the new resolver is registered in its
    /// place and the earlier one is handed back. The host answers the new
    /// asker with a separate, rejected answer, so the reply resolves a
    /// resolver whose answer nobody holds.
    Replaced(R),
}

/// Where a received message goes.
pub enum Delivery<R, W> {
    /// It answers a call: resolve its waiter with the message.
    Reply(R, Secs2Message),
    /// It answers a call nobody waits on any more; it is dropped.
    Dropped,
    /// Someone waits to receive: resolve them with it.
    ToWaiter(W, RuntimeMessage),
    /// It waits in the inbox.
    Queued,
}

/// The state a runtime shares with its handles.
pub struct RuntimeShared<R, W> {
    system_bytes: SystemByteSource,
    commands: VecDeque<RuntimeCommand>,
    pending_calls: KeyedVec<Option<R>>,
    incomming_msgs: VecDeque<RuntimeMessage>,
    recv_waiters: VecDeque<W>,
}

impl<R, W> RuntimeShared<R, W> {
    pub closed spec fn wf(&self) -> bool {
        &&& self.system_bytes.wf()
        &&& self.pending_calls.wf()
    }

    /// Commands not yet carried out.
    pub closed spec fn commands(&self) -> Seq<RuntimeCommand> {
        self.commands@
    }

    /// The calls waiting for their reply, and who waits on each.
    pub closed spec fn calls(&self) -> Map<TransactionKey, Option<R>> {
        self.pending_calls@
    }

    /// Received messages nobody has asked for yet.
    pub closed spec fn inbox(&self) -> Seq<RuntimeMessage> {
        self.incomming_msgs@
    }

    /// Those waiting to receive a message, first come first served.
    pub closed spec fn waiters(&self) -> Seq<W> {
        self.recv_waiters@
    }

    /// The system byte of the next primary.
    pub closed spec fn next_system_byte(&self) -> u32 {
        self.system_bytes.next_value()
    }

    pub closed spec fn system_byte_range(&self) -> (u32, u32) {
        (self.system_bytes.min_value(), self.system_bytes.max_value())
    }

    pub fn new(system_bytes: SystemByteSource) -> (r: RuntimeShared<R, W>)
        requires
            system_bytes.wf(),
        ensures
            r.wf(),
            r.commands() == Seq::<RuntimeCommand>::empty(),
            r.calls() == Map::<TransactionKey, Option<R>>::empty(),
            r.inbox() == Seq::<RuntimeMessage>::empty(),
            r.waiters() == Seq::<W>::empty(),
            r.next_system_byte() == system_bytes.next_value(),
            r.system_byte_range() == (system_bytes.min_value(), system_bytes.max_value()),
    {
        RuntimeShared {
            system_bytes,
            commands: VecDeque::new(),
            pending_calls: KeyedVec::new(),
            incomming_msgs: VecDeque::new(),
            recv_waiters: VecDeque::new(),
        }
    }

    fn next_key(&mut self) -> (r: TransactionKey)
        requires
            old(self).wf(),
        ensures
            final(self).wf(),
            r == (TransactionKey { owner: TransactionOwner::Local, system_byte: SystemByte(old(self).next_system_byte()) }),
            final(self).next_system_byte() == next_in_range(old(self).next_system_byte(), old(self).system_byte_range()),
            final(self).system_byte_range() == old(self).system_byte_range(),
            final(self).commands() == old(self).commands(),
            final(self).calls() == old(self).calls(),
            final(self).inbox() == old(self).inbox(),
            final(self).waiters() == old(self).waiters(),
    {
        let system_byte = self.system_bytes.next_system_byte();
        TransactionKey::new(TransactionOwner::Local, system_byte)
    }

    /// Queues `message` under `key`. A message that waits for a reply opens
    /// a call under its key, with nobody waiting yet, and the key is returned.
    pub fn send_with_key(&mut self, key: TransactionKey, message: Secs2Message) -> (r: Option<TransactionKey>)
        requires
            old(self).wf(),
        ensures
            final(self).wf(),
            r == (if waits_for_reply(message) { Some(key) } else { None::<TransactionKey> }),
            final(self).calls() == if waits_for_reply(message) {
                old(self).calls().insert(key, None)
            } else {
                old(self).calls()
            },
            final(self).commands() == old(self).commands().push(
                RuntimeCommand::Send { message: RuntimeMessage { transaction_key: key, payload: message }, call: r },
            ),
            final(self).inbox() == old(self).inbox(),
            final(self).waiters() == old(self).waiters(),
            final(self).next_system_byte() == old(self).next_system_byte(),
            final(self).system_byte_range() == old(self).system_byte_range(),
    {
        let should_wait_reply = message.function.is_primary() && message.need_reply;
        let call_key = if should_wait_reply {
            Some(key)
        } else {
            None
        };
        let message = RuntimeMessage::new(key, message);
        if should_wait_reply {
            self.pending_calls.insert(key, None);
        }
        self.commands.push_back(RuntimeCommand::Send { message, call: call_key });
        call_key
    }

    /// Queues `message` as our next primary; see `send_with_key`.
    pub fn send(&mut self, message: Secs2Message) -> (r: Option<TransactionKey>)
        requires
            old(self).wf(),
        ensures
            final(self).wf(),
            ({
                let key = TransactionKey {
                    owner: TransactionOwner::Local,
                    system_byte: SystemByte(old(self).next_system_byte()),
                };
                &&& r == (if waits_for_reply(message) { Some(key) } else { None::<TransactionKey> })
                &&& final(self).calls() == if waits_for_reply(message) {
                    old(self).calls().insert(key, None)
                } else {
                    old(self).calls()
                }
                &&& final(self).commands() == old(self).commands().push(
                    RuntimeCommand::Send { message: RuntimeMessage { transaction_key: key, payload: message }, call: r },
                )
            }),
            final(self).inbox() == old(self).inbox(),
            final(self).waiters() == old(self).waiters(),
            final(self).next_system_byte() == next_in_range(old(self).next_system_byte(), old(self).system_byte_range()),
            final(self).system_byte_range() == old(self).system_byte_range(),
    {
        let key = self.next_key();
        self.send_with_key(key, message)
    }

    /// Queues `message` as our next primary for `resolver`, who then waits
    /// for its reply. A message that waits for no reply opens no call and
    /// `resolver` is handed back, to be rejected.
    pub fn request(&mut self, message: Secs2Message, resolver: R) -> (r: Option<R>)
        requires
            old(self).wf(),
        ensures
            final(self).wf(),
            ({
                let key = TransactionKey {
                    owner: TransactionOwner::Local,
                    system_byte: SystemByte(old(self).next_system_byte()),
                };
                let call = if waits_for_reply(message) { Some(key) } else { None::<TransactionKey> };
                &&& r == (if waits_for_reply(message) { None::<R> } else { Some(resolver) })
                &&& final(self).calls() == if waits_for_reply(message) {
                    old(self).calls().insert(key, Some(resolver))
                } else {
                    old(self).calls()
                }
                &&& final(self).commands() == old(self).commands().push(
                    RuntimeCommand::Send { message: RuntimeMessage { transaction_key: key, payload: message }, call },
                )
            }),
            final(self).inbox() == old(self).inbox(),
            final(self).waiters() == old(self).waiters(),
            final(self).next_system_byte() == next_in_range(old(self).next_system_byte(), old(self).system_byte_range()),
            final(self).system_byte_range() == old(self).system_byte_range(),
    {
        let key = self.next_key();
        let should_wait_reply = message.function.is_primary() && message.need_reply;
        let message = RuntimeMessage::new(key, message);
        let rejected = if should_wait_reply {
            self.pending_calls.insert(key, Some(resolver));
            None
        } else {
            Some(resolver)
        };
        let call = if should_wait_reply {
            Some(key)
        } else {
            None
        };
        self.commands.push_back(RuntimeCommand::Send { message, call });
        rejected
    }

    /// A message arrived that answers no call: the first waiter gets it, or
    /// it waits in the inbox.
    pub fn push_incomming(&mut self, message: RuntimeMessage) -> (r: Option<(W, RuntimeMessage)>)
        requires
            old(self).wf(),
        ensures
            final(self).wf(),
            old(self).waiters().len() > 0 ==> r == Some((old(self).waiters()[0], message))
                && final(self).waiters() == old(self).waiters().drop_first() && final(self).inbox() == old(self).inbox(),
            old(self).waiters().len() == 0 ==> r is None && final(self).inbox() == old(self).inbox().push(message)
                && final(self).waiters() == old(self).waiters(),
            final(self).calls() == old(self).calls(),
            final(self).commands() == old(self).commands(),
            final(self).next_system_byte() == old(self).next_system_byte(),
            final(self).system_byte_range() == old(self).system_byte_range(),
    {
        let message = RuntimeMessage::new(message.transaction_key, message.payload);
        match self.recv_waiters.pop_front() {
            Some(w) => Some((w, message)),
            None => {
                self.incomming_msgs.push_back(message);
                None
            },
        }
    }

    /// `waiter` asks for the next received message: it gets the oldest in
    /// the inbox, or waits for one.
    pub fn recv(&mut self, waiter: W) -> (r: Option<(W, RuntimeMessage)>)
        requires
            old(self).wf(),
        ensures
            final(self).wf(),
            old(self).inbox().len() > 0 ==> r == Some((waiter, old(self).inbox()[0])) && final(self).inbox()
                == old(self).inbox().drop_first() && final(self).waiters() == old(self).waiters(),
            old(self).inbox().len() == 0 ==> r is None && final(self).waiters() == old(self).waiters().push(waiter)
                && final(self).inbox() == old(self).inbox(),
            final(self).calls() == old(self).calls(),
            final(self).commands() == old(self).commands(),
            final(self).next_system_byte() == old(self).next_system_byte(),
            final(self).system_byte_range() == old(self).system_byte_range(),
    {
        match self.incomming_msgs.pop_front() {
            Some(message) => Some((waiter, message)),
            None => {
                self.recv_waiters.push_back(waiter);
                None
            },
        }
    }

    /// `resolver` asks for the reply of the call `key`.
    pub fn recv_call(&mut self, key: TransactionKey, resolver: R) -> (r: RecvCall<R>)
        requires
            old(self).wf(),
        ensures
            final(self).wf(),
            !old(self).calls().dom().contains(key) ==> r == RecvCall::Unknown(resolver) && final(self).calls()
                == old(self).calls(),
            old(self).calls().dom().contains(key) ==> {
                &&& final(self).calls() == old(self).calls().insert(key, Some(resolver))
                &&& r == match old(self).calls()[key] {
                    Some(earlier) => RecvCall::Replaced(earlier),
                    None => RecvCall::<R>::Registered,
                }
            },
            final(self).inbox() == old(self).inbox(),
            final(self).waiters() == old(self).waiters(),
            final(self).commands() == old(self).commands(),
            final(self).next_system_byte() == old(self).next_system_byte(),
            final(self).system_byte_range() == old(self).system_byte_range(),
    {
        if !self.pending_calls.contains_key(key) {
            return RecvCall::Unknown(resolver);
        }
        match self.pending_calls.insert(key, Some(resolver)) {
            Some(Some(earlier)) => RecvCall::Replaced(earlier),
            _ => RecvCall::Registered,
        }
    }

    /// A message arrived: a reply to a waiting call closes the call and goes
    /// to its waiter, if any; any other message goes to the first waiter or
    /// the inbox.
    pub fn deliver(&mut self, message: RuntimeMessage) -> (r: Delivery<R, W>)
        requires
            old(self).wf(),
        ensures
            final(self).wf(),
            final(self).commands() == old(self).commands(),
            final(self).next_system_byte() == old(self).next_system_byte(),
            final(self).system_byte_range() == old(self).system_byte_range(),
            old(self).calls().dom().contains(message.transaction_key) ==> {
                &&& final(self).calls() == old(self).calls().remove(message.transaction_key)
                &&& final(self).inbox() == old(self).inbox()
                &&& final(self).waiters() == old(self).waiters()
                &&& r == match old(self).calls()[message.transaction_key] {
                    Some(res) => Delivery::<R, W>::Reply(res, message.payload),
                    None => Delivery::<R, W>::Dropped,
                }
            },
            !old(self).calls().dom().contains(message.transaction_key) ==> {
                &&& final(self).calls() == old(self).calls()
                &&& old(self).waiters().len() > 0 ==> r == Delivery::<R, W>::ToWaiter(old(self).waiters()[0], message)
                    && final(self).waiters() == old(self).waiters().drop_first() && final(self).inbox() == old(self).inbox()
                &&& old(self).waiters().len() == 0 ==> r == Delivery::<R, W>::Queued && final(self).inbox()
                    == old(self).inbox().push(message) && final(self).waiters() == old(self).waiters()
            },
    {
        let key = message.transaction_key;
        match self.pending_calls.remove(key) {
            Some(pending) => match pending {
                Some(resolver) => Delivery::Reply(resolver, message.into_payload()),
                None => Delivery::Dropped,
            },
            None => match self.push_incomming(message) {
                Some((w, m)) => Delivery::ToWaiter(w, m),
                None => Delivery::Queued,
            },
        }
    }

    /// A timer expired: T3 ends its own call, T6, T7 and T8 end every call.
    /// The waiters of the ended calls are returned, to be rejected.
    pub fn expire(&mut self, timeout: SecsTimeoutUnit) -> (r: Vec<R>)
        requires
            old(self).wf(),
        ensures
            final(self).wf(),
            final(self).commands() == old(self).commands(),
            final(self).inbox() == old(self).inbox(),
            final(self).waiters() == old(self).waiters(),
            final(self).next_system_byte() == old(self).next_system_byte(),
            final(self).system_byte_range() == old(self).system_byte_range(),
            match timeout {
                SecsTimeoutUnit::T3(key) => {
                    &&& final(self).calls() == old(self).calls().remove(key)
                    &&& r@ == if old(self).calls().dom().contains(key) && old(self).calls()[key] is Some {
                        seq![old(self).calls()[key]->Some_0]
                    } else {
                        Seq::<R>::empty()
                    }
                },
                SecsTimeoutUnit::T6 | SecsTimeoutUnit::T7 | SecsTimeoutUnit::T8 => {
                    &&& final(self).calls() == Map::<TransactionKey, Option<R>>::empty()
                    &&& forall|k: TransactionKey| #[trigger] old(self).calls().dom().contains(k) && old(self).calls()[k] is Some
                        ==> r@.contains(old(self).calls()[k]->Some_0)
                    &&& forall|i: int| 0 <= i < r@.len() ==> old(self).calls().contains_value(Some(#[trigger] r@[i]))
                },
                _ => final(self).calls() == old(self).calls() && r@.len() == 0,
            },
    {
        match timeout {
            SecsTimeoutUnit::T3(key) => {
                let mut out: Vec<R> = Vec::new();
                match self.pending_calls.remove(key) {
                    Some(Some(resolver)) => out.push(resolver),
                    _ => {},
                }
                out
            },
            SecsTimeoutUnit::T6 | SecsTimeoutUnit::T7 | SecsTimeoutUnit::T8 => {
                let all = self.pending_calls.take_all();
                let ghost all_v = all@;
                let mut out: Vec<R> = Vec::new();
                let mut rest = all;
                let ghost mut taken: int = 0;
                while rest.len() > 0
                    invariant
                        0 <= taken <= all_v.len(),
                        rest@ == all_v.skip(taken),
                        forall|j: int| 0 <= j < taken && all_v[j] is Some ==> out@.contains(#[trigger] all_v[j]->Some_0),
                        forall|i: int| 0 <= i < out@.len() ==> all_v.contains(Some(#[trigger] out@[i])),
                    decreases rest@.len(),
                {
                    let v = rest.remove(0);
                    assert(v == all_v[taken]);
                    assert(rest@ =~= all_v.skip(taken + 1));
                    let ghost before = out@;
                    match v {
                        Some(resolver) => {
                            out.push(resolver);
                        },
                        None => {},
                    }
                    assert forall|j: int| 0 <= j < taken + 1 && all_v[j] is Some implies out@.contains(
                        #[trigger] all_v[j]->Some_0,
                    ) by {
                        if j < taken {
                            let idx = choose|idx: int| 0 <= idx < before.len() && before[idx] == all_v[j]->Some_0;
                            assert(out@[idx] == before[idx]);
                        } else {
                            assert(out@[out@.len() - 1] == all_v[j]->Some_0);
                        }
                    }
                    assert forall|i: int| 0 <= i < out@.len() implies all_v.contains(Some(#[trigger] out@[i])) by {
                        if i < before.len() {
                            assert(out@[i] == before[i]);
                        } else {
                            assert(all_v[taken] == Some(out@[i]));
                        }
                    }
                    proof {
                        taken = taken + 1;
                    }
                }
                assert forall|k: TransactionKey| #[trigger] old(self).calls().dom().contains(k) && old(self).calls()[k] is Some
                    implies out@.contains(old(self).calls()[k]->Some_0) by {
                    let j = choose|j: int| 0 <= j < all_v.len() && all_v[j] == old(self).calls()[k];
                    assert(all_v[j] is Some);
                }
                assert forall|i: int| 0 <= i < out@.len() implies old(self).calls().contains_value(Some(#[trigger] out@[i])) by {
                    let j = choose|j: int| 0 <= j < all_v.len() && all_v[j] == Some(out@[i]);
                    assert(old(self).calls().contains_value(all_v[j]));
                }
                out
            },
            _ => Vec::new(),
        }
    }

    /// Takes the oldest command.
    pub fn pop_command(&mut self) -> (r: Option<RuntimeCommand>)
        requires
            old(self).wf(),
        ensures
            final(self).wf(),
            old(self).commands().len() == 0 ==> r is None && final(self).commands() == old(self).commands(),
            old(self).commands().len() > 0 ==> r == Some(old(self).commands()[0]) && final(self).commands()
                == old(self).commands().drop_first(),
            final(self).calls() == old(self).calls(),
            final(self).inbox() == old(self).inbox(),
            final(self).waiters() == old(self).waiters(),
            final(self).next_system_byte() == old(self).next_system_byte(),
            final(self).system_byte_range() == old(self).system_byte_range(),
    {
        let r = self.commands.pop_front();
        assert(old(self).commands().len() > 0 ==> self.commands@ =~= old(self).commands().drop_first());
        r
    }

    /// Sending the message of the call `key` failed: the call ends, and its
    /// waiter, if any, is returned to be rejected.
    pub fn fail_call(&mut self, key: TransactionKey) -> (r: Option<R>)
        requires
            old(self).wf(),
        ensures
            final(self).wf(),
            final(self).calls() == old(self).calls().remove(key),
            r == if old(self).calls().dom().contains(key) { old(self).calls()[key] } else { None::<R> },
            final(self).commands() == old(self).commands(),
            final(self).inbox() == old(self).inbox(),
            final(self).waiters() == old(self).waiters(),
            final(self).next_system_byte() == old(self).next_system_byte(),
            final(self).system_byte_range() == old(self).system_byte_range(),
    {
        match self.pending_calls.remove(key) {
            Some(pending) => pending,
            None => None,
        }
    }
}

/// A reply reaches whoever requested it: after a request under `key` for
/// `resolver`, a message with that key is delivered to `resolver`, and the
/// call is over.
pub proof fn lemma_reply_reaches_requester<R>(calls: Map<TransactionKey, Option<R>>, key: TransactionKey, resolver: R)
    ensures
        calls.insert(key, Some(resolver)).dom().contains(key),
        calls.insert(key, Some(resolver))[key] == Some(resolver),
        !calls.insert(key, Some(resolver)).remove(key).dom().contains(key),
{
}

} // verus!
