//! One HSMS message exchange (send or receive, with the reply timer) and the
//! table of open exchanges.
use vstd::prelude::*;

use crate::common::{is_primary_function, reply_function, SecsTimeoutUnit, TransactionKey};
use crate::error::SecsTransportError;
use crate::hsms::{header_need_reply, HsmsHeader};

verus! {

/// Progress of a transaction.
#[derive(Debug, Clone, Copy, PartialEq, Eq, Structural)]
pub enum HsmsTransactionState {
    /// Created, nothing done yet.
    Idle,
    /// The message is being sent.
    Send,
    /// A primary was sent; waiting for the reply under T3.
    WaitRecv,
    /// A message is being received.
    Recv,
    /// Finished.
    End,
}

impl HsmsTransactionState {
    pub fn name(&self) -> (r: &'static str)
        ensures
            r@ == match *self {
                HsmsTransactionState::Idle => "IDLE"@,
                HsmsTransactionState::Send => "SEND"@,
                HsmsTransactionState::WaitRecv => "WAIT_RECV"@,
                HsmsTransactionState::Recv => "RECV"@,
                HsmsTransactionState::End => "END"@,
            },
    {
        match self {
            HsmsTransactionState::Idle => "IDLE",
            HsmsTransactionState::Send => "SEND",
            HsmsTransactionState::WaitRecv => "WAIT_RECV",
            HsmsTransactionState::Recv => "RECV",
            HsmsTransactionState::End => "END",
        }
    }

    pub fn new_send() -> (r: HsmsTransactionState)
        ensures
            r == HsmsTransactionState::Send,
    {
        HsmsTransactionState::Send
    }

    pub fn new_recv() -> (r: HsmsTransactionState)
        ensures
            r == HsmsTransactionState::Recv,
    {
        HsmsTransactionState::Recv
    }
}

/// What a transaction asks its machine to do.
#[derive(Debug, PartialEq, Eq)]
pub enum HsmsTransactionEffect {
    StartTimeout(SecsTimeoutUnit),
    ClearTimeout(SecsTimeoutUnit),
    ErrorOccured(SecsTransportError),
    SendComplete,
    RecvComplete,
    /// The received primary asks for a reply.
    ReplyRequired,
    TransactionEnd,
}

/// What the machine tells a transaction about its message.
#[derive(Debug, Clone, Copy, PartialEq, Eq, Structural)]
pub enum HsmsMessageSignal {
    SendSuccess(HsmsHeader),
    SendFailed(HsmsHeader),
}

/// The header a reply to the primary `h` must carry: `h` with the reply function.
pub open spec fn reply_header(h: HsmsHeader) -> HsmsHeader {
    HsmsHeader { byte3: reply_function(crate::common::FunctionId(h.byte3)).0, ..h }
}

/// Whether a header is a primary that asks for a reply.
pub open spec fn expects_reply(h: HsmsHeader) -> bool {
    is_primary_function(crate::common::FunctionId(h.byte3)) && header_need_reply(h)
}

/// One message exchange.
pub struct HsmsMessageTransaction {
    id: TransactionKey,
    state: HsmsTransactionState,
    /// The header a successful send is checked against.
    expected_header: Option<HsmsHeader>,
    outgoing_effects: std::collections::VecDeque<HsmsTransactionEffect>,
}

impl HsmsMessageTransaction {
    /// Effects raised and not yet taken.
    pub closed spec fn effects(&self) -> Seq<HsmsTransactionEffect> {
        self.outgoing_effects@
    }

    /// Progress of this transaction.
    pub closed spec fn current_state(&self) -> HsmsTransactionState {
        self.state
    }

    pub fn state(&self) -> (r: HsmsTransactionState)
        ensures
            r == self.current_state(),
    {
        self.state
    }

    /// The key of this transaction.
    pub closed spec fn key(&self) -> TransactionKey {
        self.id
    }

    /// The header a successful send is checked against.
    pub closed spec fn expected(&self) -> Option<HsmsHeader> {
        self.expected_header
    }

    fn new(id: TransactionKey) -> (r: HsmsMessageTransaction)
        ensures
            r.key() == id,
            r.current_state() == HsmsTransactionState::Idle,
            r.expected() is None,
            r.effects() == Seq::<HsmsTransactionEffect>::empty(),
    {
        HsmsMessageTransaction {
            id,
            state: HsmsTransactionState::Idle,
            expected_header: None,
            outgoing_effects: std::collections::VecDeque::new(),
        }
    }

    /// A transaction for a message about to be sent with `header`.
    pub fn new_send(id: TransactionKey, header: HsmsHeader) -> (r: HsmsMessageTransaction)
        ensures
            r.key() == id,
            r.current_state() == HsmsTransactionState::Send,
            r.expected() == Some(header),
            r.effects() == Seq::<HsmsTransactionEffect>::empty(),
    {
        let mut tx = Self::new(id);
        tx.enter_send(&header);
        tx
    }

    /// A transaction for a message being received.
    pub fn new_recv(id: TransactionKey) -> (r: HsmsMessageTransaction)
        ensures
            r.key() == id,
            r.current_state() == HsmsTransactionState::Recv,
            r.expected() is None,
            r.effects() == Seq::<HsmsTransactionEffect>::empty(),
    {
        let mut tx = Self::new(id);
        tx.enter_recv();
        tx
    }

    /// A message of this exchange arrived: a reply stops T3; the transaction
    /// completes, and asks for a reply when the message is a primary that wants one.
    pub fn handle_recv(&mut self, header: &HsmsHeader)
        ensures
            final(self).key() == old(self).key(),
            final(self).current_state() == HsmsTransactionState::End,
            final(self).expected() == old(self).expected(),
            final(self).effects() == old(self).effects() + (if !is_primary_function(
                crate::common::FunctionId(header.byte3),
            ) {
                seq![HsmsTransactionEffect::ClearTimeout(SecsTimeoutUnit::T3(old(self).key()))]
            } else {
                Seq::empty()
            }) + seq![HsmsTransactionEffect::RecvComplete] + (if expects_reply(*header) {
                seq![HsmsTransactionEffect::ReplyRequired]
            } else {
                Seq::empty()
            }) + seq![HsmsTransactionEffect::TransactionEnd],
    {
        if matches!(self.state, HsmsTransactionState::WaitRecv) {
            self.enter_recv();
        }
        if header.function().is_secondary() {
            self.cancel_reply_timer();
        }
        self.emit_effect(HsmsTransactionEffect::RecvComplete);
        if header.function().is_primary() && header.need_reply() {
            self.emit_effect(HsmsTransactionEffect::ReplyRequired);
        }
        self.enter_end();
        assert(self.effects() =~= old(self).effects() + (if !is_primary_function(
            crate::common::FunctionId(header.byte3),
        ) {
            seq![HsmsTransactionEffect::ClearTimeout(SecsTimeoutUnit::T3(old(self).key()))]
        } else {
            Seq::empty()
        }) + seq![HsmsTransactionEffect::RecvComplete] + (if expects_reply(*header) {
            seq![HsmsTransactionEffect::ReplyRequired]
        } else {
            Seq::empty()
        }) + seq![HsmsTransactionEffect::TransactionEnd]);
    }

    /// The outcome of sending the message: a failure ends the exchange with an
    /// error; a success is taken only while sending and for the expected
    /// header, and then waits for the reply under T3 or ends.
    pub fn handle_signal(&mut self, signal: HsmsMessageSignal)
        ensures
            final(self).key() == old(self).key(),
            match signal {
                HsmsMessageSignal::SendFailed(_) => {
                    &&& final(self).current_state() == HsmsTransactionState::End
                    &&& final(self).expected() == old(self).expected()
                    &&& final(self).effects() == old(self).effects() + seq![
                        HsmsTransactionEffect::ErrorOccured(
                            SecsTransportError::SendFailed(old(self).key()),
                        ),
                        HsmsTransactionEffect::TransactionEnd,
                    ]
                },
                HsmsMessageSignal::SendSuccess(h) => if old(self).current_state()
                    == HsmsTransactionState::Send && old(self).expected() == Some(h) {
                    if expects_reply(h) {
                        &&& final(self).current_state() == HsmsTransactionState::WaitRecv
                        &&& final(self).expected() == Some(reply_header(h))
                        &&& final(self).effects() == old(self).effects() + seq![
                            HsmsTransactionEffect::SendComplete,
                            HsmsTransactionEffect::StartTimeout(SecsTimeoutUnit::T3(old(self).key())),
                        ]
                    } else {
                        &&& final(self).current_state() == HsmsTransactionState::End
                        &&& final(self).expected() == old(self).expected()
                        &&& final(self).effects() == old(self).effects() + seq![
                            HsmsTransactionEffect::SendComplete,
                            HsmsTransactionEffect::TransactionEnd,
                        ]
                    }
                } else {
                    &&& final(self).current_state() == old(self).current_state()
                    &&& final(self).expected() == old(self).expected()
                    &&& final(self).effects() == old(self).effects()
                },
            },
    {
        match signal {
            HsmsMessageSignal::SendSuccess(header) => {
                self.on_send(&header);
            },
            HsmsMessageSignal::SendFailed(_header) => {
                self.emit_effect(
                    HsmsTransactionEffect::ErrorOccured(SecsTransportError::SendFailed(self.id)),
                );
                self.enter_end();
                assert(self.effects() =~= old(self).effects() + seq![
                    HsmsTransactionEffect::ErrorOccured(SecsTransportError::SendFailed(old(self).key())),
                    HsmsTransactionEffect::TransactionEnd,
                ]);
            },
        }
    }

    fn enter_end(&mut self)
        ensures
            final(self).key() == old(self).key(),
            final(self).current_state() == HsmsTransactionState::End,
            final(self).expected() == old(self).expected(),
            final(self).effects() == old(self).effects().push(
                HsmsTransactionEffect::TransactionEnd,
            ),
    {
        self.state = HsmsTransactionState::End;
        self.emit_effect(HsmsTransactionEffect::TransactionEnd);
    }

    fn enter_wait_recv(&mut self, header: &HsmsHeader)
        ensures
            final(self).key() == old(self).key(),
            final(self).current_state() == HsmsTransactionState::WaitRecv,
            final(self).expected() == Some(reply_header(*header)),
            final(self).effects() == old(self).effects().push(
                HsmsTransactionEffect::StartTimeout(SecsTimeoutUnit::T3(old(self).key())),
            ),
    {
        self.state = HsmsTransactionState::WaitRecv;
        self.set_reply_timer(header);
    }

    fn enter_send(&mut self, header: &HsmsHeader)
        ensures
            final(self).key() == old(self).key(),
            final(self).current_state() == HsmsTransactionState::Send,
            final(self).expected() == Some(*header),
            final(self).effects() == old(self).effects(),
    {
        self.expected_header = Some(*header);
        self.state = HsmsTransactionState::new_send();
    }

    fn enter_recv(&mut self)
        ensures
            final(self).key() == old(self).key(),
            final(self).current_state() == HsmsTransactionState::Recv,
            final(self).expected() == old(self).expected(),
            final(self).effects() == old(self).effects(),
    {
        self.state = HsmsTransactionState::new_recv();
    }

    fn on_send(&mut self, header: &HsmsHeader)
        ensures
            final(self).key() == old(self).key(),
            if old(self).current_state() == HsmsTransactionState::Send && old(self).expected() == Some(
                *header,
            ) {
                if expects_reply(*header) {
                    &&& final(self).current_state() == HsmsTransactionState::WaitRecv
                    &&& final(self).expected() == Some(reply_header(*header))
                    &&& final(self).effects() == old(self).effects() + seq![
                        HsmsTransactionEffect::SendComplete,
                        HsmsTransactionEffect::StartTimeout(SecsTimeoutUnit::T3(old(self).key())),
                    ]
                } else {
                    &&& final(self).current_state() == HsmsTransactionState::End
                    &&& final(self).expected() == old(self).expected()
                    &&& final(self).effects() == old(self).effects() + seq![
                        HsmsTransactionEffect::SendComplete,
                        HsmsTransactionEffect::TransactionEnd,
                    ]
                }
            } else {
                &&& final(self).current_state() == old(self).current_state()
                &&& final(self).expected() == old(self).expected()
                &&& final(self).effects() == old(self).effects()
            },
    {
        if !matches!(self.state, HsmsTransactionState::Send) {
            return ;
        }
        match self.expected_header {
            Some(ex_header) => {
                if !(ex_header == *header) {
                    return ;
                }
            },
            None => {
                return ;
            },
        }
        self.emit_effect(HsmsTransactionEffect::SendComplete);
        if header.function().is_primary() && header.need_reply() {
            self.enter_wait_recv(header);
            assert(self.effects() =~= old(self).effects() + seq![
                HsmsTransactionEffect::SendComplete,
                HsmsTransactionEffect::StartTimeout(SecsTimeoutUnit::T3(old(self).key())),
            ]);
        } else {
            self.enter_end();
            assert(self.effects() =~= old(self).effects() + seq![
                HsmsTransactionEffect::SendComplete,
                HsmsTransactionEffect::TransactionEnd,
            ]);
        }
    }

    fn emit_effect(&mut self, effect: HsmsTransactionEffect)
        ensures
            final(self).key() == old(self).key(),
            final(self).current_state() == old(self).current_state(),
            final(self).expected() == old(self).expected(),
            final(self).effects() == old(self).effects().push(effect),
    {
        self.outgoing_effects.push_back(effect);
    }

    /// Whether `actual` answers the exchange that expects `expected`: same
    /// stream, function, session and system byte.
    pub fn is_expected_header_for_reply(expected: &HsmsHeader, actual: &HsmsHeader) -> (r: bool)
        ensures
            r == (expected.byte2 % 128 == actual.byte2 % 128 && expected.byte3 == actual.byte3
                && expected.session_id == actual.session_id && expected.system_byte
                == actual.system_byte),
    {
        expected.stream() == actual.stream() && expected.function() == actual.function()
            && expected.session_id == actual.session_id && expected.system_byte
            == actual.system_byte
    }

    fn set_reply_timer(&mut self, header: &HsmsHeader)
        ensures
            final(self).key() == old(self).key(),
            final(self).current_state() == old(self).current_state(),
            final(self).expected() == Some(reply_header(*header)),
            final(self).effects() == old(self).effects().push(
                HsmsTransactionEffect::StartTimeout(SecsTimeoutUnit::T3(old(self).key())),
            ),
    {
        self.emit_effect(HsmsTransactionEffect::StartTimeout(SecsTimeoutUnit::T3(self.id)));
        self.expected_header = Some(HsmsHeader { byte3: header.function().reply().0, ..*header });
    }

    fn cancel_reply_timer(&mut self)
        ensures
            final(self).key() == old(self).key(),
            final(self).current_state() == old(self).current_state(),
            final(self).expected() == old(self).expected(),
            final(self).effects() == old(self).effects().push(
                HsmsTransactionEffect::ClearTimeout(SecsTimeoutUnit::T3(old(self).key())),
            ),
    {
        self.emit_effect(HsmsTransactionEffect::ClearTimeout(SecsTimeoutUnit::T3(self.id)));
    }

    fn on_timeout(&mut self, timeout: SecsTimeoutUnit)
        ensures
            final(self).key() == old(self).key(),
            final(self).expected() == old(self).expected(),
            old(self).current_state() == HsmsTransactionState::End ==> final(self).current_state()
                == HsmsTransactionState::End && final(self).effects() == old(self).effects(),
            old(self).current_state() != HsmsTransactionState::End ==> final(self).current_state()
                == HsmsTransactionState::End && final(self).effects() == old(self).effects() + seq![
                HsmsTransactionEffect::ErrorOccured(SecsTransportError::Timeout(timeout)),
                HsmsTransactionEffect::TransactionEnd,
            ],
    {
        if matches!(self.state, HsmsTransactionState::End) {
            return ;
        }
        self.emit_effect(HsmsTransactionEffect::ErrorOccured(SecsTransportError::Timeout(timeout)));
        self.enter_end();
        assert(self.effects() =~= old(self).effects() + seq![
            HsmsTransactionEffect::ErrorOccured(SecsTransportError::Timeout(timeout)),
            HsmsTransactionEffect::TransactionEnd,
        ]);
    }

    /// Same as `handle_signal`; never fails.
    pub fn handle_event(&mut self, signal: HsmsMessageSignal) -> (r: Result<(), SecsTransportError>)
        ensures
            r is Ok,
            final(self).key() == old(self).key(),
            match signal {
                HsmsMessageSignal::SendFailed(_) => {
                    &&& final(self).current_state() == HsmsTransactionState::End
                    &&& final(self).expected() == old(self).expected()
                    &&& final(self).effects() == old(self).effects() + seq![
                        HsmsTransactionEffect::ErrorOccured(
                            SecsTransportError::SendFailed(old(self).key()),
                        ),
                        HsmsTransactionEffect::TransactionEnd,
                    ]
                },
                HsmsMessageSignal::SendSuccess(h) => if old(self).current_state()
                    == HsmsTransactionState::Send && old(self).expected() == Some(h) {
                    if expects_reply(h) {
                        &&& final(self).current_state() == HsmsTransactionState::WaitRecv
                        &&& final(self).expected() == Some(reply_header(h))
                        &&& final(self).effects() == old(self).effects() + seq![
                            HsmsTransactionEffect::SendComplete,
                            HsmsTransactionEffect::StartTimeout(SecsTimeoutUnit::T3(old(self).key())),
                        ]
                    } else {
                        &&& final(self).current_state() == HsmsTransactionState::End
                        &&& final(self).expected() == old(self).expected()
                        &&& final(self).effects() == old(self).effects() + seq![
                            HsmsTransactionEffect::SendComplete,
                            HsmsTransactionEffect::TransactionEnd,
                        ]
                    }
                } else {
                    &&& final(self).current_state() == old(self).current_state()
                    &&& final(self).expected() == old(self).expected()
                    &&& final(self).effects() == old(self).effects()
                },
            },
    {
        self.handle_signal(signal);
        Ok(())
    }

    /// Takes the oldest effect.
    pub fn poll_event(&mut self) -> (r: Option<HsmsTransactionEffect>)
        ensures
            final(self).key() == old(self).key(),
            final(self).current_state() == old(self).current_state(),
            final(self).expected() == old(self).expected(),
            old(self).effects().len() == 0 ==> r is None && final(self).effects() == old(self).effects(),
            old(self).effects().len() > 0 ==> r == Some(old(self).effects()[0]) && final(self).effects() == old(self).effects().drop_first(),
    {
        let r = self.outgoing_effects.pop_front();
        proof {
            if old(self).effects().len() > 0 {
                assert(self.effects() =~= old(self).effects().drop_first());
            }
        }
        r
    }

    /// A timer of this exchange expired: an open exchange ends with a timeout
    /// error, a finished one ignores it.
    pub fn handle_timeout(&mut self, now: SecsTimeoutUnit) -> (r: Result<(), SecsTransportError>)
        ensures
            r is Ok,
            final(self).key() == old(self).key(),
            final(self).expected() == old(self).expected(),
            final(self).current_state() == HsmsTransactionState::End,
            old(self).current_state() == HsmsTransactionState::End ==> final(self).effects() == old(self).effects(),
            old(self).current_state() != HsmsTransactionState::End ==> final(self).effects() == old(self).effects() + seq![
                HsmsTransactionEffect::ErrorOccured(SecsTransportError::Timeout(now)),
                HsmsTransactionEffect::TransactionEnd,
            ],
    {
        self.on_timeout(now);
        Ok(())
    }
}

/// Whether some transaction of `s` has key `key`.
pub open spec fn has_key(s: Seq<HsmsMessageTransaction>, key: TransactionKey) -> bool {
    exists|i: int| 0 <= i < s.len() && s[i].key() == key
}

/// No two transactions of `s` share a key.
pub open spec fn keys_distinct(s: Seq<HsmsMessageTransaction>) -> bool {
    forall|i: int, j: int|
        0 <= i < s.len() && 0 <= j < s.len() && i != j ==> s[i].key() != s[j].key()
}

/// The transactions of `s` by key.
pub open spec fn tx_map(s: Seq<HsmsMessageTransaction>) -> Map<TransactionKey, HsmsMessageTransaction> {
    Map::new(
        |k: TransactionKey| has_key(s, k),
        |k: TransactionKey| s[choose|i: int| 0 <= i < s.len() && s[i].key() == k],
    )
}

proof fn lemma_tx_map_at(s: Seq<HsmsMessageTransaction>, i: int)
    requires
        keys_distinct(s),
        0 <= i < s.len(),
    ensures
        tx_map(s).dom().contains(s[i].key()),
        tx_map(s)[s[i].key()] == s[i],
{
    let k = s[i].key();
    assert(has_key(s, k));
    let j = choose|j: int| 0 <= j < s.len() && s[j].key() == k;
    assert(j == i);
}

proof fn lemma_tx_map_remove(s: Seq<HsmsMessageTransaction>, i: int)
    requires
        keys_distinct(s),
        0 <= i < s.len(),
    ensures
        keys_distinct(s.remove(i)),
        tx_map(s.remove(i)) == tx_map(s).remove(s[i].key()),
{
    let s2 = s.remove(i);
    let kt = s[i].key();
    assert forall|k: TransactionKey| #[trigger] has_key(s2, k) == (has_key(s, k) && k != kt) by {
        if has_key(s2, k) {
            let j = choose|j: int| 0 <= j < s2.len() && s2[j].key() == k;
            if j < i {
                assert(s[j].key() == k);
            } else {
                assert(s[j + 1].key() == k);
            }
        }
        if has_key(s, k) && k != kt {
            let j = choose|j: int| 0 <= j < s.len() && s[j].key() == k;
            if j < i {
                assert(s2[j].key() == k);
            } else {
                assert(s2[j - 1].key() == k);
            }
        }
    }
    assert(keys_distinct(s2));
    assert forall|k: TransactionKey| has_key(s2, k) implies #[trigger] tx_map(s2)[k] == tx_map(
        s,
    )[k] by {
        let j = choose|j: int| 0 <= j < s2.len() && s2[j].key() == k;
        lemma_tx_map_at(s2, j);
        if j < i {
            lemma_tx_map_at(s, j);
        } else {
            lemma_tx_map_at(s, j + 1);
        }
    }
    assert(tx_map(s2) =~= tx_map(s).remove(kt));
}

proof fn lemma_tx_map_push(s: Seq<HsmsMessageTransaction>, t: HsmsMessageTransaction)
    requires
        keys_distinct(s),
        !has_key(s, t.key()),
    ensures
        keys_distinct(s.push(t)),
        tx_map(s.push(t)) == tx_map(s).insert(t.key(), t),
{
    let s2 = s.push(t);
    assert forall|k: TransactionKey| #[trigger] has_key(s2, k) == (has_key(s, k) || k == t.key()) by {
        if has_key(s, k) {
            let i = choose|i: int| 0 <= i < s.len() && s[i].key() == k;
            assert(s2[i].key() == k);
        }
        if k == t.key() {
            assert(s2[s.len() as int].key() == k);
        }
        if has_key(s2, k) && k != t.key() {
            let i = choose|i: int| 0 <= i < s2.len() && s2[i].key() == k;
            assert(s[i].key() == k);
        }
    }
    assert(keys_distinct(s2));
    lemma_tx_map_at(s2, s.len() as int);
    assert forall|k: TransactionKey| has_key(s, k) implies #[trigger] tx_map(s2)[k] == tx_map(
        s,
    )[k] by {
        let i = choose|i: int| 0 <= i < s.len() && s[i].key() == k;
        lemma_tx_map_at(s, i);
        lemma_tx_map_at(s2, i);
    }
    assert(tx_map(s2) =~= tx_map(s).insert(t.key(), t));
}

proof fn lemma_tx_map_update(s: Seq<HsmsMessageTransaction>, i: int, t: HsmsMessageTransaction)
    requires
        keys_distinct(s),
        0 <= i < s.len(),
        t.key() == s[i].key(),
    ensures
        keys_distinct(s.update(i, t)),
        tx_map(s.update(i, t)) == tx_map(s).insert(t.key(), t),
{
    lemma_tx_map_remove(s, i);
    let r = s.remove(i);
    assert(!has_key(r, t.key())) by {
        if has_key(r, t.key()) {
            assert(tx_map(r).dom().contains(t.key()));
        }
    }
    let u = s.update(i, t);
    assert forall|k: TransactionKey| #[trigger] has_key(u, k) == has_key(s, k) by {
        if has_key(u, k) {
            let j = choose|j: int| 0 <= j < u.len() && u[j].key() == k;
            assert(s[j].key() == k);
        }
        if has_key(s, k) {
            let j = choose|j: int| 0 <= j < s.len() && s[j].key() == k;
            assert(u[j].key() == k);
        }
    }
    assert(keys_distinct(u));
    lemma_tx_map_at(u, i);
    assert forall|k: TransactionKey| has_key(u, k) && k != t.key() implies #[trigger] tx_map(u)[k]
        == tx_map(s)[k] by {
        let j = choose|j: int| 0 <= j < u.len() && u[j].key() == k;
        lemma_tx_map_at(u, j);
        lemma_tx_map_at(s, j);
    }
    lemma_tx_map_at(s, i);
    assert(tx_map(u) =~= tx_map(s).insert(t.key(), t));
}

proof fn lemma_tx_map_update_all(s: Seq<HsmsMessageTransaction>, i: int)
    requires
        keys_distinct(s),
        0 <= i < s.len(),
    ensures
        forall|t: HsmsMessageTransaction|
            t.key() == s[i].key() ==> keys_distinct(#[trigger] s.update(i, t)) && tx_map(
                s.update(i, t),
            ) == tx_map(s).insert(t.key(), t),
{
    assert forall|t: HsmsMessageTransaction| t.key() == s[i].key() implies keys_distinct(
        #[trigger] s.update(i, t),
    ) && tx_map(s.update(i, t)) == tx_map(s).insert(t.key(), t) by {
        lemma_tx_map_update(s, i, t);
    }
}

/// The open transactions, at most one per key.
pub struct HsmsTransactionManager {
    transactions: Vec<HsmsMessageTransaction>,
}

impl HsmsTransactionManager {
    /// The open transactions by key.
    pub closed spec fn view(&self) -> Map<TransactionKey, HsmsMessageTransaction> {
        tx_map(self.transactions@)
    }

    pub closed spec fn wf(&self) -> bool {
        keys_distinct(self.transactions@)
    }

    pub fn new() -> (r: HsmsTransactionManager)
        ensures
            r.wf(),
            r@ == Map::<TransactionKey, HsmsMessageTransaction>::empty(),
    {
        let r = HsmsTransactionManager { transactions: Vec::new() };
        assert(r@ =~= Map::<TransactionKey, HsmsMessageTransaction>::empty());
        r
    }

    fn index_of(&self, key: &TransactionKey) -> (r: Option<usize>)
        requires
            self.wf(),
        ensures
            match r {
                Some(i) => i < self.transactions@.len() && self.transactions@[i as int].key()
                    == *key,
                None => !has_key(self.transactions@, *key),
            },
    {
        let mut i: usize = 0;
        while i < self.transactions.len()
            invariant
                i <= self.transactions@.len(),
                forall|j: int| 0 <= j < i ==> self.transactions@[j].key() != *key,
            decreases self.transactions@.len() - i,
        {
            if self.transactions[i].id == *key {
                return Some(i);
            }
            i = i + 1;
        }
        None
    }

    /// Whether a transaction with key `key` is open.
    pub fn contains_key(&self, key: &TransactionKey) -> (r: bool)
        requires
            self.wf(),
        ensures
            r == self@.dom().contains(*key),
    {
        match self.index_of(key) {
            Some(i) => {
                proof {
                    lemma_tx_map_at(self.transactions@, i as int);
                }
                true
            },
            None => false,
        }
    }

    /// Drops the transaction with key `key`, if any.
    pub fn remove(&mut self, key: &TransactionKey)
        requires
            old(self).wf(),
        ensures
            final(self).wf(),
            final(self)@ == old(self)@.remove(*key),
    {
        match self.index_of(key) {
            Some(i) => {
                proof {
                    lemma_tx_map_remove(self.transactions@, i as int);
                }
                self.transactions.remove(i);
            },
            None => {
                assert(self@ =~= old(self)@.remove(*key));
            },
        }
    }

    fn insert(&mut self, tx: HsmsMessageTransaction) -> (r: &mut HsmsMessageTransaction)
        requires
            old(self).wf(),
        ensures
            *r == tx,
            final(r).key() == tx.key() ==> final(self).wf() && final(self)@ == old(self)@.insert(
                tx.key(),
                *final(r),
            ),
    {
        let key = tx.id;
        self.remove(&key);
        assert(!has_key(self.transactions@, key)) by {
            if has_key(self.transactions@, key) {
                assert(self@.dom().contains(key));
            }
        }
        let ghost mid = self.transactions@;
        self.transactions.push(tx);
        let n = self.transactions.len() - 1;
        proof {
            lemma_tx_map_push(mid, tx);
        }
        proof {
            lemma_tx_map_update_all(mid.push(tx), n as int);
            assert(mid.push(tx).update(n as int, tx) =~= mid.push(tx));
        }
        &mut self.transactions[n]
    }

    /// Opens the send transaction `key` for a message with `header`, replacing
    /// any open transaction with that key.
    pub fn create_send(&mut self, key: &TransactionKey, header: HsmsHeader) -> (r: Option<
        &mut HsmsMessageTransaction,
    >)
        requires
            old(self).wf(),
        ensures
            r is Some,
            r->Some_0.key() == *key,
            r->Some_0.current_state() == HsmsTransactionState::Send,
            r->Some_0.expected() == Some(header),
            r->Some_0.effects() == Seq::<HsmsTransactionEffect>::empty(),
            final(r->Some_0).key() == *key ==> final(self).wf() && final(self)@ == old(self)@.insert(
                *key,
                *final(r->Some_0),
            ),
    {
        let transaction = HsmsMessageTransaction::new_send(*key, header);
        Some(self.insert(transaction))
    }

    /// Opens the receive transaction `key`, replacing any open one with that key.
    pub fn create_recv(&mut self, key: &TransactionKey) -> (r: Option<&mut HsmsMessageTransaction>)
        requires
            old(self).wf(),
        ensures
            r is Some,
            r->Some_0.key() == *key,
            r->Some_0.current_state() == HsmsTransactionState::Recv,
            r->Some_0.expected() is None,
            r->Some_0.effects() == Seq::<HsmsTransactionEffect>::empty(),
            final(r->Some_0).key() == *key ==> final(self).wf() && final(self)@ == old(self)@.insert(
                *key,
                *final(r->Some_0),
            ),
    {
        let transaction = HsmsMessageTransaction::new_recv(*key);
        Some(self.insert(transaction))
    }

    /// The open transaction with key `key`.
    pub fn find(&mut self, key: &TransactionKey) -> (r: Option<&mut HsmsMessageTransaction>)
        requires
            old(self).wf(),
        ensures
            r is Some <==> old(self)@.dom().contains(*key),
            r is None ==> final(self)@ == old(self)@ && final(self).wf(),
            r is Some ==> *r->Some_0 == old(self)@[*key] && (final(r->Some_0).key() == *key
                ==> final(self).wf() && final(self)@ == old(self)@.insert(
                *key,
                *final(r->Some_0),
            )),
    {
        match self.index_of(key) {
            Some(i) => {
                proof {
                    lemma_tx_map_at(self.transactions@, i as int);
                }
                let ghost before = self.transactions@;
                let r = &mut self.transactions[i];
                proof {
                    lemma_tx_map_update_all(before, i as int);
                }
                Some(r)
            },
            None => {
                assert(!old(self)@.dom().contains(*key));
                None
            },
        }
    }
}

} // verus!
