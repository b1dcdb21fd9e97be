//! The runtime layer above the transports: SECS-II messages keyed by their
//! transaction, the calls that wait for a reply, how primaries are routed to
//! handlers, the timer settings, and the errors of the runtime.
use vstd::prelude::*;

use crate::common::{
    is_primary_function, reply_function, FunctionId, SecsTimeoutUnit, StreamId, SystemByte,
    SystemByteSource, TransactionKey, TransactionOwner,
};
use crate::keyed::KeyedVec;

verus! {

/// A SECS-II message: stream, function, whether a reply is wanted, and the
/// encoded item text, if any.
#[derive(Debug, Clone, PartialEq, Eq)]
pub struct Secs2Message {
    pub stream: StreamId,
    pub function: FunctionId,
    pub need_reply: bool,
    pub body: Option<Vec<u8>>,
}

impl Secs2Message {
    pub fn new(stream: StreamId, function: FunctionId, need_reply: bool, body: Option<Vec<u8>>) -> (r: Secs2Message)
        ensures
            r.stream == stream,
            r.function == function,
            r.need_reply == need_reply,
            r.body == body,
    {
        Secs2Message { stream, function, need_reply, body }
    }
}

/// A message together with the transaction it belongs to.
#[derive(Debug, Clone, PartialEq, Eq)]
pub struct RuntimeMessage {
    pub transaction_key: TransactionKey,
    pub payload: Secs2Message,
}

impl RuntimeMessage {
    pub fn new(transaction_key: TransactionKey, payload: Secs2Message) -> (r: RuntimeMessage)
        ensures
            r.transaction_key == transaction_key,
            r.payload == payload,
    {
        RuntimeMessage { transaction_key, payload }
    }

    pub fn system_byte(&self) -> (r: SystemByte)
        ensures
            r == self.transaction_key.system_byte,
    {
        self.transaction_key.system_byte
    }

    pub fn stream(&self) -> (r: StreamId)
        ensures
            r == self.payload.stream,
    {
        self.payload.stream
    }

    pub fn function(&self) -> (r: FunctionId)
        ensures
            r == self.payload.function,
    {
        self.payload.function
    }

    pub fn is_primary(&self) -> (r: bool)
        ensures
            r == is_primary_function(self.payload.function),
    {
        self.payload.function.is_primary()
    }

    pub fn is_secondary(&self) -> (r: bool)
        ensures
            r == !is_primary_function(self.payload.function),
    {
        self.payload.function.is_secondary()
    }

    pub fn need_reply(&self) -> (r: bool)
        ensures
            r == self.payload.need_reply,
    {
        self.payload.need_reply
    }

    pub fn into_payload(self) -> (r: Secs2Message)
        ensures
            r == self.payload,
    {
        self.payload
    }
}

/// Identifies a request of the runtime's user.
#[derive(Debug, Clone, Copy, PartialEq, Eq, Structural)]
pub struct CorrelationId(pub u32);

/// Hands out correlation ids.
pub trait CorrelationIdSource {
    fn next_correlation_id(&mut self) -> CorrelationId;
}

/// A byte stream the runtime reads from and writes to.
pub trait ByteDataSource {
    type Error;

    fn read(&mut self, buf: &mut [u8]) -> Result<usize, Self::Error>;

    fn write(&mut self, bytes: &[u8]) -> Result<(), Self::Error>;
}

/// Why a byte data source operation failed.
#[derive(Debug, Clone, Copy, PartialEq, Eq, Structural)]
pub enum ByteDataSourceError {
    OpenFailed,
    CloseFailed,
    ReadFailed,
    WriteFailed,
    /// Nothing can move now; try again later.
    WouldBlock,
    Disconnected,
}

impl ByteDataSourceError {
    /// Whether trying again later may succeed.
    pub fn is_temporary(&self) -> (r: bool)
        ensures
            r == (*self == ByteDataSourceError::WouldBlock),
    {
        matches!(self, ByteDataSourceError::WouldBlock)
    }
}

/// A byte stream that can be opened and closed, as a network link is.
pub trait LinkDataSource {
    fn open(&mut self) -> Result<(), ByteDataSourceError>;

    fn close(&mut self) -> Result<(), ByteDataSourceError>;

    fn is_open(&self) -> bool;

    fn read(&mut self, buf: &mut [u8]) -> Result<usize, ByteDataSourceError>;

    fn write(&mut self, bytes: &[u8]) -> Result<(), ByteDataSourceError>;
}

/// A timer service that the runtime starts and cancels timeouts on.
pub trait RuntimeTimer {
    type Error;
    type Timeout;
    type Ticket;

    fn start(&mut self, timeout: Self::Timeout) -> Result<Self::Ticket, Self::Error>;

    fn cancel(&mut self, timeout: Self::Timeout) -> Result<(), Self::Error>;

    fn poll_timeout(&mut self) -> Result<Option<Self::Ticket>, Self::Error>;
}

/// The length of each protocol timer, in whatever unit `D` measures.
#[derive(Debug, Clone, Copy, PartialEq, Eq)]
pub struct TimeoutConfig<D> {
    pub t1: D,
    pub t2: D,
    pub t3: D,
    pub t4: D,
    pub t5: D,
    pub t6: D,
    pub t7: D,
    pub t8: D,
}

impl<D: Copy> TimeoutConfig<D> {
    /// The length of the timer `unit`; T3 and T4 have one length for every
    /// transaction.
    pub fn duration_for(&self, unit: SecsTimeoutUnit) -> (r: D)
        ensures
            r == match unit {
                SecsTimeoutUnit::T1 => self.t1,
                SecsTimeoutUnit::T2 => self.t2,
                SecsTimeoutUnit::T3(_) => self.t3,
                SecsTimeoutUnit::T4(_) => self.t4,
                SecsTimeoutUnit::T5 => self.t5,
                SecsTimeoutUnit::T6 => self.t6,
                SecsTimeoutUnit::T7 => self.t7,
                SecsTimeoutUnit::T8 => self.t8,
            },
    {
        match unit {
            SecsTimeoutUnit::T1 => self.t1,
            SecsTimeoutUnit::T2 => self.t2,
            SecsTimeoutUnit::T3(_) => self.t3,
            SecsTimeoutUnit::T4(_) => self.t4,
            SecsTimeoutUnit::T5 => self.t5,
            SecsTimeoutUnit::T6 => self.t6,
            SecsTimeoutUnit::T7 => self.t7,
            SecsTimeoutUnit::T8 => self.t8,
        }
    }
}

/// Handle of a call that waits for its reply.
#[derive(Debug, Clone, Copy, PartialEq, Eq, Structural)]
pub struct CallToken {
    pub transaction_key: TransactionKey,
}

/// A primary that was sent and waits for its reply.
#[derive(Debug, Clone, Copy, PartialEq, Eq, Structural)]
pub struct PendingCall {
    pub transaction_key: TransactionKey,
    pub stream: StreamId,
    pub function: FunctionId,
}

/// The call a message opens.
pub open spec fn call_of(msg: RuntimeMessage) -> PendingCall {
    PendingCall {
        transaction_key: msg.transaction_key,
        stream: msg.payload.stream,
        function: msg.payload.function,
    }
}

/// Keeps the calls that wait for their reply.
#[derive(Debug)]
pub struct ExchangeTracker {
    pending_calls: KeyedVec<PendingCall>,
}

impl View for ExchangeTracker {
    type V = Map<TransactionKey, PendingCall>;

    closed spec fn view(&self) -> Map<TransactionKey, PendingCall> {
        self.pending_calls@
    }
}

impl Default for ExchangeTracker {
    fn default() -> (r: ExchangeTracker)
        ensures
            r.wf(),
            r@ == Map::<TransactionKey, PendingCall>::empty(),
    {
        ExchangeTracker::new()
    }
}

impl ExchangeTracker {
    pub closed spec fn wf(&self) -> bool {
        self.pending_calls.wf()
    }

    pub fn new() -> (r: ExchangeTracker)
        ensures
            r.wf(),
            r@ == Map::<TransactionKey, PendingCall>::empty(),
    {
        ExchangeTracker { pending_calls: KeyedVec::new() }
    }

    /// Records the call that `msg` opens, replacing any call with its key.
    pub fn track_call(&mut self, msg: &RuntimeMessage) -> (r: CallToken)
        requires
            old(self).wf(),
        ensures
            final(self).wf(),
            final(self)@ == old(self)@.insert(msg.transaction_key, call_of(*msg)),
            r == (CallToken { transaction_key: msg.transaction_key }),
    {
        let call = PendingCall {
            transaction_key: msg.transaction_key,
            stream: msg.stream(),
            function: msg.function(),
        };
        self.pending_calls.insert(msg.transaction_key, call);
        CallToken { transaction_key: msg.transaction_key }
    }

    /// Takes the call that the reply `msg` answers; a primary answers none.
    pub fn take_reply(&mut self, msg: &RuntimeMessage) -> (r: Option<PendingCall>)
        requires
            old(self).wf(),
        ensures
            final(self).wf(),
            is_primary_function(msg.payload.function) ==> r is None && final(self)@ == old(self)@,
            !is_primary_function(msg.payload.function) ==> {
                &&& final(self)@ == old(self)@.remove(msg.transaction_key)
                &&& r == if old(self)@.dom().contains(msg.transaction_key) {
                    Some(old(self)@[msg.transaction_key])
                } else {
                    None::<PendingCall>
                }
            },
    {
        if !msg.is_secondary() {
            return None;
        }
        self.pending_calls.remove(msg.transaction_key)
    }

    /// Whether `msg` is the reply of the call `token`.
    pub fn is_reply_for(&self, token: CallToken, msg: &RuntimeMessage) -> (r: bool)
        ensures
            r == (!is_primary_function(msg.payload.function) && msg.transaction_key == token.transaction_key),
    {
        msg.is_secondary() && msg.transaction_key == token.transaction_key
    }

    /// Whether a call with this key waits for its reply.
    pub fn has_pending(&self, transaction_key: TransactionKey) -> (r: bool)
        requires
            self.wf(),
        ensures
            r == self@.dom().contains(transaction_key),
    {
        self.pending_calls.contains_key(transaction_key)
    }
}

/// A reply takes back exactly the call that was tracked under its key, and
/// the call no longer waits afterwards.
pub proof fn lemma_reply_takes_tracked_call(calls: Map<TransactionKey, PendingCall>, primary: RuntimeMessage, reply: RuntimeMessage)
    requires
        !is_primary_function(reply.payload.function),
        reply.transaction_key == primary.transaction_key,
    ensures
        calls.insert(primary.transaction_key, call_of(primary))[reply.transaction_key] == call_of(primary),
        calls.insert(primary.transaction_key, call_of(primary)).dom().contains(reply.transaction_key),
        !calls.insert(primary.transaction_key, call_of(primary)).remove(reply.transaction_key).dom().contains(
            primary.transaction_key,
        ),
{
}

/// The stream and function a primary is routed by.
#[derive(Debug, Clone, Copy, PartialEq, Eq, Structural)]
pub struct Secs2Route {
    pub stream: StreamId,
    pub function: FunctionId,
}

impl Secs2Route {
    pub fn new(stream: StreamId, function: FunctionId) -> (r: Secs2Route)
        ensures
            r.stream == stream,
            r.function == function,
    {
        Secs2Route { stream, function }
    }

    pub fn from_message(msg: &Secs2Message) -> (r: Secs2Route)
        ensures
            r.stream == msg.stream,
            r.function == msg.function,
    {
        Secs2Route { stream: msg.stream, function: msg.function }
    }
}

/// Which of the handlers, listed by their routes, takes a primary of
/// `route`: the first one of that route, or none, so that the default
/// handler takes it.
pub fn route_index(routes: &Vec<Secs2Route>, route: Secs2Route) -> (r: Option<usize>)
    ensures
        match r {
            Some(i) => i < routes@.len() && routes@[i as int] == route && forall|j: int|
                0 <= j < i ==> #[trigger] routes@[j] != route,
            None => forall|j: int| 0 <= j < routes@.len() ==> #[trigger] routes@[j] != route,
        },
{
    let mut i: usize = 0;
    while i < routes.len()
        invariant
            i <= routes@.len(),
            forall|j: int| 0 <= j < i ==> #[trigger] routes@[j] != route,
        decreases routes@.len() - i,
    {
        if routes[i] == route {
            return Some(i);
        }
        i = i + 1;
    }
    None
}

/// What a handler learns of the primary it answers.
#[derive(Debug, Clone, Copy, PartialEq, Eq, Structural)]
pub struct Secs2RequestContext {
    route: Secs2Route,
    need_reply: bool,
}

impl Secs2RequestContext {
    pub closed spec fn spec_route(&self) -> Secs2Route {
        self.route
    }

    pub closed spec fn spec_need_reply(&self) -> bool {
        self.need_reply
    }

    pub fn new(primary: &Secs2Message) -> (r: Secs2RequestContext)
        ensures
            r.spec_route() == (Secs2Route { stream: primary.stream, function: primary.function }),
            r.spec_need_reply() == primary.need_reply,
    {
        Secs2RequestContext { route: Secs2Route::from_message(primary), need_reply: primary.need_reply }
    }

    pub fn route(&self) -> (r: Secs2Route)
        ensures
            r == self.spec_route(),
    {
        self.route
    }

    pub fn stream(&self) -> (r: StreamId)
        ensures
            r == self.spec_route().stream,
    {
        self.route.stream
    }

    pub fn primary_function(&self) -> (r: FunctionId)
        ensures
            r == self.spec_route().function,
    {
        self.route.function
    }

    pub fn reply_function(&self) -> (r: FunctionId)
        ensures
            r == reply_function(self.spec_route().function),
    {
        self.route.function.reply()
    }

    pub fn need_reply(&self) -> (r: bool)
        ensures
            r == self.spec_need_reply(),
    {
        self.need_reply
    }

    /// The reply to the primary: same stream, the reply function, no reply
    /// wanted, and `body` as its text.
    pub fn reply(&self, body: Option<Vec<u8>>) -> (r: Secs2Message)
        ensures
            r.stream == self.spec_route().stream,
            r.function == reply_function(self.spec_route().function),
            !r.need_reply,
            r.body == body,
    {
        Secs2Message::new(self.stream(), self.reply_function(), false, body)
    }
}

/// Answers primaries; the runtime hands each received primary to it.
pub trait Secs2MessageHandler {
    type Error;

    fn handle_primary(&mut self, primary: Secs2Message) -> Result<Option<Secs2Message>, Self::Error>;
}

/// Answers the primaries of one route.
pub trait Secs2PrimaryHandler {
    type Error;

    fn route(&self) -> Secs2Route;

    fn handle(&mut self, ctx: Secs2RequestContext, primary: Secs2Message) -> Result<Option<Secs2Message>, Self::Error>;
}

/// Answers the primaries that no route handler takes.
pub trait Secs2DefaultHandler {
    type Error;

    fn handle_default(&mut self, ctx: Secs2RequestContext, primary: Secs2Message) -> Result<Option<Secs2Message>, Self::Error>;
}

/// A default handler that answers nothing.
pub struct IgnoreUnknownPrimary;

impl Secs2DefaultHandler for IgnoreUnknownPrimary {
    type Error = ();

    fn handle_default(&mut self, ctx: Secs2RequestContext, primary: Secs2Message) -> (r: Result<Option<Secs2Message>, ()>)
        ensures
            r == Ok::<Option<Secs2Message>, ()>(None),
    {
        Ok(None)
    }
}

/// Why a transport machine refused a message or a signal.
#[derive(Debug, Clone, Copy, PartialEq, Eq, Structural)]
pub enum MachineError {
    /// The request does not fit the machine's state.
    InvalidState,
    /// A received message could not be read.
    InvalidMessage,
    /// A message could not be encoded.
    EncodeFailed,
    /// Received bytes could not be decoded.
    DecodeFailed,
    /// A timer that the machine does not run expired.
    InvalidTimeout,
}

/// A failure of one of the runtime's collaborators.
#[derive(Debug, Clone, Copy, PartialEq, Eq)]
pub enum RuntimeError<D, M, T> {
    DataSource(D),
    Machine(M),
    Timer(T),
}

/// A failure of the SECS-II layer: of the layer below, of the handler, or a
/// reply that no call waits for.
#[derive(Debug, Clone, Copy, PartialEq, Eq)]
pub enum Secs2RuntimeError<L, H> {
    Lower(L),
    Handler(H),
    SecondaryWithoutPendingCall,
}

/// A failure of a SECS machine: of its runtime or of its SECS-II layer.
#[derive(Debug, Clone, Copy, PartialEq, Eq)]
pub enum SecsMachineError<D, T, H> {
    Runtime(RuntimeError<D, MachineError, T>),
    Secs2(Secs2RuntimeError<MachineError, H>),
}

/// Why a call got no reply.
#[derive(Debug, Clone, Copy, PartialEq, Eq, Structural)]
pub enum CallError {
    Timeout,
    Transport(MachineError),
    UnknownToken,
}

/// Why a handler failed.
#[derive(Debug, Clone, Copy, PartialEq, Eq, Structural)]
pub enum HandlerError {
    Failed,
    Call(CallError),
    Transport(MachineError),
}

impl From<CallError> for HandlerError {
    fn from(value: CallError) -> (r: HandlerError) {
        HandlerError::Call(value)
    }
}

impl vstd::std_specs::convert::FromSpecImpl<CallError> for HandlerError {
    open spec fn obeys_from_spec() -> bool {
        true
    }

    open spec fn from_spec(v: CallError) -> HandlerError {
        HandlerError::Call(v)
    }
}

impl From<MachineError> for HandlerError {
    fn from(value: MachineError) -> (r: HandlerError) {
        HandlerError::Transport(value)
    }
}

impl vstd::std_specs::convert::FromSpecImpl<MachineError> for HandlerError {
    open spec fn obeys_from_spec() -> bool {
        true
    }

    open spec fn from_spec(v: MachineError) -> HandlerError {
        HandlerError::Transport(v)
    }
}

/// A failure of the runtime: of the transport, of the timer, or of a handler.
#[derive(Debug, Clone, Copy, PartialEq, Eq)]
pub enum SecsRuntimeError<TimerError> {
    Transport(MachineError),
    Timer(TimerError),
    Handler(HandlerError),
}

/// What a transport machine asks of the runtime around it.
#[derive(Debug, Clone, Copy, PartialEq, Eq, Structural)]
pub enum MachineEvent {
    LinkOpenRequested,
    LinkCloseRequested,
}

/// What the message layer below the SECS-II layer reports.
#[derive(Debug, Clone, PartialEq, Eq)]
pub enum MessageRuntimeEvent {
    Machine(MachineEvent),
    Message(RuntimeMessage),
}

/// What the SECS-II layer reports.
#[derive(Debug, Clone, PartialEq, Eq)]
pub enum Secs2RuntimeEvent {
    Machine(MachineEvent),
    Primary(RuntimeMessage),
    Reply(RuntimeMessage),
}

/// The message layer the SECS-II layer runs on.
pub trait Secs2MessageLayer {
    fn send(&mut self, msg: RuntimeMessage) -> Result<(), MachineError>;

    fn recv(&mut self) -> Option<RuntimeMessage>;

    fn poll_event(&mut self) -> Option<MessageRuntimeEvent>;
}

/// `after` is `before` with at most one message added, under `key`.
pub open spec fn answered_under(before: Seq<RuntimeMessage>, after: Seq<RuntimeMessage>, key: TransactionKey) -> bool {
    ||| after == before
    ||| exists|reply: Secs2Message| after == before.push(RuntimeMessage { transaction_key: key, payload: reply })
}

/// What goes down for a handler's answer to a primary keyed `key`: the
/// answer itself under that key, or nothing when there is no answer.
pub open spec fn sent_for(key: TransactionKey, answer: Option<Secs2Message>) -> Seq<RuntimeMessage> {
    match answer {
        Some(m) => seq![RuntimeMessage { transaction_key: key, payload: m }],
        None => Seq::empty(),
    }
}

/// The message that answers the call `token` in an event, if the event is
/// that reply.
pub open spec fn reply_in(token: CallToken, event: Option<Secs2RuntimeEvent>) -> Option<Secs2Message> {
    match event {
        Some(Secs2RuntimeEvent::Reply(msg)) => if msg.transaction_key == token.transaction_key {
            Some(msg.payload)
        } else {
            None
        },
        _ => None,
    }
}

/// Picks the answer to the call `token` out of an event: the payload of its
/// reply, and nothing for any other event.
pub fn reply_for(token: CallToken, event: Option<Secs2RuntimeEvent>) -> (r: Option<Secs2Message>)
    ensures
        r == reply_in(token, event),
{
    match event {
        Some(Secs2RuntimeEvent::Reply(msg)) => {
            if msg.transaction_key == token.transaction_key {
                Some(msg.into_payload())
            } else {
                None
            }
        },
        _ => None,
    }
}

/// The SECS-II layer: numbers primaries, keeps the calls that wait for a
/// reply, hands received primaries to a handler and sends its answers.
pub struct Secs2Runtime<L> {
    lower: L,
    system_bytes: SystemByteSource,
    exchanges: ExchangeTracker,
    /// The messages the layer below took to send, oldest first.
    sent: Ghost<Seq<RuntimeMessage>>,
    /// What handlers answered to received primaries, oldest first.
    answers: Ghost<Seq<Option<Secs2Message>>>,
}

impl<L> Secs2Runtime<L> {
    /// The calls that wait for their reply.
    pub closed spec fn calls(&self) -> Map<TransactionKey, PendingCall> {
        self.exchanges@
    }

    /// The messages the layer below took to send, oldest first.
    pub closed spec fn handed_down(&self) -> Seq<RuntimeMessage> {
        self.sent@
    }

    /// What handlers answered to received primaries, oldest first.
    pub closed spec fn handler_answers(&self) -> Seq<Option<Secs2Message>> {
        self.answers@
    }

    /// The system byte the next primary gets.
    pub closed spec fn next_system_byte(&self) -> u32 {
        self.system_bytes.next_value()
    }

    pub closed spec fn system_byte_range(&self) -> (u32, u32) {
        (self.system_bytes.min_value(), self.system_bytes.max_value())
    }

    pub closed spec fn spec_lower(&self) -> L {
        self.lower
    }

    pub closed spec fn wf(&self) -> bool {
        &&& self.exchanges.wf()
        &&& self.system_bytes.wf()
    }

    pub fn new(lower: L, system_bytes: SystemByteSource) -> (r: Secs2Runtime<L>)
        requires
            system_bytes.wf(),
        ensures
            r.wf(),
            r.calls() == Map::<TransactionKey, PendingCall>::empty(),
            r.next_system_byte() == system_bytes.next_value(),
            r.system_byte_range() == (system_bytes.min_value(), system_bytes.max_value()),
            r.spec_lower() == lower,
            r.handed_down() == Seq::<RuntimeMessage>::empty(),
            r.handler_answers() == Seq::<Option<Secs2Message>>::empty(),
    {
        Secs2Runtime {
            lower,
            system_bytes,
            exchanges: ExchangeTracker::new(),
            sent: Ghost(Seq::empty()),
            answers: Ghost(Seq::empty()),
        }
    }

    pub fn lower(&self) -> (r: &L)
        ensures
            *r == self.spec_lower(),
    {
        &self.lower
    }

    pub fn lower_mut(&mut self) -> (r: &mut L)
        ensures
            *r == old(self).spec_lower(),
            final(self).spec_lower() == *final(r),
            final(self).calls() == old(self).calls(),
            final(self).next_system_byte() == old(self).next_system_byte(),
            final(self).system_byte_range() == old(self).system_byte_range(),
            final(self).wf() == old(self).wf(),
            final(self).handed_down() == old(self).handed_down(),
            final(self).handler_answers() == old(self).handler_answers(),
    {
        &mut self.lower
    }

    pub fn exchanges(&self) -> (r: &ExchangeTracker)
        ensures
            r@ == self.calls(),
            self.wf() ==> r.wf(),
    {
        &self.exchanges
    }

    /// Keys `payload` as our primary under the next system byte.
    pub fn make_primary(&mut self, payload: Secs2Message) -> (r: RuntimeMessage)
        requires
            old(self).wf(),
        ensures
            final(self).wf(),
            r.transaction_key == (TransactionKey {
                owner: TransactionOwner::Local,
                system_byte: SystemByte(old(self).next_system_byte()),
            }),
            r.payload == payload,
            final(self).next_system_byte() == next_in_range(old(self).next_system_byte(), old(self).system_byte_range()),
            final(self).system_byte_range() == old(self).system_byte_range(),
            final(self).calls() == old(self).calls(),
            final(self).spec_lower() == old(self).spec_lower(),
            final(self).handed_down() == old(self).handed_down(),
            final(self).handler_answers() == old(self).handler_answers(),
    {
        let key = TransactionKey::new(TransactionOwner::Local, self.system_bytes.next_system_byte());
        RuntimeMessage::new(key, payload)
    }
}

/// The value after `v` in the cycle over `range`.
pub open spec fn next_in_range(v: u32, range: (u32, u32)) -> u32 {
    if v == range.1 {
        range.0
    } else {
        (v + 1) as u32
    }
}

impl<L: Secs2MessageLayer> Secs2Runtime<L> {
    /// Sends `primary` as our next primary and tracks the call, which waits
    /// for its reply even when the layer below refuses the message.
    pub fn start_call(&mut self, primary: Secs2Message) -> (r: Result<CallToken, MachineError>)
        requires
            old(self).wf(),
        ensures
            final(self).wf(),
            ({
                let key = TransactionKey {
                    owner: TransactionOwner::Local,
                    system_byte: SystemByte(old(self).next_system_byte()),
                };
                &&& final(self).calls() == old(self).calls().insert(
                    key,
                    PendingCall { transaction_key: key, stream: primary.stream, function: primary.function },
                )
                &&& r is Ok ==> r == Ok::<CallToken, MachineError>(CallToken { transaction_key: key })
                &&& r is Ok ==> final(self).handed_down() == old(self).handed_down().push(
                    RuntimeMessage { transaction_key: key, payload: primary },
                )
                &&& r is Err ==> final(self).handed_down() == old(self).handed_down()
            }),
            final(self).next_system_byte() == next_in_range(old(self).next_system_byte(), old(self).system_byte_range()),
            final(self).system_byte_range() == old(self).system_byte_range(),
    {
        let msg = self.make_primary(primary);
        let token = self.exchanges.track_call(&msg);
        let ghost m = msg;
        match self.lower.send(msg) {
            Ok(()) => {
                self.sent = Ghost(self.sent@.push(m));
                Ok(token)
            },
            Err(e) => Err(e),
        }
    }

    /// Takes one event of the layer below: a machine event is passed up; a
    /// reply takes back its call and is passed up, or is an error when no
    /// call waits for it; a primary goes to `handler`, whose answer, if any,
    /// is sent back under the primary's key.
    pub fn handle_lower_event<H: Secs2MessageHandler>(&mut self, event: MessageRuntimeEvent, handler: &mut H) -> (r:
        Result<Option<Secs2RuntimeEvent>, Secs2RuntimeError<MachineError, H::Error>>)
        requires
            old(self).wf(),
        ensures
            final(self).wf(),
            final(self).next_system_byte() == old(self).next_system_byte(),
            final(self).system_byte_range() == old(self).system_byte_range(),
            match event {
                MessageRuntimeEvent::Machine(e) => r == Ok::<
                    Option<Secs2RuntimeEvent>,
                    Secs2RuntimeError<MachineError, H::Error>,
                >(Some(Secs2RuntimeEvent::Machine(e))) && final(self).calls() == old(self).calls(),
                MessageRuntimeEvent::Message(msg) => if !is_primary_function(msg.payload.function) {
                    &&& final(self).calls() == old(self).calls().remove(msg.transaction_key)
                    &&& r == if old(self).calls().dom().contains(msg.transaction_key) {
                        Ok::<Option<Secs2RuntimeEvent>, Secs2RuntimeError<MachineError, H::Error>>(
                            Some(Secs2RuntimeEvent::Reply(msg)),
                        )
                    } else {
                        Err::<Option<Secs2RuntimeEvent>, Secs2RuntimeError<MachineError, H::Error>>(
                            Secs2RuntimeError::SecondaryWithoutPendingCall,
                        )
                    }
                } else {
                    &&& final(self).calls() == old(self).calls()
                    &&& (r matches Ok(None) || r matches Err(Secs2RuntimeError::Handler(_)) || r matches Err(
                        Secs2RuntimeError::Lower(_),
                    ))
                    &&& r matches Ok(None) ==> answered_under(
                        old(self).handed_down(),
                        final(self).handed_down(),
                        msg.transaction_key,
                    )
                    &&& r matches Err(Secs2RuntimeError::Handler(_)) ==> final(self).handler_answers()
                        == old(self).handler_answers()
                    &&& !(r matches Err(Secs2RuntimeError::Handler(_))) ==> {
                        let answer = final(self).handler_answers().last();
                        &&& final(self).handler_answers().len() == old(self).handler_answers().len() + 1
                        &&& final(self).handler_answers().drop_last() == old(self).handler_answers()
                        &&& r matches Ok(None) ==> final(self).handed_down() == old(self).handed_down() + sent_for(
                            msg.transaction_key,
                            answer,
                        )
                        &&& r matches Err(Secs2RuntimeError::Lower(_)) ==> answer is Some
                            && final(self).handed_down() == old(self).handed_down()
                    }
                },
            },
            !(event matches MessageRuntimeEvent::Message(msg) && is_primary_function(msg.payload.function))
                ==> final(self).handler_answers() == old(self).handler_answers(),
            !(event matches MessageRuntimeEvent::Message(msg) && is_primary_function(msg.payload.function) && r matches Ok(None))
                ==> final(self).handed_down() == old(self).handed_down(),
    {
        match event {
            MessageRuntimeEvent::Machine(e) => Ok(Some(Secs2RuntimeEvent::Machine(e))),
            MessageRuntimeEvent::Message(msg) => {
                if msg.is_secondary() {
                    if self.exchanges.take_reply(&msg).is_none() {
                        return Err(Secs2RuntimeError::SecondaryWithoutPendingCall);
                    }
                    return Ok(Some(Secs2RuntimeEvent::Reply(msg)));
                }
                let transaction_key = msg.transaction_key;
                let answer = handler.handle_primary(msg.into_payload());
                let ghost given = answer;
                let reply = match answer {
                    Ok(reply) => reply,
                    Err(e) => {
                        return Err(Secs2RuntimeError::Handler(e));
                    },
                };
                self.answers = Ghost(self.answers@.push(given->Ok_0));
                let r = self.answer_primary(transaction_key, reply);
                proof {
                    if r is Ok {
                        assert(self.handed_down() =~= old(self).handed_down() + sent_for(transaction_key, self.answers@.last()));
                    }
                    assert(self.answers@.drop_last() =~= old(self).handler_answers());
                }
                match r {
                    Ok(()) => Ok(None),
                    Err(e) => Err(Secs2RuntimeError::Lower(e)),
                }
            },
        }
    }

    /// Sends a handler's answer to the primary keyed `key`: no answer sends
    /// nothing; an answer goes down under that key, and is sent exactly when
    /// the layer below takes it.
    pub fn answer_primary(&mut self, key: TransactionKey, reply: Option<Secs2Message>) -> (r: Result<(), MachineError>)
        requires
            old(self).wf(),
        ensures
            final(self).wf(),
            final(self).calls() == old(self).calls(),
            final(self).next_system_byte() == old(self).next_system_byte(),
            final(self).system_byte_range() == old(self).system_byte_range(),
            final(self).handler_answers() == old(self).handler_answers(),
            match reply {
                None => r is Ok && final(self).handed_down() == old(self).handed_down(),
                Some(m) => if r is Ok {
                    final(self).handed_down() == old(self).handed_down().push(
                        RuntimeMessage { transaction_key: key, payload: m },
                    )
                } else {
                    final(self).handed_down() == old(self).handed_down()
                },
            },
    {
        match reply {
            Some(reply) => {
                let out = RuntimeMessage::new(key, reply);
                let ghost o = out;
                match self.lower.send(out) {
                    Ok(()) => {
                        self.sent = Ghost(self.sent@.push(o));
                        Ok(())
                    },
                    Err(e) => Err(e),
                }
            },
            None => Ok(()),
        }
    }

    /// Takes the next event of the layer below, if any, as
    /// `handle_lower_event` says.
    pub fn poll_event<H: Secs2MessageHandler>(&mut self, handler: &mut H) -> (r: Result<
        Option<Secs2RuntimeEvent>,
        Secs2RuntimeError<MachineError, H::Error>,
    >)
        requires
            old(self).wf(),
        ensures
            final(self).wf(),
            final(self).next_system_byte() == old(self).next_system_byte(),
            final(self).system_byte_range() == old(self).system_byte_range(),
            !(r matches Ok(Some(Secs2RuntimeEvent::Primary(_)))),
            r matches Ok(Some(Secs2RuntimeEvent::Reply(msg))) ==> {
                &&& !is_primary_function(msg.payload.function)
                &&& old(self).calls().dom().contains(msg.transaction_key)
                &&& final(self).calls() == old(self).calls().remove(msg.transaction_key)
            },
            !(r matches Ok(Some(Secs2RuntimeEvent::Reply(_)))) ==> final(self).calls() == old(self).calls(),
            !(r matches Ok(None)) ==> final(self).handed_down() == old(self).handed_down(),
            exists|k: TransactionKey| answered_under(old(self).handed_down(), final(self).handed_down(), k),
    {
        match self.lower.poll_event() {
            None => {
                assert(answered_under(old(self).handed_down(), self.handed_down(), arbitrary()));
                Ok(None)
            },
            Some(event) => {
                let ghost ev = event;
                let r = self.handle_lower_event(event, handler);
                proof {
                    match ev {
                        MessageRuntimeEvent::Message(msg) => {
                            if !is_primary_function(msg.payload.function) && !old(self).calls().dom().contains(
                                msg.transaction_key,
                            ) {
                                assert(old(self).calls().remove(msg.transaction_key) =~= old(self).calls());
                            }
                            assert(answered_under(old(self).handed_down(), self.handed_down(), msg.transaction_key));
                        },
                        _ => {
                            assert(answered_under(old(self).handed_down(), self.handed_down(), arbitrary()));
                        },
                    }
                }
                r
            },
        }
    }

    /// Same as `poll_event`.
    pub fn handle<H: Secs2MessageHandler>(&mut self, handler: &mut H) -> (r: Result<
        Option<Secs2RuntimeEvent>,
        Secs2RuntimeError<MachineError, H::Error>,
    >)
        requires
            old(self).wf(),
        ensures
            final(self).wf(),
            final(self).next_system_byte() == old(self).next_system_byte(),
            final(self).system_byte_range() == old(self).system_byte_range(),
            !(r matches Ok(Some(Secs2RuntimeEvent::Primary(_)))),
            r matches Ok(Some(Secs2RuntimeEvent::Reply(msg))) ==> {
                &&& !is_primary_function(msg.payload.function)
                &&& old(self).calls().dom().contains(msg.transaction_key)
                &&& final(self).calls() == old(self).calls().remove(msg.transaction_key)
            },
            !(r matches Ok(Some(Secs2RuntimeEvent::Reply(_)))) ==> final(self).calls() == old(self).calls(),
            !(r matches Ok(None)) ==> final(self).handed_down() == old(self).handed_down(),
            exists|k: TransactionKey| answered_under(old(self).handed_down(), final(self).handed_down(), k),
    {
        self.poll_event(handler)
    }

    /// Takes the next event; the reply of the call `token` gives its message,
    /// any other event nothing.
    pub fn poll_call<H: Secs2MessageHandler>(&mut self, token: CallToken, handler: &mut H) -> (r: Result<
        Option<Secs2Message>,
        Secs2RuntimeError<MachineError, H::Error>,
    >)
        requires
            old(self).wf(),
        ensures
            final(self).wf(),
            final(self).next_system_byte() == old(self).next_system_byte(),
            final(self).system_byte_range() == old(self).system_byte_range(),
            r matches Ok(Some(_)) ==> {
                &&& old(self).calls().dom().contains(token.transaction_key)
                &&& final(self).calls() == old(self).calls().remove(token.transaction_key)
            },
            final(self).calls() == old(self).calls() || exists|k: TransactionKey|
                old(self).calls().dom().contains(k) && final(self).calls() == old(self).calls().remove(k),
            r is Ok && old(self).calls().dom().contains(token.transaction_key) ==> (r matches Ok(Some(_))
                <==> !final(self).calls().dom().contains(token.transaction_key)),
    {
        let event = match self.poll_event(handler) {
            Ok(e) => e,
            Err(e) => {
                return Err(e);
            },
        };
        Ok(reply_for(token, event))
    }

    /// Starts a call and takes the next event, as `start_call` and
    /// `poll_call` say.
    pub fn call<H: Secs2MessageHandler>(&mut self, primary: Secs2Message, handler: &mut H) -> (r: Result<
        Option<Secs2Message>,
        Secs2RuntimeError<MachineError, H::Error>,
    >)
        requires
            old(self).wf(),
        ensures
            final(self).wf(),
            final(self).next_system_byte() == next_in_range(old(self).next_system_byte(), old(self).system_byte_range()),
            final(self).system_byte_range() == old(self).system_byte_range(),
            r is Ok ==> (r matches Ok(Some(_)) <==> !final(self).calls().dom().contains(
                TransactionKey { owner: TransactionOwner::Local, system_byte: SystemByte(old(self).next_system_byte()) },
            )),
    {
        let token = match self.start_call(primary) {
            Ok(t) => t,
            Err(e) => {
                return Err(Secs2RuntimeError::Lower(e));
            },
        };
        self.poll_call(token, handler)
    }
}

} // verus!
