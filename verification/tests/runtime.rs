use std::collections::VecDeque;

use secs_transport::common::{
    FunctionId, SecsTimeoutUnit, StreamId, SystemByte, SystemByteSource, TransactionKey,
    TransactionOwner,
};
use secs_transport::runtime::{
    CallError, CallToken, ExchangeTracker, HandlerError, IgnoreUnknownPrimary, MachineError,
    MachineEvent, MessageRuntimeEvent, PendingCall, RuntimeMessage, Secs2DefaultHandler,
    Secs2MessageHandler, Secs2MessageLayer, Secs2Message, Secs2RequestContext, Secs2Route,
    Secs2Runtime, Secs2RuntimeError, Secs2RuntimeEvent, TimeoutConfig, reply_for, route_index,
};

fn message(function: u8, need_reply: bool) -> Secs2Message {
    Secs2Message::new(StreamId(1), FunctionId(function), need_reply, Some(vec![0x01, 0x00]))
}

fn key(owner: TransactionOwner, byte: u32) -> TransactionKey {
    TransactionKey::new(owner, SystemByte(byte))
}

#[test]
fn runtime_message_accessors() {
    let msg = RuntimeMessage::new(key(TransactionOwner::Local, 7), message(3, true));
    assert_eq!(msg.system_byte(), SystemByte(7));
    assert_eq!(msg.stream(), StreamId(1));
    assert_eq!(msg.function(), FunctionId(3));
    assert!(msg.is_primary());
    assert!(!msg.is_secondary());
    assert!(msg.need_reply());
    assert_eq!(msg.into_payload(), message(3, true));
}

#[test]
fn tracked_call_is_taken_by_its_reply() {
    let mut tracker = ExchangeTracker::new();
    let primary = RuntimeMessage::new(key(TransactionOwner::Local, 7), message(3, true));
    let token = tracker.track_call(&primary);
    assert_eq!(token, CallToken { transaction_key: primary.transaction_key });
    assert!(tracker.has_pending(primary.transaction_key));

    let reply = RuntimeMessage::new(key(TransactionOwner::Local, 7), message(4, false));
    assert!(tracker.is_reply_for(token, &reply));
    assert!(!tracker.is_reply_for(token, &primary));
    assert_eq!(
        tracker.take_reply(&reply),
        Some(PendingCall {
            transaction_key: primary.transaction_key,
            stream: StreamId(1),
            function: FunctionId(3),
        })
    );
    assert!(!tracker.has_pending(primary.transaction_key));
    assert_eq!(tracker.take_reply(&reply), None);
}

#[test]
fn primary_takes_no_call() {
    let mut tracker = ExchangeTracker::new();
    let primary = RuntimeMessage::new(key(TransactionOwner::Local, 9), message(3, true));
    tracker.track_call(&primary);
    assert_eq!(tracker.take_reply(&primary), None);
    assert!(tracker.has_pending(primary.transaction_key));
}

#[test]
fn tracking_a_key_twice_keeps_the_later_call() {
    let mut tracker = ExchangeTracker::new();
    let first = RuntimeMessage::new(key(TransactionOwner::Local, 1), message(1, true));
    let second = RuntimeMessage::new(key(TransactionOwner::Local, 1), message(5, true));
    tracker.track_call(&first);
    tracker.track_call(&second);
    let reply = RuntimeMessage::new(key(TransactionOwner::Local, 1), message(6, false));
    assert_eq!(tracker.take_reply(&reply).unwrap().function, FunctionId(5));
    assert!(!tracker.has_pending(first.transaction_key));
}

#[test]
fn request_context_builds_the_reply() {
    let primary = message(13, true);
    let ctx = Secs2RequestContext::new(&primary);
    assert_eq!(ctx.route(), Secs2Route::new(StreamId(1), FunctionId(13)));
    assert_eq!(ctx.route(), Secs2Route::from_message(&primary));
    assert_eq!(ctx.stream(), StreamId(1));
    assert_eq!(ctx.primary_function(), FunctionId(13));
    assert_eq!(ctx.reply_function(), FunctionId(14));
    assert!(ctx.need_reply());
    let reply = ctx.reply(Some(vec![0x21, 0x01, 0x00]));
    assert_eq!(reply, Secs2Message::new(StreamId(1), FunctionId(14), false, Some(vec![0x21, 0x01, 0x00])));
}

#[test]
fn ignore_unknown_primary_answers_nothing() {
    let primary = message(1, true);
    let ctx = Secs2RequestContext::new(&primary);
    assert_eq!(IgnoreUnknownPrimary.handle_default(ctx, primary), Ok(None));
}

#[test]
fn timeout_config_picks_each_timer() {
    let config = TimeoutConfig { t1: 1u32, t2: 2, t3: 3, t4: 4, t5: 5, t6: 6, t7: 7, t8: 8 };
    let k = key(TransactionOwner::Local, 1);
    assert_eq!(config.duration_for(SecsTimeoutUnit::T1), 1);
    assert_eq!(config.duration_for(SecsTimeoutUnit::T2), 2);
    assert_eq!(config.duration_for(SecsTimeoutUnit::T3(k)), 3);
    assert_eq!(config.duration_for(SecsTimeoutUnit::T4(k)), 4);
    assert_eq!(config.duration_for(SecsTimeoutUnit::T5), 5);
    assert_eq!(config.duration_for(SecsTimeoutUnit::T6), 6);
    assert_eq!(config.duration_for(SecsTimeoutUnit::T7), 7);
    assert_eq!(config.duration_for(SecsTimeoutUnit::T8), 8);
}

#[test]
fn handler_error_from_causes() {
    assert_eq!(HandlerError::from(CallError::Timeout), HandlerError::Call(CallError::Timeout));
    assert_eq!(
        HandlerError::from(MachineError::InvalidState),
        HandlerError::Transport(MachineError::InvalidState)
    );
}

struct FakeLayer {
    sent: Vec<RuntimeMessage>,
    events: VecDeque<MessageRuntimeEvent>,
    refuse: bool,
}

impl Secs2MessageLayer for FakeLayer {
    fn send(&mut self, msg: RuntimeMessage) -> Result<(), MachineError> {
        if self.refuse {
            return Err(MachineError::InvalidState);
        }
        self.sent.push(msg);
        Ok(())
    }

    fn recv(&mut self) -> Option<RuntimeMessage> {
        None
    }

    fn poll_event(&mut self) -> Option<MessageRuntimeEvent> {
        self.events.pop_front()
    }
}

struct Echo;

impl Secs2MessageHandler for Echo {
    type Error = ();

    fn handle_primary(&mut self, primary: Secs2Message) -> Result<Option<Secs2Message>, ()> {
        let ctx = Secs2RequestContext::new(&primary);
        Ok(Some(ctx.reply(primary.body)))
    }
}

fn runtime(refuse: bool) -> Secs2Runtime<FakeLayer> {
    let layer = FakeLayer { sent: Vec::new(), events: VecDeque::new(), refuse };
    Secs2Runtime::new(layer, SystemByteSource::with_range(100, 1, 200))
}

#[test]
fn start_call_sends_a_keyed_primary() {
    let mut rt = runtime(false);
    let token = rt.start_call(message(1, true)).unwrap();
    let expected_key = key(TransactionOwner::Local, 100);
    assert_eq!(token.transaction_key, expected_key);
    assert_eq!(rt.lower().sent.len(), 1);
    assert_eq!(rt.lower().sent[0].transaction_key, expected_key);
    assert!(rt.exchanges().has_pending(expected_key));
    let next = rt.make_primary(message(1, false));
    assert_eq!(next.system_byte(), SystemByte(101));
}

#[test]
fn refused_send_keeps_the_call_waiting() {
    let mut rt = runtime(true);
    assert_eq!(rt.start_call(message(1, true)), Err(MachineError::InvalidState));
    assert!(rt.exchanges().has_pending(key(TransactionOwner::Local, 100)));
}

#[test]
fn reply_without_call_is_an_error() {
    let mut rt = runtime(false);
    let reply = RuntimeMessage::new(key(TransactionOwner::Local, 5), message(2, false));
    let r = rt.handle_lower_event(MessageRuntimeEvent::Message(reply), &mut Echo);
    assert_eq!(r, Err(Secs2RuntimeError::SecondaryWithoutPendingCall));
}

#[test]
fn primary_goes_to_the_handler_and_its_answer_is_sent() {
    let mut rt = runtime(false);
    let primary = RuntimeMessage::new(key(TransactionOwner::Remote, 77), message(13, true));
    let r = rt.handle_lower_event(MessageRuntimeEvent::Message(primary), &mut Echo);
    assert_eq!(r, Ok(None));
    let sent = &rt.lower().sent;
    assert_eq!(sent.len(), 1);
    assert_eq!(sent[0].transaction_key, key(TransactionOwner::Remote, 77));
    assert_eq!(sent[0].function(), FunctionId(14));
    assert!(!sent[0].need_reply());
}

#[test]
fn machine_events_pass_up() {
    let mut rt = runtime(false);
    let r = rt.handle_lower_event(MessageRuntimeEvent::Machine(MachineEvent::LinkOpenRequested), &mut Echo);
    assert_eq!(r, Ok(Some(Secs2RuntimeEvent::Machine(MachineEvent::LinkOpenRequested))));
}

#[test]
fn call_returns_the_reply_of_its_token() {
    let mut rt = runtime(false);
    let reply = RuntimeMessage::new(key(TransactionOwner::Local, 100), message(2, false));
    rt.lower_mut().events.push_back(MessageRuntimeEvent::Message(reply));
    let r = rt.call(message(1, true), &mut Echo);
    assert_eq!(r, Ok(Some(message(2, false))));
    assert!(!rt.exchanges().has_pending(key(TransactionOwner::Local, 100)));
    assert_eq!(rt.handle(&mut Echo), Ok(None));
}

#[test]
fn poll_call_ignores_other_replies() {
    let mut rt = runtime(false);
    let first = rt.start_call(message(1, true)).unwrap();
    let second = rt.start_call(message(3, true)).unwrap();
    let reply = RuntimeMessage::new(second.transaction_key, message(4, false));
    rt.lower_mut().events.push_back(MessageRuntimeEvent::Message(reply));
    assert_eq!(rt.poll_call(first, &mut Echo), Ok(None));
    assert!(rt.exchanges().has_pending(first.transaction_key));
    assert!(!rt.exchanges().has_pending(second.transaction_key));
}

#[test]
fn default_tracker_is_empty() {
    let tracker = ExchangeTracker::default();
    assert!(!tracker.has_pending(key(TransactionOwner::Local, 1)));
}

#[test]
fn reply_for_picks_only_the_reply_of_its_token() {
    let token = CallToken { transaction_key: key(TransactionOwner::Local, 4) };
    let reply = RuntimeMessage::new(key(TransactionOwner::Local, 4), message(4, false));
    let other = RuntimeMessage::new(key(TransactionOwner::Local, 5), message(4, false));
    assert_eq!(
        reply_for(token, Some(Secs2RuntimeEvent::Reply(reply))),
        Some(message(4, false))
    );
    assert_eq!(reply_for(token, Some(Secs2RuntimeEvent::Reply(other))), None);
    assert_eq!(reply_for(token, Some(Secs2RuntimeEvent::Machine(MachineEvent::LinkOpenRequested))), None);
    assert_eq!(reply_for(token, None), None);
}

#[test]
fn route_index_picks_the_first_handler_of_the_route() {
    let a = Secs2Route::new(StreamId(1), FunctionId(1));
    let b = Secs2Route::new(StreamId(2), FunctionId(13));
    let routes = vec![a, b, b];
    assert_eq!(route_index(&routes, b), Some(1));
    assert_eq!(route_index(&routes, a), Some(0));
    assert_eq!(route_index(&routes, Secs2Route::new(StreamId(6), FunctionId(11))), None);
    assert_eq!(route_index(&Vec::new(), a), None);
}

#[test]
fn answer_primary_sends_only_an_answer_under_its_key() {
    let mut rt = runtime(false);
    let k = key(TransactionOwner::Remote, 9);
    assert_eq!(rt.answer_primary(k, None), Ok(()));
    assert!(rt.lower().sent.is_empty());
    assert_eq!(rt.answer_primary(k, Some(message(2, false))), Ok(()));
    assert_eq!(rt.lower().sent.len(), 1);
    assert_eq!(rt.lower().sent[0].transaction_key, k);
    assert_eq!(rt.lower().sent[0].payload, message(2, false));

    let mut refusing = runtime(true);
    assert_eq!(
        refusing.answer_primary(k, Some(message(2, false))),
        Err(MachineError::InvalidState)
    );
}
