//! The HSMS session state machine (SEMI E37): connection, selection, linktest
//! and separation, driven by signals and answering with effects.
use vstd::prelude::*;

use crate::common::{ConnectionRole, SecsTimeoutUnit, SessionId};
use crate::hsms::{HsmsControl, HsmsHeader, HsmsSType, HsmsSelectStatus};

verus! {

/// Where a session stands. Selected and not-selected sessions are connected.
#[derive(Debug, Clone, Copy, PartialEq, Eq, Structural)]
pub enum HsmsConnectionState {
    NotConnected,
    NotSelected,
    Selected,
}

impl HsmsConnectionState {
    pub fn is_connected(&self) -> (r: bool)
        ensures
            r == (*self != HsmsConnectionState::NotConnected),
    {
        !matches!(self, HsmsConnectionState::NotConnected)
    }

    pub fn is_not_connected(&self) -> (r: bool)
        ensures
            r == (*self == HsmsConnectionState::NotConnected),
    {
        matches!(self, HsmsConnectionState::NotConnected)
    }

    pub fn is_selected(&self) -> (r: bool)
        ensures
            r == (*self == HsmsConnectionState::Selected),
    {
        matches!(self, HsmsConnectionState::Selected)
    }

    pub fn is_not_selected(&self) -> (r: bool)
        ensures
            r == (*self == HsmsConnectionState::NotSelected),
    {
        matches!(self, HsmsConnectionState::NotSelected)
    }
}

/// What happens to a session.
#[derive(Debug, Clone, Copy, PartialEq, Eq, Structural)]
pub enum HsmsSessionSignal {
    /// A control message arrived.
    RecvControl(HsmsControl),
    /// The connection opened.
    Connected,
    /// The connection closed.
    Disconnected,
    /// A timer expired.
    Timeout(SecsTimeoutUnit),
}

/// What a session asks its surroundings to do.
#[derive(Debug, Clone, Copy, PartialEq, Eq, Structural)]
pub enum HsmsSessionEffect {
    Connect,
    Disconnect,
    SendControl(HsmsControl),
    StartTimeout(SecsTimeoutUnit),
    ClearTimeout(SecsTimeoutUnit),
}

/// Why a session refused a request.
#[derive(Debug, Clone, Copy, PartialEq, Eq, Structural)]
pub enum HsmsSessionError {
    /// The request is not allowed in this state.
    InvalidState(HsmsConnectionState),
    /// Reconnecting waits for T5.
    ConnectNotAllowed,
}

/// The effects of a transition, the state it leads to, and whether connecting
/// is allowed afterwards.
pub struct Transition {
    pub state: HsmsConnectionState,
    pub can_connect: bool,
    pub effects: Seq<HsmsSessionEffect>,
}

/// A transition that keeps state and connect permission and emits `effects`.
pub open spec fn stay(
    state: HsmsConnectionState,
    can_connect: bool,
    effects: Seq<HsmsSessionEffect>,
) -> Transition {
    Transition { state, can_connect, effects }
}

/// Not connected: a connection starts selection (active) or the wait for a
/// Select.req (passive); an active side reconnects when T5 expires.
pub open spec fn not_connected_step(
    role: ConnectionRole,
    can_connect: bool,
    signal: HsmsSessionSignal,
) -> Transition {
    match signal {
        HsmsSessionSignal::Connected => match role {
            ConnectionRole::Active => Transition {
                state: HsmsConnectionState::NotSelected,
                can_connect,
                effects: seq![
                    HsmsSessionEffect::SendControl(HsmsControl::SelectReq),
                    HsmsSessionEffect::StartTimeout(SecsTimeoutUnit::T6),
                ],
            },
            ConnectionRole::Passive => Transition {
                state: HsmsConnectionState::NotSelected,
                can_connect,
                effects: seq![HsmsSessionEffect::StartTimeout(SecsTimeoutUnit::T7)],
            },
        },
        HsmsSessionSignal::Timeout(SecsTimeoutUnit::T5) if role == ConnectionRole::Active => stay(
            HsmsConnectionState::NotConnected,
            true,
            seq![HsmsSessionEffect::Connect],
        ),
        _ => stay(HsmsConnectionState::NotConnected, can_connect, seq![]),
    }
}

/// Not selected: the select exchange completes selection, anything else
/// disconnects; a lost connection is reopened (passive) or waits for T5 (active).
pub open spec fn not_selected_step(
    role: ConnectionRole,
    can_connect: bool,
    signal: HsmsSessionSignal,
) -> Transition {
    match signal {
        HsmsSessionSignal::RecvControl(c) => match role {
            ConnectionRole::Active => if c == HsmsControl::SelectRsp(HsmsSelectStatus::Success) {
                Transition {
                    state: HsmsConnectionState::Selected,
                    can_connect,
                    effects: seq![HsmsSessionEffect::ClearTimeout(SecsTimeoutUnit::T6)],
                }
            } else {
                stay(
                    HsmsConnectionState::NotSelected,
                    can_connect,
                    seq![HsmsSessionEffect::Disconnect],
                )
            },
            ConnectionRole::Passive => if c == HsmsControl::SelectReq {
                Transition {
                    state: HsmsConnectionState::Selected,
                    can_connect,
                    effects: seq![
                        HsmsSessionEffect::ClearTimeout(SecsTimeoutUnit::T7),
                        HsmsSessionEffect::SendControl(
                            HsmsControl::SelectRsp(HsmsSelectStatus::Success),
                        ),
                    ],
                }
            } else {
                stay(
                    HsmsConnectionState::NotSelected,
                    can_connect,
                    seq![HsmsSessionEffect::Disconnect],
                )
            },
        },
        HsmsSessionSignal::Connected => stay(HsmsConnectionState::NotSelected, can_connect, seq![]),
        HsmsSessionSignal::Disconnected => match role {
            ConnectionRole::Passive => Transition {
                state: HsmsConnectionState::NotConnected,
                can_connect,
                effects: seq![HsmsSessionEffect::Connect],
            },
            ConnectionRole::Active => Transition {
                state: HsmsConnectionState::NotConnected,
                can_connect: false,
                effects: seq![HsmsSessionEffect::StartTimeout(SecsTimeoutUnit::T5)],
            },
        },
        HsmsSessionSignal::Timeout(u) => {
            let expired = match role {
                ConnectionRole::Active => u == SecsTimeoutUnit::T6 || u == SecsTimeoutUnit::T8,
                ConnectionRole::Passive => u == SecsTimeoutUnit::T7 || u == SecsTimeoutUnit::T8,
            };
            stay(
                HsmsConnectionState::NotSelected,
                can_connect,
                if expired {
                    seq![HsmsSessionEffect::Disconnect]
                } else {
                    seq![]
                },
            )
        },
    }
}

/// The effects of a control message received while selected.
pub open spec fn selected_control_effects(role: ConnectionRole, c: HsmsControl) -> Seq<
    HsmsSessionEffect,
> {
    match c {
        HsmsControl::SelectReq => if role == ConnectionRole::Passive {
            seq![
                HsmsSessionEffect::SendControl(
                    HsmsControl::SelectRsp(HsmsSelectStatus::AlreadyActive),
                ),
            ]
        } else {
            seq![]
        },
        HsmsControl::LinktestReq => seq![HsmsSessionEffect::SendControl(HsmsControl::LinktestRsp)],
        HsmsControl::LinktestRsp => seq![HsmsSessionEffect::ClearTimeout(SecsTimeoutUnit::T6)],
        HsmsControl::SeparateReq => seq![HsmsSessionEffect::Disconnect],
        _ => seq![],
    }
}

/// Selected: linktests are answered, a Separate.req or an expired T6/T8
/// disconnects, a lost connection returns to not connected.
pub open spec fn selected_step(
    role: ConnectionRole,
    can_connect: bool,
    signal: HsmsSessionSignal,
) -> Transition {
    match signal {
        HsmsSessionSignal::RecvControl(c) => stay(
            HsmsConnectionState::Selected,
            can_connect,
            selected_control_effects(role, c),
        ),
        HsmsSessionSignal::Connected => stay(HsmsConnectionState::Selected, can_connect, seq![]),
        HsmsSessionSignal::Disconnected => Transition {
            state: HsmsConnectionState::NotConnected,
            can_connect,
            effects: if role == ConnectionRole::Passive {
                seq![HsmsSessionEffect::Connect]
            } else {
                seq![]
            },
        },
        HsmsSessionSignal::Timeout(u) => stay(
            HsmsConnectionState::Selected,
            can_connect,
            if u == SecsTimeoutUnit::T6 || u == SecsTimeoutUnit::T8 {
                seq![HsmsSessionEffect::Disconnect]
            } else {
                seq![]
            },
        ),
    }
}

/// The transition a signal causes in a given state.
pub open spec fn session_step(
    role: ConnectionRole,
    state: HsmsConnectionState,
    can_connect: bool,
    signal: HsmsSessionSignal,
) -> Transition {
    match state {
        HsmsConnectionState::NotConnected => not_connected_step(role, can_connect, signal),
        HsmsConnectionState::NotSelected => not_selected_step(role, can_connect, signal),
        HsmsConnectionState::Selected => selected_step(role, can_connect, signal),
    }
}

/// Which messages a session in a given state may send or accept.
pub open spec fn message_allowed(state: HsmsConnectionState, stype: HsmsSType) -> bool {
    match stype {
        HsmsSType::DataMessage => state == HsmsConnectionState::Selected,
        HsmsSType::SelectReq => state == HsmsConnectionState::NotSelected,
        HsmsSType::SelectRsp => state == HsmsConnectionState::NotSelected,
        HsmsSType::DeselectReq => false,
        HsmsSType::DeselectRsp => false,
        HsmsSType::LinktestReq => state == HsmsConnectionState::Selected,
        HsmsSType::LinktestRsp => state == HsmsConnectionState::Selected,
        HsmsSType::RejectReq => true,
        HsmsSType::SeparateReq => state == HsmsConnectionState::Selected,
    }
}

pub type HsmsSessionResult<T> = Result<T, HsmsSessionError>;

/// An HSMS session. Every request and signal answers with the effects it
/// causes; effects stacked before a failing request are dropped.
pub struct HsmsSession {
    pub state: HsmsConnectionState,
    pub session_id: SessionId,
    /// Whether a connect request is allowed; false while T5 runs.
    pub can_connect: bool,
    pub role: ConnectionRole,
    /// Effects not handed out yet; none between requests (see `wf`).
    pub effects: Vec<HsmsSessionEffect>,
}

impl HsmsSession {
    /// Between requests no effect is left stacked: `new` starts so, and
    /// every request and signal hands out what it stacked or drops it.
    pub open spec fn wf(&self) -> bool {
        self.effects@.len() == 0
    }

    pub fn new(session_id: SessionId, role: ConnectionRole) -> (r: HsmsSession)
        ensures
            r.state == HsmsConnectionState::NotConnected,
            r.session_id == session_id,
            r.can_connect,
            r.role == role,
            r.wf(),
    {
        HsmsSession {
            state: HsmsConnectionState::NotConnected,
            session_id,
            can_connect: true,
            role,
            effects: Vec::new(),
        }
    }

    pub fn is_passive(&self) -> (r: bool)
        ensures
            r == (self.role == ConnectionRole::Passive),
    {
        self.role.is_passive()
    }

    pub fn is_active(&self) -> (r: bool)
        ensures
            r == (self.role == ConnectionRole::Active),
    {
        self.role.is_active()
    }

    pub fn state(&self) -> (r: HsmsConnectionState)
        ensures
            r == self.state,
    {
        self.state
    }

    /// Stacks an effect to hand out with the next answer. A session with a
    /// stacked effect is not `wf` until a request hands it out or drops it.
    pub fn stack_effect(&mut self, effect: HsmsSessionEffect)
        ensures
            final(self).effects@ == old(self).effects@.push(effect),
            final(self).state == old(self).state,
            final(self).can_connect == old(self).can_connect,
            final(self).role == old(self).role,
            final(self).session_id == old(self).session_id,
    {
        self.effects.push(effect);
    }

    /// Hands out the stacked effects.
    fn emit(&mut self) -> (r: Vec<HsmsSessionEffect>)
        ensures
            r@ == old(self).effects@,
            final(self).effects@.len() == 0,
            final(self).state == old(self).state,
            final(self).can_connect == old(self).can_connect,
            final(self).role == old(self).role,
            final(self).session_id == old(self).session_id,
    {
        let mut out: Vec<HsmsSessionEffect> = Vec::new();
        core::mem::swap(&mut out, &mut self.effects);
        out
    }

    /// Drops the stacked effects and reports `error`.
    fn fail<T>(&mut self, error: HsmsSessionError) -> (r: HsmsSessionResult<T>)
        ensures
            r == Err::<T, HsmsSessionError>(error),
            final(self).effects@.len() == 0,
            final(self).state == old(self).state,
            final(self).can_connect == old(self).can_connect,
            final(self).role == old(self).role,
            final(self).session_id == old(self).session_id,
    {
        self.effects.clear();
        Err(error)
    }

    /// Asks for a connection; refused while connected, or while T5 runs.
    pub fn connect(&mut self) -> (r: HsmsSessionResult<Vec<HsmsSessionEffect>>)
        requires
            old(self).wf(),
        ensures
            final(self).effects@.len() == 0,
            final(self).state == old(self).state,
            final(self).can_connect == old(self).can_connect,
            final(self).role == old(self).role,
            final(self).session_id == old(self).session_id,
            old(self).state != HsmsConnectionState::NotConnected ==> r == Err::<
                Vec<HsmsSessionEffect>,
                HsmsSessionError,
            >(HsmsSessionError::InvalidState(old(self).state)),
            old(self).state == HsmsConnectionState::NotConnected && !old(self).can_connect ==> r
                == Err::<Vec<HsmsSessionEffect>, HsmsSessionError>(
                HsmsSessionError::ConnectNotAllowed,
            ),
            old(self).state == HsmsConnectionState::NotConnected && old(self).can_connect ==> (r
                is Ok && r->Ok_0@ == old(self).effects@.push(HsmsSessionEffect::Connect)),
    {
        if self.state.is_connected() {
            return self.fail(HsmsSessionError::InvalidState(self.state));
        }
        if !self.can_connect {
            return self.fail(HsmsSessionError::ConnectNotAllowed);
        }
        self.stack_effect(HsmsSessionEffect::Connect);
        Ok(self.emit())
    }

    /// Asks to close the connection.
    pub fn disconnect(&mut self) -> (r: HsmsSessionResult<Vec<HsmsSessionEffect>>)
        requires
            old(self).wf(),
        ensures
            final(self).effects@.len() == 0,
            final(self).state == old(self).state,
            final(self).can_connect == old(self).can_connect,
            final(self).role == old(self).role,
            final(self).session_id == old(self).session_id,
            r is Ok && r->Ok_0@ == old(self).effects@.push(HsmsSessionEffect::Disconnect),
    {
        self.stack_effect(HsmsSessionEffect::Disconnect);
        Ok(self.emit())
    }

    /// Sends Select.req and starts T6; only an active, not selected session may.
    pub fn select(&mut self) -> (r: HsmsSessionResult<Vec<HsmsSessionEffect>>)
        requires
            old(self).wf(),
        ensures
            final(self).effects@.len() == 0,
            final(self).state == old(self).state,
            final(self).can_connect == old(self).can_connect,
            final(self).role == old(self).role,
            final(self).session_id == old(self).session_id,
            old(self).state == HsmsConnectionState::NotSelected && old(self).role
                == ConnectionRole::Active ==> (r is Ok && r->Ok_0@ == old(self).effects@ + seq![
                HsmsSessionEffect::SendControl(HsmsControl::SelectReq),
                HsmsSessionEffect::StartTimeout(SecsTimeoutUnit::T6),
            ]),
            !(old(self).state == HsmsConnectionState::NotSelected && old(self).role
                == ConnectionRole::Active) ==> r == Err::<Vec<HsmsSessionEffect>, HsmsSessionError>(
                HsmsSessionError::InvalidState(old(self).state),
            ),
    {
        if !self.state.is_not_selected() || self.role.is_passive() {
            return self.fail(HsmsSessionError::InvalidState(self.state));
        }
        self.stack_effect(HsmsSessionEffect::SendControl(HsmsControl::SelectReq));
        self.stack_effect(HsmsSessionEffect::StartTimeout(SecsTimeoutUnit::T6));
        Ok(self.emit())
    }

    /// Sends Linktest.req and starts T6; only while selected.
    pub fn linktest(&mut self) -> (r: HsmsSessionResult<Vec<HsmsSessionEffect>>)
        requires
            old(self).wf(),
        ensures
            final(self).effects@.len() == 0,
            final(self).state == old(self).state,
            final(self).can_connect == old(self).can_connect,
            final(self).role == old(self).role,
            final(self).session_id == old(self).session_id,
            old(self).state == HsmsConnectionState::Selected ==> (r is Ok && r->Ok_0@ == old(self).effects@ + seq![
                HsmsSessionEffect::SendControl(HsmsControl::LinktestReq),
                HsmsSessionEffect::StartTimeout(SecsTimeoutUnit::T6),
            ]),
            old(self).state != HsmsConnectionState::Selected ==> r == Err::<
                Vec<HsmsSessionEffect>,
                HsmsSessionError,
            >(HsmsSessionError::InvalidState(old(self).state)),
    {
        if !self.state.is_selected() {
            return self.fail(HsmsSessionError::InvalidState(self.state));
        }
        self.stack_effect(HsmsSessionEffect::SendControl(HsmsControl::LinktestReq));
        self.stack_effect(HsmsSessionEffect::StartTimeout(SecsTimeoutUnit::T6));
        Ok(self.emit())
    }

    /// Sends Separate.req and closes the connection; only while selected. A
    /// session ended this way is not restarted by `connect` until T5 runs out.
    pub fn separate(&mut self) -> (r: HsmsSessionResult<Vec<HsmsSessionEffect>>)
        requires
            old(self).wf(),
        ensures
            final(self).effects@.len() == 0,
            final(self).state == old(self).state,
            final(self).role == old(self).role,
            final(self).session_id == old(self).session_id,
            old(self).state == HsmsConnectionState::Selected ==> (r is Ok && r->Ok_0@ == old(self).effects@ + seq![
                HsmsSessionEffect::SendControl(HsmsControl::SeparateReq),
                HsmsSessionEffect::Disconnect,
            ] && !final(self).can_connect),
            old(self).state != HsmsConnectionState::Selected ==> r == Err::<
                Vec<HsmsSessionEffect>,
                HsmsSessionError,
            >(HsmsSessionError::InvalidState(old(self).state)) && final(self).can_connect == old(self).can_connect,
    {
        if !self.state.is_selected() {
            return self.fail(HsmsSessionError::InvalidState(self.state));
        }
        self.can_connect = false;
        self.stack_effect(HsmsSessionEffect::SendControl(HsmsControl::SeparateReq));
        self.stack_effect(HsmsSessionEffect::Disconnect);
        Ok(self.emit())
    }

    /// Whether a message of the header's session type may be sent or
    /// accepted in the current state.
    pub fn is_allowed(&self, header: &HsmsHeader) -> (r: bool)
        ensures
            r == message_allowed(self.state, header.stype),
    {
        match header.stype {
            HsmsSType::DataMessage => self.state.is_selected(),
            HsmsSType::SelectReq => self.state.is_not_selected(),
            HsmsSType::SelectRsp => self.state.is_not_selected(),
            HsmsSType::DeselectReq => false,
            HsmsSType::DeselectRsp => false,
            HsmsSType::LinktestReq => self.state.is_selected(),
            HsmsSType::LinktestRsp => self.state.is_selected(),
            HsmsSType::RejectReq => true,
            HsmsSType::SeparateReq => self.state.is_selected(),
        }
    }

    /// Handles a signal in the current state; never refused.
    pub fn handle(&mut self, signal: HsmsSessionSignal) -> (r: HsmsSessionResult<
        Vec<HsmsSessionEffect>,
    >)
        requires
            old(self).wf(),
        ensures
            ({
                let t = session_step(old(self).role, old(self).state, old(self).can_connect, signal);
                &&& r is Ok
                &&& r->Ok_0@ == old(self).effects@ + t.effects
                &&& final(self).state == t.state
                &&& final(self).can_connect == t.can_connect
            }),
            final(self).effects@.len() == 0,
            final(self).role == old(self).role,
            final(self).session_id == old(self).session_id,
    {
        match self.state {
            HsmsConnectionState::NotConnected => self.handle_not_connected(signal),
            HsmsConnectionState::NotSelected => self.handle_not_selected(signal),
            HsmsConnectionState::Selected => self.handle_selected(signal),
        }
    }

    fn handle_not_connected(&mut self, signal: HsmsSessionSignal) -> (r: HsmsSessionResult<
        Vec<HsmsSessionEffect>,
    >)
        requires
            old(self).wf(),
            old(self).state == HsmsConnectionState::NotConnected,
        ensures
            ({
                let t = not_connected_step(old(self).role, old(self).can_connect, signal);
                &&& r is Ok
                &&& r->Ok_0@ == old(self).effects@ + t.effects
                &&& final(self).state == t.state
                &&& final(self).can_connect == t.can_connect
            }),
            final(self).effects@.len() == 0,
            final(self).role == old(self).role,
            final(self).session_id == old(self).session_id,
    {
        match signal {
            HsmsSessionSignal::Connected => {
                self.state = HsmsConnectionState::NotSelected;
                match self.role {
                    ConnectionRole::Active => {
                        return self.select();
                    },
                    ConnectionRole::Passive => {
                        self.stack_effect(HsmsSessionEffect::StartTimeout(SecsTimeoutUnit::T7));
                    },
                }
            },
            HsmsSessionSignal::Disconnected => {},
            HsmsSessionSignal::Timeout(unit) => {
                if matches!(unit, SecsTimeoutUnit::T5) && self.role.is_active() {
                    self.can_connect = true;
                    self.stack_effect(HsmsSessionEffect::Connect);
                }
            },
            HsmsSessionSignal::RecvControl(..) => {},
        }
        assert(self.effects@ =~= old(self).effects@ + not_connected_step(
            old(self).role,
            old(self).can_connect,
            signal,
        ).effects);
        Ok(self.emit())
    }

    fn handle_not_selected(&mut self, signal: HsmsSessionSignal) -> (r: HsmsSessionResult<
        Vec<HsmsSessionEffect>,
    >)
        requires
            old(self).wf(),
            old(self).state == HsmsConnectionState::NotSelected,
        ensures
            ({
                let t = not_selected_step(old(self).role, old(self).can_connect, signal);
                &&& r is Ok
                &&& r->Ok_0@ == old(self).effects@ + t.effects
                &&& final(self).state == t.state
                &&& final(self).can_connect == t.can_connect
            }),
            final(self).effects@.len() == 0,
            final(self).role == old(self).role,
            final(self).session_id == old(self).session_id,
    {
        match signal {
            HsmsSessionSignal::RecvControl(control) => {
                match self.role {
                    ConnectionRole::Active => {
                        if control == HsmsControl::SelectRsp(HsmsSelectStatus::Success) {
                            self.stack_effect(HsmsSessionEffect::ClearTimeout(SecsTimeoutUnit::T6));
                            self.state = HsmsConnectionState::Selected;
                        } else {
                            return self.disconnect();
                        }
                    },
                    ConnectionRole::Passive => {
                        if control == HsmsControl::SelectReq {
                            self.stack_effect(HsmsSessionEffect::ClearTimeout(SecsTimeoutUnit::T7));
                            self.stack_effect(
                                HsmsSessionEffect::SendControl(
                                    HsmsControl::SelectRsp(HsmsSelectStatus::Success),
                                ),
                            );
                            self.state = HsmsConnectionState::Selected;
                        } else {
                            return self.disconnect();
                        }
                    },
                }
            },
            HsmsSessionSignal::Connected => {},
            HsmsSessionSignal::Disconnected => {
                self.state = HsmsConnectionState::NotConnected;
                self.passive_reconnect();
                if self.role.is_active() {
                    self.can_connect = false;
                    self.stack_effect(HsmsSessionEffect::StartTimeout(SecsTimeoutUnit::T5));
                }
            },
            HsmsSessionSignal::Timeout(unit) => {
                match self.role {
                    ConnectionRole::Active => {
                        if matches!(unit, SecsTimeoutUnit::T6 | SecsTimeoutUnit::T8) {
                            self.stack_effect(HsmsSessionEffect::Disconnect);
                        }
                    },
                    ConnectionRole::Passive => {
                        if matches!(unit, SecsTimeoutUnit::T7 | SecsTimeoutUnit::T8) {
                            self.stack_effect(HsmsSessionEffect::Disconnect);
                        }
                    },
                }
            },
        }
        assert(self.effects@ =~= old(self).effects@ + not_selected_step(
            old(self).role,
            old(self).can_connect,
            signal,
        ).effects);
        Ok(self.emit())
    }

    fn handle_selected(&mut self, signal: HsmsSessionSignal) -> (r: HsmsSessionResult<
        Vec<HsmsSessionEffect>,
    >)
        requires
            old(self).wf(),
            old(self).state == HsmsConnectionState::Selected,
        ensures
            ({
                let t = selected_step(old(self).role, old(self).can_connect, signal);
                &&& r is Ok
                &&& r->Ok_0@ == old(self).effects@ + t.effects
                &&& final(self).state == t.state
                &&& final(self).can_connect == t.can_connect
            }),
            final(self).effects@.len() == 0,
            final(self).role == old(self).role,
            final(self).session_id == old(self).session_id,
    {
        match signal {
            HsmsSessionSignal::RecvControl(control) => {
                match control {
                    HsmsControl::SelectReq => {
                        if self.role.is_passive() {
                            self.stack_effect(
                                HsmsSessionEffect::SendControl(
                                    HsmsControl::SelectRsp(HsmsSelectStatus::AlreadyActive),
                                ),
                            );
                        }
                    },
                    HsmsControl::LinktestReq => {
                        self.stack_effect(HsmsSessionEffect::SendControl(HsmsControl::LinktestRsp));
                    },
                    HsmsControl::LinktestRsp => {
                        self.stack_effect(HsmsSessionEffect::ClearTimeout(SecsTimeoutUnit::T6));
                    },
                    HsmsControl::SeparateReq => {
                        self.stack_effect(HsmsSessionEffect::Disconnect);
                    },
                    _ => {},
                }
            },
            HsmsSessionSignal::Connected => {},
            HsmsSessionSignal::Disconnected => {
                self.state = HsmsConnectionState::NotConnected;
                self.passive_reconnect();
            },
            HsmsSessionSignal::Timeout(unit) => {
                if matches!(unit, SecsTimeoutUnit::T6 | SecsTimeoutUnit::T8) {
                    self.stack_effect(HsmsSessionEffect::Disconnect);
                }
            },
        }
        assert(self.effects@ =~= old(self).effects@ + selected_step(
            old(self).role,
            old(self).can_connect,
            signal,
        ).effects);
        Ok(self.emit())
    }

    /// A passive side listens again after losing its connection.
    fn passive_reconnect(&mut self)
        ensures
            final(self).effects@ == if old(self).role == ConnectionRole::Passive {
                old(self).effects@.push(HsmsSessionEffect::Connect)
            } else {
                old(self).effects@
            },
            final(self).state == old(self).state,
            final(self).can_connect == old(self).can_connect,
            final(self).role == old(self).role,
            final(self).session_id == old(self).session_id,
    {
        if self.role.is_passive() {
            self.stack_effect(HsmsSessionEffect::Connect);
        }
    }
}

/// A session becomes selected only through the select exchange while not
/// selected: an active side on a successful Select.rsp, a passive side on a
/// Select.req.
pub proof fn lemma_selected_only_by_select_exchange(
    role: ConnectionRole,
    state: HsmsConnectionState,
    can_connect: bool,
    signal: HsmsSessionSignal,
)
    requires
        state != HsmsConnectionState::Selected,
        session_step(role, state, can_connect, signal).state == HsmsConnectionState::Selected,
    ensures
        state == HsmsConnectionState::NotSelected,
        role == ConnectionRole::Active ==> signal == HsmsSessionSignal::RecvControl(
            HsmsControl::SelectRsp(HsmsSelectStatus::Success),
        ),
        role == ConnectionRole::Passive ==> signal == HsmsSessionSignal::RecvControl(
            HsmsControl::SelectReq,
        ),
{
}

/// Losing the connection always leads to the not connected state, and a
/// passive side then listens again.
pub proof fn lemma_disconnect_leads_to_not_connected(
    role: ConnectionRole,
    state: HsmsConnectionState,
    can_connect: bool,
)
    ensures
        session_step(role, state, can_connect, HsmsSessionSignal::Disconnected).state
            == HsmsConnectionState::NotConnected,
        role == ConnectionRole::Passive && state != HsmsConnectionState::NotConnected ==> session_step(
            role,
            state,
            can_connect,
            HsmsSessionSignal::Disconnected,
        ).effects.contains(HsmsSessionEffect::Connect),
{
    if role == ConnectionRole::Passive && state != HsmsConnectionState::NotConnected {
        let t = session_step(role, state, can_connect, HsmsSessionSignal::Disconnected);
        assert(t.effects[0] == HsmsSessionEffect::Connect);
    }
}

/// A session asks to connect only when it is left not connected.
pub proof fn lemma_connect_only_when_not_connected(
    role: ConnectionRole,
    state: HsmsConnectionState,
    can_connect: bool,
    signal: HsmsSessionSignal,
)
    requires
        session_step(role, state, can_connect, signal).effects.contains(HsmsSessionEffect::Connect),
    ensures
        session_step(role, state, can_connect, signal).state == HsmsConnectionState::NotConnected,
{
    let t = session_step(role, state, can_connect, signal);
    let i = choose|i: int| 0 <= i < t.effects.len() && t.effects[i] == HsmsSessionEffect::Connect;
    assert(t.effects[i] == HsmsSessionEffect::Connect);
}

/// An active side that loses its connection before selection may not
/// reconnect until T5 expires, and then asks to reconnect.
pub proof fn lemma_active_reconnect_waits_for_t5(can_connect: bool)
    ensures
        ({
            let lost = session_step(
                ConnectionRole::Active,
                HsmsConnectionState::NotSelected,
                can_connect,
                HsmsSessionSignal::Disconnected,
            );
            let expired = session_step(
                ConnectionRole::Active,
                lost.state,
                lost.can_connect,
                HsmsSessionSignal::Timeout(SecsTimeoutUnit::T5),
            );
            &&& lost.state == HsmsConnectionState::NotConnected
            &&& !lost.can_connect
            &&& lost.effects == seq![HsmsSessionEffect::StartTimeout(SecsTimeoutUnit::T5)]
            &&& expired.can_connect
            &&& expired.effects == seq![HsmsSessionEffect::Connect]
        }),
{
}

/// Data messages pass only while selected.
pub proof fn lemma_data_only_when_selected(state: HsmsConnectionState)
    ensures
        message_allowed(state, HsmsSType::DataMessage) <==> state == HsmsConnectionState::Selected,
{
}

/// A session that is not connected ignores received control messages and a
/// repeated loss of the connection: it stays as it is and asks for nothing.
pub proof fn lemma_not_connected_ignores(role: ConnectionRole, can_connect: bool, signal: HsmsSessionSignal)
    requires
        signal is RecvControl || signal is Disconnected,
    ensures
        ({
            let t = session_step(role, HsmsConnectionState::NotConnected, can_connect, signal);
            &&& t.state == HsmsConnectionState::NotConnected
            &&& t.can_connect == can_connect
            &&& t.effects == Seq::<HsmsSessionEffect>::empty()
        }),
{
}

/// A session ended by separate is not restarted: once the connection is
/// gone, it is not connected and a connect request is refused.
pub proof fn lemma_separated_session_stays_down(role: ConnectionRole)
    ensures
        ({
            let t = session_step(role, HsmsConnectionState::Selected, false, HsmsSessionSignal::Disconnected);
            &&& t.state == HsmsConnectionState::NotConnected
            &&& !t.can_connect
        }),
{
}

/// A selected session answers the peer's Linktest.req with one Linktest.rsp
/// and nothing else, on either side, and stays selected.
pub proof fn lemma_selected_answers_linktest(role: ConnectionRole, can_connect: bool)
    ensures
        session_step(role, HsmsConnectionState::Selected, can_connect, HsmsSessionSignal::RecvControl(HsmsControl::LinktestReq))
            == (Transition {
            state: HsmsConnectionState::Selected,
            can_connect,
            effects: seq![HsmsSessionEffect::SendControl(HsmsControl::LinktestRsp)],
        }),
{
}

/// A selected session whose peer asks to separate closes the connection and
/// asks for nothing else, on either side.
pub proof fn lemma_selected_separate_disconnects(role: ConnectionRole, can_connect: bool)
    ensures
        session_step(role, HsmsConnectionState::Selected, can_connect, HsmsSessionSignal::RecvControl(HsmsControl::SeparateReq))
            == (Transition {
            state: HsmsConnectionState::Selected,
            can_connect,
            effects: seq![HsmsSessionEffect::Disconnect],
        }),
{
}

/// While selected, every received request is answered by its own response:
/// a Linktest.req by a Linktest.rsp, and on the passive side a repeated
/// Select.req by a Select.rsp saying the session is already active; the
/// answer is the only control message sent.
pub proof fn lemma_selected_requests_are_answered(role: ConnectionRole, can_connect: bool, c: HsmsControl)
    requires
        c == HsmsControl::LinktestReq || (c == HsmsControl::SelectReq && role == ConnectionRole::Passive),
    ensures
        ({
            let t = session_step(role, HsmsConnectionState::Selected, can_connect, HsmsSessionSignal::RecvControl(c));
            &&& t.effects.len() == 1
            &&& t.effects[0] == HsmsSessionEffect::SendControl(
                if c == HsmsControl::LinktestReq {
                    HsmsControl::LinktestRsp
                } else {
                    HsmsControl::SelectRsp(HsmsSelectStatus::AlreadyActive)
                },
            )
            &&& t.state == HsmsConnectionState::Selected
        }),
{
}

/// The select handshake. On connecting, the active side sends Select.req
/// and starts T6, the passive side starts T7 and waits. The passive side
/// answers a Select.req by stopping T7 and sending a successful Select.rsp,
/// and is selected; the active side, on a successful Select.rsp, stops T6
/// and is selected. Either side that gets another control message before
/// selection closes the connection.
pub proof fn lemma_select_handshake(can_connect: bool, c: HsmsControl)
    ensures
        session_step(ConnectionRole::Active, HsmsConnectionState::NotConnected, can_connect, HsmsSessionSignal::Connected)
            == (Transition {
            state: HsmsConnectionState::NotSelected,
            can_connect,
            effects: seq![
                HsmsSessionEffect::SendControl(HsmsControl::SelectReq),
                HsmsSessionEffect::StartTimeout(SecsTimeoutUnit::T6),
            ],
        }),
        session_step(ConnectionRole::Passive, HsmsConnectionState::NotConnected, can_connect, HsmsSessionSignal::Connected)
            == (Transition {
            state: HsmsConnectionState::NotSelected,
            can_connect,
            effects: seq![HsmsSessionEffect::StartTimeout(SecsTimeoutUnit::T7)],
        }),
        session_step(
            ConnectionRole::Passive,
            HsmsConnectionState::NotSelected,
            can_connect,
            HsmsSessionSignal::RecvControl(HsmsControl::SelectReq),
        ) == (Transition {
            state: HsmsConnectionState::Selected,
            can_connect,
            effects: seq![
                HsmsSessionEffect::ClearTimeout(SecsTimeoutUnit::T7),
                HsmsSessionEffect::SendControl(HsmsControl::SelectRsp(HsmsSelectStatus::Success)),
            ],
        }),
        session_step(
            ConnectionRole::Active,
            HsmsConnectionState::NotSelected,
            can_connect,
            HsmsSessionSignal::RecvControl(HsmsControl::SelectRsp(HsmsSelectStatus::Success)),
        ) == (Transition {
            state: HsmsConnectionState::Selected,
            can_connect,
            effects: seq![HsmsSessionEffect::ClearTimeout(SecsTimeoutUnit::T6)],
        }),
        c != HsmsControl::SelectReq ==> session_step(
            ConnectionRole::Passive,
            HsmsConnectionState::NotSelected,
            can_connect,
            HsmsSessionSignal::RecvControl(c),
        ) == (Transition {
            state: HsmsConnectionState::NotSelected,
            can_connect,
            effects: seq![HsmsSessionEffect::Disconnect],
        }),
        c != HsmsControl::SelectRsp(HsmsSelectStatus::Success) ==> session_step(
            ConnectionRole::Active,
            HsmsConnectionState::NotSelected,
            can_connect,
            HsmsSessionSignal::RecvControl(c),
        ) == (Transition {
            state: HsmsConnectionState::NotSelected,
            can_connect,
            effects: seq![HsmsSessionEffect::Disconnect],
        }),
{
}

/// While selected, a Linktest.rsp stops T6 and nothing else, and an expired
/// T6 or T8 closes the connection while other timers change nothing.
pub proof fn lemma_selected_linktest_reply_and_timers(role: ConnectionRole, can_connect: bool, u: SecsTimeoutUnit)
    ensures
        session_step(role, HsmsConnectionState::Selected, can_connect, HsmsSessionSignal::RecvControl(HsmsControl::LinktestRsp))
            == (Transition {
            state: HsmsConnectionState::Selected,
            can_connect,
            effects: seq![HsmsSessionEffect::ClearTimeout(SecsTimeoutUnit::T6)],
        }),
        session_step(role, HsmsConnectionState::Selected, can_connect, HsmsSessionSignal::Timeout(u)) == (Transition {
            state: HsmsConnectionState::Selected,
            can_connect,
            effects: if u == SecsTimeoutUnit::T6 || u == SecsTimeoutUnit::T8 {
                seq![HsmsSessionEffect::Disconnect]
            } else {
                Seq::empty()
            },
        }),
{
}

} // verus!
