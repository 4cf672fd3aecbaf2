//! The incoming-call engine: Wait and Talking states.
//!
//! The runtime takes the INVITE, runs admission, and then drives this
//! engine: control commands (trying, ringing, accept, end) return the SIP
//! response to send, and `recv` consumes the peer's cancellation, the
//! engine's own queued outcomes, and session events. Accept and end queue
//! what the next receive hands back, so event order is preserved.

use vstd::prelude::*;

pub mod talking_state;
pub mod wait_state;

use crate::protocol::protobuf::sip_gateway::incoming_call_data::incoming_call_event;
use crate::protocol::protobuf::sip_gateway::incoming_call_data::incoming_call_event::sip_event;
use crate::protocol::protobuf::sip_gateway::incoming_call_data::IncomingCallEvent;
use crate::protocol::address_book::IpAddress;
use crate::protocol::InternalCallId;
use crate::sip::server::incoming::talking_state::TalkingState;
use crate::sip::server::incoming::wait_state::WaitState;
use crate::sip::server::outgoing::SessionEvent;

verus! {

/// Failures of the incoming engine: a command that its state refuses.
#[derive(Debug, Clone, Copy, PartialEq, Eq)]
pub enum SipIncomingCallError {
    WrongState(&'static str),
}

/// What one receive step hands back to the runtime.
#[derive(Debug, Clone, PartialEq)]
pub enum SipIncomingCallOut {
    Event(IncomingCallEvent),
    Continue,
}

/// A SIP response the runtime must send for a command.
#[derive(Debug, Clone, Copy, PartialEq, Eq, Structural)]
pub enum SipIncomingAction {
    /// Respond provisionally: 100 Trying or 180 Ringing.
    RespondProvisional { code: u16 },
    /// Respond 200 OK with the media answer attached as the body.
    RespondSuccessWithSdp,
    /// Respond with a failure code: 486 Busy Here or 488 Not Acceptable.
    RespondFailure { code: u16 },
    /// Terminate the established session with BYE.
    TerminateSession,
}

/// What the engine queued for its own next receive.
#[derive(Debug, Clone, PartialEq)]
pub enum Queued {
    /// Hand this event out and switch to Talking.
    SwitchTalking(IncomingCallEvent),
    /// Hand this event out.
    Event(IncomingCallEvent),
    /// The call is over: the next receive returns `None`.
    Exit,
}

/// Anything the runtime can feed into the engine.
#[derive(Debug, Clone, Copy, PartialEq, Eq, Structural)]
pub enum SipIncomingInput {
    /// The engine's queue has an item: consume it.
    Queued,
    /// The peer cancelled the call.
    Cancelled,
    /// An event of the established session.
    Session(SessionEvent),
}

/// The engine's control state.
#[derive(Debug, Clone, Copy, PartialEq, Eq, Structural)]
pub enum State {
    Wait(WaitState),
    Talking(TalkingState),
}

/// The mathematical state of one incoming call.
pub ghost struct InCallV {
    pub call_id: Seq<char>,
    pub from: Seq<char>,
    pub to: Seq<char>,
    pub state: State,
    pub queue: Seq<Queued>,
}

/// The event that reports the peer's CANCEL.
pub open spec fn peer_cancelled_event() -> IncomingCallEvent {
    IncomingCallEvent {
        event: Some(
            incoming_call_event::Event::Sip(
                incoming_call_event::SipEvent {
                    event: Some(sip_event::Event::Cancelled(sip_event::Cancelled {})),
                },
            ),
        ),
    }
}

/// The event that reports the peer's BYE.
pub open spec fn peer_bye_event() -> IncomingCallEvent {
    IncomingCallEvent {
        event: Some(
            incoming_call_event::Event::Sip(
                incoming_call_event::SipEvent {
                    event: Some(sip_event::Event::Bye(sip_event::Bye {})),
                },
            ),
        ),
    }
}

/// The event that reports the call was accepted.
pub open spec fn accepted_event() -> IncomingCallEvent {
    IncomingCallEvent {
        event: Some(incoming_call_event::Event::Accepted(incoming_call_event::Accepted {})),
    }
}

/// The event that reports the call was rejected.
pub open spec fn rejected_event() -> IncomingCallEvent {
    IncomingCallEvent {
        event: Some(
            incoming_call_event::Event::Rejected(incoming_call_event::Rejected {}),
        ),
    }
}

/// One incoming call as the runtime owns it.
pub struct SipIncomingCall {
    call_id: InternalCallId,
    remote: IpAddress,
    from: String,
    to: String,
    state: State,
    queue: Vec<Queued>,
}

impl View for SipIncomingCall {
    type V = InCallV;

    closed spec fn view(&self) -> InCallV {
        InCallV {
            call_id: self.call_id@,
            from: self.from@,
            to: self.to@,
            state: self.state,
            queue: self.queue@,
        }
    }
}

impl SipIncomingCall {
    /// The remote address the INVITE came from, for contracts.
    pub closed spec fn remote_spec(&self) -> IpAddress {
        self.remote
    }

    /// A fresh engine in the Wait state, with a fresh call identifier,
    /// for an INVITE from `remote` addressed `from` -> `to`.
    pub fn new(remote: IpAddress, from: String, to: String) -> (r: Self)
        ensures
            r@.state == State::Wait(WaitState { has_acceptor: true }),
            r@.queue == Seq::<Queued>::empty(),
            r@.from == from@,
            r@.to == to@,
            r.remote_spec() == remote,
    {
        SipIncomingCall {
            call_id: InternalCallId::random(),
            remote,
            from,
            to,
            state: State::Wait(WaitState { has_acceptor: true }),
            queue: Vec::new(),
        }
    }

    /// The call's identifier.
    pub fn call_id(&self) -> (r: InternalCallId)
        ensures
            r@ == self@.call_id,
    {
        self.call_id.clone()
    }

    /// The remote address the INVITE came from.
    pub fn remote(&self) -> (r: IpAddress)
        ensures
            r == self.remote_spec(),
    {
        self.remote
    }

    /// The caller's user part.
    pub fn from(&self) -> (r: &str)
        ensures
            r@ == self@.from,
    {
        self.from.as_str()
    }

    /// The callee's user part.
    pub fn to(&self) -> (r: &str)
        ensures
            r@ == self@.to,
    {
        self.to.as_str()
    }

    /// Whether the engine has queued outcomes to consume.
    pub fn has_queued(&self) -> (r: bool)
        ensures
            r == (self@.queue.len() > 0),
    {
        self.queue.len() > 0
    }

    /// Sends 100 Trying. Only the Wait state, before any final response,
    /// can do this.
    pub fn send_trying(&mut self) -> (r: Result<SipIncomingAction, SipIncomingCallError>)
        ensures
            final(self)@ == old(self)@,
            match old(self)@.state {
                State::Wait(w) => if w.has_acceptor {
                    r == Ok::<_, SipIncomingCallError>(
                        SipIncomingAction::RespondProvisional { code: 100 },
                    )
                } else {
                    r is Err
                },
                State::Talking(_) => r is Err,
            },
    {
        match self.state {
            State::Wait(w) => {
                if w.has_acceptor {
                    Ok(SipIncomingAction::RespondProvisional { code: 100 })
                } else {
                    Err(SipIncomingCallError::WrongState("final response already sent"))
                }
            },
            State::Talking(_) => Err(
                SipIncomingCallError::WrongState("Talking state cannot send trying"),
            ),
        }
    }

    /// Sends 180 Ringing, under the same conditions as 100 Trying.
    pub fn send_ringing(&mut self) -> (r: Result<SipIncomingAction, SipIncomingCallError>)
        ensures
            final(self)@ == old(self)@,
            match old(self)@.state {
                State::Wait(w) => if w.has_acceptor {
                    r == Ok::<_, SipIncomingCallError>(
                        SipIncomingAction::RespondProvisional { code: 180 },
                    )
                } else {
                    r is Err
                },
                State::Talking(_) => r is Err,
            },
    {
        match self.state {
            State::Wait(w) => {
                if w.has_acceptor {
                    Ok(SipIncomingAction::RespondProvisional { code: 180 })
                } else {
                    Err(SipIncomingCallError::WrongState("final response already sent"))
                }
            },
            State::Talking(_) => Err(
                SipIncomingCallError::WrongState("Talking state cannot send ringing"),
            ),
        }
    }

    /// Accepts the call once the media answer exists: consumes the
    /// acceptor, responds 200 OK with the answer SDP, and queues the
    /// switch to Talking with its Accepted event.
    pub fn accept(&mut self) -> (r: Result<SipIncomingAction, SipIncomingCallError>)
        ensures
            final(self)@.call_id == old(self)@.call_id,
            final(self)@.from == old(self)@.from,
            final(self)@.to == old(self)@.to,
            match old(self)@.state {
                State::Wait(w) => if w.has_acceptor {
                    r == Ok::<_, SipIncomingCallError>(
                        SipIncomingAction::RespondSuccessWithSdp,
                    ) && final(self)@.state == State::Wait(WaitState { has_acceptor: false })
                        && final(self)@.queue == old(self)@.queue.push(
                        Queued::SwitchTalking(accepted_event()),
                    )
                } else {
                    r is Err && final(self)@ == old(self)@
                },
                State::Talking(_) => r is Err && final(self)@ == old(self)@,
            },
    {
        match self.state {
            State::Wait(w) => {
                if w.has_acceptor {
                    self.state = State::Wait(WaitState { has_acceptor: false });
                    self.queue.push(
                        Queued::SwitchTalking(
                            IncomingCallEvent {
                                event: Some(
                                    incoming_call_event::Event::Accepted(
                                        incoming_call_event::Accepted {},
                                    ),
                                ),
                            },
                        ),
                    );
                    Ok(SipIncomingAction::RespondSuccessWithSdp)
                } else {
                    Err(SipIncomingCallError::WrongState("final response already sent"))
                }
            },
            State::Talking(_) => Err(
                SipIncomingCallError::WrongState("Talking state cannot send accept"),
            ),
        }
    }

    /// Ends the call. In Wait it consumes the acceptor, responds 486 Busy
    /// Here and queues the Rejected event followed by the exit; in
    /// Talking it terminates the session.
    pub fn end(&mut self) -> (r: Result<SipIncomingAction, SipIncomingCallError>)
        ensures
            final(self)@.call_id == old(self)@.call_id,
            final(self)@.from == old(self)@.from,
            final(self)@.to == old(self)@.to,
            match old(self)@.state {
                State::Wait(w) => if w.has_acceptor {
                    r == Ok::<_, SipIncomingCallError>(
                        SipIncomingAction::RespondFailure { code: 486 },
                    ) && final(self)@.state == State::Wait(WaitState { has_acceptor: false })
                        && final(self)@.queue == old(self)@.queue.push(
                        Queued::Event(rejected_event()),
                    ).push(Queued::Exit)
                } else {
                    r is Err && final(self)@ == old(self)@
                },
                State::Talking(_) => r == Ok::<_, SipIncomingCallError>(
                    SipIncomingAction::TerminateSession,
                ) && final(self)@ == old(self)@,
            },
    {
        match self.state {
            State::Wait(w) => {
                if w.has_acceptor {
                    self.state = State::Wait(WaitState { has_acceptor: false });
                    self.queue.push(
                        Queued::Event(
                            IncomingCallEvent {
                                event: Some(
                                    incoming_call_event::Event::Rejected(
                                        incoming_call_event::Rejected {},
                                    ),
                                ),
                            },
                        ),
                    );
                    self.queue.push(Queued::Exit);
                    Ok(SipIncomingAction::RespondFailure { code: 486 })
                } else {
                    Err(SipIncomingCallError::WrongState("final response already sent"))
                }
            },
            State::Talking(_) => Ok(SipIncomingAction::TerminateSession),
        }
    }

    /// Rejects a call that failed admission: consumes the acceptor and
    /// responds 488 Not Acceptable.
    pub fn kill_because_validate_failed(self) -> (r: SipIncomingAction)
        requires
            (self@.state matches State::Wait(w) && w.has_acceptor),
        ensures
            (r == SipIncomingAction::RespondFailure { code: 488 }),
    {
        SipIncomingAction::RespondFailure { code: 488 }
    }

    /// One receive step. Consuming the peer's CANCEL emits the Cancelled
    /// event and queues the exit; a queued outcome is handed out in
    /// order; session events map BYE to its event and Terminated to the
    /// end of the call.
    pub fn recv(&mut self, input: SipIncomingInput) -> (r: Option<SipIncomingCallOut>)
        requires
            input is Queued ==> old(self)@.queue.len() > 0,
            input is Session ==> old(self)@.state is Talking,
            input is Cancelled ==> old(self)@.state is Wait,
        ensures
            final(self)@.call_id == old(self)@.call_id,
            final(self)@.from == old(self)@.from,
            final(self)@.to == old(self)@.to,
            recv_rel(old(self)@, input, final(self)@, r),
    {
        match input {
            SipIncomingInput::Cancelled => {
                self.queue.push(Queued::Exit);
                Some(
                    SipIncomingCallOut::Event(
                        IncomingCallEvent {
                            event: Some(
                                incoming_call_event::Event::Sip(
                                    incoming_call_event::SipEvent {
                                        event: Some(
                                            sip_event::Event::Cancelled(sip_event::Cancelled {}),
                                        ),
                                    },
                                ),
                            ),
                        },
                    ),
                )
            },
            SipIncomingInput::Queued => {
                let item = self.queue.remove(0);
                match item {
                    Queued::SwitchTalking(ev) => {
                        self.state = State::Talking(TalkingState);
                        Some(SipIncomingCallOut::Event(ev))
                    },
                    Queued::Event(ev) => Some(SipIncomingCallOut::Event(ev)),
                    Queued::Exit => None,
                }
            },
            SipIncomingInput::Session(event) => match event {
                SessionEvent::Bye => Some(
                    SipIncomingCallOut::Event(
                        IncomingCallEvent {
                            event: Some(
                                incoming_call_event::Event::Sip(
                                    incoming_call_event::SipEvent {
                                        event: Some(sip_event::Event::Bye(sip_event::Bye {})),
                                    },
                                ),
                            ),
                        },
                    ),
                ),
                SessionEvent::Terminated => None,
                _ => Some(SipIncomingCallOut::Continue),
            },
        }
    }
}

/// The receive relation of the incoming engine: what one `recv` step
/// does to the state and the queue, and what it hands out.
pub open spec fn recv_rel(
    m: InCallV,
    input: SipIncomingInput,
    m2: InCallV,
    r: Option<SipIncomingCallOut>,
) -> bool {
    match input {
        SipIncomingInput::Cancelled => m2.state == m.state && m2.queue == m.queue.push(
            Queued::Exit,
        ) && r == Some(SipIncomingCallOut::Event(peer_cancelled_event())),
        SipIncomingInput::Queued => m2.queue == m.queue.skip(1) && match m.queue[0] {
            Queued::SwitchTalking(ev) => m2.state == State::Talking(TalkingState) && r
                == Some(SipIncomingCallOut::Event(ev)),
            Queued::Event(ev) => m2.state == m.state && r == Some(
                SipIncomingCallOut::Event(ev),
            ),
            Queued::Exit => m2.state == m.state && r is None,
        },
        SipIncomingInput::Session(event) => m2.state == m.state && m2.queue == m.queue
            && match event {
            SessionEvent::Bye => r == Some(SipIncomingCallOut::Event(peer_bye_event())),
            SessionEvent::Terminated => r is None,
            _ => r == Some(SipIncomingCallOut::Continue),
        },
    }
}

/// Whether the queue still holds a switch to Talking.
pub open spec fn queue_has_switch(queue: Seq<Queued>) -> bool {
    exists|i: int| 0 <= i < queue.len() && queue[i] is SwitchTalking
}

/// A rejected call: the final response went out in Wait and no switch to
/// Talking is queued.
pub open spec fn rejected_closed(m: InCallV) -> bool {
    (m.state matches State::Wait(w) && !w.has_acceptor) && !queue_has_switch(m.queue)
}

/// Law: a call that was rejected in Wait never reaches Talking: every
/// further receive step keeps it rejected, whatever arrives.
pub proof fn lemma_rejected_never_talks(
    m: InCallV,
    input: SipIncomingInput,
    m2: InCallV,
    r: Option<SipIncomingCallOut>,
)
    requires
        rejected_closed(m),
        recv_rel(m, input, m2, r),
        input is Queued ==> m.queue.len() > 0,
    ensures
        rejected_closed(m2),
        !(m2.state is Talking),
{
    match input {
        SipIncomingInput::Cancelled => {
            assert forall|i: int| 0 <= i < m2.queue.len() implies !(m2.queue[i]
                is SwitchTalking) by {
                if i < m.queue.len() {
                    assert(m.queue[i] == m2.queue[i]);
                    assert(!queue_has_switch(m.queue));
                    if m2.queue[i] is SwitchTalking {
                        assert(queue_has_switch(m.queue));
                    }
                } else {
                    assert(m2.queue[i] == Queued::Exit);
                }
            }
            if queue_has_switch(m2.queue) {
                let i = choose|i: int|
                    0 <= i < m2.queue.len() && m2.queue[i] is SwitchTalking;
                assert(!(m2.queue[i] is SwitchTalking));
            }
        },
        SipIncomingInput::Queued => {
            assert(!(m.queue[0] is SwitchTalking)) by {
                if m.queue[0] is SwitchTalking {
                    assert(queue_has_switch(m.queue));
                }
            }
            if queue_has_switch(m2.queue) {
                let i = choose|i: int|
                    0 <= i < m2.queue.len() && m2.queue[i] is SwitchTalking;
                assert(m2.queue[i] == m.queue[i + 1]);
                assert(queue_has_switch(m.queue));
            }
        },
        SipIncomingInput::Session(_) => {},
    }
}

} // verus!
