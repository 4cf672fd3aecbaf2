//! The outgoing-call engine: Calling, Early, Talking and Canceling states.
//!
//! The engine is pure: the runtime receives SIP-side responses, hands them
//! in as plain values, and performs the actions the engine returns (send
//! ACK, patch the remote SDP, answer a digest challenge, resend the
//! INVITE). The transition relation is written once as `out_step`, every
//! exec step is proved to follow it, and the call-level laws (a cancelled
//! call is never accepted, a digest challenge is retried exactly once) are
//! proved over it.

use vstd::prelude::*;

pub mod calling_state;
pub mod canceling_state;
pub mod early_state;
pub mod talking_state;

use crate::protocol::protobuf::sip_gateway::outgoing_call_data::outgoing_call_event;
use crate::protocol::protobuf::sip_gateway::outgoing_call_data::outgoing_call_event::sip_event;
use crate::protocol::protobuf::sip_gateway::outgoing_call_data::OutgoingCallEvent;
use crate::protocol::InternalCallId;
use crate::sip::server::outgoing::calling_state::CallingState;
use crate::sip::server::outgoing::canceling_state::CancelingState;
use crate::sip::server::outgoing::early_state::EarlyState;
use crate::sip::server::outgoing::talking_state::TalkingState;

verus! {

/// A response on the INVITE transaction, as plain values.
#[derive(Debug, Clone, PartialEq)]
pub enum InitiatorResponse {
    Provisional { code: u16 },
    Failure { code: u16 },
    Early { code: u16 },
    Session { code: u16, body: Vec<u8> },
    Finished,
}

/// A response on the early dialog, as plain values.
#[derive(Debug, Clone, PartialEq)]
pub enum EarlyResponse {
    Provisional { code: u16, body: Vec<u8> },
    Success { code: u16, body: Vec<u8> },
    Terminated,
}

/// An event of the established session.
#[derive(Debug, Clone, Copy, PartialEq, Eq, Structural)]
pub enum SessionEvent {
    RefreshNeeded,
    ReInviteReceived,
    Bye,
    Terminated,
}

/// Anything the runtime can feed into the engine.
#[derive(Debug, Clone, PartialEq)]
pub enum SipOutgoingInput {
    Initiator(InitiatorResponse),
    EarlyMedia(EarlyResponse),
    Session(SessionEvent),
}

/// What one receive step hands back to the runtime.
#[derive(Debug, Clone, PartialEq)]
pub enum SipOutgoingCallOut {
    Event(OutgoingCallEvent),
    Continue,
}

/// A side effect the runtime must perform for a step, in order.
#[derive(Debug, Clone, Copy, PartialEq, Eq, Structural)]
pub enum SipOutgoingAction {
    /// Acknowledge the success response.
    SendAck,
    /// Patch the response body into the media session as the remote SDP.
    SetAnswer,
    /// Feed the challenge headers into the digest-auth session.
    FeedAuthChallenge,
    /// Send a fresh INVITE, with up-to-date auth headers.
    ResendInvite,
}

/// What `end` asks the runtime to do.
#[derive(Debug, Clone, Copy, PartialEq, Eq, Structural)]
pub enum SipOutgoingEndAction {
    /// Send CANCEL; auth headers are applied when credentials exist.
    SendCancel { with_auth: bool },
    /// Terminate the established session with BYE.
    TerminateSession,
}

/// The engine's control state.
#[derive(Debug, Clone, Copy, PartialEq, Eq, Structural)]
pub enum State {
    Calling(CallingState),
    Early(EarlyState),
    Talking(TalkingState),
    Canceling(CancelingState),
}

/// The mathematical state of one outgoing call.
pub ghost struct OutCallV {
    pub call_id: Seq<char>,
    pub has_auth: bool,
    pub answered: bool,
    pub state: State,
}

/// Wraps a SIP-side event into the call-event envelope.
pub open spec fn sip_event_of(event: sip_event::Event) -> OutgoingCallEvent {
    OutgoingCallEvent {
        event: Some(
            outgoing_call_event::Event::Sip(outgoing_call_event::SipEvent { event: Some(event) }),
        ),
    }
}

/// The event that reports this side's CANCEL took effect.
pub open spec fn cancelled_event() -> OutgoingCallEvent {
    OutgoingCallEvent {
        event: Some(outgoing_call_event::Event::Cancelled(outgoing_call_event::Cancelled {})),
    }
}

/// The event that reports this side ended the established session.
pub open spec fn terminated_event() -> OutgoingCallEvent {
    OutgoingCallEvent {
        event: Some(outgoing_call_event::Event::Terminated(outgoing_call_event::Terminated {})),
    }
}

/// Wraps a SIP-side event into the call-event envelope.
pub fn build_sip_event(event: sip_event::Event) -> (r: OutgoingCallEvent)
    ensures
        r == sip_event_of(event),
{
    OutgoingCallEvent {
        event: Some(
            outgoing_call_event::Event::Sip(outgoing_call_event::SipEvent { event: Some(event) }),
        ),
    }
}

/// Whether a failure code is a digest-auth challenge.
pub open spec fn is_auth_challenge(code: u16) -> bool {
    code == 401 || code == 407
}

/// Whether a step must patch the response body as the remote SDP: only
/// when no answer was applied yet and the body is not empty.
pub open spec fn wants_answer(answered: bool, body: Seq<u8>) -> bool {
    !answered && body.len() > 0
}

/// The outcome of one transition: the next state, the updated answer
/// flag, what the runtime publishes, and what it must do. `out` of `None`
/// means the call is over and the task exits.
pub ghost struct OutStep {
    pub state: State,
    pub answered: bool,
    pub out: Option<SipOutgoingCallOut>,
    pub actions: Seq<SipOutgoingAction>,
}

/// A step that only changes state bookkeeping.
pub open spec fn quiet_step(m: OutCallV, out: Option<SipOutgoingCallOut>) -> OutStep {
    OutStep { state: m.state, answered: m.answered, out, actions: Seq::empty() }
}

/// Which inputs a state can receive: the transaction stream before the
/// call is established, the early-dialog stream in Early, the session
/// stream in Talking.
pub open spec fn accepts(state: State, input: SipOutgoingInput) -> bool {
    match state {
        State::Calling(_) => input is Initiator,
        State::Early(_) => match input {
            SipOutgoingInput::Initiator(resp) => resp is Failure || resp is Finished,
            SipOutgoingInput::EarlyMedia(_) => true,
            SipOutgoingInput::Session(_) => false,
        },
        State::Talking(_) => input is Session,
        State::Canceling(_) => input is Initiator,
    }
}

/// The transition relation of the outgoing engine.
pub open spec fn out_step(m: OutCallV, input: SipOutgoingInput) -> OutStep {
    match m.state {
        State::Calling(calling) => {
            if calling.cancelled {
                OutStep {
                    state: State::Canceling(CancelingState),
                    answered: m.answered,
                    out: Some(SipOutgoingCallOut::Event(cancelled_event())),
                    actions: Seq::empty(),
                }
            } else {
                match input {
                    SipOutgoingInput::Initiator(resp) => match resp {
                        InitiatorResponse::Provisional { code } => quiet_step(
                            m,
                            Some(
                                SipOutgoingCallOut::Event(
                                    sip_event_of(
                                        sip_event::Event::Provisional(
                                            sip_event::Provisional { code: code as u32 },
                                        ),
                                    ),
                                ),
                            ),
                        ),
                        InitiatorResponse::Failure { code } => {
                            if !is_auth_challenge(code) || calling.auth_failed {
                                quiet_step(
                                    m,
                                    Some(
                                        SipOutgoingCallOut::Event(
                                            sip_event_of(
                                                sip_event::Event::Failure(
                                                    sip_event::Failure { code: code as u32 },
                                                ),
                                            ),
                                        ),
                                    ),
                                )
                            } else if m.has_auth {
                                OutStep {
                                    state: State::Calling(
                                        CallingState { auth_failed: true, cancelled: false },
                                    ),
                                    answered: m.answered,
                                    out: Some(SipOutgoingCallOut::Continue),
                                    actions: seq![
                                        SipOutgoingAction::FeedAuthChallenge,
                                        SipOutgoingAction::ResendInvite,
                                    ],
                                }
                            } else {
                                OutStep {
                                    state: State::Calling(
                                        CallingState { auth_failed: true, cancelled: false },
                                    ),
                                    answered: m.answered,
                                    out: Some(
                                        SipOutgoingCallOut::Event(
                                            sip_event_of(
                                                sip_event::Event::Failure(
                                                    sip_event::Failure { code: code as u32 },
                                                ),
                                            ),
                                        ),
                                    ),
                                    actions: Seq::empty(),
                                }
                            }
                        },
                        InitiatorResponse::Early { code } => OutStep {
                            state: State::Early(EarlyState { cancelled: false }),
                            answered: m.answered,
                            out: Some(
                                SipOutgoingCallOut::Event(
                                    sip_event_of(
                                        sip_event::Event::Early(
                                            sip_event::Early { code: code as u32 },
                                        ),
                                    ),
                                ),
                            ),
                            actions: Seq::empty(),
                        },
                        InitiatorResponse::Session { code, body } => OutStep {
                            state: State::Talking(TalkingState { terminated_queued: false }),
                            answered: m.answered || wants_answer(m.answered, body@),
                            out: Some(
                                SipOutgoingCallOut::Event(
                                    sip_event_of(
                                        sip_event::Event::Accepted(
                                            sip_event::Accepted { code: code as u32 },
                                        ),
                                    ),
                                ),
                            ),
                            actions: if wants_answer(m.answered, body@) {
                                seq![SipOutgoingAction::SendAck, SipOutgoingAction::SetAnswer]
                            } else {
                                seq![SipOutgoingAction::SendAck]
                            },
                        },
                        InitiatorResponse::Finished => quiet_step(m, None),
                    },
                    _ => quiet_step(m, Some(SipOutgoingCallOut::Continue)),
                }
            }
        },
        State::Early(early) => {
            if early.cancelled {
                OutStep {
                    state: State::Canceling(CancelingState),
                    answered: m.answered,
                    out: Some(SipOutgoingCallOut::Event(cancelled_event())),
                    actions: Seq::empty(),
                }
            } else {
                match input {
                    SipOutgoingInput::Initiator(resp) => match resp {
                        InitiatorResponse::Failure { code } => quiet_step(
                            m,
                            Some(
                                SipOutgoingCallOut::Event(
                                    sip_event_of(
                                        sip_event::Event::Failure(
                                            sip_event::Failure { code: code as u32 },
                                        ),
                                    ),
                                ),
                            ),
                        ),
                        InitiatorResponse::Finished => quiet_step(m, None),
                        _ => quiet_step(m, Some(SipOutgoingCallOut::Continue)),
                    },
                    SipOutgoingInput::EarlyMedia(resp) => match resp {
                        EarlyResponse::Provisional { code: _, body } => OutStep {
                            state: m.state,
                            answered: m.answered || wants_answer(m.answered, body@),
                            out: Some(SipOutgoingCallOut::Continue),
                            actions: if wants_answer(m.answered, body@) {
                                seq![SipOutgoingAction::SetAnswer]
                            } else {
                                Seq::empty()
                            },
                        },
                        EarlyResponse::Success { code, body } => OutStep {
                            state: State::Talking(TalkingState { terminated_queued: false }),
                            answered: m.answered || wants_answer(m.answered, body@),
                            out: Some(
                                SipOutgoingCallOut::Event(
                                    sip_event_of(
                                        sip_event::Event::Accepted(
                                            sip_event::Accepted { code: code as u32 },
                                        ),
                                    ),
                                ),
                            ),
                            actions: if wants_answer(m.answered, body@) {
                                seq![SipOutgoingAction::SendAck, SipOutgoingAction::SetAnswer]
                            } else {
                                seq![SipOutgoingAction::SendAck]
                            },
                        },
                        EarlyResponse::Terminated => quiet_step(m, None),
                    },
                    SipOutgoingInput::Session(_) => quiet_step(
                        m,
                        Some(SipOutgoingCallOut::Continue),
                    ),
                }
            }
        },
        State::Talking(talking) => {
            if talking.terminated_queued {
                OutStep {
                    state: State::Talking(TalkingState { terminated_queued: false }),
                    answered: m.answered,
                    out: Some(SipOutgoingCallOut::Event(terminated_event())),
                    actions: Seq::empty(),
                }
            } else {
                match input {
                    SipOutgoingInput::Session(event) => match event {
                        SessionEvent::RefreshNeeded => quiet_step(
                            m,
                            Some(SipOutgoingCallOut::Continue),
                        ),
                        SessionEvent::ReInviteReceived => quiet_step(
                            m,
                            Some(SipOutgoingCallOut::Continue),
                        ),
                        SessionEvent::Bye => quiet_step(
                            m,
                            Some(
                                SipOutgoingCallOut::Event(
                                    sip_event_of(sip_event::Event::Bye(sip_event::Bye {})),
                                ),
                            ),
                        ),
                        SessionEvent::Terminated => quiet_step(m, None),
                    },
                    _ => quiet_step(m, Some(SipOutgoingCallOut::Continue)),
                }
            }
        },
        State::Canceling(_) => match input {
            SipOutgoingInput::Initiator(InitiatorResponse::Finished) => quiet_step(m, None),
            _ => quiet_step(m, Some(SipOutgoingCallOut::Continue)),
        },
    }
}

/// One outgoing call as the runtime owns it.
pub struct SipOutgoingCall {
    call_id: InternalCallId,
    has_auth: bool,
    answered: bool,
    state: State,
}

impl View for SipOutgoingCall {
    type V = OutCallV;

    closed spec fn view(&self) -> OutCallV {
        OutCallV {
            call_id: self.call_id@,
            has_auth: self.has_auth,
            answered: self.answered,
            state: self.state,
        }
    }
}

impl SipOutgoingCall {
    /// A fresh engine in the Calling state, with a fresh call identifier.
    /// `has_auth` records whether digest credentials were supplied.
    pub fn new(has_auth: bool) -> (r: Self)
        ensures
            r@.state == State::Calling(CallingState { auth_failed: false, cancelled: false }),
            r@.has_auth == has_auth,
            !r@.answered,
    {
        SipOutgoingCall {
            call_id: InternalCallId::random(),
            has_auth,
            answered: false,
            state: State::Calling(CallingState { auth_failed: false, cancelled: false }),
        }
    }

    /// The call's identifier.
    pub fn call_id(&self) -> (r: InternalCallId)
        ensures
            r@ == self@.call_id,
    {
        self.call_id.clone()
    }

    /// Whether the first INVITE must carry auth headers.
    pub fn invite_with_auth(&self) -> (r: bool)
        ensures
            r == self@.has_auth,
    {
        self.has_auth
    }

    /// The graceful end command. In Calling and Early it sends CANCEL and
    /// marks the call cancelled; in Talking it terminates the session and
    /// queues the Terminated event; in Canceling it does nothing.
    pub fn end(&mut self) -> (r: Option<SipOutgoingEndAction>)
        ensures
            final(self)@.call_id == old(self)@.call_id,
            final(self)@.has_auth == old(self)@.has_auth,
            final(self)@.answered == old(self)@.answered,
            match old(self)@.state {
                State::Calling(c) => final(self)@.state == State::Calling(
                    CallingState { auth_failed: c.auth_failed, cancelled: true },
                ) && r == Some(
                    SipOutgoingEndAction::SendCancel { with_auth: old(self)@.has_auth },
                ),
                State::Early(_) => final(self)@.state == State::Early(
                    EarlyState { cancelled: true },
                ) && r == Some(
                    SipOutgoingEndAction::SendCancel { with_auth: old(self)@.has_auth },
                ),
                State::Talking(_) => final(self)@.state == State::Talking(
                    TalkingState { terminated_queued: true },
                ) && r == Some(SipOutgoingEndAction::TerminateSession),
                State::Canceling(_) => final(self)@.state == old(self)@.state && r is None,
            },
    {
        match self.state {
            State::Calling(calling) => {
                self.state = State::Calling(
                    CallingState { auth_failed: calling.auth_failed, cancelled: true },
                );
                Some(SipOutgoingEndAction::SendCancel { with_auth: self.has_auth })
            },
            State::Early(_) => {
                self.state = State::Early(EarlyState { cancelled: true });
                Some(SipOutgoingEndAction::SendCancel { with_auth: self.has_auth })
            },
            State::Talking(_) => {
                self.state = State::Talking(TalkingState { terminated_queued: true });
                Some(SipOutgoingEndAction::TerminateSession)
            },
            State::Canceling(_) => None,
        }
    }

    /// One receive step: consumes one SIP-side input and follows the
    /// transition relation exactly.
    pub fn recv(&mut self, input: &SipOutgoingInput) -> (r: (
        Option<SipOutgoingCallOut>,
        Vec<SipOutgoingAction>,
    ))
        requires
            accepts(old(self)@.state, *input),
        ensures
            ({
                let st = out_step(old(self)@, *input);
                final(self)@.state == st.state && final(self)@.answered == st.answered
                    && final(self)@.call_id == old(self)@.call_id && final(self)@.has_auth
                    == old(self)@.has_auth && r.0 == st.out && r.1@ == st.actions
            }),
    {
        let mut actions: Vec<SipOutgoingAction> = Vec::new();
        let out: Option<SipOutgoingCallOut> = match &self.state {
            State::Calling(calling) => {
                if calling.cancelled {
                    self.state = State::Canceling(CancelingState);
                    Some(
                        SipOutgoingCallOut::Event(
                            OutgoingCallEvent {
                                event: Some(
                                    outgoing_call_event::Event::Cancelled(
                                        outgoing_call_event::Cancelled {},
                                    ),
                                ),
                            },
                        ),
                    )
                } else {
                    let auth_failed = calling.auth_failed;
                    match input {
                        SipOutgoingInput::Initiator(resp) => match resp {
                            InitiatorResponse::Provisional { code } => Some(
                                SipOutgoingCallOut::Event(
                                    build_sip_event(
                                        sip_event::Event::Provisional(
                                            sip_event::Provisional { code: *code as u32 },
                                        ),
                                    ),
                                ),
                            ),
                            InitiatorResponse::Failure { code } => {
                                let c = *code;
                                if (c != 401 && c != 407) || auth_failed {
                                    Some(
                                        SipOutgoingCallOut::Event(
                                            build_sip_event(
                                                sip_event::Event::Failure(
                                                    sip_event::Failure { code: c as u32 },
                                                ),
                                            ),
                                        ),
                                    )
                                } else {
                                    self.state = State::Calling(
                                        CallingState { auth_failed: true, cancelled: false },
                                    );
                                    if self.has_auth {
                                        actions.push(SipOutgoingAction::FeedAuthChallenge);
                                        actions.push(SipOutgoingAction::ResendInvite);
                                        Some(SipOutgoingCallOut::Continue)
                                    } else {
                                        Some(
                                            SipOutgoingCallOut::Event(
                                                build_sip_event(
                                                    sip_event::Event::Failure(
                                                        sip_event::Failure { code: c as u32 },
                                                    ),
                                                ),
                                            ),
                                        )
                                    }
                                }
                            },
                            InitiatorResponse::Early { code } => {
                                self.state = State::Early(EarlyState { cancelled: false });
                                Some(
                                    SipOutgoingCallOut::Event(
                                        build_sip_event(
                                            sip_event::Event::Early(
                                                sip_event::Early { code: *code as u32 },
                                            ),
                                        ),
                                    ),
                                )
                            },
                            InitiatorResponse::Session { code, body } => {
                                actions.push(SipOutgoingAction::SendAck);
                                if !self.answered && body.len() > 0 {
                                    actions.push(SipOutgoingAction::SetAnswer);
                                    self.answered = true;
                                }
                                self.state = State::Talking(
                                    TalkingState { terminated_queued: false },
                                );
                                Some(
                                    SipOutgoingCallOut::Event(
                                        build_sip_event(
                                            sip_event::Event::Accepted(
                                                sip_event::Accepted { code: *code as u32 },
                                            ),
                                        ),
                                    ),
                                )
                            },
                            InitiatorResponse::Finished => None,
                        },
                        _ => Some(SipOutgoingCallOut::Continue),
                    }
                }
            },
            State::Early(early) => {
                if early.cancelled {
                    self.state = State::Canceling(CancelingState);
                    Some(
                        SipOutgoingCallOut::Event(
                            OutgoingCallEvent {
                                event: Some(
                                    outgoing_call_event::Event::Cancelled(
                                        outgoing_call_event::Cancelled {},
                                    ),
                                ),
                            },
                        ),
                    )
                } else {
                    match input {
                        SipOutgoingInput::Initiator(resp) => match resp {
                            InitiatorResponse::Failure { code } => Some(
                                SipOutgoingCallOut::Event(
                                    build_sip_event(
                                        sip_event::Event::Failure(
                                            sip_event::Failure { code: *code as u32 },
                                        ),
                                    ),
                                ),
                            ),
                            InitiatorResponse::Finished => None,
                            _ => Some(SipOutgoingCallOut::Continue),
                        },
                        SipOutgoingInput::EarlyMedia(resp) => match resp {
                            EarlyResponse::Provisional { code: _, body } => {
                                if !self.answered && body.len() > 0 {
                                    actions.push(SipOutgoingAction::SetAnswer);
                                    self.answered = true;
                                }
                                Some(SipOutgoingCallOut::Continue)
                            },
                            EarlyResponse::Success { code, body } => {
                                actions.push(SipOutgoingAction::SendAck);
                                if !self.answered && body.len() > 0 {
                                    actions.push(SipOutgoingAction::SetAnswer);
                                    self.answered = true;
                                }
                                self.state = State::Talking(
                                    TalkingState { terminated_queued: false },
                                );
                                Some(
                                    SipOutgoingCallOut::Event(
                                        build_sip_event(
                                            sip_event::Event::Accepted(
                                                sip_event::Accepted { code: *code as u32 },
                                            ),
                                        ),
                                    ),
                                )
                            },
                            EarlyResponse::Terminated => None,
                        },
                        SipOutgoingInput::Session(_) => Some(SipOutgoingCallOut::Continue),
                    }
                }
            },
            State::Talking(talking) => {
                if talking.terminated_queued {
                    self.state = State::Talking(TalkingState { terminated_queued: false });
                    Some(
                        SipOutgoingCallOut::Event(
                            OutgoingCallEvent {
                                event: Some(
                                    outgoing_call_event::Event::Terminated(
                                        outgoing_call_event::Terminated {},
                                    ),
                                ),
                            },
                        ),
                    )
                } else {
                    match input {
                        SipOutgoingInput::Session(event) => match event {
                            SessionEvent::RefreshNeeded => Some(SipOutgoingCallOut::Continue),
                            SessionEvent::ReInviteReceived => Some(
                                SipOutgoingCallOut::Continue,
                            ),
                            SessionEvent::Bye => Some(
                                SipOutgoingCallOut::Event(
                                    build_sip_event(sip_event::Event::Bye(sip_event::Bye {})),
                                ),
                            ),
                            SessionEvent::Terminated => None,
                        },
                        _ => Some(SipOutgoingCallOut::Continue),
                    }
                }
            },
            State::Canceling(_) => match input {
                SipOutgoingInput::Initiator(InitiatorResponse::Finished) => None,
                _ => Some(SipOutgoingCallOut::Continue),
            },
        };
        proof {
            assert(actions@ =~= out_step(old(self)@, *input).actions);
        }
        (out, actions)
    }
}

} // verus!

verus! {

/// The model after one step.
pub open spec fn apply_step(m: OutCallV, input: SipOutgoingInput) -> OutCallV {
    let st = out_step(m, input);
    OutCallV { call_id: m.call_id, has_auth: m.has_auth, answered: st.answered, state: st.state }
}

/// Everything the engine hands out over a whole input sequence.
pub open spec fn run_outs(m: OutCallV, inputs: Seq<SipOutgoingInput>) -> Seq<
    Option<SipOutgoingCallOut>,
>
    decreases inputs.len(),
{
    if inputs.len() == 0 {
        Seq::empty()
    } else {
        seq![out_step(m, inputs[0]).out] + run_outs(apply_step(m, inputs[0]), inputs.skip(1))
    }
}

/// Whether an output reports the call accepted.
pub open spec fn is_accepted_out(o: Option<SipOutgoingCallOut>) -> bool {
    match o {
        Some(SipOutgoingCallOut::Event(e)) => match e.event {
            Some(outgoing_call_event::Event::Sip(s)) => s.event matches Some(
                sip_event::Event::Accepted(_),
            ),
            _ => false,
        },
        _ => false,
    }
}

/// Whether an output reports the cancel took effect.
pub open spec fn is_cancelled_out(o: Option<SipOutgoingCallOut>) -> bool {
    o == Some(SipOutgoingCallOut::Event(cancelled_event()))
}

/// Whether an output reports a SIP failure.
pub open spec fn is_failure_out(o: Option<SipOutgoingCallOut>) -> bool {
    match o {
        Some(SipOutgoingCallOut::Event(e)) => match e.event {
            Some(outgoing_call_event::Event::Sip(s)) => s.event matches Some(
                sip_event::Event::Failure(_),
            ),
            _ => false,
        },
        _ => false,
    }
}

/// How many outputs report the call accepted.
pub open spec fn count_accepted(outs: Seq<Option<SipOutgoingCallOut>>) -> nat
    decreases outs.len(),
{
    if outs.len() == 0 {
        0
    } else {
        (if is_accepted_out(outs[0]) {
            1nat
        } else {
            0nat
        }) + count_accepted(outs.skip(1))
    }
}

/// How many outputs report the cancel took effect.
pub open spec fn count_cancelled(outs: Seq<Option<SipOutgoingCallOut>>) -> nat
    decreases outs.len(),
{
    if outs.len() == 0 {
        0
    } else {
        (if is_cancelled_out(outs[0]) {
            1nat
        } else {
            0nat
        }) + count_cancelled(outs.skip(1))
    }
}

/// How many outputs report a SIP failure.
pub open spec fn count_failure(outs: Seq<Option<SipOutgoingCallOut>>) -> nat
    decreases outs.len(),
{
    if outs.len() == 0 {
        0
    } else {
        (if is_failure_out(outs[0]) {
            1nat
        } else {
            0nat
        }) + count_failure(outs.skip(1))
    }
}

/// Whether this side's CANCEL has been sent and not yet fully drained.
pub open spec fn cancel_pending(m: OutCallV) -> bool {
    match m.state {
        State::Calling(c) => c.cancelled,
        State::Early(e) => e.cancelled,
        State::Canceling(_) => true,
        State::Talking(_) => false,
    }
}

/// Law: once this side has cancelled before the call was answered, the
/// engine never reports the call accepted, whatever the peer sends.
pub proof fn lemma_cancelled_never_accepted(m: OutCallV, inputs: Seq<SipOutgoingInput>)
    requires
        cancel_pending(m),
    ensures
        count_accepted(run_outs(m, inputs)) == 0,
    decreases inputs.len(),
{
    if inputs.len() > 0 {
        let st = out_step(m, inputs[0]);
        assert(!is_accepted_out(st.out));
        assert(cancel_pending(apply_step(m, inputs[0])));
        lemma_cancelled_never_accepted(apply_step(m, inputs[0]), inputs.skip(1));
        assert(run_outs(m, inputs).skip(1) =~= run_outs(
            apply_step(m, inputs[0]),
            inputs.skip(1),
        ));
    }
}

/// From the draining state the Cancelled event is never reported again.
pub proof fn lemma_canceling_reports_no_cancel(m: OutCallV, inputs: Seq<SipOutgoingInput>)
    requires
        m.state is Canceling,
    ensures
        count_cancelled(run_outs(m, inputs)) == 0,
    decreases inputs.len(),
{
    if inputs.len() > 0 {
        let st = out_step(m, inputs[0]);
        assert(!is_cancelled_out(st.out));
        lemma_canceling_reports_no_cancel(apply_step(m, inputs[0]), inputs.skip(1));
        assert(run_outs(m, inputs).skip(1) =~= run_outs(
            apply_step(m, inputs[0]),
            inputs.skip(1),
        ));
    }
}

/// Law: after the end command in Calling or Early, the Cancelled event is
/// reported exactly once: on the very next receive, and never again.
pub proof fn lemma_cancelled_exactly_once(m: OutCallV, inputs: Seq<SipOutgoingInput>)
    requires
        match m.state {
            State::Calling(c) => c.cancelled,
            State::Early(e) => e.cancelled,
            _ => false,
        },
    ensures
        count_cancelled(run_outs(m, inputs)) == if inputs.len() == 0 {
            0nat
        } else {
            1nat
        },
    decreases inputs.len(),
{
    if inputs.len() > 0 {
        let st = out_step(m, inputs[0]);
        assert(is_cancelled_out(st.out));
        assert(apply_step(m, inputs[0]).state is Canceling);
        lemma_canceling_reports_no_cancel(apply_step(m, inputs[0]), inputs.skip(1));
        assert(run_outs(m, inputs).skip(1) =~= run_outs(
            apply_step(m, inputs[0]),
            inputs.skip(1),
        ));
    }
}

/// Law: the first digest challenge, with credentials present, is not
/// reported as a failure: the engine answers it and resends the INVITE,
/// marking the retry spent.
pub proof fn lemma_auth_challenge_retries(m: OutCallV, code: u16)
    requires
        m.state == State::Calling(CallingState { auth_failed: false, cancelled: false }),
        m.has_auth,
        is_auth_challenge(code),
    ensures
        ({
            let st = out_step(m, SipOutgoingInput::Initiator(InitiatorResponse::Failure { code }));
            st.out == Some(SipOutgoingCallOut::Continue) && st.actions == seq![
                SipOutgoingAction::FeedAuthChallenge,
                SipOutgoingAction::ResendInvite,
            ] && st.state == State::Calling(CallingState { auth_failed: true, cancelled: false })
        }),
{
}

/// Law: a second digest challenge is final: it is reported as a failure
/// and no further retry is attempted.
pub proof fn lemma_auth_retry_exhausted(m: OutCallV, code: u16)
    requires
        m.state == State::Calling(CallingState { auth_failed: true, cancelled: false }),
        is_auth_challenge(code),
    ensures
        ({
            let st = out_step(m, SipOutgoingInput::Initiator(InitiatorResponse::Failure { code }));
            is_failure_out(st.out) && st.actions == Seq::<SipOutgoingAction>::empty()
                && st.state == m.state
        }),
{
}

/// Law: a call whose first INVITE is challenged and whose second attempt
/// succeeds ends in Talking, reports exactly one Accepted and no Failure.
pub proof fn lemma_auth_retry_then_success(
    m: OutCallV,
    challenge: u16,
    code: u16,
    body: Vec<u8>,
)
    requires
        m.state == State::Calling(CallingState { auth_failed: false, cancelled: false }),
        m.has_auth,
        is_auth_challenge(challenge),
    ensures
        ({
            let inputs = seq![
                SipOutgoingInput::Initiator(InitiatorResponse::Failure { code: challenge }),
                SipOutgoingInput::Initiator(InitiatorResponse::Session { code, body }),
            ];
            let outs = run_outs(m, inputs);
            count_failure(outs) == 0 && count_accepted(outs) == 1
        }),
{
    let inputs = seq![
        SipOutgoingInput::Initiator(InitiatorResponse::Failure { code: challenge }),
        SipOutgoingInput::Initiator(InitiatorResponse::Session { code, body }),
    ];
    let m1 = apply_step(m, inputs[0]);
    let rest = inputs.skip(1);
    assert(rest.len() == 1 && rest[0] == inputs[1]);
    let m2 = apply_step(m1, rest[0]);
    let outs = run_outs(m, inputs);
    assert(m1.state == State::Calling(CallingState { auth_failed: true, cancelled: false }));
    assert(outs =~= seq![out_step(m, inputs[0]).out] + run_outs(m1, rest));
    assert(rest.skip(1).len() == 0);
    assert(run_outs(m2, rest.skip(1)) =~= Seq::<Option<SipOutgoingCallOut>>::empty());
    assert(run_outs(m1, rest) =~= seq![out_step(m1, rest[0]).out] + run_outs(m2, rest.skip(1)));
    assert(run_outs(m1, rest) =~= seq![out_step(m1, rest[0]).out]);
    assert(outs.len() == 2);
    assert(outs[0] == out_step(m, inputs[0]).out);
    assert(outs[1] == out_step(m1, rest[0]).out);
    assert(outs.skip(1) =~= seq![outs[1]]);
    assert(outs.skip(1).skip(1) =~= Seq::<Option<SipOutgoingCallOut>>::empty());
    assert(!is_failure_out(outs[0]) && !is_accepted_out(outs[0]));
    assert(!is_failure_out(outs[1]) && is_accepted_out(outs[1]));
    assert(count_failure(outs.skip(1).skip(1)) == 0 && count_accepted(outs.skip(1).skip(1))
        == 0);
    assert(outs.skip(1)[0] == outs[1]);
    assert(count_failure(outs.skip(1)) == (if is_failure_out(outs[1]) {
        1nat
    } else {
        0nat
    }) + count_failure(outs.skip(1).skip(1)));
    assert(count_accepted(outs.skip(1)) == (if is_accepted_out(outs[1]) {
        1nat
    } else {
        0nat
    }) + count_accepted(outs.skip(1).skip(1)));
    assert(count_failure(outs) == (if is_failure_out(outs[0]) {
        1nat
    } else {
        0nat
    }) + count_failure(outs.skip(1)));
    assert(count_accepted(outs) == (if is_accepted_out(outs[0]) {
        1nat
    } else {
        0nat
    }) + count_accepted(outs.skip(1)));
    assert(count_failure(outs) == 0);
    assert(count_accepted(outs) == 1);
}

} // verus!
