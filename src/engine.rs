use vstd::prelude::*;

use vstd::arithmetic::div_mod::lemma_small_mod;

use crate::error::{ErrKind, Error};
use crate::message_sender::{frame_bytes, Operation};
use crate::port_op::{same_config, PortConfig, Response};
use crate::text::{quote, quoted};

verus! {

/// A control message to the engine. The reply channel that travels with it
/// is kept by the caller of [`Engine::step`].
#[derive(Debug)]
pub enum OpMessage {
    OneShot(PortConfig, Operation),
    StartContinuous(PortConfig, Vec<Operation>),
    StopContinuous,
}

/// Which channel a reply goes to: the one that came with the message just
/// received, or the one of the running session.
#[derive(Debug, Copy, Clone, PartialEq, Eq, Structural)]
pub enum Target {
    Incoming,
    Session,
}

/// Where the engine stands.
#[derive(Debug, Copy, Clone, PartialEq, Eq, Structural)]
pub enum Phase {
    /// No session: waiting for a control message.
    Idle,
    /// A session was accepted and its port is being opened.
    Opening,
    /// The port is open: looking for a control message before the next exchange.
    Ready,
    /// A frame is being written and the response read.
    Exchanging,
    /// A response is being handed to its channel.
    Delivering,
}

/// What happened since the engine's last action.
#[derive(Debug)]
pub enum Event {
    /// A control message arrived.
    Message(OpMessage),
    /// No control message was pending.
    Quiet,
    /// Whether the port could be opened.
    Opened(bool),
    /// Writing the frame failed, with the reason.
    WriteFailed(String),
    /// The frame was written; these bytes were read before the timeout.
    Answer(Vec<u8>),
    /// Whether the response could be handed to its channel.
    Delivered(bool),
}

/// What the engine asks its driver to do next.
#[derive(Debug)]
pub enum Action {
    /// Close the port and drop the session's channel, if any; then block for
    /// the next control message.
    Wait,
    /// Look for a control message without blocking.
    Check,
    /// Pause between two exchanges of a session, then look for a control message.
    PauseThenCheck,
    /// Take the channel of the message just received as the session's, and
    /// open the port of [`Engine::config`].
    Open,
    /// Send this error on the channel of the message just received; then `Check`.
    Reject(Error),
    /// Send this error on the given channel; then as `Wait`.
    Fail(Error, Target),
    /// Write this frame to the port and read the response until the timeout.
    Exchange([u8; 8]),
    /// Send this response on the given channel.
    Deliver(Response, Target),
}

/// An action, as the contracts see it.
pub enum Step {
    Wait,
    Check,
    PauseThenCheck,
    Open,
    Reject(ErrKind, Seq<char>),
    Fail(ErrKind, Seq<char>, Target),
    Exchange(Seq<u8>),
    Deliver(Operation, Seq<u8>, Target),
}

impl View for Action {
    type V = Step;

    open spec fn view(&self) -> Step {
        match self {
            Action::Wait => Step::Wait,
            Action::Check => Step::Check,
            Action::PauseThenCheck => Step::PauseThenCheck,
            Action::Open => Step::Open,
            Action::Reject(e) => Step::Reject(e.spec_kind(), e.spec_message()),
            Action::Fail(e, t) => Step::Fail(e.spec_kind(), e.spec_message(), *t),
            Action::Exchange(f) => Step::Exchange(f@),
            Action::Deliver(r, t) => Step::Deliver(r.spec_op(), r.spec_bytes(), *t),
        }
    }
}

/// The engine's state, as the contracts see it. Outside `Idle` the fields
/// describe the session: its configuration and operations, the round-robin
/// cursor, whether it is continuous, and the exchange in flight.
pub struct EngineView {
    pub phase: Phase,
    pub config: PortConfig,
    pub ops: Seq<Operation>,
    pub cursor: nat,
    pub continuous: bool,
    pub current: Option<Operation>,
    pub target: Target,
}

pub open spec fn well_formed(v: EngineView) -> bool {
    &&& v.phase != Phase::Idle ==> v.ops.len() > 0 && v.cursor < v.ops.len()
    &&& v.phase == Phase::Exchanging ==> v.current is Some
}

/// The events that answer what the engine asked for in phase `p`.
pub open spec fn expected(p: Phase, e: Event) -> bool {
    match p {
        Phase::Idle => e is Message,
        Phase::Opening => e is Opened,
        Phase::Ready => e is Message || e is Quiet,
        Phase::Exchanging => e is WriteFailed || e is Answer,
        Phase::Delivering => e is Delivered,
    }
}

pub open spec fn open_failed_text(port_name: Seq<char>) -> Seq<char> {
    "Failed to open port "@ + quoted(port_name, ""@)
}

pub open spec fn config_unequal_text() -> Seq<char> {
    "The latest one shot query request is using a different port config, please stop current continuous quarry"@
}

pub open spec fn second_session_text() -> Seq<char> {
    "Cannot start a new continuous quarry before stopping the old continuous quarry request"@
}

pub open spec fn write_failed_text(detail: Seq<char>) -> Seq<char> {
    "Failed to write msg to port due to: "@ + detail
}

/// The engine's decision on event `e` in state `v`: the next state and the action.
///
/// Idle: a one-shot opens a session of one operation; a start with operations
/// opens a continuous session; an empty start and a stop change nothing.
/// Opening: failure ends the session with an error on its channel.
/// Ready: a one-shot with the session's configuration is run at once on its
/// own channel, one with another configuration and any start are rejected on
/// their own channel, a stop ends the session, and with no message the
/// operation under the cursor is run and the cursor moves on, wrapping.
/// Exchanging: a write failure ends the session with an error on the
/// exchange's channel; a response is delivered there.
/// Delivering: a closed channel ends the session, and so does the one
/// round-trip of a one-shot session; otherwise the session pauses and goes on.
pub open spec fn transition(v: EngineView, e: Event) -> (EngineView, Step) {
    match v.phase {
        Phase::Idle => match e {
            Event::Message(OpMessage::OneShot(c, op)) => (
                EngineView {
                    phase: Phase::Opening,
                    config: c,
                    ops: seq![op],
                    cursor: 0,
                    continuous: false,
                    ..v
                },
                Step::Open,
            ),
            Event::Message(OpMessage::StartContinuous(c, ops)) => if ops@.len() == 0 {
                (v, Step::Wait)
            } else {
                (
                    EngineView {
                        phase: Phase::Opening,
                        config: c,
                        ops: ops@,
                        cursor: 0,
                        continuous: true,
                        ..v
                    },
                    Step::Open,
                )
            },
            _ => (v, Step::Wait),
        },
        Phase::Opening => match e {
            Event::Opened(true) => (EngineView { phase: Phase::Ready, ..v }, Step::Check),
            _ => (
                EngineView { phase: Phase::Idle, ..v },
                Step::Fail(
                    ErrKind::FailedToOpenTargetPort,
                    open_failed_text(v.config.port_name@),
                    Target::Session,
                ),
            ),
        },
        Phase::Ready => match e {
            Event::Message(OpMessage::OneShot(c, op)) => if same_config(c, v.config) {
                (
                    EngineView {
                        phase: Phase::Exchanging,
                        current: Some(op),
                        target: Target::Incoming,
                        ..v
                    },
                    Step::Exchange(frame_bytes(v.config.device_addr, op.spec_req())),
                )
            } else {
                (v, Step::Reject(ErrKind::PortTypeUnequal, config_unequal_text()))
            },
            Event::Message(OpMessage::StartContinuous(_, _)) => (
                v,
                Step::Reject(ErrKind::AttemptToStartMultipleContinuousQuarry, second_session_text()),
            ),
            Event::Message(OpMessage::StopContinuous) => (
                EngineView { phase: Phase::Idle, ..v },
                Step::Wait,
            ),
            _ => {
                let op = v.ops[v.cursor as int];
                (
                    EngineView {
                        phase: Phase::Exchanging,
                        cursor: (v.cursor + 1) % v.ops.len(),
                        current: Some(op),
                        target: Target::Session,
                        ..v
                    },
                    Step::Exchange(frame_bytes(v.config.device_addr, op.spec_req())),
                )
            },
        },
        Phase::Exchanging => match e {
            Event::WriteFailed(detail) => (
                EngineView { phase: Phase::Idle, current: None, ..v },
                Step::Fail(ErrKind::PortWriteFailed, write_failed_text(detail@), v.target),
            ),
            Event::Answer(bytes) => (
                EngineView { phase: Phase::Delivering, current: None, ..v },
                Step::Deliver(v.current->0, bytes@, v.target),
            ),
            _ => (v, Step::Wait),
        },
        Phase::Delivering => match e {
            Event::Delivered(true) => if !v.continuous && v.target == Target::Session {
                (EngineView { phase: Phase::Idle, ..v }, Step::Wait)
            } else {
                (EngineView { phase: Phase::Ready, ..v }, Step::PauseThenCheck)
            },
            _ => (EngineView { phase: Phase::Idle, ..v }, Step::Wait),
        },
    }
}

/// An empty start leaves an idle engine as it was, with nothing sent; a one-shot
/// that follows is served normally: the port is opened, its frame written, the
/// response delivered on its channel, and the engine is idle again.
pub proof fn lemma_empty_start_is_ignored(
    s: EngineView,
    c: PortConfig,
    empty: Vec<Operation>,
    c2: PortConfig,
    op: Operation,
    answer: Vec<u8>,
)
    requires
        well_formed(s),
        s.phase == Phase::Idle,
        empty@.len() == 0,
    ensures
        transition(s, Event::Message(OpMessage::StartContinuous(c, empty))) == (s, Step::Wait),
        ({
            let (s1, a1) = transition(s, Event::Message(OpMessage::OneShot(c2, op)));
            let (s2, a2) = transition(s1, Event::Opened(true));
            let (s3, a3) = transition(s2, Event::Quiet);
            let (s4, a4) = transition(s3, Event::Answer(answer));
            let (s5, a5) = transition(s4, Event::Delivered(true));
            &&& a1 == Step::Open
            &&& a2 == Step::Check
            &&& a3 == Step::Exchange(frame_bytes(c2.device_addr, op.spec_req()))
            &&& a4 == Step::Deliver(op, answer@, Target::Session)
            &&& a5 == Step::Wait
            &&& s5.phase == Phase::Idle
        }),
{
}

/// While a continuous session is ready, a one-shot with another configuration
/// is rejected with `PortTypeUnequal` and changes nothing, so the port is not
/// touched; a one-shot with the session's configuration is written at once,
/// answered on its own channel, and leaves the session's operations and
/// round-robin cursor as they were.
pub proof fn lemma_one_shot_during_session(
    s: EngineView,
    other: PortConfig,
    same: PortConfig,
    op: Operation,
    answer: Vec<u8>,
)
    requires
        well_formed(s),
        s.phase == Phase::Ready,
        s.continuous,
        !same_config(other, s.config),
        same_config(same, s.config),
    ensures
        transition(s, Event::Message(OpMessage::OneShot(other, op))) == (
            s,
            Step::Reject(ErrKind::PortTypeUnequal, config_unequal_text()),
        ),
        ({
            let (s1, a1) = transition(s, Event::Message(OpMessage::OneShot(same, op)));
            let (s2, a2) = transition(s1, Event::Answer(answer));
            let (s3, a3) = transition(s2, Event::Delivered(true));
            &&& a1 == Step::Exchange(frame_bytes(s.config.device_addr, op.spec_req()))
            &&& a2 == Step::Deliver(op, answer@, Target::Incoming)
            &&& a3 == Step::PauseThenCheck
            &&& s3.phase == Phase::Ready
            &&& s3.config == s.config
            &&& s3.ops == s.ops
            &&& s3.cursor == s.cursor
            &&& s3.continuous
        }),
{
}

/// Stopping a running session and starting a new one at once is accepted:
/// the stop makes the engine idle, and the start opens the new session
/// instead of being rejected as a second one.
pub proof fn lemma_stop_then_start(s: EngineView, c: PortConfig, ops: Vec<Operation>)
    requires
        well_formed(s),
        s.phase == Phase::Ready,
        ops@.len() > 0,
    ensures
        ({
            let (s1, a1) = transition(s, Event::Message(OpMessage::StopContinuous));
            let (s2, a2) = transition(s1, Event::Message(OpMessage::StartContinuous(c, ops)));
            &&& a1 == Step::Wait
            &&& s1.phase == Phase::Idle
            &&& a2 == Step::Open
            &&& s2.phase == Phase::Opening
            &&& s2.config == c
            &&& s2.ops == ops@
            &&& s2.cursor == 0
            &&& s2.continuous
        }),
{
}

/// The port operation engine: one port, one session at a time, driven by
/// events and answering each with an action.
pub struct Engine {
    phase: Phase,
    config: PortConfig,
    ops: Vec<Operation>,
    cursor: usize,
    continuous: bool,
    current: Option<Operation>,
    target: Target,
}

impl View for Engine {
    type V = EngineView;

    closed spec fn view(&self) -> EngineView {
        EngineView {
            phase: self.phase,
            config: self.config,
            ops: self.ops@,
            cursor: self.cursor as nat,
            continuous: self.continuous,
            current: self.current,
            target: self.target,
        }
    }
}

impl Engine {
    pub open spec fn wf(&self) -> bool {
        well_formed(self@)
    }

    /// An idle engine.
    pub fn new() -> (r: Engine)
        ensures
            r.wf(),
            r@.phase == Phase::Idle,
    {
        Engine {
            phase: Phase::Idle,
            config: PortConfig::default(),
            ops: Vec::new(),
            cursor: 0,
            continuous: false,
            current: None,
            target: Target::Session,
        }
    }

    pub fn phase(&self) -> (r: Phase)
        ensures
            r == self@.phase,
    {
        self.phase
    }

    /// The configuration of the current session.
    pub fn config(&self) -> (r: &PortConfig)
        ensures
            *r == self@.config,
    {
        &self.config
    }

    /// Whether `event` answers what the engine last asked for.
    pub fn expects(&self, event: &Event) -> (r: bool)
        ensures
            r == expected(self@.phase, *event),
    {
        match (self.phase, event) {
            (Phase::Idle, Event::Message(_)) => true,
            (Phase::Opening, Event::Opened(_)) => true,
            (Phase::Ready, Event::Message(_)) => true,
            (Phase::Ready, Event::Quiet) => true,
            (Phase::Exchanging, Event::WriteFailed(_)) => true,
            (Phase::Exchanging, Event::Answer(_)) => true,
            (Phase::Delivering, Event::Delivered(_)) => true,
            _ => false,
        }
    }

    /// Takes one event and decides the next action, as `transition` says.
    pub fn step(&mut self, event: Event) -> (action: Action)
        requires
            old(self).wf(),
            expected(old(self)@.phase, event),
        ensures
            final(self).wf(),
            (final(self)@, action@) == transition(old(self)@, event),
    {
        match self.phase {
            Phase::Idle => match event {
                Event::Message(OpMessage::OneShot(c, op)) => {
                    self.phase = Phase::Opening;
                    self.config = c;
                    self.ops = vec![op];
                    self.cursor = 0;
                    self.continuous = false;
                    assert(self.ops@ =~= seq![op]);
                    Action::Open
                },
                Event::Message(OpMessage::StartContinuous(c, ops)) => {
                    if ops.len() == 0 {
                        Action::Wait
                    } else {
                        self.phase = Phase::Opening;
                        self.config = c;
                        self.ops = ops;
                        self.cursor = 0;
                        self.continuous = true;
                        Action::Open
                    }
                },
                _ => Action::Wait,
            },
            Phase::Opening => match event {
                Event::Opened(true) => {
                    self.phase = Phase::Ready;
                    Action::Check
                },
                _ => {
                    self.phase = Phase::Idle;
                    let mut m = String::from_str("Failed to open port ");
                    m.append(quote(self.config.port_name.as_str(), "").as_str());
                    Action::Fail(
                        Error::with_message(ErrKind::FailedToOpenTargetPort, m),
                        Target::Session,
                    )
                },
            },
            Phase::Ready => match event {
                Event::Message(OpMessage::OneShot(c, op)) => {
                    if c == self.config {
                        let frame = op.to_modbus_bytes(&self.config);
                        self.phase = Phase::Exchanging;
                        self.current = Some(op);
                        self.target = Target::Incoming;
                        Action::Exchange(frame)
                    } else {
                        Action::Reject(
                            Error::with_message(
                                ErrKind::PortTypeUnequal,
                                String::from_str(
                                    "The latest one shot query request is using a different port config, please stop current continuous quarry",
                                ),
                            ),
                        )
                    }
                },
                Event::Message(OpMessage::StartContinuous(_, _)) => {
                    Action::Reject(
                        Error::with_message(
                            ErrKind::AttemptToStartMultipleContinuousQuarry,
                            String::from_str(
                                "Cannot start a new continuous quarry before stopping the old continuous quarry request",
                            ),
                        ),
                    )
                },
                Event::Message(OpMessage::StopContinuous) => {
                    self.phase = Phase::Idle;
                    Action::Wait
                },
                _ => {
                    let cur = self.cursor;
                    let n = self.ops.len();
                    let op = self.ops[cur].clone();
                    let frame = op.to_modbus_bytes(&self.config);
                    self.cursor = if cur + 1 == n {
                        0
                    } else {
                        cur + 1
                    };
                    proof {
                        if cur + 1 < n {
                            lemma_small_mod((cur + 1) as nat, n as nat);
                        } else {
                            assert((n as int) % (n as int) == 0) by (nonlinear_arith)
                                requires n > 0;
                        }
                    }
                    self.phase = Phase::Exchanging;
                    self.current = Some(op);
                    self.target = Target::Session;
                    Action::Exchange(frame)
                },
            },
            Phase::Exchanging => match event {
                Event::WriteFailed(detail) => {
                    self.phase = Phase::Idle;
                    self.current = None;
                    let mut m = String::from_str("Failed to write msg to port due to: ");
                    m.append(detail.as_str());
                    Action::Fail(Error::with_message(ErrKind::PortWriteFailed, m), self.target)
                },
                Event::Answer(bytes) => {
                    self.phase = Phase::Delivering;
                    match self.current.take() {
                        Some(op) => Action::Deliver(Response::new(op, bytes), self.target),
                        None => Action::Wait,
                    }
                },
                _ => Action::Wait,
            },
            Phase::Delivering => match event {
                Event::Delivered(true) => {
                    if !self.continuous && self.target == Target::Session {
                        self.phase = Phase::Idle;
                        Action::Wait
                    } else {
                        self.phase = Phase::Ready;
                        Action::PauseThenCheck
                    }
                },
                _ => {
                    self.phase = Phase::Idle;
                    Action::Wait
                },
            },
        }
    }
}

} // verus!
