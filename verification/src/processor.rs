//! The session pipeline: one device connection as a state machine.
//!
//! A session starts out uninitialised. Its first packet names the device;
//! the session then has a directory made, has the transcoder started and
//! forwards the packet's payload. From then on it is active and forwards
//! each payload as it comes. When its queue is closed, or a payload cannot
//! be forwarded, it drains: the transcoder's input is closed, the transcoder
//! gets a bounded time to exit and is killed if it does not. At last the
//! session is closed and its directory is removed.
//!
//! The machine decides and never acts. Its driver performs each action it
//! hands out and reports the outcome as the next event.

use crate::rtp::{PacketView, RtpPacket};
use crate::transcoder::{
    arguments,
    streams_directory,
    streams_path,
    transcoder_arguments,
    TranscoderInput,
    Transport,
};
use vstd::prelude::*;

verus! {

/// The number of packets that a session's queue holds before its producer
/// has to wait.
pub const QUEUE_CAPACITY: usize = 100;

/// How long a draining session waits for its transcoder to exit.
pub const SHUTDOWN_TIMEOUT_SECONDS: u64 = 10;

/// How long a session waits after starting a transcoder that reads from a
/// socket, before it connects to it.
pub const STARTUP_DELAY_MILLIS: u64 = 500;

/// The four states of a session.
#[derive(Clone, Copy, Debug, PartialEq, Eq, Structural)]
pub enum SessionState {
    /// No transcoder is running.
    Uninitialized,
    /// The transcoder is running and takes payloads.
    Active,
    /// The transcoder is being shut down.
    Draining,
    /// The session is over.
    Closed,
}

/// What a session is doing or waiting for.
#[derive(Clone, Copy, Debug, PartialEq, Eq, Structural)]
pub enum Phase {
    /// Waiting for the first packet.
    Idle,
    /// The directory is being made.
    CreatingDirectory,
    /// A port on the loopback interface is being bound.
    Binding,
    /// The transcoder is being started.
    Starting,
    /// The transcoder is given time to come up.
    Settling,
    /// The relay connection to the transcoder is being made.
    Connecting,
    /// Waiting for the next packet.
    Ready,
    /// A payload is being written to the transcoder.
    Forwarding,
    /// The transcoder's input is being closed.
    ClosingInput,
    /// Waiting for the transcoder to exit.
    AwaitingExit,
    /// The transcoder is being killed.
    Killing,
    /// Nothing is left to do but to remove the directory.
    Closed,
}

/// The state that a phase belongs to.
pub open spec fn state_of(phase: Phase) -> SessionState {
    match phase {
        Phase::Idle | Phase::CreatingDirectory | Phase::Binding | Phase::Starting
        | Phase::Settling | Phase::Connecting => SessionState::Uninitialized,
        Phase::Ready | Phase::Forwarding => SessionState::Active,
        Phase::ClosingInput | Phase::AwaitingExit | Phase::Killing => SessionState::Draining,
        Phase::Closed => SessionState::Closed,
    }
}

/// What has happened since the last action.
#[derive(Debug)]
pub enum Event {
    /// The queue gave a packet.
    Packet(RtpPacket),
    /// The queue is closed and empty.
    QueueClosed,
    /// The action was carried out.
    Succeeded,
    /// The port was bound; this is its number.
    Bound(u16),
    /// The action failed.
    Failed,
    /// The wait was cut short: its time ran out or it was called off.
    TimedOut,
}

/// An event as a mathematical value.
pub enum EventView {
    Packet(PacketView),
    QueueClosed,
    Succeeded,
    Bound(u16),
    Failed,
    TimedOut,
}

impl View for Event {
    type V = EventView;

    open spec fn view(&self) -> EventView {
        match self {
            Event::Packet(packet) => EventView::Packet(packet@),
            Event::QueueClosed => EventView::QueueClosed,
            Event::Succeeded => EventView::Succeeded,
            Event::Bound(port) => EventView::Bound(*port),
            Event::Failed => EventView::Failed,
            Event::TimedOut => EventView::TimedOut,
        }
    }
}

impl EventView {
    /// The event reports that an action did not go through.
    pub open spec fn is_failure(self) -> bool {
        self is Failed || self is TimedOut
    }

    /// The event reports how an action went.
    pub open spec fn is_outcome(self) -> bool {
        self is Succeeded || self is Failed || self is TimedOut
    }
}

/// What the driver of a session does next.
#[derive(Debug, PartialEq, Eq)]
pub enum Action {
    /// Take the next packet from the queue.
    Receive,
    /// Make this directory and those above it.
    CreateDirectory(String),
    /// Bind a free port on the loopback interface.
    BindLoopback,
    /// Start the transcoder with these arguments.
    StartTranscoder(Vec<String>),
    /// Wait for this many milliseconds.
    Delay(u64),
    /// Connect the relay to this port on the loopback interface.
    ConnectRelay(u16),
    /// Write these bytes to the transcoder and flush.
    Forward(Vec<u8>),
    /// Close the transcoder's input.
    CloseInput,
    /// Wait for the transcoder to exit, for at most this many seconds.
    AwaitExit(u64),
    /// Kill the transcoder.
    Kill,
    /// Remove this directory and all that is in it. A failure is logged and
    /// has no other effect.
    RemoveDirectory(String),
    /// Leave the loop: the session is over.
    Finish,
    /// The event does not answer the action that is under way. Nothing has
    /// changed; the answer is still awaited.
    Unexpected,
}

/// An action as a mathematical value.
pub enum ActionView {
    Receive,
    CreateDirectory(Seq<char>),
    BindLoopback,
    StartTranscoder(Seq<Seq<char>>),
    Delay(u64),
    ConnectRelay(u16),
    Forward(Seq<u8>),
    CloseInput,
    AwaitExit(u64),
    Kill,
    RemoveDirectory(Seq<char>),
    Finish,
    Unexpected,
}

impl View for Action {
    type V = ActionView;

    open spec fn view(&self) -> ActionView {
        match self {
            Action::Receive => ActionView::Receive,
            Action::CreateDirectory(path) => ActionView::CreateDirectory(path@),
            Action::BindLoopback => ActionView::BindLoopback,
            Action::StartTranscoder(list) => ActionView::StartTranscoder(list.deep_view()),
            Action::Delay(millis) => ActionView::Delay(*millis),
            Action::ConnectRelay(port) => ActionView::ConnectRelay(*port),
            Action::Forward(payload) => ActionView::Forward(payload@),
            Action::CloseInput => ActionView::CloseInput,
            Action::AwaitExit(seconds) => ActionView::AwaitExit(*seconds),
            Action::Kill => ActionView::Kill,
            Action::RemoveDirectory(path) => ActionView::RemoveDirectory(path@),
            Action::Finish => ActionView::Finish,
            Action::Unexpected => ActionView::Unexpected,
        }
    }
}

/// A session as a mathematical value.
pub struct ProcessorView {
    pub transport: Transport,
    pub phase: Phase,
    /// The device's serial number, once the first packet has come.
    pub device_id: Seq<char>,
    /// The first payload, until the transcoder can take it.
    pub held: Seq<u8>,
    /// The port that the transcoder reads from, once it is bound.
    pub port: u16,
}

impl ProcessorView {
    /// The same session in another phase.
    pub open spec fn at(self, phase: Phase) -> ProcessorView {
        ProcessorView { phase, ..self }
    }

    /// The session is closed and has its directory removed.
    pub open spec fn close(self) -> (ProcessorView, ActionView) {
        (self.at(Phase::Closed), ActionView::RemoveDirectory(self.device_id))
    }

    /// The session starts to wait for its transcoder to exit.
    pub open spec fn await_exit(self) -> (ProcessorView, ActionView) {
        (self.at(Phase::AwaitingExit), ActionView::AwaitExit(SHUTDOWN_TIMEOUT_SECONDS))
    }

    /// The session hands the payload that it holds to the transcoder.
    pub open spec fn forward_held(self) -> (ProcessorView, ActionView) {
        (
            ProcessorView { phase: Phase::Forwarding, held: Seq::empty(), ..self },
            ActionView::Forward(self.held),
        )
    }
}

/// The session's next state and the action that its driver is to perform,
/// for every state and event.
pub open spec fn next(p: ProcessorView, e: EventView) -> (ProcessorView, ActionView) {
    match p.phase {
        Phase::Idle => match e {
            EventView::Packet(packet) => (
                ProcessorView {
                    phase: Phase::CreatingDirectory,
                    device_id: packet.header.terminal_serial_number,
                    held: packet.payload,
                    ..p
                },
                ActionView::CreateDirectory(
                    streams_directory(packet.header.terminal_serial_number),
                ),
            ),
            EventView::QueueClosed => (p.at(Phase::Closed), ActionView::Finish),
            _ => (p, ActionView::Unexpected),
        },
        Phase::CreatingDirectory => if e is Succeeded {
            match p.transport {
                Transport::DirectPipe => (
                    p.at(Phase::Starting),
                    ActionView::StartTranscoder(
                        transcoder_arguments(p.device_id, TranscoderInput::Pipe),
                    ),
                ),
                Transport::LoopbackSocket => (p.at(Phase::Binding), ActionView::BindLoopback),
            }
        } else if e.is_failure() {
            p.close()
        } else {
            (p, ActionView::Unexpected)
        },
        Phase::Binding => match e {
            EventView::Bound(port) => (
                ProcessorView { phase: Phase::Starting, port, ..p },
                ActionView::StartTranscoder(
                    transcoder_arguments(p.device_id, TranscoderInput::Loopback(port)),
                ),
            ),
            EventView::Failed | EventView::TimedOut => p.close(),
            _ => (p, ActionView::Unexpected),
        },
        Phase::Starting => if e is Succeeded {
            match p.transport {
                Transport::DirectPipe => p.forward_held(),
                Transport::LoopbackSocket => (
                    p.at(Phase::Settling),
                    ActionView::Delay(STARTUP_DELAY_MILLIS),
                ),
            }
        } else if e.is_failure() {
            p.close()
        } else {
            (p, ActionView::Unexpected)
        },
        Phase::Settling => if e is Succeeded {
            (p.at(Phase::Connecting), ActionView::ConnectRelay(p.port))
        } else if e.is_failure() {
            p.await_exit()
        } else {
            (p, ActionView::Unexpected)
        },
        Phase::Connecting => if e is Succeeded {
            p.forward_held()
        } else if e.is_failure() {
            p.await_exit()
        } else {
            (p, ActionView::Unexpected)
        },
        Phase::Ready => match e {
            EventView::Packet(packet) => (
                p.at(Phase::Forwarding),
                ActionView::Forward(packet.payload),
            ),
            EventView::QueueClosed => (p.at(Phase::ClosingInput), ActionView::CloseInput),
            _ => (p, ActionView::Unexpected),
        },
        Phase::Forwarding => if e is Succeeded {
            (p.at(Phase::Ready), ActionView::Receive)
        } else if e.is_failure() {
            (p.at(Phase::ClosingInput), ActionView::CloseInput)
        } else {
            (p, ActionView::Unexpected)
        },
        Phase::ClosingInput => if e.is_outcome() {
            p.await_exit()
        } else {
            (p, ActionView::Unexpected)
        },
        Phase::AwaitingExit => if e is TimedOut {
            (p.at(Phase::Killing), ActionView::Kill)
        } else if e.is_outcome() {
            p.close()
        } else {
            (p, ActionView::Unexpected)
        },
        Phase::Killing => if e.is_outcome() {
            p.close()
        } else {
            (p, ActionView::Unexpected)
        },
        Phase::Closed => (p, ActionView::Finish),
    }
}

/// The per-connection session.
pub struct RtpProcessor {
    transport: Transport,
    phase: Phase,
    imei: String,
    held: Vec<u8>,
    port: u16,
}

impl View for RtpProcessor {
    type V = ProcessorView;

    closed spec fn view(&self) -> ProcessorView {
        ProcessorView {
            transport: self.transport,
            phase: self.phase,
            device_id: self.imei@,
            held: self.held@,
            port: self.port,
        }
    }
}

/// A session before its first packet.
pub open spec fn initial(transport: Transport) -> ProcessorView {
    ProcessorView {
        transport,
        phase: Phase::Idle,
        device_id: Seq::empty(),
        held: Seq::empty(),
        port: 0,
    }
}

impl RtpProcessor {
    /// A session that feeds its transcoder through a pipe. Its driver
    /// starts by taking a packet from the queue.
    pub fn new() -> (r: Self)
        ensures
            r@ == initial(Transport::DirectPipe),
    {
        Self::with_transport(Transport::DirectPipe)
    }

    /// A session that feeds its transcoder in the given way. Its driver
    /// starts by taking a packet from the queue.
    pub fn with_transport(transport: Transport) -> (r: Self)
        ensures
            r@ == initial(transport),
    {
        RtpProcessor { transport, phase: Phase::Idle, imei: String::new(), held: Vec::new(), port: 0 }
    }

    /// What the session is doing or waiting for.
    pub fn phase(&self) -> (r: Phase)
        ensures
            r == self@.phase,
    {
        self.phase
    }

    /// The state of the session.
    pub fn state(&self) -> (r: SessionState)
        ensures
            r == state_of(self@.phase),
    {
        match self.phase {
            Phase::Idle | Phase::CreatingDirectory | Phase::Binding | Phase::Starting
            | Phase::Settling | Phase::Connecting => SessionState::Uninitialized,
            Phase::Ready | Phase::Forwarding => SessionState::Active,
            Phase::ClosingInput | Phase::AwaitingExit | Phase::Killing => SessionState::Draining,
            Phase::Closed => SessionState::Closed,
        }
    }

    /// The serial number of the session's device; empty before the first
    /// packet.
    pub fn device_id(&self) -> (r: &str)
        ensures
            r@ == self@.device_id,
    {
        self.imei.as_str()
    }

    fn close(&mut self) -> (action: Action)
        ensures
            (final(self)@, action@) == old(self)@.close(),
    {
        self.phase = Phase::Closed;
        Action::RemoveDirectory(self.imei.clone())
    }

    fn await_exit(&mut self) -> (action: Action)
        ensures
            (final(self)@, action@) == old(self)@.await_exit(),
    {
        self.phase = Phase::AwaitingExit;
        Action::AwaitExit(SHUTDOWN_TIMEOUT_SECONDS)
    }

    fn forward_held(&mut self) -> (action: Action)
        ensures
            (final(self)@, action@) == old(self)@.forward_held(),
    {
        let mut payload: Vec<u8> = Vec::new();
        core::mem::swap(&mut self.held, &mut payload);
        self.phase = Phase::Forwarding;
        Action::Forward(payload)
    }

    /// Takes in what has happened and says what to do next.
    pub fn step(&mut self, event: Event) -> (action: Action)
        ensures
            (final(self)@, action@) == next(old(self)@, event@),
    {
        match self.phase {
            Phase::Idle => match event {
                Event::Packet(packet) => {
                    let RtpPacket { header, payload } = packet;
                    self.imei = header.terminal_serial_number;
                    self.held = payload;
                    self.phase = Phase::CreatingDirectory;
                    Action::CreateDirectory(streams_path(self.imei.as_str()))
                },
                Event::QueueClosed => {
                    self.phase = Phase::Closed;
                    Action::Finish
                },
                _ => Action::Unexpected,
            },
            Phase::CreatingDirectory => match event {
                Event::Succeeded => match self.transport {
                    Transport::DirectPipe => {
                        self.phase = Phase::Starting;
                        Action::StartTranscoder(
                            arguments(self.imei.as_str(), TranscoderInput::Pipe),
                        )
                    },
                    Transport::LoopbackSocket => {
                        self.phase = Phase::Binding;
                        Action::BindLoopback
                    },
                },
                Event::Failed | Event::TimedOut => self.close(),
                _ => Action::Unexpected,
            },
            Phase::Binding => match event {
                Event::Bound(port) => {
                    self.port = port;
                    self.phase = Phase::Starting;
                    Action::StartTranscoder(
                        arguments(self.imei.as_str(), TranscoderInput::Loopback(port)),
                    )
                },
                Event::Failed | Event::TimedOut => self.close(),
                _ => Action::Unexpected,
            },
            Phase::Starting => match event {
                Event::Succeeded => match self.transport {
                    Transport::DirectPipe => self.forward_held(),
                    Transport::LoopbackSocket => {
                        self.phase = Phase::Settling;
                        Action::Delay(STARTUP_DELAY_MILLIS)
                    },
                },
                Event::Failed | Event::TimedOut => self.close(),
                _ => Action::Unexpected,
            },
            Phase::Settling => match event {
                Event::Succeeded => {
                    self.phase = Phase::Connecting;
                    Action::ConnectRelay(self.port)
                },
                Event::Failed | Event::TimedOut => self.await_exit(),
                _ => Action::Unexpected,
            },
            Phase::Connecting => match event {
                Event::Succeeded => self.forward_held(),
                Event::Failed | Event::TimedOut => self.await_exit(),
                _ => Action::Unexpected,
            },
            Phase::Ready => match event {
                Event::Packet(packet) => {
                    self.phase = Phase::Forwarding;
                    Action::Forward(packet.payload)
                },
                Event::QueueClosed => {
                    self.phase = Phase::ClosingInput;
                    Action::CloseInput
                },
                _ => Action::Unexpected,
            },
            Phase::Forwarding => match event {
                Event::Succeeded => {
                    self.phase = Phase::Ready;
                    Action::Receive
                },
                Event::Failed | Event::TimedOut => {
                    self.phase = Phase::ClosingInput;
                    Action::CloseInput
                },
                _ => Action::Unexpected,
            },
            Phase::ClosingInput => match event {
                Event::Succeeded | Event::Failed | Event::TimedOut => self.await_exit(),
                _ => Action::Unexpected,
            },
            Phase::AwaitingExit => match event {
                Event::TimedOut => {
                    self.phase = Phase::Killing;
                    Action::Kill
                },
                Event::Succeeded | Event::Failed => self.close(),
                _ => Action::Unexpected,
            },
            Phase::Killing => match event {
                Event::Succeeded | Event::Failed | Event::TimedOut => self.close(),
                _ => Action::Unexpected,
            },
            Phase::Closed => Action::Finish,
        }
    }
}

/// The place of a state in the order in which a session passes through them.
pub open spec fn rank(state: SessionState) -> nat {
    match state {
        SessionState::Uninitialized => 0,
        SessionState::Active => 1,
        SessionState::Draining => 2,
        SessionState::Closed => 3,
    }
}

/// The state in which a run of events leaves a session.
pub open spec fn state_after(p: ProcessorView, events: Seq<EventView>) -> ProcessorView
    decreases events.len(),
{
    if events.len() == 0 {
        p
    } else {
        next(state_after(p, events.drop_last()), events.last()).0
    }
}

/// The actions that a run of events draws from a session, in order.
pub open spec fn actions_of(p: ProcessorView, events: Seq<EventView>) -> Seq<ActionView>
    decreases events.len(),
{
    if events.len() == 0 {
        Seq::empty()
    } else {
        actions_of(p, events.drop_last()).push(
            next(state_after(p, events.drop_last()), events.last()).1,
        )
    }
}

/// How many of the actions start a transcoder.
pub open spec fn starts_in(actions: Seq<ActionView>) -> nat
    decreases actions.len(),
{
    if actions.len() == 0 {
        0
    } else {
        starts_in(actions.drop_last()) + if actions.last() is StartTranscoder {
            1nat
        } else {
            0nat
        }
    }
}

/// How many of the actions remove a directory.
pub open spec fn removals_in(actions: Seq<ActionView>) -> nat
    decreases actions.len(),
{
    if actions.len() == 0 {
        0
    } else {
        removals_in(actions.drop_last()) + if actions.last() is RemoveDirectory {
            1nat
        } else {
            0nat
        }
    }
}

/// A closed session stays closed: whatever happens, it has nothing to do
/// but to finish.
pub proof fn lemma_closed_is_terminal(p: ProcessorView, e: EventView)
    requires
        p.phase == Phase::Closed,
    ensures
        next(p, e) == (p, ActionView::Finish),
{
}

/// A session never goes back: the state after an event is the state before
/// it or a later one. The way in which it feeds its transcoder never
/// changes.
pub proof fn lemma_state_never_goes_back(p: ProcessorView, e: EventView)
    ensures
        rank(state_of(next(p, e).0.phase)) >= rank(state_of(p.phase)),
        next(p, e).0.transport == p.transport,
{
}

/// The session's identity is that of its first packet and is fixed from
/// then on: only an idle session takes a device's serial number, and it
/// takes it from the packet that ends its idling.
pub proof fn lemma_identity_is_captured_once(p: ProcessorView, e: EventView)
    ensures
        p.phase != Phase::Idle ==> next(p, e).0.device_id == p.device_id,
        e matches EventView::Packet(packet) ==> (p.phase == Phase::Idle ==> next(p, e).0.device_id
            == packet.header.terminal_serial_number && next(p, e).0.phase != Phase::Idle),
        next(p, e).0.phase == Phase::Idle ==> p.phase == Phase::Idle,
{
}

/// Payloads go to the transcoder as they came: a payload is forwarded
/// either at once, from the packet that carries it, or as the payload that
/// the session held back while the transcoder came up, which is that of the
/// first packet.
pub proof fn lemma_forwarding_is_verbatim(p: ProcessorView, e: EventView)
    ensures
        e matches EventView::Packet(packet) ==> (p.phase == Phase::Ready ==> next(p, e).1
            == ActionView::Forward(packet.payload)),
        e matches EventView::Packet(packet) ==> (p.phase == Phase::Idle ==> next(p, e).0.held
            == packet.payload),
        next(p, e).1 matches ActionView::Forward(payload) ==> (if p.phase == Phase::Ready {
            e is Packet && payload == e->Packet_0.payload
        } else {
            payload == p.held && (p.phase == Phase::Starting || p.phase == Phase::Connecting)
        }),
        p.phase != Phase::Idle && !(next(p, e).1 is Forward) ==> next(p, e).0.held == p.held,
{
}

/// Shutdown is graceful before it is forced: the transcoder is killed only
/// when the wait for its exit was cut short, and that wait is asked for
/// only once its input is closed or was never opened.
pub proof fn lemma_kill_follows_a_wait(p: ProcessorView, e: EventView)
    ensures
        next(p, e).1 is Kill <==> p.phase == Phase::AwaitingExit && e is TimedOut,
        next(p, e).1 is AwaitExit ==> next(p, e).1 == ActionView::AwaitExit(
            SHUTDOWN_TIMEOUT_SECONDS,
        ) && (p.phase == Phase::ClosingInput || p.phase == Phase::Settling || p.phase
            == Phase::Connecting),
        next(p, e).1 is CloseInput ==> state_of(p.phase) == SessionState::Active,
{
}

/// A transcoder is started only by a session that has none, and the session
/// never comes back to where it could start another.
pub proof fn lemma_start_needs_no_transcoder(p: ProcessorView, e: EventView)
    ensures
        next(p, e).1 is StartTranscoder ==> (p.phase == Phase::CreatingDirectory || p.phase
            == Phase::Binding) && next(p, e).0.phase == Phase::Starting,
        before_start(next(p, e).0.phase) ==> before_start(p.phase),
{
}

/// The phases in which no transcoder has been asked for yet.
pub open spec fn before_start(phase: Phase) -> bool {
    phase == Phase::Idle || phase == Phase::CreatingDirectory || phase == Phase::Binding
}

/// No session ever has more than one transcoder: over any run of events,
/// from any state, at most one action starts one, and none does once the
/// session has asked for one.
pub proof fn lemma_at_most_one_transcoder(p: ProcessorView, events: Seq<EventView>)
    ensures
        starts_in(actions_of(p, events)) <= 1,
        !before_start(p.phase) ==> starts_in(actions_of(p, events)) == 0,
        starts_in(actions_of(p, events)) == 1 ==> !before_start(state_after(p, events).phase),
        before_start(state_after(p, events).phase) ==> before_start(p.phase),
    decreases events.len(),
{
    if events.len() > 0 {
        let before = events.drop_last();
        lemma_at_most_one_transcoder(p, before);
        lemma_start_needs_no_transcoder(state_after(p, before), events.last());
        assert(actions_of(p, events).drop_last() =~= actions_of(p, before));
    }
}

/// The most outcomes that a draining session needs before it is closed.
pub open spec fn steps_to_close(phase: Phase) -> nat {
    match phase {
        Phase::ClosingInput => 3,
        Phase::AwaitingExit => 2,
        Phase::Killing => 1,
        _ => 0,
    }
}

/// Every outcome brings a draining session nearer to its end, and the step
/// that closes it has its directory removed.
pub proof fn lemma_draining_advances(p: ProcessorView, e: EventView)
    requires
        state_of(p.phase) == SessionState::Draining,
        e.is_outcome(),
    ensures
        steps_to_close(next(p, e).0.phase) < steps_to_close(p.phase),
        next(p, e).0.phase == Phase::Closed <==> next(p, e).1 == ActionView::RemoveDirectory(
            p.device_id,
        ),
        next(p, e).0.phase == Phase::Closed || state_of(next(p, e).0.phase)
            == SessionState::Draining,
{
}

/// Teardown always comes to its end. Once the queue of an active session is
/// closed, the session drains, and whatever the outcomes of the steps of
/// shutdown are, after three of them at most it is closed, and the one
/// action that removes a directory removes the device's.
pub proof fn lemma_teardown_completes(p: ProcessorView, outcomes: Seq<EventView>)
    requires
        state_of(p.phase) == SessionState::Draining,
        forall|i: int| 0 <= i < outcomes.len() ==> (#[trigger] outcomes[i]).is_outcome(),
    ensures
        outcomes.len() >= steps_to_close(p.phase) ==> state_after(p, outcomes).phase
            == Phase::Closed,
        state_after(p, outcomes).phase == Phase::Closed ==> removals_in(actions_of(p, outcomes))
            == 1 && actions_of(p, outcomes).contains(ActionView::RemoveDirectory(p.device_id)),
        state_after(p, outcomes).phase != Phase::Closed ==> removals_in(actions_of(p, outcomes))
            == 0 && state_of(state_after(p, outcomes).phase) == SessionState::Draining
            && steps_to_close(state_after(p, outcomes).phase) + outcomes.len()
            <= steps_to_close(p.phase),
        state_after(p, outcomes).device_id == p.device_id,
    decreases outcomes.len(),
{
    if outcomes.len() > 0 {
        let before = outcomes.drop_last();
        let last = outcomes.last();
        lemma_teardown_completes(p, before);
        let q = state_after(p, before);
        let earlier = actions_of(p, before);
        let all = actions_of(p, outcomes);
        assert(all.drop_last() =~= earlier);
        assert(all.last() == next(q, last).1);
        lemma_identity_is_captured_once(q, last);
        if q.phase == Phase::Closed {
            lemma_closed_is_terminal(q, last);
            let i = choose|i: int|
                0 <= i < earlier.len() && earlier[i] == ActionView::RemoveDirectory(p.device_id);
            assert(all[i] == earlier[i]);
        } else {
            lemma_draining_advances(q, last);
            if next(q, last).0.phase == Phase::Closed {
                assert(all[all.len() - 1] == ActionView::RemoveDirectory(p.device_id));
            }
        }
    }
}

/// The end of the queue starts the teardown of an active session: the
/// transcoder's input is closed first.
pub proof fn lemma_queue_end_starts_draining(p: ProcessorView)
    requires
        p.phase == Phase::Ready,
    ensures
        next(p, EventView::QueueClosed) == (p.at(Phase::ClosingInput), ActionView::CloseInput),
        state_of(next(p, EventView::QueueClosed).0.phase) == SessionState::Draining,
{
}

} // verus!
