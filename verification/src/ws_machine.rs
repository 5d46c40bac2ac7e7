//! The decisions of a WebSocket connection, as a state machine.
//!
//! The connection task owns the socket, the timers and the command
//! channel; it feeds every outcome of that outside work to
//! [`ConnectionMachine::step`] as an [`Input`] and performs the returned
//! [`Action`]s in order. The machine decides what is sent, what the owner
//! is told, when to reconnect and which messages are replayed.

use vstd::prelude::*;
use vstd::string::*;
use crate::error::{CatcherError, display};
use crate::ws_event::{
    IncomingFrame, IncomingFrameView, SendStatus, WsEvent, WsEventView, spec_replay_disconnect_reason,
    replay_disconnect_reason,
};
use crate::ws_handle::{WsCommand, WsCommandView};

verus! {

/// A frame that the connection sends.
#[derive(Debug)]
pub enum Outgoing {
    /// A caller's text or binary message, to be encoded first.
    Message(WsCommand),
    Ping,
    Close { code: u16, reason: String },
}

/// The content of an outgoing frame.
pub enum OutgoingView {
    Message(WsCommandView),
    Ping,
    Close { code: u16, reason: Seq<char> },
}

impl View for Outgoing {
    type V = OutgoingView;

    open spec fn view(&self) -> OutgoingView {
        match self {
            Outgoing::Message(c) => OutgoingView::Message(c@),
            Outgoing::Ping => OutgoingView::Ping,
            Outgoing::Close { code, reason } => OutgoingView::Close { code: *code, reason: reason@ },
        }
    }
}

/// Work for the connection task.
#[derive(Debug)]
pub enum Action {
    /// Tell the owner.
    Emit(WsEvent),
    /// Encode (for a message) and send a frame within the send timeout on
    /// the newest connection; answer with `Sent` or `EncodeFailed`.
    Send(Outgoing),
    /// Close the writing half within the send timeout; answer `WriterClosed`.
    CloseWriter,
    /// Start a fresh heartbeat and schedule its first ping.
    ResetHeartbeat,
    /// A ping is due while a pong is outstanding: ask the heartbeat whether
    /// the pong timed out or too many were missed (after counting this one);
    /// answer `HeartbeatVerdict`.
    AssessHeartbeat,
    /// Schedule the next ping at the heartbeat's current interval.
    RescheduleHeartbeat,
    /// Feed a pong's round-trip time to the heartbeat.
    RecordPong(u64),
    /// Drop the current connection without a close frame.
    DropConnection,
    /// Take a pending command without waiting; answer `Polled`.
    PollCommand,
    /// Rebuild the HTTP client of the HTTP-client transport (after a
    /// network change; a no-op on the native transport).
    RebuildClient,
    /// Reset the reconnection backoff.
    ResetBackoff,
    /// Connect to the fastest of all endpoints; answer `Connected` or `ConnectFailed`.
    ConnectAny,
    /// Connect to this endpoint; answer `Connected` or `ConnectFailed`.
    ConnectTo(String),
    /// Ask the backoff for the next delay; answer `BackoffDelay`.
    NextBackoff,
    /// Wait this long while listening for commands; answer `BackoffElapsed`
    /// or, when one comes first, `Command`.
    Sleep(u64),
    /// Tell the backoff that a reconnection succeeded.
    MarkConnected,
    /// The connection task ends.
    Stop,
}

/// The content of an action.
pub enum ActionView {
    Emit(WsEventView),
    Send(OutgoingView),
    CloseWriter,
    ResetHeartbeat,
    AssessHeartbeat,
    RescheduleHeartbeat,
    RecordPong(u64),
    DropConnection,
    PollCommand,
    RebuildClient,
    ResetBackoff,
    ConnectAny,
    ConnectTo(Seq<char>),
    NextBackoff,
    Sleep(u64),
    MarkConnected,
    Stop,
}

impl View for Action {
    type V = ActionView;

    open spec fn view(&self) -> ActionView {
        match self {
            Action::Emit(e) => ActionView::Emit(e@),
            Action::Send(o) => ActionView::Send(o@),
            Action::CloseWriter => ActionView::CloseWriter,
            Action::ResetHeartbeat => ActionView::ResetHeartbeat,
            Action::AssessHeartbeat => ActionView::AssessHeartbeat,
            Action::RescheduleHeartbeat => ActionView::RescheduleHeartbeat,
            Action::RecordPong(r) => ActionView::RecordPong(*r),
            Action::DropConnection => ActionView::DropConnection,
            Action::PollCommand => ActionView::PollCommand,
            Action::RebuildClient => ActionView::RebuildClient,
            Action::ResetBackoff => ActionView::ResetBackoff,
            Action::ConnectAny => ActionView::ConnectAny,
            Action::ConnectTo(u) => ActionView::ConnectTo(u@),
            Action::NextBackoff => ActionView::NextBackoff,
            Action::Sleep(d) => ActionView::Sleep(*d),
            Action::MarkConnected => ActionView::MarkConnected,
            Action::Stop => ActionView::Stop,
        }
    }
}

/// The contents of a list of actions.
pub open spec fn actions_view(a: Seq<Action>) -> Seq<ActionView> {
    a.map_values(|x: Action| x@)
}

/// The result of taking a pending command without waiting.
#[derive(Debug)]
pub enum Polled {
    Command(WsCommand),
    /// No command is pending.
    Empty,
    /// Every handle is gone.
    Disconnected,
}

/// The content of a poll result.
pub enum PolledView {
    Command(WsCommandView),
    Empty,
    Disconnected,
}

/// What the connection task observed.
#[derive(Debug)]
pub enum Input {
    /// A command arrived (none: every handle is gone).
    Command(Option<WsCommand>),
    /// The answer to `PollCommand`.
    Polled(Polled),
    /// The ping timer fired.
    PingDue,
    /// The answer to `AssessHeartbeat`: whether the connection is dead.
    HeartbeatVerdict(bool),
    /// A frame was read.
    Frame(IncomingFrame),
    /// The answer to `Send`.
    Sent(SendStatus),
    /// The answer to `Send` of a message that could not be encoded.
    EncodeFailed(CatcherError),
    /// The answer to `CloseWriter`.
    WriterClosed,
    /// The answer to `ConnectAny` / `ConnectTo` on success.
    Connected { url: String, latency_ms: u64 },
    /// The answer to `ConnectAny` / `ConnectTo` on failure.
    ConnectFailed(CatcherError),
    /// The answer to `NextBackoff`: the delay and the attempt number, or
    /// none when the attempts are used up.
    BackoffDelay(Option<(u64, u32)>),
    /// The backoff sleep ended with no command in between.
    BackoffElapsed,
}

/// The content of an input.
pub enum InputView {
    Command(Option<WsCommandView>),
    Polled(PolledView),
    PingDue,
    HeartbeatVerdict(bool),
    Frame(IncomingFrameView),
    Sent(SendStatus),
    EncodeFailed(CatcherError),
    WriterClosed,
    Connected { url: Seq<char>, latency_ms: u64 },
    ConnectFailed(CatcherError),
    BackoffDelay(Option<(u64, u32)>),
    BackoffElapsed,
}

impl View for Input {
    type V = InputView;

    open spec fn view(&self) -> InputView {
        match self {
            Input::Command(c) => InputView::Command(opt_command_view(*c)),
            Input::Polled(p) => InputView::Polled(polled_view(*p)),
            Input::PingDue => InputView::PingDue,
            Input::HeartbeatVerdict(b) => InputView::HeartbeatVerdict(*b),
            Input::Frame(f) => InputView::Frame(f@),
            Input::Sent(s) => InputView::Sent(*s),
            Input::EncodeFailed(e) => InputView::EncodeFailed(*e),
            Input::WriterClosed => InputView::WriterClosed,
            Input::Connected { url, latency_ms } => InputView::Connected { url: url@, latency_ms: *latency_ms },
            Input::ConnectFailed(e) => InputView::ConnectFailed(*e),
            Input::BackoffDelay(d) => InputView::BackoffDelay(*d),
            Input::BackoffElapsed => InputView::BackoffElapsed,
        }
    }
}

/// What a pending send is for.
#[derive(Debug)]
pub enum SendPurpose {
    /// A caller's message.
    Message,
    /// A heartbeat ping.
    Ping,
    /// The close frame that a caller asked for.
    CloseCommand,
    /// The answer to the peer's close frame.
    CloseReply { code: u16, reason: String },
}

/// Which reconnection a replay belongs to.
#[derive(Debug)]
pub enum ReplayAfter {
    /// The immediate reconnection after a network change, to `url`.
    NetworkChange { url: String, latency_ms: u64 },
    /// A reconnection after a backoff delay.
    Backoff { latency_ms: u64 },
}

/// Where the connection is.
#[derive(Debug)]
pub enum Stage {
    /// Connected, waiting for a command, a ping or a frame.
    Open,
    /// Waiting for a send to end.
    Sending(SendPurpose),
    /// Waiting for the heartbeat's verdict on a missed pong.
    AwaitVerdict,
    /// Waiting for the writer to close after a requested close.
    ClosingWriter,
    /// Collecting pending commands after a network change.
    DrainAfterChange,
    /// Waiting for the immediate reconnection after a network change.
    ImmediateConnect,
    /// Re-sending buffered message `next` on a fresh connection.
    Replaying { next: usize, after: ReplayAfter },
    /// Waiting for the next backoff delay.
    AwaitBackoffDelay,
    /// Sleeping before a reconnection attempt.
    BackingOff,
    /// Collecting pending commands after the backoff sleep.
    DrainAfterBackoff,
    /// Waiting for a reconnection attempt after a backoff delay.
    BackoffConnect,
    /// The connection task is over.
    Stopped,
}

pub enum SendPurposeView {
    Message,
    Ping,
    CloseCommand,
    CloseReply { code: u16, reason: Seq<char> },
}

pub enum ReplayAfterView {
    NetworkChange { url: Seq<char>, latency_ms: u64 },
    Backoff { latency_ms: u64 },
}

pub enum StageView {
    Open,
    Sending(SendPurposeView),
    AwaitVerdict,
    ClosingWriter,
    DrainAfterChange,
    ImmediateConnect,
    Replaying { next: nat, after: ReplayAfterView },
    AwaitBackoffDelay,
    BackingOff,
    DrainAfterBackoff,
    BackoffConnect,
    Stopped,
}

impl View for SendPurpose {
    type V = SendPurposeView;

    open spec fn view(&self) -> SendPurposeView {
        match self {
            SendPurpose::Message => SendPurposeView::Message,
            SendPurpose::Ping => SendPurposeView::Ping,
            SendPurpose::CloseCommand => SendPurposeView::CloseCommand,
            SendPurpose::CloseReply { code, reason } => SendPurposeView::CloseReply { code: *code, reason: reason@ },
        }
    }
}

impl View for ReplayAfter {
    type V = ReplayAfterView;

    open spec fn view(&self) -> ReplayAfterView {
        match self {
            ReplayAfter::NetworkChange { url, latency_ms } => ReplayAfterView::NetworkChange { url: url@, latency_ms: *latency_ms },
            ReplayAfter::Backoff { latency_ms } => ReplayAfterView::Backoff { latency_ms: *latency_ms },
        }
    }
}

impl View for Stage {
    type V = StageView;

    open spec fn view(&self) -> StageView {
        match self {
            Stage::Open => StageView::Open,
            Stage::Sending(p) => StageView::Sending(p@),
            Stage::AwaitVerdict => StageView::AwaitVerdict,
            Stage::ClosingWriter => StageView::ClosingWriter,
            Stage::DrainAfterChange => StageView::DrainAfterChange,
            Stage::ImmediateConnect => StageView::ImmediateConnect,
            Stage::Replaying { next, after } => StageView::Replaying { next: *next as nat, after: after@ },
            Stage::AwaitBackoffDelay => StageView::AwaitBackoffDelay,
            Stage::BackingOff => StageView::BackingOff,
            Stage::DrainAfterBackoff => StageView::DrainAfterBackoff,
            Stage::BackoffConnect => StageView::BackoffConnect,
            Stage::Stopped => StageView::Stopped,
        }
    }
}

/// The state of a connection.
pub struct MachineView {
    /// A heartbeat is configured.
    pub heartbeat: bool,
    /// Automatic reconnection is configured.
    pub reconnect: bool,
    pub stage: StageView,
    /// The endpoint of the current (or last) connection.
    pub url: Seq<char>,
    /// The latency reported with the next `Connected` event.
    pub latency_ms: u64,
    /// A ping was sent and its pong has not come.
    pub waiting_for_pong: bool,
    /// Messages sent while disconnected, to be replayed on reconnection.
    pub buffer: Seq<WsCommandView>,
    /// The next reconnection races all endpoints.
    pub race: bool,
    /// A network change interrupted the backoff.
    pub skip_backoff: bool,
}

/// The machine's invariant: only messages are ever buffered, and a replay
/// position never passes the buffer's end.
pub open spec fn machine_wf(m: MachineView) -> bool {
    &&& forall|i: int| 0 <= i < m.buffer.len() ==> is_message(#[trigger] m.buffer[i])
    &&& (m.stage matches StageView::Replaying { next, .. } ==> next < m.buffer.len())
}

/// A text or binary message.
pub open spec fn is_message(c: WsCommandView) -> bool {
    c is Text || c is Binary
}

/// Why a connected phase ended.
pub enum OutcomeView {
    CleanClose,
    Disconnected { code: u16, reason: Seq<char> },
    HeartbeatTimeout,
    NetworkChanged,
}

/// Enters the connected phase at `url`: the owner is told, and a fresh
/// heartbeat starts when one is configured.
pub open spec fn open_at(m: MachineView, url: Seq<char>, latency_ms: u64) -> (MachineView, Seq<ActionView>) {
    (
        MachineView {
            stage: StageView::Open,
            url,
            latency_ms,
            waiting_for_pong: false,
            buffer: Seq::empty(),
            race: false,
            skip_backoff: false,
            ..m
        },
        seq![ActionView::Emit(WsEventView::Connected { url, latency_ms })] + (if m.heartbeat {
            seq![ActionView::ResetHeartbeat]
        } else {
            Seq::empty()
        }),
    )
}

/// The end of the connection task.
pub open spec fn stop(m: MachineView) -> (MachineView, Seq<ActionView>) {
    (MachineView { stage: StageView::Stopped, ..m }, seq![ActionView::Stop])
}

/// The start of the backoff loop: ask for a delay, or stop when automatic
/// reconnection is not configured.
pub open spec fn begin_backoff(m: MachineView) -> (MachineView, Seq<ActionView>) {
    if m.reconnect {
        (MachineView { stage: StageView::AwaitBackoffDelay, ..m }, seq![ActionView::NextBackoff])
    } else {
        stop(m)
    }
}

/// The event that reports the end of a connected phase.
pub open spec fn outcome_event(o: OutcomeView) -> WsEventView {
    match o {
        OutcomeView::Disconnected { code, reason } => WsEventView::Disconnected { code, reason },
        OutcomeView::HeartbeatTimeout => WsEventView::Disconnected { code: 1006, reason: "heartbeat timeout"@ },
        _ => WsEventView::Disconnected { code: 1006, reason: "network changed"@ },
    }
}

/// The end of a connected phase: a clean close stops the task; otherwise
/// the connection is dropped and the owner told, and then a network change
/// collects pending commands for an immediate reconnection while any other
/// loss goes to the backoff loop.
pub open spec fn conclude(m: MachineView, o: OutcomeView) -> (MachineView, Seq<ActionView>) {
    match o {
        OutcomeView::CleanClose => stop(m),
        OutcomeView::NetworkChanged => (
            MachineView { stage: StageView::DrainAfterChange, buffer: Seq::empty(), race: true, skip_backoff: false, ..m },
            seq![ActionView::DropConnection, ActionView::Emit(outcome_event(o)), ActionView::PollCommand],
        ),
        _ => {
            let m2 = MachineView { buffer: Seq::empty(), race: false, skip_backoff: false, ..m };
            let (m3, a) = begin_backoff(m2);
            (m3, seq![ActionView::DropConnection, ActionView::Emit(outcome_event(o))] + a)
        },
    }
}

/// Sends buffered message `next` of a replay, or, past the last one, ends
/// the replay: the reconnection counts as successful and the connected
/// phase begins.
pub open spec fn replay_from(m: MachineView, next: nat, after: ReplayAfterView) -> (MachineView, Seq<ActionView>) {
    if next < m.buffer.len() {
        (
            MachineView { stage: StageView::Replaying { next, after }, ..m },
            seq![ActionView::Send(OutgoingView::Message(m.buffer[next as int]))],
        )
    } else {
        match after {
            ReplayAfterView::NetworkChange { url, latency_ms } => {
                let (m2, a) = open_at(m, url, latency_ms);
                (m2, (if m.reconnect { seq![ActionView::MarkConnected] } else { Seq::empty() }) + a)
            },
            ReplayAfterView::Backoff { latency_ms } => {
                let (m2, a) = open_at(m, m.url, latency_ms);
                (m2, seq![ActionView::MarkConnected] + a)
            },
        }
    }
}

/// A command read in the connected phase.
pub open spec fn on_open_command(m: MachineView, c: Option<WsCommandView>) -> (MachineView, Seq<ActionView>) {
    match c {
        None => conclude(m, OutcomeView::CleanClose),
        Some(WsCommandView::NetworkChanged) => conclude(m, OutcomeView::NetworkChanged),
        Some(WsCommandView::Close { code, reason }) => (
            MachineView { stage: StageView::Sending(SendPurposeView::CloseCommand), ..m },
            seq![ActionView::Send(OutgoingView::Close { code, reason })],
        ),
        Some(c) => (
            MachineView { stage: StageView::Sending(SendPurposeView::Message), ..m },
            seq![ActionView::Send(OutgoingView::Message(c))],
        ),
    }
}

/// Sends a heartbeat ping and waits for the send.
pub open spec fn send_ping(m: MachineView) -> (MachineView, Seq<ActionView>) {
    (
        MachineView { stage: StageView::Sending(SendPurposeView::Ping), waiting_for_pong: true, ..m },
        seq![ActionView::Send(OutgoingView::Ping)],
    )
}

/// A frame read in the connected phase.
pub open spec fn on_open_frame(m: MachineView, f: IncomingFrameView) -> (MachineView, Seq<ActionView>) {
    match f {
        IncomingFrameView::Text(d) => (m, seq![ActionView::Emit(WsEventView::Message { data: d, is_binary: false })]),
        IncomingFrameView::Binary(Ok((d, b))) => (m, seq![ActionView::Emit(WsEventView::Message { data: d, is_binary: b })]),
        IncomingFrameView::Binary(Err(e)) => (m, seq![ActionView::Emit(WsEventView::Error { message: display(e) })]),
        IncomingFrameView::Pong { rtt_ms } => if m.heartbeat {
            (
                MachineView { waiting_for_pong: false, ..m },
                seq![ActionView::RecordPong(rtt_ms), ActionView::Emit(WsEventView::HeartbeatRtt { rtt_ms })],
            )
        } else {
            (m, Seq::empty())
        },
        IncomingFrameView::Close { code, reason } => {
            let c = match code { Some(c) => c, None => 1006u16 };
            let r = match reason { Some(r) => r, None => "abnormal"@ };
            (
                MachineView { stage: StageView::Sending(SendPurposeView::CloseReply { code: c, reason: r }), ..m },
                seq![ActionView::Send(OutgoingView::Close { code: c, reason: r })],
            )
        },
        IncomingFrameView::End => conclude(m, OutcomeView::Disconnected { code: 1006, reason: "stream ended"@ }),
        _ => (m, Seq::empty()),
    }
}

/// The connected phase.
pub open spec fn on_open(m: MachineView, i: InputView) -> (MachineView, Seq<ActionView>) {
    match i {
        InputView::Command(c) => on_open_command(m, c),
        InputView::PingDue => if !m.heartbeat {
            (m, Seq::empty())
        } else if m.waiting_for_pong {
            (MachineView { stage: StageView::AwaitVerdict, ..m }, seq![ActionView::AssessHeartbeat])
        } else {
            send_ping(m)
        },
        InputView::Frame(f) => on_open_frame(m, f),
        _ => (m, Seq::empty()),
    }
}

/// The end of a send in the connected phase.
pub open spec fn on_sent(m: MachineView, p: SendPurposeView, i: InputView) -> (MachineView, Seq<ActionView>) {
    let back = MachineView { stage: StageView::Open, ..m };
    match (p, i) {
        (SendPurposeView::Message, InputView::Sent(SendStatus::Sent)) => (back, Seq::empty()),
        (SendPurposeView::Message, InputView::Sent(SendStatus::Failed)) =>
            conclude(m, OutcomeView::Disconnected { code: 1006, reason: "send failed"@ }),
        (SendPurposeView::Message, InputView::Sent(SendStatus::TimedOut)) =>
            conclude(m, OutcomeView::Disconnected { code: 1006, reason: "send timeout"@ }),
        (SendPurposeView::Message, InputView::EncodeFailed(e)) =>
            (back, seq![ActionView::Emit(WsEventView::Error { message: display(e) })]),
        (SendPurposeView::Ping, InputView::Sent(SendStatus::TimedOut)) =>
            conclude(m, OutcomeView::Disconnected { code: 1006, reason: "ping send timeout"@ }),
        (SendPurposeView::Ping, InputView::Sent(_)) => (back, seq![ActionView::RescheduleHeartbeat]),
        (SendPurposeView::CloseCommand, InputView::Sent(_)) =>
            (MachineView { stage: StageView::ClosingWriter, ..m }, seq![ActionView::CloseWriter]),
        (SendPurposeView::CloseReply { code, reason }, InputView::Sent(_)) =>
            conclude(m, OutcomeView::Disconnected { code, reason }),
        _ => (m, Seq::empty()),
    }
}

/// A pending command taken while collecting after a network change.
pub open spec fn on_drain_after_change(m: MachineView, p: PolledView) -> (MachineView, Seq<ActionView>) {
    match p {
        PolledView::Command(WsCommandView::NetworkChanged) => (m, seq![ActionView::PollCommand]),
        PolledView::Command(WsCommandView::Close { .. }) => stop(m),
        PolledView::Command(c) => (MachineView { buffer: m.buffer.push(c), ..m }, seq![ActionView::PollCommand]),
        PolledView::Disconnected => stop(m),
        PolledView::Empty => (
            MachineView { stage: StageView::ImmediateConnect, ..m },
            seq![ActionView::RebuildClient]
                + (if m.reconnect { seq![ActionView::ResetBackoff] } else { Seq::empty() })
                + seq![ActionView::Emit(WsEventView::Reconnecting { attempt: 0, delay_ms: 0 }), ActionView::ConnectAny],
        ),
    }
}

/// The answer to a send of a replayed message.
pub open spec fn on_replay_sent(m: MachineView, next: nat, after: ReplayAfterView, i: InputView) -> (MachineView, Seq<ActionView>) {
    let status = match i {
        InputView::Sent(s) => Some(s),
        InputView::EncodeFailed(_) => Some(SendStatus::Sent),
        _ => None,
    };
    match status {
        None => (m, Seq::empty()),
        Some(s) => match spec_replay_disconnect_reason(s) {
            None => replay_from(m, next + 1, after),
            Some(reason) => {
                let lost = seq![ActionView::DropConnection, ActionView::Emit(WsEventView::Disconnected { code: 1006, reason })];
                match after {
                    ReplayAfterView::NetworkChange { .. } => {
                        let (m2, a) = begin_backoff(m);
                        (m2, lost + a)
                    },
                    ReplayAfterView::Backoff { .. } => (
                        MachineView { stage: StageView::AwaitBackoffDelay, ..m },
                        lost + seq![ActionView::NextBackoff],
                    ),
                }
            },
        },
    }
}

/// A command read during the backoff sleep.
pub open spec fn on_backoff_command(m: MachineView, c: Option<WsCommandView>) -> (MachineView, Seq<ActionView>) {
    match c {
        None => stop(m),
        Some(WsCommandView::Close { .. }) => stop(m),
        Some(WsCommandView::NetworkChanged) => (
            MachineView { stage: StageView::DrainAfterBackoff, skip_backoff: true, ..m },
            seq![ActionView::PollCommand],
        ),
        Some(c) => (MachineView { buffer: m.buffer.push(c), ..m }, Seq::empty()),
    }
}

/// A pending command taken after the backoff sleep; when none is left, the
/// reconnection starts (racing all endpoints after a network change).
pub open spec fn on_drain_after_backoff(m: MachineView, p: PolledView) -> (MachineView, Seq<ActionView>) {
    match p {
        PolledView::Command(WsCommandView::Close { .. }) => stop(m),
        PolledView::Disconnected => stop(m),
        PolledView::Command(WsCommandView::NetworkChanged) => (MachineView { skip_backoff: true, ..m }, seq![ActionView::PollCommand]),
        PolledView::Command(c) => (MachineView { buffer: m.buffer.push(c), ..m }, seq![ActionView::PollCommand]),
        PolledView::Empty => {
            let race = m.race || m.skip_backoff;
            let reset = if m.skip_backoff { seq![ActionView::RebuildClient, ActionView::ResetBackoff] } else { Seq::empty() };
            let connect = if race { ActionView::ConnectAny } else { ActionView::ConnectTo(m.url) };
            (MachineView { stage: StageView::BackoffConnect, race, ..m }, reset + seq![connect])
        },
    }
}

/// One step of the machine.
pub open spec fn transition(m: MachineView, i: InputView) -> (MachineView, Seq<ActionView>) {
    match m.stage {
        StageView::Open => on_open(m, i),
        StageView::Sending(p) => on_sent(m, p, i),
        StageView::AwaitVerdict => match i {
            InputView::HeartbeatVerdict(true) => conclude(m, OutcomeView::HeartbeatTimeout),
            InputView::HeartbeatVerdict(false) => send_ping(m),
            _ => (m, Seq::empty()),
        },
        StageView::ClosingWriter => match i {
            InputView::WriterClosed => conclude(m, OutcomeView::CleanClose),
            _ => (m, Seq::empty()),
        },
        StageView::DrainAfterChange => match i {
            InputView::Polled(p) => on_drain_after_change(m, p),
            _ => (m, Seq::empty()),
        },
        StageView::ImmediateConnect => match i {
            InputView::Connected { url, latency_ms } =>
                replay_from(m, 0, ReplayAfterView::NetworkChange { url, latency_ms }),
            InputView::ConnectFailed(e) => {
                let report = if m.reconnect {
                    Seq::empty()
                } else {
                    seq![ActionView::Emit(WsEventView::Error { message: "network changed reconnect failed: "@ + display(e) })]
                };
                let (m2, a) = begin_backoff(m);
                (m2, report + a)
            },
            _ => (m, Seq::empty()),
        },
        StageView::Replaying { next, after } => on_replay_sent(m, next, after, i),
        StageView::AwaitBackoffDelay => match i {
            InputView::BackoffDelay(None) => stop(m),
            InputView::BackoffDelay(Some((delay, attempt))) => (
                MachineView { stage: StageView::BackingOff, skip_backoff: false, ..m },
                seq![ActionView::Emit(WsEventView::Reconnecting { attempt, delay_ms: delay }), ActionView::Sleep(delay)],
            ),
            _ => (m, Seq::empty()),
        },
        StageView::BackingOff => match i {
            InputView::BackoffElapsed => (MachineView { stage: StageView::DrainAfterBackoff, ..m }, seq![ActionView::PollCommand]),
            InputView::Command(c) => on_backoff_command(m, c),
            _ => (m, Seq::empty()),
        },
        StageView::DrainAfterBackoff => match i {
            InputView::Polled(p) => on_drain_after_backoff(m, p),
            _ => (m, Seq::empty()),
        },
        StageView::BackoffConnect => match i {
            InputView::Connected { url, latency_ms } => {
                let m2 = if m.race { MachineView { url, ..m } } else { m };
                replay_from(m2, 0, ReplayAfterView::Backoff { latency_ms })
            },
            InputView::ConnectFailed(_) => (MachineView { stage: StageView::AwaitBackoffDelay, ..m }, seq![ActionView::NextBackoff]),
            _ => (m, Seq::empty()),
        },
        StageView::Stopped => (m, Seq::empty()),
    }
}

/// Why a connected phase ended.
#[derive(Debug)]
pub enum Outcome {
    CleanClose,
    Disconnected { code: u16, reason: String },
    HeartbeatTimeout,
    NetworkChanged,
}

impl View for Outcome {
    type V = OutcomeView;

    open spec fn view(&self) -> OutcomeView {
        match self {
            Outcome::CleanClose => OutcomeView::CleanClose,
            Outcome::Disconnected { code, reason } => OutcomeView::Disconnected { code: *code, reason: reason@ },
            Outcome::HeartbeatTimeout => OutcomeView::HeartbeatTimeout,
            Outcome::NetworkChanged => OutcomeView::NetworkChanged,
        }
    }
}

/// The content of an optional command.
pub open spec fn opt_command_view(c: Option<WsCommand>) -> Option<WsCommandView> {
    match c {
        Some(c) => Some(c@),
        None => None,
    }
}

/// The content of a poll result.
pub open spec fn polled_view(p: Polled) -> PolledView {
    match p {
        Polled::Command(c) => PolledView::Command(c@),
        Polled::Empty => PolledView::Empty,
        Polled::Disconnected => PolledView::Disconnected,
    }
}

/// The contents of a list of commands.
pub open spec fn commands_view(c: Seq<WsCommand>) -> Seq<WsCommandView> {
    c.map_values(|x: WsCommand| x@)
}

/// The decision-making core of a WebSocket connection.
pub struct ConnectionMachine {
    heartbeat: bool,
    reconnect: bool,
    stage: Stage,
    url: String,
    latency_ms: u64,
    waiting_for_pong: bool,
    buffer: Vec<WsCommand>,
    race: bool,
    skip_backoff: bool,
}

impl View for ConnectionMachine {
    type V = MachineView;

    closed spec fn view(&self) -> MachineView {
        MachineView {
            heartbeat: self.heartbeat,
            reconnect: self.reconnect,
            stage: self.stage@,
            url: self.url@,
            latency_ms: self.latency_ms,
            waiting_for_pong: self.waiting_for_pong,
            buffer: commands_view(self.buffer@),
            race: self.race,
            skip_backoff: self.skip_backoff,
        }
    }
}

fn copy_string(s: &String) -> (r: String)
    ensures
        r@ == s@,
{
    s.clone()
}

fn copy_command(c: &WsCommand) -> (r: WsCommand)
    ensures
        r@ == c@,
{
    c.clone()
}

impl ConnectionMachine {
    /// The stage, copied.
    fn stage_copy(&self) -> (r: Stage)
        ensures
            r@ == self.stage@,
    {
        match &self.stage {
            Stage::Open => Stage::Open,
            Stage::Sending(p) => Stage::Sending(match p {
                SendPurpose::Message => SendPurpose::Message,
                SendPurpose::Ping => SendPurpose::Ping,
                SendPurpose::CloseCommand => SendPurpose::CloseCommand,
                SendPurpose::CloseReply { code, reason } => SendPurpose::CloseReply { code: *code, reason: copy_string(reason) },
            }),
            Stage::AwaitVerdict => Stage::AwaitVerdict,
            Stage::ClosingWriter => Stage::ClosingWriter,
            Stage::DrainAfterChange => Stage::DrainAfterChange,
            Stage::ImmediateConnect => Stage::ImmediateConnect,
            Stage::Replaying { next, after } => Stage::Replaying {
                next: *next,
                after: match after {
                    ReplayAfter::NetworkChange { url, latency_ms } => ReplayAfter::NetworkChange { url: copy_string(url), latency_ms: *latency_ms },
                    ReplayAfter::Backoff { latency_ms } => ReplayAfter::Backoff { latency_ms: *latency_ms },
                },
            },
            Stage::AwaitBackoffDelay => Stage::AwaitBackoffDelay,
            Stage::BackingOff => Stage::BackingOff,
            Stage::DrainAfterBackoff => Stage::DrainAfterBackoff,
            Stage::BackoffConnect => Stage::BackoffConnect,
            Stage::Stopped => Stage::Stopped,
        }
    }

    fn open_at(&mut self, url: String, latency_ms: u64, acts: &mut Vec<Action>)
        ensures
            final(self)@ == open_at(old(self)@, url@, latency_ms).0,
            actions_view(final(acts)@) == actions_view(old(acts)@) + open_at(old(self)@, url@, latency_ms).1,
    {
        let ghost m = self@;
        let ghost a0 = actions_view(acts@);
        self.stage = Stage::Open;
        acts.push(Action::Emit(WsEvent::Connected { url: copy_string(&url), latency_ms }));
        self.url = url;
        self.latency_ms = latency_ms;
        self.waiting_for_pong = false;
        self.buffer = Vec::new();
        self.race = false;
        self.skip_backoff = false;
        if self.heartbeat {
            acts.push(Action::ResetHeartbeat);
        }
        assert(commands_view(self.buffer@) =~= Seq::<WsCommandView>::empty());
        assert(actions_view(acts@) =~= a0 + open_at(m, url@, latency_ms).1);
    }

    fn stop(&mut self, acts: &mut Vec<Action>)
        ensures
            final(self)@ == stop(old(self)@).0,
            actions_view(final(acts)@) == actions_view(old(acts)@) + stop(old(self)@).1,
    {
        let ghost a0 = actions_view(acts@);
        self.stage = Stage::Stopped;
        acts.push(Action::Stop);
        assert(actions_view(acts@) =~= a0 + seq![ActionView::Stop]);
    }

    fn begin_backoff(&mut self, acts: &mut Vec<Action>)
        ensures
            final(self)@ == begin_backoff(old(self)@).0,
            actions_view(final(acts)@) == actions_view(old(acts)@) + begin_backoff(old(self)@).1,
    {
        let ghost a0 = actions_view(acts@);
        if self.reconnect {
            self.stage = Stage::AwaitBackoffDelay;
            acts.push(Action::NextBackoff);
            assert(actions_view(acts@) =~= a0 + seq![ActionView::NextBackoff]);
        } else {
            self.stop(acts);
        }
    }

    fn conclude(&mut self, o: Outcome, acts: &mut Vec<Action>)
        ensures
            final(self)@ == conclude(old(self)@, o@).0,
            actions_view(final(acts)@) == actions_view(old(acts)@) + conclude(old(self)@, o@).1,
    {
        let ghost m = self@;
        let ghost a0 = actions_view(acts@);
        match o {
            Outcome::CleanClose => {
                self.stop(acts);
            },
            Outcome::NetworkChanged => {
                self.stage = Stage::DrainAfterChange;
                self.buffer = Vec::new();
                self.race = true;
                self.skip_backoff = false;
                acts.push(Action::DropConnection);
                acts.push(Action::Emit(WsEvent::Disconnected { code: 1006, reason: String::from_str("network changed") }));
                acts.push(Action::PollCommand);
                assert(commands_view(self.buffer@) =~= Seq::<WsCommandView>::empty());
                assert(actions_view(acts@) =~= a0 + conclude(m, o@).1);
            },
            Outcome::HeartbeatTimeout => {
                self.buffer = Vec::new();
                self.race = false;
                self.skip_backoff = false;
                acts.push(Action::DropConnection);
                acts.push(Action::Emit(WsEvent::Disconnected { code: 1006, reason: String::from_str("heartbeat timeout") }));
                assert(commands_view(self.buffer@) =~= Seq::<WsCommandView>::empty());
                let ghost a1 = actions_view(acts@);
                self.begin_backoff(acts);
                assert(actions_view(acts@) =~= a0 + conclude(m, OutcomeView::HeartbeatTimeout).1);
            },
            Outcome::Disconnected { code, reason } => {
                let ghost r = reason@;
                self.buffer = Vec::new();
                self.race = false;
                self.skip_backoff = false;
                acts.push(Action::DropConnection);
                acts.push(Action::Emit(WsEvent::Disconnected { code, reason }));
                assert(commands_view(self.buffer@) =~= Seq::<WsCommandView>::empty());
                self.begin_backoff(acts);
                assert(actions_view(acts@) =~= a0 + conclude(m, OutcomeView::Disconnected { code, reason: r }).1);
            },
        }
    }

    fn replay_from(&mut self, next: usize, after: ReplayAfter, acts: &mut Vec<Action>)
        requires
            next <= old(self)@.buffer.len(),
        ensures
            final(self)@ == replay_from(old(self)@, next as nat, after@).0,
            actions_view(final(acts)@) == actions_view(old(acts)@) + replay_from(old(self)@, next as nat, after@).1,
    {
        let ghost m = self@;
        let ghost a0 = actions_view(acts@);
        let ghost av = after@;
        if next < self.buffer.len() {
            let c = copy_command(&self.buffer[next]);
            self.stage = Stage::Replaying { next, after };
            acts.push(Action::Send(Outgoing::Message(c)));
            assert(actions_view(acts@) =~= a0 + replay_from(m, next as nat, av).1);
        } else {
            match after {
                ReplayAfter::NetworkChange { url, latency_ms } => {
                    if self.reconnect {
                        acts.push(Action::MarkConnected);
                    }
                    let ghost a1 = actions_view(acts@);
                    self.open_at(url, latency_ms, acts);
                    assert(actions_view(acts@) =~= a0 + replay_from(m, next as nat, av).1);
                },
                ReplayAfter::Backoff { latency_ms } => {
                    acts.push(Action::MarkConnected);
                    let url = copy_string(&self.url);
                    self.open_at(url, latency_ms, acts);
                    assert(actions_view(acts@) =~= a0 + replay_from(m, next as nat, av).1);
                },
            }
        }
    }

    fn send_ping(&mut self, acts: &mut Vec<Action>)
        ensures
            final(self)@ == send_ping(old(self)@).0,
            actions_view(final(acts)@) == actions_view(old(acts)@) + send_ping(old(self)@).1,
    {
        let ghost a0 = actions_view(acts@);
        self.stage = Stage::Sending(SendPurpose::Ping);
        self.waiting_for_pong = true;
        acts.push(Action::Send(Outgoing::Ping));
        assert(actions_view(acts@) =~= a0 + seq![ActionView::Send(OutgoingView::Ping)]);
    }

    fn on_open_command(&mut self, c: Option<WsCommand>, acts: &mut Vec<Action>)
        ensures
            final(self)@ == on_open_command(old(self)@, opt_command_view(c)).0,
            actions_view(final(acts)@) == actions_view(old(acts)@) + on_open_command(old(self)@, opt_command_view(c)).1,
    {
        let ghost m = self@;
        let ghost a0 = actions_view(acts@);
        let ghost cv = opt_command_view(c);
        match c {
            None => self.conclude(Outcome::CleanClose, acts),
            Some(WsCommand::NetworkChanged) => self.conclude(Outcome::NetworkChanged, acts),
            Some(WsCommand::Close { code, reason }) => {
                self.stage = Stage::Sending(SendPurpose::CloseCommand);
                acts.push(Action::Send(Outgoing::Close { code, reason }));
                assert(actions_view(acts@) =~= a0 + on_open_command(m, cv).1);
            },
            Some(cmd) => {
                self.stage = Stage::Sending(SendPurpose::Message);
                acts.push(Action::Send(Outgoing::Message(cmd)));
                assert(actions_view(acts@) =~= a0 + on_open_command(m, cv).1);
            },
        }
    }

    fn on_open_frame(&mut self, f: IncomingFrame, acts: &mut Vec<Action>)
        ensures
            final(self)@ == on_open_frame(old(self)@, f@).0,
            actions_view(final(acts)@) == actions_view(old(acts)@) + on_open_frame(old(self)@, f@).1,
    {
        let ghost m = self@;
        let ghost a0 = actions_view(acts@);
        let ghost fv = f@;
        match f {
            IncomingFrame::Text(d) => {
                acts.push(Action::Emit(WsEvent::Message { data: d, is_binary: false }));
                assert(actions_view(acts@) =~= a0 + on_open_frame(m, fv).1);
            },
            IncomingFrame::Binary(Ok((d, b))) => {
                acts.push(Action::Emit(WsEvent::Message { data: d, is_binary: b }));
                assert(actions_view(acts@) =~= a0 + on_open_frame(m, fv).1);
            },
            IncomingFrame::Binary(Err(e)) => {
                let message = e.to_string();
                acts.push(Action::Emit(WsEvent::Error { message }));
                assert(actions_view(acts@) =~= a0 + on_open_frame(m, fv).1);
            },
            IncomingFrame::Pong { rtt_ms } => {
                if self.heartbeat {
                    self.waiting_for_pong = false;
                    acts.push(Action::RecordPong(rtt_ms));
                    acts.push(Action::Emit(WsEvent::HeartbeatRtt { rtt_ms }));
                }
                assert(actions_view(acts@) =~= a0 + on_open_frame(m, fv).1);
            },
            IncomingFrame::Close { code, reason } => {
                let c: u16 = match code { Some(c) => c, None => 1006 };
                let r: String = match reason { Some(r) => r, None => String::from_str("abnormal") };
                let r2 = copy_string(&r);
                self.stage = Stage::Sending(SendPurpose::CloseReply { code: c, reason: r });
                acts.push(Action::Send(Outgoing::Close { code: c, reason: r2 }));
                assert(actions_view(acts@) =~= a0 + on_open_frame(m, fv).1);
            },
            IncomingFrame::End => {
                self.conclude(Outcome::Disconnected { code: 1006, reason: String::from_str("stream ended") }, acts);
            },
            IncomingFrame::Ping => {
                assert(actions_view(acts@) =~= a0 + on_open_frame(m, fv).1);
            },
            IncomingFrame::Other => {
                assert(actions_view(acts@) =~= a0 + on_open_frame(m, fv).1);
            },
        }
    }

    fn on_sent(&mut self, p: SendPurpose, i: Input, acts: &mut Vec<Action>)
        requires
            old(self)@.stage == StageView::Sending(p@),
        ensures
            final(self)@ == on_sent(old(self)@, p@, i@).0,
            actions_view(final(acts)@) == actions_view(old(acts)@) + on_sent(old(self)@, p@, i@).1,
    {
        let ghost m = self@;
        let ghost a0 = actions_view(acts@);
        let ghost pv = p@;
        let ghost iv = i@;
        match (p, i) {
            (SendPurpose::Message, Input::Sent(SendStatus::Sent)) => {
                self.stage = Stage::Open;
                assert(actions_view(acts@) =~= a0 + on_sent(m, pv, iv).1);
            },
            (SendPurpose::Message, Input::Sent(SendStatus::Failed)) => {
                self.conclude(Outcome::Disconnected { code: 1006, reason: String::from_str("send failed") }, acts);
            },
            (SendPurpose::Message, Input::Sent(SendStatus::TimedOut)) => {
                self.conclude(Outcome::Disconnected { code: 1006, reason: String::from_str("send timeout") }, acts);
            },
            (SendPurpose::Message, Input::EncodeFailed(e)) => {
                self.stage = Stage::Open;
                acts.push(Action::Emit(WsEvent::Error { message: e.to_string() }));
                assert(actions_view(acts@) =~= a0 + on_sent(m, pv, iv).1);
            },
            (SendPurpose::Ping, Input::Sent(SendStatus::TimedOut)) => {
                self.conclude(Outcome::Disconnected { code: 1006, reason: String::from_str("ping send timeout") }, acts);
            },
            (SendPurpose::Ping, Input::Sent(_)) => {
                self.stage = Stage::Open;
                acts.push(Action::RescheduleHeartbeat);
                assert(actions_view(acts@) =~= a0 + on_sent(m, pv, iv).1);
            },
            (SendPurpose::CloseCommand, Input::Sent(_)) => {
                self.stage = Stage::ClosingWriter;
                acts.push(Action::CloseWriter);
                assert(actions_view(acts@) =~= a0 + on_sent(m, pv, iv).1);
            },
            (SendPurpose::CloseReply { code, reason }, Input::Sent(_)) => {
                self.conclude(Outcome::Disconnected { code, reason }, acts);
            },
            _ => {
                assert(actions_view(acts@) =~= a0 + on_sent(m, pv, iv).1);
            },
        }
    }

    fn on_drain_after_change(&mut self, p: Polled, acts: &mut Vec<Action>)
        ensures
            final(self)@ == on_drain_after_change(old(self)@, polled_view(p)).0,
            actions_view(final(acts)@) == actions_view(old(acts)@) + on_drain_after_change(old(self)@, polled_view(p)).1,
    {
        let ghost m = self@;
        let ghost a0 = actions_view(acts@);
        let ghost pv = polled_view(p);
        match p {
            Polled::Command(WsCommand::NetworkChanged) => {
                acts.push(Action::PollCommand);
                assert(actions_view(acts@) =~= a0 + on_drain_after_change(m, pv).1);
            },
            Polled::Command(WsCommand::Close { .. }) => self.stop(acts),
            Polled::Command(c) => {
                let ghost cv = c@;
                self.buffer.push(c);
                acts.push(Action::PollCommand);
                assert(commands_view(self.buffer@) =~= m.buffer.push(cv));
                assert(actions_view(acts@) =~= a0 + on_drain_after_change(m, pv).1);
            },
            Polled::Disconnected => self.stop(acts),
            Polled::Empty => {
                self.stage = Stage::ImmediateConnect;
                acts.push(Action::RebuildClient);
                if self.reconnect {
                    acts.push(Action::ResetBackoff);
                }
                acts.push(Action::Emit(WsEvent::Reconnecting { attempt: 0, delay_ms: 0 }));
                acts.push(Action::ConnectAny);
                assert(actions_view(acts@) =~= a0 + on_drain_after_change(m, pv).1);
            },
        }
    }

    fn on_replay_sent(&mut self, next: usize, after: ReplayAfter, i: Input, acts: &mut Vec<Action>)
        requires
            machine_wf(old(self)@),
            old(self)@.stage == (StageView::Replaying { next: next as nat, after: after@ }),
        ensures
            final(self)@ == on_replay_sent(old(self)@, next as nat, after@, i@).0,
            actions_view(final(acts)@) == actions_view(old(acts)@) + on_replay_sent(old(self)@, next as nat, after@, i@).1,
    {
        let ghost m = self@;
        let ghost a0 = actions_view(acts@);
        let ghost av = after@;
        let ghost iv = i@;
        let status: SendStatus = match i {
            Input::Sent(s) => s,
            Input::EncodeFailed(_) => SendStatus::Sent,
            _ => {
                assert(actions_view(acts@) =~= a0 + on_replay_sent(m, next as nat, av, iv).1);
                return;
            },
        };
        match replay_disconnect_reason(status) {
            None => {
                assert(commands_view(self.buffer@).len() == self.buffer@.len());
                assert(next < self.buffer@.len());
                let len = self.buffer.len();
                assert(next < len);
                self.replay_from(next + 1, after, acts);
            },
            Some(reason) => {
                acts.push(Action::DropConnection);
                acts.push(Action::Emit(WsEvent::Disconnected { code: 1006, reason: String::from_str(reason) }));
                match after {
                    ReplayAfter::NetworkChange { .. } => {
                        self.begin_backoff(acts);
                    },
                    ReplayAfter::Backoff { .. } => {
                        self.stage = Stage::AwaitBackoffDelay;
                        acts.push(Action::NextBackoff);
                    },
                }
                assert(actions_view(acts@) =~= a0 + on_replay_sent(m, next as nat, av, iv).1);
            },
        }
    }

    fn on_backoff_command(&mut self, c: Option<WsCommand>, acts: &mut Vec<Action>)
        ensures
            final(self)@ == on_backoff_command(old(self)@, opt_command_view(c)).0,
            actions_view(final(acts)@) == actions_view(old(acts)@) + on_backoff_command(old(self)@, opt_command_view(c)).1,
    {
        let ghost m = self@;
        let ghost a0 = actions_view(acts@);
        let ghost cv = opt_command_view(c);
        match c {
            None => self.stop(acts),
            Some(WsCommand::Close { .. }) => self.stop(acts),
            Some(WsCommand::NetworkChanged) => {
                self.stage = Stage::DrainAfterBackoff;
                self.skip_backoff = true;
                acts.push(Action::PollCommand);
                assert(actions_view(acts@) =~= a0 + on_backoff_command(m, cv).1);
            },
            Some(cmd) => {
                let ghost v = cmd@;
                self.buffer.push(cmd);
                assert(commands_view(self.buffer@) =~= m.buffer.push(v));
                assert(actions_view(acts@) =~= a0 + on_backoff_command(m, cv).1);
            },
        }
    }

    fn on_drain_after_backoff(&mut self, p: Polled, acts: &mut Vec<Action>)
        ensures
            final(self)@ == on_drain_after_backoff(old(self)@, polled_view(p)).0,
            actions_view(final(acts)@) == actions_view(old(acts)@) + on_drain_after_backoff(old(self)@, polled_view(p)).1,
    {
        let ghost m = self@;
        let ghost a0 = actions_view(acts@);
        let ghost pv = polled_view(p);
        match p {
            Polled::Command(WsCommand::Close { .. }) => self.stop(acts),
            Polled::Disconnected => self.stop(acts),
            Polled::Command(WsCommand::NetworkChanged) => {
                self.skip_backoff = true;
                acts.push(Action::PollCommand);
                assert(actions_view(acts@) =~= a0 + on_drain_after_backoff(m, pv).1);
            },
            Polled::Command(c) => {
                let ghost v = c@;
                self.buffer.push(c);
                acts.push(Action::PollCommand);
                assert(commands_view(self.buffer@) =~= m.buffer.push(v));
                assert(actions_view(acts@) =~= a0 + on_drain_after_backoff(m, pv).1);
            },
            Polled::Empty => {
                let race = self.race || self.skip_backoff;
                if self.skip_backoff {
                    acts.push(Action::RebuildClient);
                    acts.push(Action::ResetBackoff);
                }
                if race {
                    acts.push(Action::ConnectAny);
                } else {
                    acts.push(Action::ConnectTo(copy_string(&self.url)));
                }
                self.stage = Stage::BackoffConnect;
                self.race = race;
                assert(actions_view(acts@) =~= a0 + on_drain_after_backoff(m, pv).1);
            },
        }
    }

    /// A machine for a connection just established to `url`, with the
    /// actions that announce it.
    pub fn new(url: String, latency_ms: u64, heartbeat: bool, reconnect: bool) -> (r: (ConnectionMachine, Vec<Action>))
        ensures
            machine_wf(r.0@),
            r.0@ == open_at(initial_state(heartbeat, reconnect), url@, latency_ms).0,
            actions_view(r.1@) == open_at(initial_state(heartbeat, reconnect), url@, latency_ms).1,
    {
        let mut m = ConnectionMachine {
            heartbeat,
            reconnect,
            stage: Stage::Stopped,
            url: String::new(),
            latency_ms: 0,
            waiting_for_pong: false,
            buffer: Vec::new(),
            race: false,
            skip_backoff: false,
        };
        let mut acts: Vec<Action> = Vec::new();
        assert(commands_view(m.buffer@) =~= Seq::<WsCommandView>::empty());
        assert(m@.url =~= Seq::<char>::empty());
        m.open_at(url, latency_ms, &mut acts);
        assert(actions_view(acts@) =~= open_at(initial_state(heartbeat, reconnect), url@, latency_ms).1);
        assert(commands_view(m.buffer@) =~= Seq::<WsCommandView>::empty());
        (m, acts)
    }

    /// Whether the connection task is over.
    pub fn is_stopped(&self) -> (r: bool)
        ensures
            r == (self@.stage is Stopped),
    {
        match self.stage {
            Stage::Stopped => true,
            _ => false,
        }
    }

    /// Whether the connection is in its connected phase, waiting for a
    /// command, a due ping or a frame.
    pub fn is_open(&self) -> (r: bool)
        ensures
            r == (self@.stage is Open),
    {
        match self.stage {
            Stage::Open => true,
            _ => false,
        }
    }

    /// Whether the connection sleeps before a reconnection attempt, waiting
    /// for the delay to pass or for a command.
    pub fn is_backing_off(&self) -> (r: bool)
        ensures
            r == (self@.stage is BackingOff),
    {
        match self.stage {
            Stage::BackingOff => true,
            _ => false,
        }
    }

    /// Feeds one observation to the machine; the connection task performs
    /// the returned actions in order.
    pub fn step(&mut self, input: Input) -> (acts: Vec<Action>)
        requires
            machine_wf(old(self)@),
        ensures
            machine_wf(final(self)@),
            final(self)@ == transition(old(self)@, input@).0,
            actions_view(acts@) == transition(old(self)@, input@).1,
    {
        let ghost m = self@;
        let ghost iv = input@;
        let stage = self.stage_copy();
        let mut acts: Vec<Action> = Vec::new();
        assert(actions_view(acts@) =~= Seq::<ActionView>::empty());
        match stage {
            Stage::Open => match input {
                Input::Command(c) => self.on_open_command(c, &mut acts),
                Input::PingDue => {
                    if !self.heartbeat {
                    } else if self.waiting_for_pong {
                        self.stage = Stage::AwaitVerdict;
                        acts.push(Action::AssessHeartbeat);
                    } else {
                        self.send_ping(&mut acts);
                    }
                },
                Input::Frame(f) => self.on_open_frame(f, &mut acts),
                _ => {},
            },
            Stage::Sending(p) => self.on_sent(p, input, &mut acts),
            Stage::AwaitVerdict => match input {
                Input::HeartbeatVerdict(dead) => {
                    if dead {
                        self.conclude(Outcome::HeartbeatTimeout, &mut acts);
                    } else {
                        self.send_ping(&mut acts);
                    }
                },
                _ => {},
            },
            Stage::ClosingWriter => match input {
                Input::WriterClosed => self.conclude(Outcome::CleanClose, &mut acts),
                _ => {},
            },
            Stage::DrainAfterChange => match input {
                Input::Polled(p) => self.on_drain_after_change(p, &mut acts),
                _ => {},
            },
            Stage::ImmediateConnect => match input {
                Input::Connected { url, latency_ms } => {
                    self.replay_from(0, ReplayAfter::NetworkChange { url, latency_ms }, &mut acts);
                },
                Input::ConnectFailed(e) => {
                    if !self.reconnect {
                        let mut message = String::from_str("network changed reconnect failed: ");
                        e.write_message(&mut message);
                        acts.push(Action::Emit(WsEvent::Error { message }));
                    }
                    self.begin_backoff(&mut acts);
                },
                _ => {},
            },
            Stage::Replaying { next, after } => self.on_replay_sent(next, after, input, &mut acts),
            Stage::AwaitBackoffDelay => match input {
                Input::BackoffDelay(None) => self.stop(&mut acts),
                Input::BackoffDelay(Some((delay, attempt))) => {
                    self.stage = Stage::BackingOff;
                    self.skip_backoff = false;
                    acts.push(Action::Emit(WsEvent::Reconnecting { attempt, delay_ms: delay }));
                    acts.push(Action::Sleep(delay));
                },
                _ => {},
            },
            Stage::BackingOff => match input {
                Input::BackoffElapsed => {
                    self.stage = Stage::DrainAfterBackoff;
                    acts.push(Action::PollCommand);
                },
                Input::Command(c) => self.on_backoff_command(c, &mut acts),
                _ => {},
            },
            Stage::DrainAfterBackoff => match input {
                Input::Polled(p) => self.on_drain_after_backoff(p, &mut acts),
                _ => {},
            },
            Stage::BackoffConnect => match input {
                Input::Connected { url, latency_ms } => {
                    if self.race {
                        self.url = url;
                    }
                    self.replay_from(0, ReplayAfter::Backoff { latency_ms }, &mut acts);
                },
                Input::ConnectFailed(_) => {
                    self.stage = Stage::AwaitBackoffDelay;
                    acts.push(Action::NextBackoff);
                },
                _ => {},
            },
            Stage::Stopped => {},
        }
        assert(actions_view(acts@) =~= transition(m, iv).1);
        proof {
            transition_keeps_wf(m, iv);
        }
        acts
    }
}

/// The state before the first connection is announced.
pub open spec fn initial_state(heartbeat: bool, reconnect: bool) -> MachineView {
    MachineView {
        heartbeat,
        reconnect,
        stage: StageView::Stopped,
        url: Seq::empty(),
        latency_ms: 0,
        waiting_for_pong: false,
        buffer: Seq::empty(),
        race: false,
        skip_backoff: false,
    }
}

/// Only text and binary messages are ever buffered for replay, and a replay
/// never reads past the buffer: every step keeps the machine's invariant.
pub proof fn transition_keeps_wf(m: MachineView, i: InputView)
    requires
        machine_wf(m),
    ensures
        machine_wf(transition(m, i).0),
{
    let m2 = transition(m, i).0;
    assert forall|k: int| 0 <= k < m2.buffer.len() implies is_message(#[trigger] m2.buffer[k]) by {
        if k < m.buffer.len() {
            assert(m2.buffer[k] == m.buffer[k] || m2.buffer.len() == 0);
        }
    }
}

} // verus!