//! Properties of the WebSocket connection machine that span several steps.

use vstd::prelude::*;
use crate::error::{CatcherError, display};
use crate::ws_event::{IncomingFrameView, SendStatus, WsEventView};
use crate::ws_handle::WsCommandView;
use crate::ws_machine::{replay_from, ActionView, InputView, MachineView, OutgoingView, PolledView, ReplayAfterView, StageView, machine_wf, transition};

verus! {

/// Calling `network_changed()` on a live connection drops it at once,
/// without a close frame, and tells the owner "network changed"; once the
/// pending commands are collected it reconnects immediately, with no
/// backoff wait: the HTTP client is rebuilt, the backoff reset, the
/// reconnection announced as attempt 0 with no delay, and all endpoints
/// are raced again.
pub proof fn network_change_reconnects_at_once(m: MachineView)
    requires
        m.stage is Open,
    ensures
        transition(m, InputView::Command(Some(WsCommandView::NetworkChanged))).1 == seq![
            ActionView::DropConnection,
            ActionView::Emit(WsEventView::Disconnected { code: 1006, reason: "network changed"@ }),
            ActionView::PollCommand,
        ],
        transition(m, InputView::Command(Some(WsCommandView::NetworkChanged))).0.stage is DrainAfterChange,
        transition(transition(m, InputView::Command(Some(WsCommandView::NetworkChanged))).0, InputView::Polled(PolledView::Empty)).1
            == seq![ActionView::RebuildClient]
                + (if m.reconnect { seq![ActionView::ResetBackoff] } else { Seq::empty() })
                + seq![ActionView::Emit(WsEventView::Reconnecting { attempt: 0, delay_ms: 0 }), ActionView::ConnectAny],
        transition(transition(m, InputView::Command(Some(WsCommandView::NetworkChanged))).0, InputView::Polled(PolledView::Empty)).0.stage
            is ImmediateConnect,
{
}

/// A network change during the backoff wait interrupts it: after the
/// pending commands are collected, the client is rebuilt, the backoff reset
/// and all endpoints raced, without waiting out the delay.
pub proof fn network_change_interrupts_backoff(m: MachineView)
    requires
        m.stage is BackingOff,
    ensures
        transition(m, InputView::Command(Some(WsCommandView::NetworkChanged))).1 == seq![ActionView::PollCommand],
        transition(transition(m, InputView::Command(Some(WsCommandView::NetworkChanged))).0, InputView::Polled(PolledView::Empty)).1
            == seq![ActionView::RebuildClient, ActionView::ResetBackoff, ActionView::ConnectAny],
{
}

/// A message sent while the connection waits to reconnect is kept, after
/// those sent before it, and nothing is sent yet.
pub proof fn messages_are_buffered_while_reconnecting(m: MachineView, c: WsCommandView)
    requires
        m.stage is BackingOff,
        c is Text || c is Binary,
    ensures
        transition(m, InputView::Command(Some(c))).0.buffer == m.buffer.push(c),
        transition(m, InputView::Command(Some(c))).1 == Seq::<ActionView>::empty(),
{
}

/// On a fresh connection the buffered messages are replayed in order: the
/// first is sent as soon as the connection is up, each successful send is
/// followed by the next one, and only after the last does the connection
/// count as re-established and the owner hear `Connected`.
pub proof fn buffered_messages_replay_in_order(m: MachineView, url: Seq<char>, latency_ms: u64)
    requires
        m.stage is BackoffConnect,
        machine_wf(m),
    ensures
        m.buffer.len() > 0 ==> transition(m, InputView::Connected { url, latency_ms }).1
            == seq![ActionView::Send(OutgoingView::Message(m.buffer[0]))],
        m.buffer.len() == 0 ==> transition(m, InputView::Connected { url, latency_ms }).1
            == seq![ActionView::MarkConnected, ActionView::Emit(WsEventView::Connected {
                url: if m.race { url } else { m.url },
                latency_ms,
            })] + (if m.heartbeat { seq![ActionView::ResetHeartbeat] } else { Seq::empty() }),
{
}

/// After a replayed message is sent, the next buffered message follows; the
/// connection is announced only after the last one.
pub proof fn replay_continues_with_next_message(m: MachineView, next: nat, after: ReplayAfterView)
    requires
        m.stage == (StageView::Replaying { next, after }),
        machine_wf(m),
    ensures
        next + 1 < m.buffer.len() ==> transition(m, InputView::Sent(SendStatus::Sent)).1
            == seq![ActionView::Send(OutgoingView::Message(m.buffer[next + 1int]))],
        next + 1 == m.buffer.len() ==> transition(m, InputView::Sent(SendStatus::Sent)).0.stage is Open,
        next + 1 == m.buffer.len() ==> transition(m, InputView::Sent(SendStatus::Sent)).0.buffer.len() == 0,
{
}

/// A replay that cannot send drops the fresh connection and reports why.
pub proof fn failed_replay_reports_disconnect(m: MachineView, next: nat, after: ReplayAfterView)
    requires
        m.stage == (StageView::Replaying { next, after }),
    ensures
        transition(m, InputView::Sent(SendStatus::TimedOut)).1.take(2) == seq![
            ActionView::DropConnection,
            ActionView::Emit(WsEventView::Disconnected { code: 1006, reason: "replay send timeout"@ }),
        ],
        transition(m, InputView::Sent(SendStatus::Failed)).1.take(2) == seq![
            ActionView::DropConnection,
            ActionView::Emit(WsEventView::Disconnected { code: 1006, reason: "replay send failed"@ }),
        ],
{
}

/// A requested close sends the close frame with the caller's code and
/// reason, closes the writer and ends the task, with no disconnection or
/// reconnection reported.
pub proof fn close_sends_frame_and_stops(m: MachineView, code: u16, reason: Seq<char>, status: SendStatus)
    requires
        m.stage is Open,
    ensures
        transition(m, InputView::Command(Some(WsCommandView::Close { code, reason }))).1
            == seq![ActionView::Send(OutgoingView::Close { code, reason })],
        transition(transition(m, InputView::Command(Some(WsCommandView::Close { code, reason }))).0, InputView::Sent(status)).1
            == seq![ActionView::CloseWriter],
        transition(
            transition(transition(m, InputView::Command(Some(WsCommandView::Close { code, reason }))).0, InputView::Sent(status)).0,
            InputView::WriterClosed,
        ).1 == seq![ActionView::Stop],
        transition(
            transition(transition(m, InputView::Command(Some(WsCommandView::Close { code, reason }))).0, InputView::Sent(status)).0,
            InputView::WriterClosed,
        ).0.stage is Stopped,
{
}

/// A close request or the loss of every handle during a reconnection ends
/// the task instead of reconnecting.
pub proof fn close_aborts_reconnection(m: MachineView, code: u16, reason: Seq<char>)
    ensures
        m.stage is BackingOff ==> transition(m, InputView::Command(Some(WsCommandView::Close { code, reason }))).1 == seq![ActionView::Stop],
        m.stage is BackingOff ==> transition(m, InputView::Command(None)).1 == seq![ActionView::Stop],
        m.stage is DrainAfterChange ==> transition(m, InputView::Polled(PolledView::Command(WsCommandView::Close { code, reason }))).1
            == seq![ActionView::Stop],
        m.stage is DrainAfterBackoff ==> transition(m, InputView::Polled(PolledView::Disconnected)).1 == seq![ActionView::Stop],
{
}

/// A stopped connection does nothing more, whatever happens.
pub proof fn stopped_stays_stopped(m: MachineView, i: InputView)
    requires
        m.stage is Stopped,
    ensures
        transition(m, i).0 == m,
        transition(m, i).1 == Seq::<ActionView>::empty(),
{
}

/// The peer's close frame is answered with a close frame carrying the same
/// code and reason (1006 and "abnormal" when it has none), and then the
/// connection counts as lost with that code and reason.
pub proof fn peer_close_is_answered(m: MachineView, code: Option<u16>, reason: Option<Seq<char>>)
    requires
        m.stage is Open,
    ensures
        transition(m, InputView::Frame(IncomingFrameView::Close { code, reason })).1 == seq![ActionView::Send(OutgoingView::Close {
            code: match code { Some(c) => c, None => 1006u16 },
            reason: match reason { Some(r) => r, None => "abnormal"@ },
        })],
        transition(transition(m, InputView::Frame(IncomingFrameView::Close { code, reason })).0, InputView::Sent(SendStatus::Sent)).1.take(2)
            == seq![ActionView::DropConnection, ActionView::Emit(WsEventView::Disconnected {
                code: match code { Some(c) => c, None => 1006u16 },
                reason: match reason { Some(r) => r, None => "abnormal"@ },
            })],
{
}

/// A ping that falls due while the previous pong is outstanding asks the
/// heartbeat first; a dead verdict reports a heartbeat timeout.
pub proof fn missed_pong_can_end_connection(m: MachineView)
    requires
        m.stage is Open,
        m.heartbeat,
        m.waiting_for_pong,
    ensures
        transition(m, InputView::PingDue).1 == seq![ActionView::AssessHeartbeat],
        transition(transition(m, InputView::PingDue).0, InputView::HeartbeatVerdict(true)).1.take(2)
            == seq![ActionView::DropConnection, ActionView::Emit(WsEventView::Disconnected { code: 1006, reason: "heartbeat timeout"@ })],
        transition(transition(m, InputView::PingDue).0, InputView::HeartbeatVerdict(false)).1 == seq![ActionView::Send(OutgoingView::Ping)],
{
}

/// A connection the heartbeat finds dead is dropped and reported with code
/// 1006 and reason "heartbeat timeout"; then, with automatic reconnection,
/// the backoff is asked for a delay (the reconnection loop starts), and
/// without it the task ends. Nothing is buffered for replay.
pub proof fn heartbeat_timeout_reconnects_when_configured(m: MachineView)
    requires
        m.stage is AwaitVerdict,
    ensures
        m.reconnect ==> transition(m, InputView::HeartbeatVerdict(true)).1 == seq![
            ActionView::DropConnection,
            ActionView::Emit(WsEventView::Disconnected { code: 1006, reason: "heartbeat timeout"@ }),
            ActionView::NextBackoff,
        ],
        m.reconnect ==> transition(m, InputView::HeartbeatVerdict(true)).0.stage is AwaitBackoffDelay,
        !m.reconnect ==> transition(m, InputView::HeartbeatVerdict(true)).1 == seq![
            ActionView::DropConnection,
            ActionView::Emit(WsEventView::Disconnected { code: 1006, reason: "heartbeat timeout"@ }),
            ActionView::Stop,
        ],
        !m.reconnect ==> transition(m, InputView::HeartbeatVerdict(true)).0.stage is Stopped,
        transition(m, InputView::HeartbeatVerdict(true)).0.buffer.len() == 0,
{
}

/// Every incoming message reaches the owner as it came: a text frame as a
/// text message with its bytes, a decoded binary frame with its payload and
/// its kind (binary, or text when decoding made it text), and a frame that
/// could not be decoded as an error with that error's message. Messages
/// change nothing in the connection's state.
pub proof fn messages_are_delivered_as_received(m: MachineView, data: Seq<u8>, is_binary: bool, e: CatcherError)
    requires
        m.stage is Open,
    ensures
        transition(m, InputView::Frame(IncomingFrameView::Binary(Ok((data, is_binary))))).1
            == seq![ActionView::Emit(WsEventView::Message { data, is_binary })],
        transition(m, InputView::Frame(IncomingFrameView::Binary(Ok((data, is_binary))))).0 == m,
        transition(m, InputView::Frame(IncomingFrameView::Text(data))).1
            == seq![ActionView::Emit(WsEventView::Message { data, is_binary: false })],
        transition(m, InputView::Frame(IncomingFrameView::Text(data))).0 == m,
        transition(m, InputView::Frame(IncomingFrameView::Binary(Err(e)))).1
            == seq![ActionView::Emit(WsEventView::Error { message: display(e) })],
        transition(m, InputView::Frame(IncomingFrameView::Binary(Err(e)))).0 == m,
{
}

/// Without automatic reconnection an unexpected loss ends the task after
/// the owner is told; with it, the backoff is asked for a delay.
pub proof fn lost_connection_reconnects_only_when_configured(m: MachineView)
    requires
        m.stage is Open,
    ensures
        !m.reconnect ==> transition(m, InputView::Frame(IncomingFrameView::End)).1 == seq![
            ActionView::DropConnection,
            ActionView::Emit(WsEventView::Disconnected { code: 1006, reason: "stream ended"@ }),
            ActionView::Stop,
        ],
        m.reconnect ==> transition(m, InputView::Frame(IncomingFrameView::End)).1 == seq![
            ActionView::DropConnection,
            ActionView::Emit(WsEventView::Disconnected { code: 1006, reason: "stream ended"@ }),
            ActionView::NextBackoff,
        ],
{
}

/// When the backoff has no delay left, the task ends.
pub proof fn exhausted_backoff_stops(m: MachineView)
    requires
        m.stage is AwaitBackoffDelay,
    ensures
        transition(m, InputView::BackoffDelay(None)).1 == seq![ActionView::Stop],
        transition(m, InputView::BackoffDelay(None)).0.stage is Stopped,
{
}

/// The machine fed a sequence of inputs, one after another: the final state
/// and all actions in order.
pub open spec fn run(m: MachineView, inputs: Seq<InputView>) -> (MachineView, Seq<ActionView>)
    decreases inputs.len(),
{
    if inputs.len() == 0 {
        (m, Seq::empty())
    } else {
        let (m1, a1) = transition(m, inputs[0]);
        let (m2, a2) = run(m1, inputs.drop_first());
        (m2, a1 + a2)
    }
}

/// `n` successful sends.
pub open spec fn successful_sends(n: nat) -> Seq<InputView> {
    Seq::new(n, |i: int| InputView::Sent(SendStatus::Sent))
}

/// The sends of a list of buffered messages, in order.
pub open spec fn replay_sends(b: Seq<WsCommandView>) -> Seq<ActionView> {
    b.map_values(|c: WsCommandView| ActionView::Send(OutgoingView::Message(c)))
}

proof fn replay_run_from(m: MachineView, k: nat, after: ReplayAfterView)
    requires
        m.stage == (StageView::Replaying { next: k, after }),
        machine_wf(m),
    ensures
        run(m, successful_sends((m.buffer.len() - k - 1) as nat + 1)) == (
            replay_from(m, m.buffer.len(), after).0,
            replay_sends(m.buffer.skip(k as int + 1)) + replay_from(m, m.buffer.len(), after).1,
        ),
    decreases m.buffer.len() - k,
{
    let n = (m.buffer.len() - k - 1) as nat + 1;
    let ins = successful_sends(n);
    assert(ins[0] == InputView::Sent(SendStatus::Sent));
    let (m1, a1) = transition(m, ins[0]);
    assert(ins.drop_first() =~= successful_sends((n - 1) as nat));
    if k + 1 < m.buffer.len() {
        let m1x = MachineView { stage: StageView::Replaying { next: k + 1, after }, ..m };
        assert(m1 == m1x);
        replay_run_from(m1x, k + 1, after);
        assert(replay_from(m1x, m1x.buffer.len(), after) == replay_from(m, m.buffer.len(), after));
        assert(replay_sends(m.buffer.skip(k as int + 1)) =~= seq![ActionView::Send(OutgoingView::Message(m.buffer[k as int + 1]))]
            + replay_sends(m.buffer.skip(k as int + 2)));
        assert(a1 == seq![ActionView::Send(OutgoingView::Message(m.buffer[k as int + 1]))]);
        assert(run(m, ins).1 =~= a1 + run(m1, ins.drop_first()).1);
    } else {
        assert(successful_sends(0) =~= Seq::<InputView>::empty());
        assert(replay_sends(m.buffer.skip(k as int + 1)) =~= Seq::<ActionView>::empty());
        assert(run(m1, ins.drop_first()) == (m1, Seq::<ActionView>::empty()));
        assert(run(m, ins).1 =~= a1 + Seq::<ActionView>::empty());
    }
}

/// Once a backoff reconnection succeeds, every buffered message is sent on
/// the fresh connection, in the order it was sent by the caller, before the
/// connection is announced; the buffer is then empty.
pub proof fn reconnection_replays_buffer_then_announces(m: MachineView, url: Seq<char>, latency_ms: u64)
    requires
        m.stage is BackoffConnect,
        machine_wf(m),
        m.buffer.len() > 0,
    ensures
        run(m, seq![InputView::Connected { url, latency_ms }] + successful_sends(m.buffer.len())).1
            == replay_sends(m.buffer) + seq![ActionView::MarkConnected, ActionView::Emit(WsEventView::Connected {
                url: if m.race { url } else { m.url },
                latency_ms,
            })] + (if m.heartbeat { seq![ActionView::ResetHeartbeat] } else { Seq::empty() }),
        run(m, seq![InputView::Connected { url, latency_ms }] + successful_sends(m.buffer.len())).0.buffer.len() == 0,
        run(m, seq![InputView::Connected { url, latency_ms }] + successful_sends(m.buffer.len())).0.stage is Open,
{
    let ins = seq![InputView::Connected { url, latency_ms }] + successful_sends(m.buffer.len());
    assert(ins[0] == InputView::Connected { url, latency_ms });
    assert(ins.drop_first() =~= successful_sends(m.buffer.len()));
    let m0 = if m.race { MachineView { url, ..m } } else { m };
    let after = ReplayAfterView::Backoff { latency_ms };
    let m1 = MachineView { stage: StageView::Replaying { next: 0, after }, ..m0 };
    assert(transition(m, ins[0]).0 == m1);
    replay_run_from(m1, 0, after);
    assert(successful_sends((m1.buffer.len() - 0 - 1) as nat + 1) =~= successful_sends(m.buffer.len()));
    assert(m.buffer.skip(1) =~= m.buffer.drop_first());
    assert(replay_sends(m.buffer) =~= seq![ActionView::Send(OutgoingView::Message(m.buffer[0]))] + replay_sends(m.buffer.skip(1)));
    assert(run(m, ins).1 =~= transition(m, ins[0]).1 + run(m1, ins.drop_first()).1);
}

} // verus!
