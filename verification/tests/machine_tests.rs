use catcher::error::CatcherError;
use catcher::ws_event::{rebuild_failed_event, replay_disconnect_reason, IncomingFrame, SendStatus, WsEvent};
use catcher::ws_handle::WsCommand;
use catcher::ws_machine::{Action, ConnectionMachine, Input, Outgoing, Polled};

fn events(actions: &[Action]) -> Vec<&WsEvent> {
    actions
        .iter()
        .filter_map(|a| match a {
            Action::Emit(e) => Some(e),
            _ => None,
        })
        .collect()
}

#[test]
fn network_change_reconnects_immediately() {
    let (mut m, acts) = ConnectionMachine::new("ws://a".into(), 5, false, true);
    assert!(matches!(events(&acts)[..], [WsEvent::Connected { url, latency_ms: 5 }] if url == "ws://a"));

    let acts = m.step(Input::Command(Some(WsCommand::NetworkChanged)));
    assert!(matches!(acts[0], Action::DropConnection));
    assert!(matches!(&acts[1], Action::Emit(WsEvent::Disconnected { code: 1006, reason }) if reason == "network changed"));
    assert!(matches!(acts[2], Action::PollCommand));
    assert_eq!(acts.len(), 3);

    let acts = m.step(Input::Polled(Polled::Empty));
    assert!(matches!(acts[0], Action::RebuildClient));
    assert!(matches!(acts[1], Action::ResetBackoff));
    assert!(matches!(acts[2], Action::Emit(WsEvent::Reconnecting { attempt: 0, delay_ms: 0 })));
    assert!(matches!(acts[3], Action::ConnectAny));
    assert!(!acts.iter().any(|a| matches!(a, Action::Sleep(_))));

    let acts = m.step(Input::Connected { url: "ws://b".into(), latency_ms: 7 });
    assert!(matches!(acts[0], Action::MarkConnected));
    assert!(matches!(&acts[1], Action::Emit(WsEvent::Connected { url, latency_ms: 7 }) if url == "ws://b"));
    assert!(!m.is_stopped());
}

#[test]
fn network_change_reconnects_without_reconnect_config() {
    let (mut m, _) = ConnectionMachine::new("ws://a".into(), 1, false, false);
    m.step(Input::Command(Some(WsCommand::NetworkChanged)));
    let acts = m.step(Input::Polled(Polled::Empty));
    assert!(!acts.iter().any(|a| matches!(a, Action::ResetBackoff)));
    assert!(acts.iter().any(|a| matches!(a, Action::ConnectAny)));
    let acts = m.step(Input::Connected { url: "ws://a".into(), latency_ms: 2 });
    assert!(matches!(events(&acts)[..], [WsEvent::Connected { .. }]));
}

#[test]
fn failed_immediate_reconnect_without_backoff_reports_and_stops() {
    let (mut m, _) = ConnectionMachine::new("ws://a".into(), 1, false, false);
    m.step(Input::Command(Some(WsCommand::NetworkChanged)));
    m.step(Input::Polled(Polled::Empty));
    let acts = m.step(Input::ConnectFailed(CatcherError::WsHandshakeTimeout(1000)));
    assert!(matches!(&acts[0], Action::Emit(WsEvent::Error { message })
        if message == "network changed reconnect failed: WS handshake timeout after 1000ms"));
    assert!(matches!(acts[1], Action::Stop));
    assert!(m.is_stopped());
    assert!(m.step(Input::PingDue).is_empty());
}

#[test]
fn network_change_interrupts_backoff_and_replays_buffered() {
    let (mut m, _) = ConnectionMachine::new("ws://a".into(), 1, false, true);
    let acts = m.step(Input::Frame(IncomingFrame::End));
    assert!(matches!(&acts[1], Action::Emit(WsEvent::Disconnected { code: 1006, reason }) if reason == "stream ended"));
    assert!(matches!(acts[2], Action::NextBackoff));

    let acts = m.step(Input::BackoffDelay(Some((60_000, 1))));
    assert!(matches!(acts[0], Action::Emit(WsEvent::Reconnecting { attempt: 1, delay_ms: 60_000 })));
    assert!(matches!(acts[1], Action::Sleep(60_000)));

    assert!(m.step(Input::Command(Some(WsCommand::Text("buffered during backoff".into())))).is_empty());
    let acts = m.step(Input::Command(Some(WsCommand::NetworkChanged)));
    assert!(matches!(acts[..], [Action::PollCommand]));
    let acts = m.step(Input::Polled(Polled::Empty));
    assert!(matches!(acts[..], [Action::RebuildClient, Action::ResetBackoff, Action::ConnectAny]));

    let acts = m.step(Input::Connected { url: "ws://b".into(), latency_ms: 3 });
    assert!(matches!(&acts[..], [Action::Send(Outgoing::Message(WsCommand::Text(t)))] if t == "buffered during backoff"));
    let acts = m.step(Input::Sent(SendStatus::Sent));
    assert!(matches!(acts[0], Action::MarkConnected));
    assert!(matches!(&acts[1], Action::Emit(WsEvent::Connected { url, latency_ms: 3 }) if url == "ws://b"));
}

#[test]
fn commands_polled_after_network_change_are_replayed_in_order() {
    let (mut m, _) = ConnectionMachine::new("ws://a".into(), 1, false, true);
    m.step(Input::Command(Some(WsCommand::NetworkChanged)));
    m.step(Input::Polled(Polled::Command(WsCommand::Text("one".into()))));
    m.step(Input::Polled(Polled::Command(WsCommand::NetworkChanged)));
    m.step(Input::Polled(Polled::Command(WsCommand::Binary(vec![2]))));
    m.step(Input::Polled(Polled::Empty));
    let acts = m.step(Input::Connected { url: "ws://a".into(), latency_ms: 1 });
    assert!(matches!(&acts[..], [Action::Send(Outgoing::Message(WsCommand::Text(t)))] if t == "one"));
    let acts = m.step(Input::EncodeFailed(CatcherError::EncodeError("skip".into())));
    assert!(matches!(&acts[..], [Action::Send(Outgoing::Message(WsCommand::Binary(d)))] if d == &vec![2]));
    let acts = m.step(Input::Sent(SendStatus::TimedOut));
    assert!(matches!(acts[0], Action::DropConnection));
    assert!(matches!(&acts[1], Action::Emit(WsEvent::Disconnected { code: 1006, reason }) if reason == "replay send timeout"));
    assert!(matches!(acts[2], Action::NextBackoff));
}

#[test]
fn close_command_sends_close_frame_and_stops() {
    let (mut m, _) = ConnectionMachine::new("ws://a".into(), 1, true, true);
    let acts = m.step(Input::Command(Some(WsCommand::Close { code: 1000, reason: "done".into() })));
    assert!(matches!(&acts[..], [Action::Send(Outgoing::Close { code: 1000, reason })] if reason == "done"));
    let acts = m.step(Input::Sent(SendStatus::Failed));
    assert!(matches!(acts[..], [Action::CloseWriter]));
    let acts = m.step(Input::WriterClosed);
    assert!(matches!(acts[..], [Action::Stop]));
    assert!(m.is_stopped());
}

#[test]
fn heartbeat_ping_pong_and_timeout() {
    let (mut m, acts) = ConnectionMachine::new("ws://a".into(), 1, true, false);
    assert!(matches!(acts[1], Action::ResetHeartbeat));
    let acts = m.step(Input::PingDue);
    assert!(matches!(acts[..], [Action::Send(Outgoing::Ping)]));
    let acts = m.step(Input::Sent(SendStatus::Sent));
    assert!(matches!(acts[..], [Action::RescheduleHeartbeat]));
    let acts = m.step(Input::Frame(IncomingFrame::Pong { rtt_ms: 12 }));
    assert!(matches!(acts[..], [Action::RecordPong(12), Action::Emit(WsEvent::HeartbeatRtt { rtt_ms: 12 })]));
    m.step(Input::PingDue);
    m.step(Input::Sent(SendStatus::Sent));
    let acts = m.step(Input::PingDue);
    assert!(matches!(acts[..], [Action::AssessHeartbeat]));
    let acts = m.step(Input::HeartbeatVerdict(true));
    assert!(matches!(&acts[1], Action::Emit(WsEvent::Disconnected { code: 1006, reason }) if reason == "heartbeat timeout"));
    assert!(matches!(acts[2], Action::Stop));
}

#[test]
fn stuck_ping_send_disconnects() {
    let (mut m, _) = ConnectionMachine::new("ws://a".into(), 1, true, false);
    m.step(Input::PingDue);
    let acts = m.step(Input::Sent(SendStatus::TimedOut));
    assert!(matches!(&acts[1], Action::Emit(WsEvent::Disconnected { code: 1006, reason }) if reason == "ping send timeout"));
}

#[test]
fn messages_and_send_failures() {
    let (mut m, _) = ConnectionMachine::new("ws://a".into(), 1, false, false);
    let acts = m.step(Input::Frame(IncomingFrame::Text(b"hi".to_vec())));
    assert!(matches!(&acts[..], [Action::Emit(WsEvent::Message { data, is_binary: false })] if data == b"hi"));
    let acts = m.step(Input::Frame(IncomingFrame::Binary(Err(CatcherError::DecodeError("bad".into())))));
    assert!(matches!(&acts[..], [Action::Emit(WsEvent::Error { message })] if message == "msgpack decode error: bad"));
    assert!(m.step(Input::Frame(IncomingFrame::Ping)).is_empty());
    let acts = m.step(Input::Command(Some(WsCommand::Text("x".into()))));
    assert!(matches!(&acts[..], [Action::Send(Outgoing::Message(WsCommand::Text(t)))] if t == "x"));
    let acts = m.step(Input::EncodeFailed(CatcherError::EncodeError("e".into())));
    assert!(matches!(&acts[..], [Action::Emit(WsEvent::Error { message })] if message == "msgpack encode error: e"));
    m.step(Input::Command(Some(WsCommand::Binary(vec![1]))));
    let acts = m.step(Input::Sent(SendStatus::Failed));
    assert!(matches!(&acts[1], Action::Emit(WsEvent::Disconnected { code: 1006, reason }) if reason == "send failed"));
    assert!(matches!(acts[2], Action::Stop));
}

#[test]
fn peer_close_is_answered_with_defaults() {
    let (mut m, _) = ConnectionMachine::new("ws://a".into(), 1, false, false);
    let acts = m.step(Input::Frame(IncomingFrame::Close { code: None, reason: None }));
    assert!(matches!(&acts[..], [Action::Send(Outgoing::Close { code: 1006, reason })] if reason == "abnormal"));
    let acts = m.step(Input::Sent(SendStatus::Sent));
    assert!(matches!(&acts[1], Action::Emit(WsEvent::Disconnected { code: 1006, reason }) if reason == "abnormal"));
}

#[test]
fn backoff_reconnects_to_the_same_endpoint_and_stops_when_exhausted() {
    let (mut m, _) = ConnectionMachine::new("ws://a".into(), 1, false, true);
    m.step(Input::Frame(IncomingFrame::End));
    m.step(Input::BackoffDelay(Some((100, 1))));
    let acts = m.step(Input::BackoffElapsed);
    assert!(matches!(acts[..], [Action::PollCommand]));
    let acts = m.step(Input::Polled(Polled::Empty));
    assert!(matches!(&acts[..], [Action::ConnectTo(u)] if u == "ws://a"));
    let acts = m.step(Input::ConnectFailed(CatcherError::ConnectionTimeout(5)));
    assert!(matches!(acts[..], [Action::NextBackoff]));
    let acts = m.step(Input::BackoffDelay(None));
    assert!(matches!(acts[..], [Action::Stop]));
}

#[test]
fn close_during_backoff_aborts() {
    let (mut m, _) = ConnectionMachine::new("ws://a".into(), 1, false, true);
    m.step(Input::Frame(IncomingFrame::End));
    m.step(Input::BackoffDelay(Some((100, 1))));
    let acts = m.step(Input::Command(Some(WsCommand::Close { code: 1000, reason: "bye".into() })));
    assert!(matches!(acts[..], [Action::Stop]));
}

#[test]
fn replay_reasons_and_rebuild_event() {
    assert_eq!(replay_disconnect_reason(SendStatus::Sent), None);
    assert_eq!(replay_disconnect_reason(SendStatus::Failed), Some("replay send failed"));
    assert_eq!(replay_disconnect_reason(SendStatus::TimedOut), Some("replay send timeout"));
    let e = rebuild_failed_event(&CatcherError::InvalidConfig("x".into()));
    assert!(matches!(e, WsEvent::Error { ref message } if message == "network changed client rebuild failed: invalid configuration: x"));
}
