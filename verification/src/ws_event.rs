//! What a WebSocket connection reports to its owner.

use vstd::prelude::*;
use vstd::string::*;
use crate::error::{CatcherError, display};

verus! {

/// An event of a WebSocket connection.
#[derive(Debug)]
pub enum WsEvent {
    Connected { url: String, latency_ms: u64 },
    Message { data: Vec<u8>, is_binary: bool },
    Disconnected { code: u16, reason: String },
    Reconnecting { attempt: u32, delay_ms: u64 },
    HeartbeatRtt { rtt_ms: u64 },
    Error { message: String },
}

/// The content of an event.
pub enum WsEventView {
    Connected { url: Seq<char>, latency_ms: u64 },
    Message { data: Seq<u8>, is_binary: bool },
    Disconnected { code: u16, reason: Seq<char> },
    Reconnecting { attempt: u32, delay_ms: u64 },
    HeartbeatRtt { rtt_ms: u64 },
    Error { message: Seq<char> },
}

impl View for WsEvent {
    type V = WsEventView;

    open spec fn view(&self) -> WsEventView {
        match self {
            WsEvent::Connected { url, latency_ms } => WsEventView::Connected { url: url@, latency_ms: *latency_ms },
            WsEvent::Message { data, is_binary } => WsEventView::Message { data: data@, is_binary: *is_binary },
            WsEvent::Disconnected { code, reason } => WsEventView::Disconnected { code: *code, reason: reason@ },
            WsEvent::Reconnecting { attempt, delay_ms } => WsEventView::Reconnecting { attempt: *attempt, delay_ms: *delay_ms },
            WsEvent::HeartbeatRtt { rtt_ms } => WsEventView::HeartbeatRtt { rtt_ms: *rtt_ms },
            WsEvent::Error { message } => WsEventView::Error { message: message@ },
        }
    }
}

/// How a frame send ended.
#[derive(Debug, Clone, Copy, PartialEq, Eq, Structural)]
pub enum SendStatus {
    Sent,
    Failed,
    TimedOut,
}

/// Why replaying buffered messages on a fresh connection failed.
pub open spec fn spec_replay_disconnect_reason(status: SendStatus) -> Option<Seq<char>> {
    match status {
        SendStatus::Sent => None,
        SendStatus::Failed => Some("replay send failed"@),
        SendStatus::TimedOut => Some("replay send timeout"@),
    }
}

/// Why replaying buffered messages on a fresh connection failed, if it did.
pub fn replay_disconnect_reason(status: SendStatus) -> (r: Option<&'static str>)
    ensures
        match r {
            Some(s) => spec_replay_disconnect_reason(status) == Some(s@),
            None => spec_replay_disconnect_reason(status) is None,
        },
{
    match status {
        SendStatus::Sent => None,
        SendStatus::Failed => Some("replay send failed"),
        SendStatus::TimedOut => Some("replay send timeout"),
    }
}

/// A frame read from the connection, as the reader hands it over.
#[derive(Debug)]
pub enum IncomingFrame {
    Text(Vec<u8>),
    /// A binary frame after the application envelope and MessagePack were
    /// decoded: the payload and whether it stays binary, or the decoding error.
    Binary(Result<(Vec<u8>, bool), CatcherError>),
    Ping,
    /// A pong, with the time since the last ping.
    Pong { rtt_ms: u64 },
    /// A close frame, with its code and reason when it carries them.
    Close { code: Option<u16>, reason: Option<String> },
    Other,
    /// The stream ended.
    End,
}

/// The content of an incoming frame.
pub enum IncomingFrameView {
    Text(Seq<u8>),
    Binary(Result<(Seq<u8>, bool), CatcherError>),
    Ping,
    Pong { rtt_ms: u64 },
    Close { code: Option<u16>, reason: Option<Seq<char>> },
    Other,
    End,
}

impl View for IncomingFrame {
    type V = IncomingFrameView;

    open spec fn view(&self) -> IncomingFrameView {
        match self {
            IncomingFrame::Text(d) => IncomingFrameView::Text(d@),
            IncomingFrame::Binary(r) => IncomingFrameView::Binary(match r {
                Ok(p) => Ok((p.0@, p.1)),
                Err(e) => Err(*e),
            }),
            IncomingFrame::Ping => IncomingFrameView::Ping,
            IncomingFrame::Pong { rtt_ms } => IncomingFrameView::Pong { rtt_ms: *rtt_ms },
            IncomingFrame::Close { code, reason } => IncomingFrameView::Close {
                code: *code,
                reason: match reason { Some(s) => Some(s@), None => None },
            },
            IncomingFrame::Other => IncomingFrameView::Other,
            IncomingFrame::End => IncomingFrameView::End,
        }
    }
}

/// The event that reports a failed client rebuild after a network change.
pub fn rebuild_failed_event(e: &CatcherError) -> (r: WsEvent)
    ensures
        r@ == (WsEventView::Error { message: "network changed client rebuild failed: "@ + display(*e) }),
{
    let mut message = String::from_str("network changed client rebuild failed: ");
    e.write_message(&mut message);
    WsEvent::Error { message }
}

} // verus!
