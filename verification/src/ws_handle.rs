//! The handle through which callers talk to a running WebSocket connection.

use vstd::prelude::*;
use vstd::string::*;
use tokio::sync::mpsc::UnboundedSender;
use crate::error::CatcherError;

verus! {

#[verifier::external_type_specification]
#[verifier::external_body]
#[verifier::reject_recursive_types(T)]
pub struct ExUnboundedSender<T>(UnboundedSender<T>);

/// Another sender to the same channel (tokio's `Clone` for
/// `UnboundedSender`); nothing is claimed of it.
pub assume_specification<T>[ <UnboundedSender<T> as Clone>::clone ](sender: &UnboundedSender<T>) -> (r: UnboundedSender<T>);

/// A request from a handle to the connection task.
#[derive(Debug)]
pub enum WsCommand {
    Text(String),
    Binary(Vec<u8>),
    Close { code: u16, reason: String },
    NetworkChanged,
}

/// The content of a command.
pub enum WsCommandView {
    Text(Seq<char>),
    Binary(Seq<u8>),
    Close { code: u16, reason: Seq<char> },
    NetworkChanged,
}

impl View for WsCommand {
    type V = WsCommandView;

    open spec fn view(&self) -> WsCommandView {
        match self {
            WsCommand::Text(t) => WsCommandView::Text(t@),
            WsCommand::Binary(d) => WsCommandView::Binary(d@),
            WsCommand::Close { code, reason } => WsCommandView::Close { code: *code, reason: reason@ },
            WsCommand::NetworkChanged => WsCommandView::NetworkChanged,
        }
    }
}

impl Clone for WsCommand {
    fn clone(&self) -> (r: Self)
        ensures
            r@ == self@,
    {
        match self {
            WsCommand::Text(t) => WsCommand::Text(t.clone()),
            WsCommand::Binary(d) => {
                let mut v: Vec<u8> = Vec::new();
                let mut i: usize = 0;
                while i < d.len()
                    invariant
                        i <= d@.len(),
                        v@ =~= d@.take(i as int),
                    decreases d@.len() - i,
                {
                    v.push(d[i]);
                    i = i + 1;
                }
                assert(v@ =~= d@);
                WsCommand::Binary(v)
            },
            WsCommand::Close { code, reason } => WsCommand::Close { code: *code, reason: reason.clone() },
            WsCommand::NetworkChanged => WsCommand::NetworkChanged,
        }
    }
}

/// Hands `cmd` to the connection task through tokio's
/// `UnboundedSender::send`. The result tells whether the task still
/// listens; that depends on the task, so nothing is claimed of it.
#[verifier::external_body]
fn send_command(tx: &UnboundedSender<WsCommand>, cmd: WsCommand) -> (sent: bool) {
    tx.send(cmd).is_ok()
}

/// The entry point of the WebSocket transport.
pub struct WsTransport;

/// The command that carries a text message.
pub fn text_command(text: &str) -> (c: WsCommand)
    ensures
        c@ == WsCommandView::Text(text@),
{
    WsCommand::Text(String::from_str(text))
}

/// The command that carries a binary message: a copy of `data`.
pub fn binary_command(data: &[u8]) -> (c: WsCommand)
    ensures
        c@ == WsCommandView::Binary(data@),
{
    let mut v: Vec<u8> = Vec::new();
    let mut i: usize = 0;
    while i < data.len()
        invariant
            i <= data@.len(),
            v@ =~= data@.take(i as int),
        decreases data@.len() - i,
    {
        v.push(data[i]);
        i = i + 1;
    }
    assert(v@ =~= data@);
    WsCommand::Binary(v)
}

/// The command that asks to close with a code and reason.
pub fn close_command(code: u16, reason: &str) -> (c: WsCommand)
    ensures
        c@ == (WsCommandView::Close { code, reason: reason@ }),
{
    WsCommand::Close { code, reason: String::from_str(reason) }
}

/// The command that reports a network change.
pub fn network_changed_command() -> (c: WsCommand)
    ensures
        c@ == WsCommandView::NetworkChanged,
{
    WsCommand::NetworkChanged
}

/// A connection handle; it stays valid across reconnections, and what is
/// sent while reconnecting is replayed once the connection is back.
pub struct WsHandle {
    url: String,
    cmd_tx: UnboundedSender<WsCommand>,
}

/// The error of a handle whose connection task has ended.
pub open spec fn is_closed_error(e: CatcherError) -> bool {
    e matches CatcherError::WsDisconnected { code, reason } && code == 1006 && reason@ == "connection closed"@
}

/// The outcome of handing a command to the connection task: success, or
/// the error of a closed connection.
pub open spec fn send_outcome(r: Result<(), CatcherError>) -> bool {
    match r {
        Ok(()) => true,
        Err(e) => is_closed_error(e),
    }
}

fn closed_error() -> (e: CatcherError)
    ensures
        is_closed_error(e),
{
    CatcherError::WsDisconnected { code: 1006, reason: String::from_str("connection closed") }
}

/// What a send reports, given whether the connection task took the
/// command: success when it did, otherwise the error of a closed connection.
pub fn send_result(sent: bool) -> (r: Result<(), CatcherError>)
    ensures
        sent ==> r is Ok,
        !sent ==> (r matches Err(e) && is_closed_error(e)),
{
    if sent {
        Ok(())
    } else {
        Err(closed_error())
    }
}

impl WsHandle {
    /// A handle for the connection to `url` whose task reads `cmd_tx`.
    pub fn new(url: String, cmd_tx: UnboundedSender<WsCommand>) -> (h: WsHandle)
        ensures
            h.spec_url() == url@,
    {
        WsHandle { url, cmd_tx }
    }

    /// The address of the initial connection.
    pub closed spec fn spec_url(self) -> Seq<char> {
        self.url@
    }

    fn deliver(&self, cmd: WsCommand) -> (r: Result<(), CatcherError>)
        ensures
            send_outcome(r),
    {
        send_result(send_command(&self.cmd_tx, cmd))
    }

    /// Sends a text message: hands `text_command(text)` to the connection
    /// task, which sends it, or buffers it for replay while reconnecting.
    pub fn send_text(&self, text: &str) -> (r: Result<(), CatcherError>)
        ensures
            send_outcome(r),
    {
        self.deliver(text_command(text))
    }

    /// Sends a binary message: hands `binary_command(data)` to the
    /// connection task.
    pub fn send_binary(&self, data: &[u8]) -> (r: Result<(), CatcherError>)
        ensures
            send_outcome(r),
    {
        self.deliver(binary_command(data))
    }

    /// Closes the connection with a close code and reason: hands
    /// `close_command(code, reason)` to the connection task.
    pub fn close(&self, code: u16, reason: &str) -> (r: Result<(), CatcherError>)
        ensures
            send_outcome(r),
    {
        self.deliver(close_command(code, reason))
    }

    /// Tells the connection that the network changed (Wi-Fi switch, VPN node
    /// change, cellular handover) by handing `network_changed_command()` to
    /// the connection task: it drops the current connection at once,
    /// resets the backoff and reconnects, racing all endpoints again.
    pub fn network_changed(&self) -> (r: Result<(), CatcherError>)
        ensures
            send_outcome(r),
    {
        self.deliver(network_changed_command())
    }

    /// The address of the initial connection; reconnections do not change it.
    pub fn url(&self) -> (r: &str)
        ensures
            r@ == self.spec_url(),
    {
        self.url.as_str()
    }
}

impl Clone for WsHandle {
    /// Another handle to the same connection task, reporting the same
    /// initial address.
    fn clone(&self) -> (r: Self)
        ensures
            r.spec_url() == self.spec_url(),
    {
        WsHandle { url: self.url.clone(), cmd_tx: self.cmd_tx.clone() }
    }
}

} // verus!
