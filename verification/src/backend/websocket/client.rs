//! The decisions of the websocket client: the handshake builder for an
//! address, what of the server's messages reaches the GUI, and what the GUI
//! and the caller are told when the session ends.

use vstd::prelude::*;
use super::builder::{new_builder, with_protocol};
pub use super::builder::{address_rejection, SessionBuilder};

verus! {

/// The handshake builder for a chat session with the server at `address`,
/// offering the `rust-websocket` subprotocol; or, when the address is not a
/// URL, the description of why.
pub fn session_builder(address: &str) -> (res: Result<SessionBuilder, String>)
    ensures
        match res {
            Ok(b) => address_rejection(address@) is None && b.target() == address@
                && b.offered() == seq!["rust-websocket"@],
            Err(d) => address_rejection(address@) == Some(d@),
        },
{
    match new_builder(address) {
        Ok(b) => Ok(with_protocol(b, "rust-websocket")),
        Err(d) => Err(d),
    }
}

/// The close frame's payload.
pub struct CloseData {
    pub status_code: u16,
    pub reason: String,
}

/// A message received from the server.
pub enum Incoming {
    Text(String),
    Binary(Vec<u8>),
    Close(Option<CloseData>),
    Ping(Vec<u8>),
    Pong(Vec<u8>),
}

/// How a session ended.
pub enum SessionEnd {
    /// The address could not be parsed; the description of the error.
    BadAddress(String),
    /// Both halves of the connection finished without error.
    Closed,
    /// The connection failed; the error as displayed.
    Failed(String),
}

/// Receives the texts that the client hands to the GUI: the texts that
/// `gui_text` picks out of the server's messages, then the notice of `report`.
pub trait ProcessSender {
    fn process(&self, text: String);
}

/// What the reader hands to the GUI for one message from the server: the
/// text of a text message, and nothing for any other kind.
pub fn gui_text(msg: Incoming) -> (out: Option<String>)
    ensures
        match msg {
            Incoming::Text(t) => out matches Some(s) && s@ == t@,
            _ => out is None,
        },
{
    match msg {
        Incoming::Text(t) => Some(t),
        _ => None,
    }
}

/// What the GUI is told and what the caller gets back when a session ends:
/// `"connected"` and success after a clean close; otherwise the error's text,
/// both to the GUI and as the error returned.
pub fn report(end: SessionEnd) -> (r: (String, Result<(), String>))
    ensures
        match end {
            SessionEnd::Closed => r.0@ == "connected"@ && r.1 is Ok,
            SessionEnd::BadAddress(e) => r.0@ == e@ && (r.1 matches Err(f) && f@ == e@),
            SessionEnd::Failed(e) => r.0@ == e@ && (r.1 matches Err(f) && f@ == e@),
        },
{
    match end {
        SessionEnd::Closed => ("connected".to_owned(), Ok(())),
        SessionEnd::BadAddress(e) => (e.clone(), Err(e)),
        SessionEnd::Failed(e) => (e.clone(), Err(e)),
    }
}

} // verus!
