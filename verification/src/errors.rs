//! What can go wrong while a browser session is found, started or closed.

use crate::text::{decimal, push_decimal, push_signed_decimal, signed_decimal};
use vstd::prelude::*;

verus! {

/// A failure, as a value that can be shown to the user.
#[derive(Debug, PartialEq, Eq)]
pub enum SessionError {
    /// No supported browser is installed.
    NoBrowserFound,
    /// No local port could be bound.
    PortExhausted,
    /// The browser process could not be started.
    ProcessSpawnFailed,
    /// The browser process ended during its grace period, with this exit code
    /// where the system reported one.
    ProcessExitedEarly { code: Option<i32> },
    /// The state of the browser process could not be determined.
    ProcessStatusUnknown,
    /// The discovery endpoint did not answer usefully in this many attempts.
    EndpointUnreachable { attempts: u32 },
    /// The endpoint answered, but named no debugging websocket.
    WebSocketUrlMissing,
    /// The endpoint answered with something that is not a JSON document.
    MalformedResponse,
    /// The browser refused to open a page.
    PageCreationFailed { status: u16, body: String },
    /// The browser opened a page but did not say which.
    PageIdMissing,
    /// The browser answering on the port is not the selected one.
    BrowserMismatch { selected: String, running: String },
    /// The selected executable is not among the installed browsers.
    BrowserNotListed,
    /// The text is not a websocket address with a host part.
    InvalidWebSocketUrl,
}

/// The mathematical content of a [`SessionError`].
pub enum ErrorView {
    NoBrowserFound,
    PortExhausted,
    ProcessSpawnFailed,
    ProcessExitedEarly { code: Option<i32> },
    ProcessStatusUnknown,
    EndpointUnreachable { attempts: u32 },
    WebSocketUrlMissing,
    MalformedResponse,
    PageCreationFailed { status: u16, body: Seq<char> },
    PageIdMissing,
    BrowserMismatch { selected: Seq<char>, running: Seq<char> },
    BrowserNotListed,
    InvalidWebSocketUrl,
}

impl View for SessionError {
    type V = ErrorView;

    open spec fn view(&self) -> ErrorView {
        match *self {
            SessionError::NoBrowserFound => ErrorView::NoBrowserFound,
            SessionError::PortExhausted => ErrorView::PortExhausted,
            SessionError::ProcessSpawnFailed => ErrorView::ProcessSpawnFailed,
            SessionError::ProcessExitedEarly { code } => ErrorView::ProcessExitedEarly { code },
            SessionError::ProcessStatusUnknown => ErrorView::ProcessStatusUnknown,
            SessionError::EndpointUnreachable { attempts } => ErrorView::EndpointUnreachable {
                attempts,
            },
            SessionError::WebSocketUrlMissing => ErrorView::WebSocketUrlMissing,
            SessionError::MalformedResponse => ErrorView::MalformedResponse,
            SessionError::PageCreationFailed { status, body } => ErrorView::PageCreationFailed {
                status,
                body: body@,
            },
            SessionError::PageIdMissing => ErrorView::PageIdMissing,
            SessionError::BrowserMismatch { selected, running } => ErrorView::BrowserMismatch {
                selected: selected@,
                running: running@,
            },
            SessionError::BrowserNotListed => ErrorView::BrowserNotListed,
            SessionError::InvalidWebSocketUrl => ErrorView::InvalidWebSocketUrl,
        }
    }
}

impl ErrorView {
    /// The words that report the error to the user.
    pub open spec fn message(self) -> Seq<char> {
        match self {
            ErrorView::NoBrowserFound =>
                "No browsers found. Please install Google Chrome, Microsoft Edge, or Arc"@,
            ErrorView::PortExhausted => "No free ports available"@,
            ErrorView::ProcessSpawnFailed => "Failed to launch browser"@,
            ErrorView::ProcessExitedEarly { code } =>
                "Browser process exited immediately with status: "@ + match code {
                    Some(c) => signed_decimal(c as int),
                    None => "unknown"@,
                },
            ErrorView::ProcessStatusUnknown => "Failed to check browser process status"@,
            ErrorView::EndpointUnreachable { attempts } =>
                "Failed to connect to browser debugging interface after "@ + decimal(
                    attempts as nat,
                ) + " attempts. The browser may not have started with debugging enabled."@,
            ErrorView::WebSocketUrlMissing => "webSocketDebuggerUrl not found in browser response"@,
            ErrorView::MalformedResponse => "Failed to parse JSON"@,
            ErrorView::PageCreationFailed { status, body } =>
                "Failed to create new page. Status: "@ + decimal(status as nat) + ", Body: "@ + body,
            ErrorView::PageIdMissing => "No page ID returned from new page creation"@,
            ErrorView::BrowserMismatch { selected, running } => "Browser mismatch! Selected: "@
                + selected + ", Running: "@ + running,
            ErrorView::BrowserNotListed => "Selected browser not found in available browsers"@,
            ErrorView::InvalidWebSocketUrl => "Invalid WebSocket URL format"@,
        }
    }
}

impl SessionError {
    /// The words that report the error to the user.
    pub fn message(&self) -> (words: String)
        ensures
            words@ == self@.message(),
    {
        match self {
            SessionError::NoBrowserFound => String::from_str(
                "No browsers found. Please install Google Chrome, Microsoft Edge, or Arc",
            ),
            SessionError::PortExhausted => String::from_str("No free ports available"),
            SessionError::ProcessSpawnFailed => String::from_str("Failed to launch browser"),
            SessionError::ProcessExitedEarly { code } => {
                let mut words = String::from_str("Browser process exited immediately with status: ");
                match code {
                    Some(c) => push_signed_decimal(&mut words, *c),
                    None => words.append("unknown"),
                }
                words
            },
            SessionError::ProcessStatusUnknown => String::from_str(
                "Failed to check browser process status",
            ),
            SessionError::EndpointUnreachable { attempts } => {
                let mut words = String::from_str(
                    "Failed to connect to browser debugging interface after ",
                );
                push_decimal(&mut words, *attempts as u64);
                words.append(" attempts. The browser may not have started with debugging enabled.");
                words
            },
            SessionError::WebSocketUrlMissing => String::from_str(
                "webSocketDebuggerUrl not found in browser response",
            ),
            SessionError::MalformedResponse => String::from_str("Failed to parse JSON"),
            SessionError::PageCreationFailed { status, body } => {
                let mut words = String::from_str("Failed to create new page. Status: ");
                push_decimal(&mut words, *status as u64);
                words.append(", Body: ");
                words.append(body.as_str());
                words
            },
            SessionError::PageIdMissing => String::from_str(
                "No page ID returned from new page creation",
            ),
            SessionError::BrowserMismatch { selected, running } => {
                let mut words = String::from_str("Browser mismatch! Selected: ");
                words.append(selected.as_str());
                words.append(", Running: ");
                words.append(running.as_str());
                words
            },
            SessionError::BrowserNotListed => String::from_str(
                "Selected browser not found in available browsers",
            ),
            SessionError::InvalidWebSocketUrl => String::from_str("Invalid WebSocket URL format"),
        }
    }

    /// A copy of the error.
    pub fn duplicate(&self) -> (r: SessionError)
        ensures
            r@ == self@,
    {
        match self {
            SessionError::NoBrowserFound => SessionError::NoBrowserFound,
            SessionError::PortExhausted => SessionError::PortExhausted,
            SessionError::ProcessSpawnFailed => SessionError::ProcessSpawnFailed,
            SessionError::ProcessExitedEarly { code } => SessionError::ProcessExitedEarly {
                code: *code,
            },
            SessionError::ProcessStatusUnknown => SessionError::ProcessStatusUnknown,
            SessionError::EndpointUnreachable { attempts } => SessionError::EndpointUnreachable {
                attempts: *attempts,
            },
            SessionError::WebSocketUrlMissing => SessionError::WebSocketUrlMissing,
            SessionError::MalformedResponse => SessionError::MalformedResponse,
            SessionError::PageCreationFailed { status, body } => SessionError::PageCreationFailed {
                status: *status,
                body: body.clone(),
            },
            SessionError::PageIdMissing => SessionError::PageIdMissing,
            SessionError::BrowserMismatch { selected, running } => SessionError::BrowserMismatch {
                selected: selected.clone(),
                running: running.clone(),
            },
            SessionError::BrowserNotListed => SessionError::BrowserNotListed,
            SessionError::InvalidWebSocketUrl => SessionError::InvalidWebSocketUrl,
        }
    }
}

} // verus!
