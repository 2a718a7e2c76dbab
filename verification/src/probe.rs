//! The browser's discovery endpoints: addresses, and what their answers mean.

use crate::effects::{FetchResult, FetchView};
use crate::errors::{ErrorView, SessionError};
use crate::json::{
    lossy_text, member_or_empty, member_text, parse_document, parsed_members, string_member,
    string_members, text_of_bytes,
};
use crate::text::{
    chars_of, contains, decimal, nth_piece, push_decimal, replace_chars, replaced, split,
    str_contains, string_of,
};
use vstd::prelude::*;

verus! {

/// The kind of browser that reports these two texts: `"edge"` where either
/// holds `Edg/`, else `"chrome"` where either holds `Chrome/`, else
/// `"unknown"`.
pub open spec fn browser_type(browser_string: Seq<char>, user_agent: Seq<char>) -> Seq<char> {
    if contains(browser_string, "Edg/"@) || contains(user_agent, "Edg/"@) {
        "edge"@
    } else if contains(browser_string, "Chrome/"@) || contains(user_agent, "Chrome/"@) {
        "chrome"@
    } else {
        "unknown"@
    }
}

/// Classifies a browser by what its version endpoint reports.
pub fn determine_browser_type(browser_string: &str, user_agent: &str) -> (kind: String)
    ensures
        kind@ == browser_type(browser_string@, user_agent@),
{
    if str_contains(browser_string, "Edg/") || str_contains(user_agent, "Edg/") {
        String::from_str("edge")
    } else if str_contains(browser_string, "Chrome/") || str_contains(user_agent, "Chrome/") {
        String::from_str("chrome")
    } else {
        String::from_str("unknown")
    }
}

/// The port that a websocket address names, as text.
///
/// `ws://` and `wss://` are first rewritten to `http://` and `https://`. The
/// address is then cut at each `/`; without a third piece it is invalid. The
/// third piece is the host part: the port is what stands between its first
/// and second `:`, and `9222` where it holds no `:`.
pub open spec fn port_text(ws_endpoint: Seq<char>) -> Option<Seq<char>> {
    let url = replaced(replaced(ws_endpoint, "ws://"@, "http://"@), "wss://"@, "https://"@);
    let parts = split(url, '/');
    if parts.len() < 3 {
        None
    } else {
        let host = split(parts[2], ':');
        if host.len() >= 2 {
            Some(host[1])
        } else {
            Some("9222"@)
        }
    }
}

/// Extracts the port from a websocket address.
pub fn extract_port_from_ws_url(ws_endpoint: &str) -> (r: Result<String, SessionError>)
    ensures
        match r {
            Ok(port) => port_text(ws_endpoint@) == Some(port@),
            Err(e) => port_text(ws_endpoint@) is None && e@ == ErrorView::InvalidWebSocketUrl,
        },
{
    let given = chars_of(ws_endpoint);
    let first = replace_chars(&given, &chars_of("ws://"), &chars_of("http://"));
    let url = replace_chars(&first, &chars_of("wss://"), &chars_of("https://"));
    match nth_piece(&url, '/', 2) {
        None => Err(SessionError::InvalidWebSocketUrl),
        Some(host) => {
            match nth_piece(&host, ':', 1) {
                Some(port) => Ok(string_of(&port, 0, port.len())),
                None => Ok(String::from_str("9222")),
            }
        },
    }
}

/// The address of the version endpoint, for a port given as text.
pub open spec fn version_url_for(port: Seq<char>) -> Seq<char> {
    "http://127.0.0.1:"@ + port + "/json/version"@
}

/// The address of the version endpoint on a port.
pub open spec fn version_url(port: u16) -> Seq<char> {
    version_url_for(decimal(port as nat))
}

/// The address that opens a page: the target follows the `?` as it is, and
/// is `about:blank` where none is given.
pub open spec fn new_page_url(port: u16, target: Option<Seq<char>>) -> Seq<char> {
    "http://127.0.0.1:"@ + decimal(port as nat) + "/json/new?"@ + match target {
        Some(t) => t,
        None => "about:blank"@,
    }
}

/// The address of the version endpoint, for a port given as text.
pub fn version_address_for(port: &str) -> (url: String)
    ensures
        url@ == version_url_for(port@),
{
    let mut url = String::from_str("http://127.0.0.1:");
    url.append(port);
    url.append("/json/version");
    url
}

/// The address of the version endpoint on a port.
pub fn version_address(port: u16) -> (url: String)
    ensures
        url@ == version_url(port),
{
    let mut url = String::from_str("http://127.0.0.1:");
    push_decimal(&mut url, port as u64);
    url.append("/json/version");
    url
}

/// The address that opens a page on `target`, or on `about:blank`.
pub fn new_page_address(port: u16, target: Option<&str>) -> (url: String)
    ensures
        url@ == new_page_url(
            port,
            match target {
                Some(t) => Some(t@),
                None => None,
            },
        ),
{
    let mut url = String::from_str("http://127.0.0.1:");
    push_decimal(&mut url, port as u64);
    url.append("/json/new?");
    match target {
        Some(t) => url.append(t),
        None => url.append("about:blank"),
    }
    url
}

/// What the version endpoint's answer says of the browser: the texts of its
/// `Browser` and `User-Agent` members, each empty where absent.
pub open spec fn browser_info(result: FetchView) -> Result<(Seq<char>, Seq<char>), ErrorView> {
    match result {
        FetchView::Response { status, body } if 200 <= status <= 299 => match parsed_members(body) {
            Some(members) => Ok(
                (
                    member_or_empty(members, "Browser"@),
                    member_or_empty(members, "User-Agent"@),
                ),
            ),
            None => Err(ErrorView::MalformedResponse),
        },
        _ => Err(ErrorView::EndpointUnreachable { attempts: 1 }),
    }
}

/// The browser and user-agent texts of a parsed version document.
pub fn browser_info_of(doc: &serde_json::Value) -> (info: (String, String))
    ensures
        info.0@ == member_or_empty(string_members(*doc), "Browser"@),
        info.1@ == member_or_empty(string_members(*doc), "User-Agent"@),
{
    (member_text(doc, "Browser"), member_text(doc, "User-Agent"))
}

/// Reads the answer of the version endpoint.
///
/// Fails with `EndpointUnreachable` where there was no response or its status
/// lies outside 200 to 299, and with `MalformedResponse` where the body is no
/// JSON document. Absent members are empty texts, never a failure.
pub fn get_browser_info(result: &FetchResult) -> (r: Result<(String, String), SessionError>)
    ensures
        match r {
            Ok(info) => browser_info(result@) == Ok::<_, ErrorView>((info.0@, info.1@)),
            Err(e) => browser_info(result@) == Err::<(Seq<char>, Seq<char>), _>(e@),
        },
{
    match result {
        FetchResult::Response { status, body } => {
            if 200 <= *status && *status <= 299 {
                match parse_document(body.as_slice()) {
                    Ok(doc) => Ok(browser_info_of(&doc)),
                    Err(_) => Err(SessionError::MalformedResponse),
                }
            } else {
                Err(SessionError::EndpointUnreachable { attempts: 1 })
            }
        },
        FetchResult::Unreachable { .. } => Err(SessionError::EndpointUnreachable { attempts: 1 }),
    }
}

/// The words for an answer of the version endpoint that tells nothing of the
/// browser: what the transport said, the status of the response, or that the
/// body is no document. A usable answer has none.
pub open spec fn info_failure(result: FetchView) -> Option<Seq<char>> {
    match result {
        FetchView::Unreachable { reason } => Some("Failed to fetch version: "@ + reason),
        FetchView::Response { status, body } => if !(200 <= status <= 299) {
            Some("HTTP "@ + decimal(status as nat))
        } else if parsed_members(body) is None {
            Some("Failed to parse JSON"@)
        } else {
            None
        },
    }
}

/// The words for an answer of the version endpoint that tells nothing of the
/// browser; nothing for an answer that `get_browser_info` can read.
pub fn info_failure_words(result: &FetchResult) -> (words: Option<String>)
    ensures
        match words {
            Some(w) => info_failure(result@) == Some(w@),
            None => info_failure(result@) is None,
        },
        words is Some <==> browser_info(result@) is Err,
{
    match result {
        FetchResult::Unreachable { reason } => {
            let mut words = String::from_str("Failed to fetch version: ");
            words.append(reason.as_str());
            Some(words)
        },
        FetchResult::Response { status, body } => {
            if !(200 <= *status && *status <= 299) {
                let mut words = String::from_str("HTTP ");
                push_decimal(&mut words, *status as u64);
                Some(words)
            } else {
                match parse_document(body.as_slice()) {
                    Ok(_) => None,
                    Err(_) => Some(String::from_str("Failed to parse JSON")),
                }
            }
        },
    }
}

/// What one answer of the version endpoint says of the debugging websocket.
#[derive(Debug, PartialEq, Eq)]
pub enum Reading {
    /// The address of the websocket.
    Found { url: String },
    /// A document without `webSocketDebuggerUrl`.
    Missing,
    /// A successful response whose body is no JSON document.
    Malformed,
    /// No response, or one whose status lies outside 200 to 299.
    NotReady,
}

/// The mathematical content of a [`Reading`].
pub enum ReadingView {
    Found { url: Seq<char> },
    Missing,
    Malformed,
    NotReady,
}

impl View for Reading {
    type V = ReadingView;

    open spec fn view(&self) -> ReadingView {
        match *self {
            Reading::Found { url } => ReadingView::Found { url: url@ },
            Reading::Missing => ReadingView::Missing,
            Reading::Malformed => ReadingView::Malformed,
            Reading::NotReady => ReadingView::NotReady,
        }
    }
}

/// What an answer of the version endpoint says of the debugging websocket.
pub open spec fn websocket_reading(result: FetchView) -> ReadingView {
    match result {
        FetchView::Response { status, body } if 200 <= status <= 299 => match parsed_members(body) {
            Some(members) => if members.contains_key("webSocketDebuggerUrl"@) {
                ReadingView::Found { url: members["webSocketDebuggerUrl"@] }
            } else {
                ReadingView::Missing
            },
            None => ReadingView::Malformed,
        },
        _ => ReadingView::NotReady,
    }
}

/// The websocket address that a parsed version document names.
pub fn websocket_of(doc: &serde_json::Value) -> (r: Reading)
    ensures
        r@ == if string_members(*doc).contains_key("webSocketDebuggerUrl"@) {
            ReadingView::Found { url: string_members(*doc)["webSocketDebuggerUrl"@] }
        } else {
            ReadingView::Missing
        },
{
    match string_member(doc, "webSocketDebuggerUrl") {
        Some(url) => Reading::Found { url },
        None => Reading::Missing,
    }
}

/// Reads the debugging websocket from an answer of the version endpoint.
pub fn read_websocket(result: &FetchResult) -> (r: Reading)
    ensures
        r@ == websocket_reading(result@),
{
    match result {
        FetchResult::Response { status, body } => {
            if 200 <= *status && *status <= 299 {
                match parse_document(body.as_slice()) {
                    Ok(doc) => websocket_of(&doc),
                    Err(_) => Reading::Malformed,
                }
            } else {
                Reading::NotReady
            }
        },
        FetchResult::Unreachable { .. } => Reading::NotReady,
    }
}

/// What the answer to a request for a new page means: the page's `id`.
pub open spec fn new_page(result: FetchView) -> Result<Seq<char>, ErrorView> {
    match result {
        FetchView::Unreachable { .. } => Err(ErrorView::EndpointUnreachable { attempts: 1 }),
        FetchView::Response { status, body } => if 200 <= status <= 299 {
            match parsed_members(body) {
                Some(members) => if members.contains_key("id"@) {
                    Ok(members["id"@])
                } else {
                    Err(ErrorView::PageIdMissing)
                },
                None => Err(ErrorView::MalformedResponse),
            }
        } else {
            Err(ErrorView::PageCreationFailed { status, body: lossy_text(body) })
        },
    }
}

/// The page id that a parsed answer names.
pub fn page_id_of(doc: &serde_json::Value) -> (r: Result<String, SessionError>)
    ensures
        match r {
            Ok(id) => string_members(*doc).contains_key("id"@) && id@ == string_members(*doc)["id"@],
            Err(e) => !string_members(*doc).contains_key("id"@) && e@ == ErrorView::PageIdMissing,
        },
{
    match string_member(doc, "id") {
        Some(id) => Ok(id),
        None => Err(SessionError::PageIdMissing),
    }
}

/// Reads the answer to a request for a new page.
///
/// A status outside 200 to 299 fails with `PageCreationFailed`, which carries
/// the status and the body as text.
pub fn create_new_page(result: &FetchResult) -> (r: Result<String, SessionError>)
    ensures
        match r {
            Ok(id) => new_page(result@) == Ok::<_, ErrorView>(id@),
            Err(e) => new_page(result@) == Err::<Seq<char>, _>(e@),
        },
{
    match result {
        FetchResult::Unreachable { .. } => Err(SessionError::EndpointUnreachable { attempts: 1 }),
        FetchResult::Response { status, body } => {
            if 200 <= *status && *status <= 299 {
                match parse_document(body.as_slice()) {
                    Ok(doc) => page_id_of(&doc),
                    Err(_) => Err(SessionError::MalformedResponse),
                }
            } else {
                Err(
                    SessionError::PageCreationFailed {
                        status: *status,
                        body: text_of_bytes(body.as_slice()),
                    },
                )
            }
        },
    }
}

} // verus!
