//! What the command surface decides before and after it talks to a browser.

use crate::catalog::{browsers, find_by_path, with_path, BrowserConfig, BrowserView};
use crate::effects::{FetchResult, FetchView};
use crate::errors::{ErrorView, SessionError};
use crate::probe::{
    browser_info, browser_type, determine_browser_type, get_browser_info, info_failure,
    info_failure_words,
};
use crate::text::{contains, lowercase, str_contains, str_eq, to_lowercase};
use vstd::prelude::*;

verus! {

/// The debugging port reserved for Chrome.
pub const CHROME_PORT: u16 = 9522;

/// The debugging port reserved for Edge.
pub const EDGE_PORT: u16 = 9523;

/// The debugging port reserved for Arc.
pub const ARC_PORT: u16 = 9524;

/// The browser id that a lowercased executable path stands for: `edge` where
/// it holds `edge`, else `arc` where it holds `arc`, else `chrome`.
pub open spec fn browser_id(lowered: Seq<char>) -> Seq<char> {
    if contains(lowered, "edge"@) || contains(lowered, "msedge"@) {
        "edge"@
    } else if contains(lowered, "arc"@) {
        "arc"@
    } else {
        "chrome"@
    }
}

/// The browser id for an executable path that is already in lowercase.
pub fn browser_id_for_lowered(lowered: &str) -> (id: &'static str)
    ensures
        id@ == browser_id(lowered@),
{
    if str_contains(lowered, "edge") || str_contains(lowered, "msedge") {
        "edge"
    } else if str_contains(lowered, "arc") {
        "arc"
    } else {
        "chrome"
    }
}

/// The browser id for an executable path, whatever its case.
pub fn browser_id_for_path(path: &str) -> (id: &'static str)
    ensures
        id@ == browser_id(lowercase(path@)),
{
    let lowered = to_lowercase(path);
    browser_id_for_lowered(lowered.as_str())
}

/// The reserved debugging port of a browser id; Chrome's for any other id.
pub open spec fn static_port(id: Seq<char>) -> u16 {
    if id == "edge"@ {
        EDGE_PORT
    } else if id == "arc"@ {
        ARC_PORT
    } else {
        CHROME_PORT
    }
}

/// The reserved debugging port of a browser id.
pub fn static_port_for(id: &str) -> (port: u16)
    ensures
        port == static_port(id@),
{
    if str_eq(id, "edge") {
        EDGE_PORT
    } else if str_eq(id, "arc") {
        ARC_PORT
    } else {
        CHROME_PORT
    }
}

/// A running browser of kind `running` counts as the selected one: the kinds
/// are equal, or Arc was selected and reports as Chrome, as it does.
pub open spec fn equivalent_selection(selected: Seq<char>, running: Seq<char>) -> bool {
    selected == running || (selected == "arc"@ && running == "chrome"@)
}

/// Whether a running browser of kind `running` counts as the selected one.
pub fn is_equivalent_selection(selected: &str, running: &str) -> (r: bool)
    ensures
        r == equivalent_selection(selected@, running@),
{
    if str_eq(selected, running) {
        return true;
    }
    str_eq(selected, "arc") && str_eq(running, "chrome")
}

/// What a check of the running browser against the selected one finds: the
/// id of the selected browser and the kind of the running one, where they
/// agree.
///
/// The answer of the version endpoint is read first and its failure comes
/// first. Then the selected executable must be among the installed browsers.
/// A running browser of another kind is reported as `BrowserMismatch`, never
/// silently accepted.
pub open spec fn validation(
    answer: FetchView,
    installed: Seq<BrowserView>,
    selected_path: Seq<char>,
) -> Result<(Seq<char>, Seq<char>), ErrorView> {
    match browser_info(answer) {
        Err(e) => Err(e),
        Ok(info) => {
            let running = browser_type(info.0, info.1);
            match with_path(installed, selected_path) {
                None => Err(ErrorView::BrowserNotListed),
                Some(browser) => if equivalent_selection(browser.id, running) {
                    Ok((browser.id, running))
                } else {
                    Err(ErrorView::BrowserMismatch { selected: browser.id, running })
                },
            }
        },
    }
}

/// Checks the running browser against the selected one.
pub fn validate_selection(
    answer: &FetchResult,
    installed: &Vec<BrowserConfig>,
    selected_browser_path: &str,
) -> (r: Result<(String, String), SessionError>)
    ensures
        match r {
            Ok(pair) => validation(answer@, browsers(installed@), selected_browser_path@) == Ok::<
                _,
                ErrorView,
            >((pair.0@, pair.1@)),
            Err(e) => validation(answer@, browsers(installed@), selected_browser_path@) == Err::<
                (Seq<char>, Seq<char>),
                _,
            >(e@),
        },
{
    match get_browser_info(answer) {
        Err(e) => Err(e),
        Ok(info) => {
            let running = determine_browser_type(info.0.as_str(), info.1.as_str());
            match find_by_path(installed, selected_browser_path) {
                None => Err(SessionError::BrowserNotListed),
                Some(browser) => {
                    if is_equivalent_selection(browser.id.as_str(), running.as_str()) {
                        Ok((browser.id.clone(), running))
                    } else {
                        Err(SessionError::BrowserMismatch { selected: browser.id.clone(), running })
                    }
                },
            }
        },
    }
}

/// The words that report a passed validation.
pub open spec fn validation_passed(selected: Seq<char>, running: Seq<char>) -> Seq<char> {
    "Browser validation passed: "@ + selected + " (reported as "@ + running + ")"@
}

/// The words that report a saved connection that is still good.
pub open spec fn reconnection_passed(selected: Seq<char>, running: Seq<char>) -> Seq<char> {
    "reconnected to existing "@ + selected + " instance (reported as "@ + running + ")"@
}

/// What the validation of a connection says, in words: of success, or of
/// what is wrong. A failure of the endpoint is reported in the endpoint's
/// own words.
pub open spec fn connection_words(
    answer: FetchView,
    installed: Seq<BrowserView>,
    selected_path: Seq<char>,
) -> Result<Seq<char>, Seq<char>> {
    match validation(answer, installed, selected_path) {
        Ok(pair) => Ok(validation_passed(pair.0, pair.1)),
        Err(ErrorView::BrowserNotListed) => Err(
            "Selected browser not found in available browsers"@,
        ),
        Err(ErrorView::BrowserMismatch { selected, running }) => Err(
            "Browser mismatch! Selected: "@ + selected + ", Running: "@ + running,
        ),
        Err(_) => Err(info_failure(answer)->0),
    }
}

/// What the validation of a saved endpoint says, in words. A failure of the
/// endpoint is reported as a connection that is no longer available.
pub open spec fn endpoint_words(
    answer: FetchView,
    installed: Seq<BrowserView>,
    selected_path: Seq<char>,
) -> Result<Seq<char>, Seq<char>> {
    match validation(answer, installed, selected_path) {
        Ok(pair) => Ok(reconnection_passed(pair.0, pair.1)),
        Err(ErrorView::BrowserNotListed) => Err(
            "selected browser not found in available browsers"@,
        ),
        Err(ErrorView::BrowserMismatch { selected, running }) => Err(
            "browser mismatch! selected: "@ + selected + ", running: "@ + running,
        ),
        Err(_) => Err(
            "saved browser connection is no longer available: "@ + info_failure(answer)->0,
        ),
    }
}

/// The mathematical content of words of success or of failure.
pub open spec fn words_view(r: Result<String, String>) -> Result<Seq<char>, Seq<char>> {
    match r {
        Ok(w) => Ok(w@),
        Err(w) => Err(w@),
    }
}

fn endpoint_failure(answer: &FetchResult) -> (words: String)
    requires
        browser_info(answer@) is Err,
    ensures
        words@ == info_failure(answer@)->0,
{
    match info_failure_words(answer) {
        Some(words) => words,
        None => String::new(),
    }
}

/// Validates a connection: the browser that answered on the port of the
/// websocket must be the selected one. Returns the words of success or of
/// failure.
pub fn validate_connection(
    answer: &FetchResult,
    installed: &Vec<BrowserConfig>,
    selected_browser_path: &str,
) -> (r: Result<String, String>)
    ensures
        words_view(r) == connection_words(answer@, browsers(installed@), selected_browser_path@),
{
    match validate_selection(answer, installed, selected_browser_path) {
        Ok(pair) => {
            let mut words = String::from_str("Browser validation passed: ");
            words.append(pair.0.as_str());
            words.append(" (reported as ");
            words.append(pair.1.as_str());
            words.append(")");
            Ok(words)
        },
        Err(SessionError::BrowserNotListed) => Err(
            String::from_str("Selected browser not found in available browsers"),
        ),
        Err(SessionError::BrowserMismatch { selected, running }) => {
            let mut words = String::from_str("Browser mismatch! Selected: ");
            words.append(selected.as_str());
            words.append(", Running: ");
            words.append(running.as_str());
            Err(words)
        },
        Err(_) => Err(endpoint_failure(answer)),
    }
}

/// Validates a saved websocket endpoint in the same way, with the words of a
/// reconnection.
pub fn validate_ws_endpoint(
    answer: &FetchResult,
    installed: &Vec<BrowserConfig>,
    selected_browser_path: &str,
) -> (r: Result<String, String>)
    ensures
        words_view(r) == endpoint_words(answer@, browsers(installed@), selected_browser_path@),
{
    match validate_selection(answer, installed, selected_browser_path) {
        Ok(pair) => {
            let mut words = String::from_str("reconnected to existing ");
            words.append(pair.0.as_str());
            words.append(" instance (reported as ");
            words.append(pair.1.as_str());
            words.append(")");
            Ok(words)
        },
        Err(SessionError::BrowserNotListed) => Err(
            String::from_str("selected browser not found in available browsers"),
        ),
        Err(SessionError::BrowserMismatch { selected, running }) => {
            let mut words = String::from_str("browser mismatch! selected: ");
            words.append(selected.as_str());
            words.append(", running: ");
            words.append(running.as_str());
            Err(words)
        },
        Err(_) => {
            let mut words = String::from_str("saved browser connection is no longer available: ");
            words.append(endpoint_failure(answer).as_str());
            Err(words)
        },
    }
}

} // verus!
