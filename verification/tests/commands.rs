use browser_session::apps::{call, AppCall, CallError};
use browser_session::catalog::BrowserConfig;
use browser_session::commands::{
    browser_id_for_lowered, browser_id_for_path, is_equivalent_selection, static_port_for,
    validate_connection, validate_selection, validate_ws_endpoint,
};
use browser_session::effects::{clone_texts, FetchResult};
use browser_session::errors::SessionError;
use browser_session::skills::{skill_file_url, SkillDefinition, SkillStep, WebsiteSkills};

fn unreachable() -> FetchResult {
    FetchResult::Unreachable { reason: "connection refused".to_string() }
}

fn answer(status: u16, body: &str) -> FetchResult {
    FetchResult::Response { status, body: body.as_bytes().to_vec() }
}

fn installed() -> Vec<BrowserConfig> {
    vec![
        BrowserConfig { id: "chrome".into(), name: "Google Chrome".into(), path: "/usr/bin/google-chrome".into() },
        BrowserConfig { id: "edge".into(), name: "Microsoft Edge".into(), path: "/usr/bin/microsoft-edge".into() },
        BrowserConfig { id: "arc".into(), name: "Arc".into(), path: "/usr/bin/arc".into() },
    ]
}

#[test]
fn browser_id_reads_the_brand_from_the_lowered_path() {
    assert_eq!(browser_id_for_lowered("/usr/bin/microsoft-edge"), "edge");
    assert_eq!(browser_id_for_lowered("c:\\program files\\msedge.exe"), "edge");
    assert_eq!(browser_id_for_lowered("/applications/arc.app/contents/macos/arc"), "arc");
    assert_eq!(browser_id_for_lowered("/usr/bin/google-chrome"), "chrome");
    assert_eq!(browser_id_for_lowered("/usr/bin/firefox"), "chrome");
    assert_eq!(browser_id_for_lowered("/arc/edge"), "edge");
    assert_eq!(browser_id_for_lowered("/Applications/Arc.app"), "chrome");
}

#[test]
fn browser_id_for_path_ignores_case() {
    assert_eq!(browser_id_for_path("/Applications/Microsoft Edge.app/Contents/MacOS/Microsoft Edge"), "edge");
    assert_eq!(browser_id_for_path("C:\\Users\\u\\AppData\\Local\\Arc\\Arc.exe"), "arc");
    assert_eq!(browser_id_for_path("/Applications/Google Chrome.app/Contents/MacOS/Google Chrome"), "chrome");
    assert_eq!(browser_id_for_path("/OPT/MSEDGE"), "edge");
}

#[test]
fn static_ports_are_reserved_by_browser() {
    assert_eq!(static_port_for("edge"), 9523);
    assert_eq!(static_port_for("arc"), 9524);
    assert_eq!(static_port_for("chrome"), 9522);
    assert_eq!(static_port_for("anything"), 9522);
    assert_eq!(static_port_for(""), 9522);
}

#[test]
fn arc_counts_as_chrome_but_not_the_other_way() {
    assert!(is_equivalent_selection("chrome", "chrome"));
    assert!(is_equivalent_selection("edge", "edge"));
    assert!(is_equivalent_selection("arc", "chrome"));
    assert!(!is_equivalent_selection("chrome", "arc"));
    assert!(!is_equivalent_selection("edge", "chrome"));
    assert!(!is_equivalent_selection("arc", "edge"));
    assert!(!is_equivalent_selection("chrome", "unknown"));
}

#[test]
fn validation_passes_for_the_selected_browser() {
    let a = answer(200, r#"{"Browser":"Chrome/120"}"#);
    assert_eq!(
        validate_selection(&a, &installed(), "/usr/bin/google-chrome"),
        Ok(("chrome".to_string(), "chrome".to_string()))
    );
    assert_eq!(
        validate_connection(&a, &installed(), "/usr/bin/arc"),
        Ok("Browser validation passed: arc (reported as chrome)".to_string())
    );
    assert_eq!(
        validate_ws_endpoint(&a, &installed(), "/usr/bin/google-chrome"),
        Ok("reconnected to existing chrome instance (reported as chrome)".to_string())
    );
}

#[test]
fn validation_reports_a_mismatch() {
    let a = answer(200, r#"{"Browser":"Chrome/120"}"#);
    let mismatch = SessionError::BrowserMismatch { selected: "edge".to_string(), running: "chrome".to_string() };
    assert_eq!(validate_selection(&a, &installed(), "/usr/bin/microsoft-edge"), Err(mismatch));
    assert_eq!(
        validate_connection(&a, &installed(), "/usr/bin/microsoft-edge"),
        Err("Browser mismatch! Selected: edge, Running: chrome".to_string())
    );
    let unknown = answer(200, "{}");
    assert_eq!(
        validate_ws_endpoint(&unknown, &installed(), "/usr/bin/google-chrome"),
        Err("browser mismatch! selected: chrome, running: unknown".to_string())
    );
}

#[test]
fn validation_fails_for_an_unlisted_executable_or_a_dead_endpoint() {
    let a = answer(200, r#"{"Browser":"Chrome/120"}"#);
    assert_eq!(validate_selection(&a, &installed(), "/opt/other"), Err(SessionError::BrowserNotListed));
    assert_eq!(
        validate_selection(&unreachable(), &installed(), "/opt/other"),
        Err(SessionError::EndpointUnreachable { attempts: 1 })
    );
    assert_eq!(
        validate_selection(&answer(200, "x"), &installed(), "/usr/bin/arc"),
        Err(SessionError::MalformedResponse)
    );
}

#[test]
fn validation_of_a_connection_speaks_in_its_own_words() {
    let a = answer(200, r#"{"Browser":"Chrome/120"}"#);
    assert_eq!(
        validate_connection(&a, &installed(), "/opt/other"),
        Err("Selected browser not found in available browsers".to_string())
    );
    assert_eq!(
        validate_connection(&unreachable(), &installed(), "/opt/other"),
        Err("Failed to fetch version: connection refused".to_string())
    );
    assert_eq!(validate_connection(&answer(404, ""), &installed(), "/usr/bin/arc"), Err("HTTP 404".to_string()));
    assert_eq!(
        validate_connection(&answer(200, "x"), &installed(), "/usr/bin/arc"),
        Err("Failed to parse JSON".to_string())
    );
}

#[test]
fn validation_of_a_saved_endpoint_speaks_in_its_own_words() {
    let a = answer(200, r#"{"Browser":"Chrome/120"}"#);
    assert_eq!(
        validate_ws_endpoint(&a, &installed(), "/opt/other"),
        Err("selected browser not found in available browsers".to_string())
    );
    assert_eq!(
        validate_ws_endpoint(&unreachable(), &installed(), "/usr/bin/arc"),
        Err("saved browser connection is no longer available: Failed to fetch version: connection refused".to_string())
    );
    assert_eq!(
        validate_ws_endpoint(&answer(503, "busy"), &installed(), "/usr/bin/arc"),
        Err("saved browser connection is no longer available: HTTP 503".to_string())
    );
    assert_eq!(
        validate_ws_endpoint(&answer(200, "x"), &installed(), "/usr/bin/arc"),
        Err("saved browser connection is no longer available: Failed to parse JSON".to_string())
    );
}

#[test]
fn call_checks_name_and_argument_count() {
    assert_eq!(call("append_note", &["hello"]), Ok(AppCall::AppendNote { text: "hello".to_string() }));
    assert_eq!(
        call("create_note", &["title", "body"]),
        Ok(AppCall::CreateNote { title: "title".to_string(), body: "body".to_string() })
    );
    assert_eq!(
        call("append_note", &[]),
        Err(CallError::WrongArguments { function: "append_note".to_string(), expected: 1, got: 0 })
    );
    assert_eq!(
        call("create_note", &["only"]),
        Err(CallError::WrongArguments { function: "create_note".to_string(), expected: 2, got: 1 })
    );
    assert_eq!(call("delete_note", &["x"]), Err(CallError::UnknownFunction { function: "delete_note".to_string() }));
}

#[test]
fn call_errors_have_words() {
    assert_eq!(call("append_note", &["a", "b"]).unwrap_err().message(), "append_note expects 1 argument, but got 2");
    assert_eq!(call("create_note", &[]).unwrap_err().message(), "create_note expects 2 arguments, but got 0");
    assert_eq!(call("nope", &[]).unwrap_err().message(), "Unknown function: nope");
}

#[test]
fn session_errors_have_words() {
    let words = |e: SessionError| e.message();
    assert_eq!(words(SessionError::NoBrowserFound), "No browsers found. Please install Google Chrome, Microsoft Edge, or Arc");
    assert_eq!(words(SessionError::PortExhausted), "No free ports available");
    assert_eq!(words(SessionError::ProcessSpawnFailed), "Failed to launch browser");
    assert_eq!(words(SessionError::ProcessExitedEarly { code: Some(-9) }), "Browser process exited immediately with status: -9");
    assert_eq!(words(SessionError::ProcessExitedEarly { code: Some(1) }), "Browser process exited immediately with status: 1");
    assert_eq!(words(SessionError::ProcessExitedEarly { code: None }), "Browser process exited immediately with status: unknown");
    assert_eq!(words(SessionError::ProcessStatusUnknown), "Failed to check browser process status");
    assert_eq!(
        words(SessionError::EndpointUnreachable { attempts: 20 }),
        "Failed to connect to browser debugging interface after 20 attempts. The browser may not have started with debugging enabled."
    );
    assert_eq!(words(SessionError::WebSocketUrlMissing), "webSocketDebuggerUrl not found in browser response");
    assert_eq!(words(SessionError::MalformedResponse), "Failed to parse JSON");
    assert_eq!(
        words(SessionError::PageCreationFailed { status: 500, body: "boom".to_string() }),
        "Failed to create new page. Status: 500, Body: boom"
    );
    assert_eq!(words(SessionError::PageIdMissing), "No page ID returned from new page creation");
    assert_eq!(
        words(SessionError::BrowserMismatch { selected: "edge".to_string(), running: "chrome".to_string() }),
        "Browser mismatch! Selected: edge, Running: chrome"
    );
    assert_eq!(words(SessionError::BrowserNotListed), "Selected browser not found in available browsers");
    assert_eq!(words(SessionError::InvalidWebSocketUrl), "Invalid WebSocket URL format");
}

#[test]
fn session_errors_can_be_copied() {
    let e = SessionError::PageCreationFailed { status: 404, body: "gone".to_string() };
    assert_eq!(e.duplicate(), e);
    let e = SessionError::BrowserMismatch { selected: "a".to_string(), running: "b".to_string() };
    assert_eq!(e.duplicate(), e);
    assert_eq!(SessionError::EndpointUnreachable { attempts: 3 }.duplicate(), SessionError::EndpointUnreachable { attempts: 3 });
}

#[test]
fn fetch_results_know_success() {
    assert!(answer(200, "").is_success());
    assert!(answer(299, "").is_success());
    assert!(!answer(199, "").is_success());
    assert!(!answer(300, "").is_success());
    assert!(!unreachable().is_success());
}

#[test]
fn clone_texts_copies_the_list() {
    let v = vec!["a".to_string(), "".to_string(), "--flag=1".to_string()];
    assert_eq!(clone_texts(&v), v);
}

#[test]
fn skill_file_url_fills_in_the_defaults() {
    assert_eq!(
        skill_file_url("example.com", None, None, "main"),
        "https://raw.githubusercontent.com/runtime-pro/sk/main/skills/example.com.json"
    );
    assert_eq!(
        skill_file_url("example.com", Some("acme"), Some("skills"), "dev"),
        "https://raw.githubusercontent.com/acme/skills/dev/skills/example.com.json"
    );
}

#[test]
fn skills_are_plain_data() {
    let step = SkillStep { action: "click".into(), selector: Some("#go".into()), input_key: None, index: Some(2), output_key: None };
    let skill = SkillDefinition { name: "search".into(), description: "d".into(), input: None, output: None, steps: vec![step] };
    let site = WebsiteSkills { domain: "example.com".into(), skills: vec![skill] };
    assert_eq!(site.skills[0].steps[0].index, Some(2));
    assert_eq!(site.domain, "example.com");
}
