use browser_session::catalog::{browser_candidates, BrowserConfig, InstallRoots, Platform};
use browser_session::diagnosis::{debug_browser_connection, Diagnosis};
use browser_session::effects::{ChildStatus, Effect, FetchResult, Outcome};
use browser_session::errors::SessionError;
use browser_session::launcher::{
    brand_of, forget, get_allowed_origins, launch_arguments, launch_lowered, launch_new_instance,
    process_of, profile_flag_for, Launch, LaunchPhase, LaunchSettings,
};
use browser_session::manager::{
    clone_browsers, get_running_instance, launch_browser, port_of, Acquire, AcquirePhase, Reuse,
    ReusePhase,
};
use browser_session::session::{
    force_close_browser, sunset_browser_instance, ManageableBrowserInstance, SessionStore, Teardown,
    TeardownPhase,
};

const CHROME: &str = "/usr/bin/google-chrome";
const EDGE: &str = "/usr/bin/microsoft-edge";

fn on(platform: Platform, is_dev: bool) -> LaunchSettings {
    LaunchSettings { is_dev, platform, temp_dir: "/var/tmp".to_string() }
}

fn on_linux() -> LaunchSettings {
    on(Platform::Linux, false)
}

fn linux() -> Vec<BrowserConfig> {
    browser_candidates(
        Platform::Linux,
        &InstallRoots { program_files: None, program_files_x86: None, local_app_data: None },
    )
}

fn unreachable() -> FetchResult {
    FetchResult::Unreachable { reason: "connection refused".to_string() }
}

fn answer(status: u16, body: &str) -> FetchResult {
    FetchResult::Response { status, body: body.as_bytes().to_vec() }
}

fn version(port: u16) -> String {
    format!("http://127.0.0.1:{}/json/version", port)
}

fn ws(port: u16) -> String {
    format!("ws://127.0.0.1:{}/devtools/browser/abc", port)
}

fn described(port: u16, browser: &str) -> Outcome {
    let body = format!("{{\"Browser\":\"{}\",\"webSocketDebuggerUrl\":\"{}\"}}", browser, ws(port));
    Outcome::Got { result: answer(200, &body) }
}

fn silent() -> Outcome {
    Outcome::Got { result: unreachable() }
}

fn run_acquire(
    mut acquire: Acquire,
    store: &mut SessionStore,
    mut respond: impl FnMut(&Effect, &SessionStore) -> Outcome,
) -> (Vec<Effect>, Result<String, SessionError>) {
    let mut done = Vec::new();
    while let Some(effect) = acquire.pending() {
        let outcome = respond(&effect, store);
        done.push(effect);
        acquire = acquire.advance(store, outcome);
        assert!(done.len() < 1000);
    }
    (done, acquire.result().unwrap())
}

fn run_reuse(
    mut reuse: Reuse,
    store: &mut SessionStore,
    mut respond: impl FnMut(&Effect) -> Outcome,
) -> (Vec<Effect>, Option<String>) {
    let mut done = Vec::new();
    while let Some(effect) = reuse.pending() {
        let outcome = respond(&effect);
        done.push(effect);
        reuse = reuse.advance(store, outcome);
        assert!(done.len() < 1000);
    }
    (done, reuse.result().unwrap())
}

fn run_launch(
    mut launch: Launch,
    store: &mut SessionStore,
    mut respond: impl FnMut(&Effect) -> Outcome,
) -> (Vec<Effect>, Result<String, SessionError>) {
    let mut done = Vec::new();
    while let Some(effect) = launch.pending() {
        let outcome = respond(&effect);
        done.push(effect);
        launch = launch.advance(store, outcome);
        assert!(done.len() < 1000);
    }
    (done, launch.result().unwrap())
}

fn run_diagnosis(
    mut run: Diagnosis,
    store: &mut SessionStore,
    mut respond: impl FnMut(&Effect, &SessionStore) -> Outcome,
) -> (Vec<Effect>, String) {
    let mut done = Vec::new();
    while let Some(effect) = run.pending() {
        let outcome = respond(&effect, store);
        done.push(effect);
        run = run.advance(store, outcome);
        assert!(done.len() < 1000);
    }
    (done, run.report().unwrap())
}

fn run_teardown(mut teardown: Teardown, status: ChildStatus) -> Vec<Effect> {
    let mut done = Vec::new();
    while let Some(effect) = teardown.pending() {
        let outcome = match &effect {
            Effect::Poll { .. } => Outcome::Polled { status },
            Effect::Kill { .. } => Outcome::Killed,
            other => panic!("unexpected effect {:?}", other),
        };
        done.push(effect);
        teardown = teardown.advance(&outcome);
        assert!(done.len() < 10);
    }
    assert!(teardown.is_done());
    done
}

/// A machine on which the given browser can be started on the first free port.
fn fresh_machine(pid: u32, installed: &'static str, browser: &'static str) -> impl FnMut(&Effect, &SessionStore) -> Outcome {
    let mut port = 0;
    let mut up = false;
    move |effect, _| match effect {
        Effect::Locate { .. } => Outcome::Located { installed: vec![installed.to_string()] },
        Effect::Bind { port: p } => {
            port = *p;
            Outcome::Bound { local: Some(*p) }
        },
        Effect::Spawn { .. } => {
            up = true;
            Outcome::Spawned { pid: Some(pid) }
        },
        Effect::Sleep { .. } => Outcome::Slept,
        Effect::Poll { .. } => Outcome::Polled { status: ChildStatus::Running },
        Effect::Kill { .. } => {
            up = false;
            Outcome::Killed
        },
        Effect::Get { url, .. } => {
            if up && *url == version(port) {
                described(port, browser)
            } else if up && url.contains("/json/new?") {
                Outcome::Got { result: answer(200, r#"{"id":"P"}"#) }
            } else {
                silent()
            }
        },
    }
}

fn count(done: &[Effect], which: impl Fn(&Effect) -> bool) -> usize {
    done.iter().filter(|e| which(e)).count()
}

#[test]
fn allowed_origins_follow_build_and_platform() {
    let dev = "http://localhost:1420,http://127.0.0.1:1420";
    assert_eq!(get_allowed_origins(true, Platform::Windows), dev);
    assert_eq!(get_allowed_origins(true, Platform::Linux), dev);
    assert_eq!(get_allowed_origins(false, Platform::Windows), "http://tauri.localhost,https://tauri.localhost");
    assert_eq!(get_allowed_origins(false, Platform::MacOs), "tauri://localhost,https://tauri.localhost");
    assert_eq!(get_allowed_origins(false, Platform::Linux), "tauri://localhost,https://tauri.localhost");
    assert_eq!(get_allowed_origins(false, Platform::Other), "tauri://localhost");
}

#[test]
fn brand_is_read_chrome_first_then_edge_then_arc() {
    assert_eq!(brand_of("/usr/bin/google-chrome"), Some("chrome"));
    assert_eq!(brand_of("c:\\program files\\msedge.exe"), Some("edge"));
    assert_eq!(brand_of("/usr/bin/microsoft-edge"), Some("edge"));
    assert_eq!(brand_of("/usr/bin/arc"), Some("arc"));
    assert_eq!(brand_of("/opt/chrome/edge/arc"), Some("chrome"));
    assert_eq!(brand_of("/opt/edge/arc"), Some("edge"));
    assert_eq!(brand_of("/usr/bin/firefox"), None);
}

#[test]
fn profile_flag_is_set_on_every_platform_for_every_brand() {
    let flag = |p: &str, os, tmp: &str| profile_flag_for(p, os, tmp);
    let some = |s: &str| Some(s.to_string());
    assert_eq!(flag("/usr/bin/google-chrome", Platform::Linux, "/var/tmp"), some("--user-data-dir=/tmp/chrome-debug-profile"));
    assert_eq!(flag("/usr/bin/microsoft-edge", Platform::Linux, "/var/tmp"), some("--user-data-dir=/tmp/edge-debug-profile"));
    assert_eq!(flag("/applications/arc.app/contents/macos/arc", Platform::MacOs, "/x"), some("--user-data-dir=/tmp/arc-debug-profile"));
    assert_eq!(
        flag("c:\\chrome.exe", Platform::Windows, "C:\\Users\\u\\AppData\\Local\\Temp"),
        some("--user-data-dir=C:\\Users\\u\\AppData\\Local\\Temp\\chrome-debug-profile")
    );
    assert_eq!(
        flag("c:\\msedge.exe", Platform::Windows, "C:\\Temp\\"),
        some("--user-data-dir=C:\\Temp\\edge-debug-profile")
    );
    assert_eq!(flag("c:\\arc.exe", Platform::Windows, ""), some("--user-data-dir=\\arc-debug-profile"));
    assert_eq!(flag("/usr/bin/google-chrome", Platform::Other, "/var/tmp"), some("--user-data-dir=/var/tmp/chrome-debug-profile"));
    assert_eq!(flag("/usr/bin/arc", Platform::Other, "/var/tmp/"), some("--user-data-dir=/var/tmp/arc-debug-profile"));
}

#[test]
fn profile_flag_is_absent_without_a_brand() {
    assert_eq!(profile_flag_for("/usr/bin/firefox", Platform::Linux, "/tmp"), None);
    assert_eq!(profile_flag_for("c:\\browser.exe", Platform::Windows, "C:\\Temp"), None);
}

#[test]
fn launch_arguments_are_the_documented_flags() {
    let args = launch_arguments("/usr/bin/google-chrome", 9223, "tauri://localhost", Platform::Linux, "/var/tmp");
    assert_eq!(
        args,
        vec![
            "--remote-debugging-port=9223",
            "--remote-debugging-address=127.0.0.1",
            "--remote-allow-origins=tauri://localhost",
            "--no-first-run",
            "--no-default-browser-check",
            "--disable-background-timer-throttling",
            "--disable-backgrounding-occluded-windows",
            "--disable-renderer-backgrounding",
            "--enable-automation",
            "--user-data-dir=/tmp/chrome-debug-profile",
        ]
    );
    let args = launch_arguments("c:\\msedge.exe", 9523, "o", Platform::Windows, "C:\\Temp");
    assert_eq!(args.len(), 10);
    assert_eq!(args[0], "--remote-debugging-port=9523");
    assert_eq!(args[2], "--remote-allow-origins=o");
    assert_eq!(args[9], "--user-data-dir=C:\\Temp\\edge-debug-profile");
    let args = launch_arguments("c:\\browser.exe", 9523, "o", Platform::Windows, "C:\\Temp");
    assert_eq!(args.len(), 9);
    assert_eq!(args.iter().filter(|a| a.starts_with("--user-data-dir")).count(), 0);
}

#[test]
fn launch_lowers_the_path_before_it_reads_the_brand() {
    let mut store = SessionStore::new();
    let launch = launch_new_instance("/Applications/ARC.app/Contents/MacOS/ARC", 9300, &on(Platform::MacOs, false));
    assert!(launch.greets);
    assert_eq!(launch.path, "/Applications/ARC.app/Contents/MacOS/ARC");
    assert_eq!(launch.args[2], "--remote-allow-origins=tauri://localhost,https://tauri.localhost");
    assert_eq!(launch.args[9], "--user-data-dir=/tmp/arc-debug-profile");
    let as_given = launch_lowered("/X/ARC", "/X/ARC", 9300, "o", Platform::MacOs, "/tmp");
    assert!(!as_given.greets);
    assert_eq!(as_given.args.len(), 9);
}

#[test]
fn launch_on_windows_has_exactly_one_profile_flag() {
    let mut store = SessionStore::new();
    let settings = LaunchSettings { is_dev: false, platform: Platform::Windows, temp_dir: "C:\\Temp".to_string() };
    let launch = launch_new_instance("C:\\Program Files\\Google\\Chrome\\Application\\chrome.exe", 9223, &settings);
    let flags: Vec<&String> = launch.args.iter().filter(|a| a.starts_with("--user-data-dir=")).collect();
    assert_eq!(flags, vec!["--user-data-dir=C:\\Temp\\chrome-debug-profile"]);
}

#[test]
fn launch_succeeds_and_stores_the_session() {
    let mut store = SessionStore::new();
    let launch = launch_new_instance(CHROME, 9223, &on(Platform::Linux, true));
    let (done, result) = run_launch(launch, &mut store, |e| match e {
        Effect::Spawn { program, args } => {
            assert_eq!(program, CHROME);
            assert_eq!(args[0], "--remote-debugging-port=9223");
            assert_eq!(args[2], "--remote-allow-origins=http://localhost:1420,http://127.0.0.1:1420");
            Outcome::Spawned { pid: Some(77) }
        },
        Effect::Sleep { .. } => Outcome::Slept,
        Effect::Poll { pid } => {
            assert_eq!(*pid, 77);
            Outcome::Polled { status: ChildStatus::Running }
        },
        Effect::Get { .. } => described(9223, "Chrome/120"),
        other => panic!("unexpected effect {:?}", other),
    });
    assert_eq!(result, Ok(ws(9223)));
    assert_eq!(store.current, Some(ManageableBrowserInstance::launched(CHROME.to_string(), 9223, ws(9223), 77)));
    assert_eq!(done.len(), 5);
    assert_eq!(done[1], Effect::Sleep { millis: 2000 });
    assert_eq!(done[2], Effect::Poll { pid: 77 });
    assert_eq!(done[3], Effect::Get { url: version(9223), timeout_secs: 5 });
    assert_eq!(done[4], Effect::Get { url: version(9223), timeout_secs: 10 });
}

#[test]
fn launch_fails_when_the_process_cannot_be_started() {
    let mut store = SessionStore::new();
    let (done, result) = run_launch(launch_new_instance(CHROME, 9223, &on_linux()), &mut store, |_| {
        Outcome::Spawned { pid: None }
    });
    assert_eq!(done.len(), 1);
    assert_eq!(result, Err(SessionError::ProcessSpawnFailed));
    assert_eq!(store.current, None);
}

#[test]
fn launch_fails_when_the_process_ends_in_the_grace_period() {
    let mut store = SessionStore::new();
    let (done, result) = run_launch(launch_new_instance(CHROME, 9223, &on_linux()), &mut store, |e| match e {
        Effect::Spawn { .. } => Outcome::Spawned { pid: Some(5) },
        Effect::Sleep { .. } => Outcome::Slept,
        Effect::Poll { .. } => Outcome::Polled { status: ChildStatus::Exited { code: Some(1) } },
        other => panic!("unexpected effect {:?}", other),
    });
    assert_eq!(result, Err(SessionError::ProcessExitedEarly { code: Some(1) }));
    assert_eq!(count(&done, |e| matches!(e, Effect::Kill { .. })), 0);
    assert_eq!(store.current, None);
}

#[test]
fn launch_kills_the_process_when_its_state_is_unknown() {
    let mut store = SessionStore::new();
    let (done, result) = run_launch(launch_new_instance(CHROME, 9223, &on_linux()), &mut store, |e| match e {
        Effect::Spawn { .. } => Outcome::Spawned { pid: Some(5) },
        Effect::Sleep { .. } => Outcome::Slept,
        Effect::Poll { .. } => Outcome::Polled { status: ChildStatus::Unknown },
        Effect::Kill { .. } => Outcome::Killed,
        other => panic!("unexpected effect {:?}", other),
    });
    assert_eq!(result, Err(SessionError::ProcessStatusUnknown));
    assert_eq!(done.last(), Some(&Effect::Kill { pid: 5 }));
}

#[test]
fn launch_kills_the_process_when_the_endpoint_is_unreachable() {
    let mut store = SessionStore::new();
    let (done, result) = run_launch(launch_new_instance(CHROME, 9223, &on_linux()), &mut store, |e| match e {
        Effect::Spawn { .. } => Outcome::Spawned { pid: Some(5) },
        Effect::Sleep { .. } => Outcome::Slept,
        Effect::Poll { .. } => Outcome::Polled { status: ChildStatus::Running },
        Effect::Get { .. } => silent(),
        Effect::Kill { .. } => Outcome::Killed,
        other => panic!("unexpected effect {:?}", other),
    });
    assert_eq!(result, Err(SessionError::EndpointUnreachable { attempts: 1 }));
    assert_eq!(done.len(), 5);
    assert_eq!(done[4], Effect::Kill { pid: 5 });
    assert_eq!(store.current, None);
}

#[test]
fn launch_kills_the_process_when_the_websocket_never_comes() {
    let mut store = SessionStore::new();
    let (done, result) = run_launch(launch_new_instance(CHROME, 9223, &on_linux()), &mut store, |e| match e {
        Effect::Spawn { .. } => Outcome::Spawned { pid: Some(5) },
        Effect::Sleep { .. } => Outcome::Slept,
        Effect::Poll { .. } => Outcome::Polled { status: ChildStatus::Running },
        Effect::Get { .. } => Outcome::Got { result: answer(503, "") },
        Effect::Kill { .. } => Outcome::Killed,
        other => panic!("unexpected effect {:?}", other),
    });
    assert_eq!(result, Err(SessionError::EndpointUnreachable { attempts: 20 }));
    assert_eq!(count(&done, |e| matches!(e, Effect::Get { timeout_secs: 10, .. })), 20);
    assert_eq!(count(&done, |e| matches!(e, Effect::Sleep { millis: 500 })), 19);
    assert_eq!(done.last(), Some(&Effect::Kill { pid: 5 }));
    assert_eq!(store.current, None);
}

#[test]
fn launch_of_arc_opens_a_first_page_and_ignores_its_answer() {
    let mut store = SessionStore::new();
    let (done, result) = run_launch(launch_new_instance("/usr/bin/arc", 9300, &on_linux()), &mut store, |e| match e {
        Effect::Spawn { .. } => Outcome::Spawned { pid: Some(9) },
        Effect::Sleep { .. } => Outcome::Slept,
        Effect::Poll { .. } => Outcome::Polled { status: ChildStatus::Running },
        Effect::Get { url, .. } if url.contains("/json/new?") => silent(),
        Effect::Get { .. } => described(9300, "Chrome/120"),
        other => panic!("unexpected effect {:?}", other),
    });
    assert_eq!(result, Ok(ws(9300)));
    assert_eq!(
        done.last(),
        Some(&Effect::Get {
            url: "http://127.0.0.1:9300/json/new?https://www.google.com".to_string(),
            timeout_secs: 10
        })
    );
    assert_eq!(store.current.unwrap().child, Some(9));
}

#[test]
fn launch_ignores_an_outcome_that_answers_nothing() {
    let mut store = SessionStore::new();
    let launch = launch_new_instance(CHROME, 9223, &on_linux());
    let launch = launch.advance(&mut store, Outcome::Slept);
    assert!(matches!(launch.phase, LaunchPhase::Spawning));
    let launch = launch.advance(&mut store, Outcome::Spawned { pid: Some(3) });
    let launch = launch.advance(&mut store, Outcome::Killed);
    assert!(matches!(launch.phase, LaunchPhase::Settling { pid: 3 }));
    assert_eq!(launch.result(), None);
}

#[test]
fn session_holds_a_process_exactly_when_it_was_launched() {
    let launched = ManageableBrowserInstance::launched(CHROME.to_string(), 9223, ws(9223), 1);
    let adopted = ManageableBrowserInstance::adopted(CHROME.to_string(), 9222, ws(9222));
    assert!(launched.launched_by_app());
    assert_eq!(launched.child, Some(1));
    assert!(!adopted.launched_by_app());
    assert_eq!(adopted.child, None);
    assert!(!SessionStore::new().is_active());
    assert!(SessionStore { current: Some(adopted) }.is_active());
}

#[test]
fn port_of_reads_a_numeric_port() {
    assert_eq!(port_of("ws://127.0.0.1:9222/devtools/browser/abc"), Some(9222));
    assert_eq!(port_of("ws://localhost/devtools"), Some(9222));
    assert_eq!(port_of("ws://host:99999/x"), None);
    assert_eq!(port_of("ws://host:abc/x"), None);
    assert_eq!(port_of("nonsense"), None);
}

#[test]
fn clone_browsers_copies_the_list() {
    assert_eq!(clone_browsers(&linux()), linux());
}

#[test]
fn acquire_launches_and_a_second_acquire_returns_the_identical_address() {
    let mut store = SessionStore::new();
    let mut machine = fresh_machine(4242, CHROME, "Chrome/120");
    let first = launch_browser(&mut store, Some(CHROME.to_string()), &linux(), &on_linux());
    let (done, result) = run_acquire(first, &mut store, &mut machine);
    let spawned: Vec<&Effect> = done.iter().filter(|e| matches!(e, Effect::Spawn { .. })).collect();
    assert_eq!(spawned.len(), 1);
    let port = store.current.as_ref().unwrap().port;
    assert_eq!(port, 9223);
    assert_eq!(result, Ok(ws(port)));
    assert_eq!(store.current, Some(ManageableBrowserInstance::launched(CHROME.to_string(), port, ws(port), 4242)));

    let second = launch_browser(&mut store, Some(CHROME.to_string()), &linux(), &on_linux());
    let (done, again) = run_acquire(second, &mut store, &mut machine);
    assert_eq!(again, result);
    assert_eq!(
        done,
        vec![Effect::Poll { pid: 4242 }, Effect::Get { url: version(port), timeout_secs: 2 }]
    );
    assert_eq!(store.current, Some(ManageableBrowserInstance::launched(CHROME.to_string(), port, ws(port), 4242)));
}

#[test]
fn acquire_goes_through_the_steps_in_order() {
    let mut store = SessionStore::new();
    let acquire = launch_browser(&mut store, Some(CHROME.to_string()), &linux(), &on_linux());
    let (done, _) = run_acquire(acquire, &mut store, fresh_machine(1, CHROME, "Chrome/120"));
    assert!(matches!(done[0], Effect::Locate { .. }));
    for i in 0..11 {
        assert_eq!(done[1 + i], Effect::Get { url: version(9222 + i as u16), timeout_secs: 5 });
    }
    assert_eq!(done[12], Effect::Bind { port: 9223 });
    assert!(matches!(done[13], Effect::Spawn { .. }));
    assert_eq!(done[14], Effect::Sleep { millis: 2000 });
    assert_eq!(done[15], Effect::Poll { pid: 1 });
    assert_eq!(done[16], Effect::Get { url: version(9223), timeout_secs: 5 });
    assert_eq!(done[17], Effect::Get { url: version(9223), timeout_secs: 10 });
    assert_eq!(
        done[18],
        Effect::Get {
            url: "http://127.0.0.1:9223/json/new?https://www.google.com".to_string(),
            timeout_secs: 10
        }
    );
    assert_eq!(done.len(), 19);
}

#[test]
fn acquire_never_holds_a_session_while_it_starts_a_browser() {
    let mut store = SessionStore {
        current: Some(ManageableBrowserInstance::launched(EDGE.to_string(), 9300, ws(9300), 10)),
    };
    let mut inner = fresh_machine(11, CHROME, "Chrome/120");
    let mut checked = 0;
    let acquire = launch_browser(&mut store, Some(CHROME.to_string()), &linux(), &on_linux());
    let (_, result) = run_acquire(acquire, &mut store, |effect, store| {
        match effect {
            Effect::Bind { .. } | Effect::Spawn { .. } | Effect::Sleep { .. } => {
                checked += 1;
                assert_eq!(store.current, None);
            },
            Effect::Kill { pid } => assert_eq!(store.current.as_ref().unwrap().child, Some(*pid)),
            _ => {},
        }
        inner(effect, store)
    });
    assert!(checked >= 3);
    assert_eq!(result, Ok(ws(9223)));
    assert_eq!(store.current.as_ref().unwrap().path, CHROME);
    assert_eq!(store.current.as_ref().unwrap().child, Some(11));
}

#[test]
fn switching_kills_the_replaced_browser_if_it_was_launched() {
    let mut store = SessionStore {
        current: Some(ManageableBrowserInstance::launched(EDGE.to_string(), 9300, ws(9300), 10)),
    };
    let acquire = launch_browser(&mut store, Some(CHROME.to_string()), &linux(), &on_linux());
    let (done, result) = run_acquire(acquire, &mut store, fresh_machine(11, CHROME, "Chrome/120"));
    assert_eq!(done[0], Effect::Kill { pid: 10 });
    assert_eq!(count(&done, |e| matches!(e, Effect::Kill { .. })), 1);
    assert_eq!(result, Ok(ws(9223)));
    assert_eq!(store.current.unwrap().path, CHROME);
}

#[test]
fn switching_leaves_an_adopted_browser_running() {
    let mut store = SessionStore {
        current: Some(ManageableBrowserInstance::adopted(EDGE.to_string(), 9222, ws(9222))),
    };
    let acquire = launch_browser(&mut store, Some(CHROME.to_string()), &linux(), &on_linux());
    assert_eq!(store.current, None);
    let (done, result) = run_acquire(acquire, &mut store, fresh_machine(11, CHROME, "Chrome/120"));
    assert_eq!(count(&done, |e| matches!(e, Effect::Kill { .. } | Effect::Poll { pid: 10 })), 0);
    assert!(matches!(done[0], Effect::Locate { .. }));
    assert_eq!(result, Ok(ws(9223)));
}

#[test]
fn acquire_adopts_a_running_browser_without_starting_one() {
    let mut store = SessionStore::new();
    let acquire = launch_browser(&mut store, Some(EDGE.to_string()), &linux(), &on_linux());
    let (done, result) = run_acquire(acquire, &mut store, |e, _| match e {
        Effect::Locate { paths } => {
            assert_eq!(paths.len(), 9);
            Outcome::Located { installed: vec![EDGE.to_string()] }
        },
        Effect::Get { url, .. } if *url == version(9225) => described(9225, "Edg/120"),
        Effect::Get { .. } => silent(),
        other => panic!("unexpected effect {:?}", other),
    });
    assert_eq!(result, Ok(ws(9225)));
    assert_eq!(store.current, Some(ManageableBrowserInstance::adopted(EDGE.to_string(), 9225, ws(9225))));
    assert_eq!(count(&done, |e| matches!(e, Effect::Spawn { .. } | Effect::Bind { .. })), 0);
    assert_eq!(
        done.last(),
        Some(&Effect::Get {
            url: "http://127.0.0.1:9225/json/new?https://www.google.com".to_string(),
            timeout_secs: 10
        })
    );
}

#[test]
fn acquire_without_a_named_browser_takes_the_first_installed() {
    let mut store = SessionStore::new();
    let acquire = launch_browser(&mut store, None, &linux(), &on_linux());
    assert!(matches!(acquire.phase, AcquirePhase::Resolving));
    let (done, result) = run_acquire(acquire, &mut store, fresh_machine(8, EDGE, "Edg/120"));
    assert!(matches!(done[0], Effect::Locate { .. }));
    assert!(matches!(done[1], Effect::Locate { .. }));
    assert_eq!(result, Ok(ws(9223)));
    assert_eq!(store.current.unwrap().path, EDGE);
}

#[test]
fn acquire_without_any_browser_fails() {
    let mut store = SessionStore::new();
    let acquire = launch_browser(&mut store, None, &linux(), &on_linux());
    let (done, result) = run_acquire(acquire, &mut store, |_, _| Outcome::Located { installed: Vec::new() });
    assert_eq!(done.len(), 1);
    assert_eq!(result, Err(SessionError::NoBrowserFound));
}

#[test]
fn acquire_fails_when_no_port_can_be_bound() {
    let mut store = SessionStore::new();
    let acquire = launch_browser(&mut store, Some(CHROME.to_string()), &linux(), &on_linux());
    let (done, result) = run_acquire(acquire, &mut store, |e, _| match e {
        Effect::Locate { .. } => Outcome::Located { installed: Vec::new() },
        Effect::Bind { .. } => Outcome::Bound { local: None },
        other => panic!("unexpected effect {:?}", other),
    });
    assert_eq!(result, Err(SessionError::PortExhausted));
    assert_eq!(count(&done, |e| matches!(e, Effect::Bind { .. })), 101);
    assert_eq!(store.current, None);
}

#[test]
fn acquire_starts_an_unlisted_executable_without_scanning() {
    let mut store = SessionStore::new();
    let acquire = launch_browser(&mut store, Some("/opt/custom/chrome".to_string()), &linux(), &on(Platform::Linux, true));
    let (done, result) = run_acquire(acquire, &mut store, fresh_machine(3, CHROME, "Chrome/120"));
    assert_eq!(result, Ok(ws(9223)));
    assert!(matches!(done[0], Effect::Locate { .. }));
    assert_eq!(done[1], Effect::Bind { port: 9223 });
}

#[test]
fn reuse_evicts_a_session_whose_process_has_ended() {
    let mut store = SessionStore {
        current: Some(ManageableBrowserInstance::launched(CHROME.to_string(), 9223, ws(9223), 10)),
    };
    let reuse = get_running_instance(&mut store, CHROME, &linux());
    assert!(matches!(reuse.phase, ReusePhase::Polling { pid: 10, port: 9223, .. }));
    let (done, found) = run_reuse(reuse, &mut store, |e| match e {
        Effect::Poll { .. } => Outcome::Polled { status: ChildStatus::Exited { code: Some(0) } },
        Effect::Locate { .. } => Outcome::Located { installed: Vec::new() },
        other => panic!("unexpected effect {:?}", other),
    });
    assert_eq!(found, None);
    assert_eq!(store.current, None);
    assert_eq!(count(&done, |e| matches!(e, Effect::Kill { .. })), 0);
}

#[test]
fn reuse_kills_a_launched_browser_that_no_longer_answers() {
    let mut store = SessionStore {
        current: Some(ManageableBrowserInstance::launched(CHROME.to_string(), 9223, ws(9223), 10)),
    };
    let reuse = get_running_instance(&mut store, CHROME, &linux());
    let (done, found) = run_reuse(reuse, &mut store, |e| match e {
        Effect::Poll { .. } => Outcome::Polled { status: ChildStatus::Running },
        Effect::Get { .. } => Outcome::Got { result: answer(500, "") },
        Effect::Kill { .. } => Outcome::Killed,
        Effect::Locate { .. } => Outcome::Located { installed: Vec::new() },
        other => panic!("unexpected effect {:?}", other),
    });
    assert_eq!(found, None);
    assert_eq!(store.current, None);
    assert_eq!(done[2], Effect::Kill { pid: 10 });
}

#[test]
fn reuse_kills_a_launched_browser_whose_state_is_unknown() {
    let mut store = SessionStore {
        current: Some(ManageableBrowserInstance::launched(CHROME.to_string(), 9223, ws(9223), 10)),
    };
    let reuse = get_running_instance(&mut store, CHROME, &linux());
    let (done, _) = run_reuse(reuse, &mut store, |e| match e {
        Effect::Poll { .. } => Outcome::Polled { status: ChildStatus::Unknown },
        Effect::Kill { .. } => Outcome::Killed,
        Effect::Locate { .. } => Outcome::Located { installed: Vec::new() },
        other => panic!("unexpected effect {:?}", other),
    });
    assert_eq!(done[1], Effect::Kill { pid: 10 });
    assert_eq!(store.current, None);
}

#[test]
fn reuse_drops_an_adopted_browser_that_no_longer_answers_without_a_kill() {
    let mut store = SessionStore {
        current: Some(ManageableBrowserInstance::adopted(CHROME.to_string(), 9222, ws(9222))),
    };
    let reuse = get_running_instance(&mut store, CHROME, &linux());
    let (done, found) = run_reuse(reuse, &mut store, |e| match e {
        Effect::Get { .. } => silent(),
        Effect::Locate { .. } => Outcome::Located { installed: vec![CHROME.to_string()] },
        other => panic!("unexpected effect {:?}", other),
    });
    assert_eq!(found, None);
    assert_eq!(store.current, None);
    assert_eq!(done[0], Effect::Get { url: version(9222), timeout_secs: 2 });
    assert_eq!(count(&done, |e| matches!(e, Effect::Kill { .. } | Effect::Poll { .. })), 0);
}

#[test]
fn reuse_returns_the_stored_address_of_a_live_adopted_browser() {
    let held = ManageableBrowserInstance::adopted(CHROME.to_string(), 9222, "ws://stored".to_string());
    let mut store = SessionStore { current: Some(held) };
    let reuse = get_running_instance(&mut store, CHROME, &linux());
    let (done, found) = run_reuse(reuse, &mut store, |_| Outcome::Got { result: answer(204, "") });
    assert_eq!(done.len(), 1);
    assert_eq!(found, Some("ws://stored".to_string()));
    assert_eq!(store.current.unwrap().ws_url, "ws://stored");
}

#[test]
fn reuse_does_not_adopt_a_browser_whose_address_names_no_port() {
    let mut store = SessionStore::new();
    let reuse = get_running_instance(&mut store, CHROME, &linux());
    let (_, found) = run_reuse(reuse, &mut store, |e| match e {
        Effect::Locate { .. } => Outcome::Located { installed: vec![CHROME.to_string()] },
        Effect::Get { .. } => Outcome::Got {
            result: answer(200, r#"{"Browser":"Chrome/1","webSocketDebuggerUrl":"ws://host:none/x"}"#),
        },
        other => panic!("unexpected effect {:?}", other),
    });
    assert_eq!(found, None);
    assert_eq!(store.current, None);
}

#[test]
fn release_kills_a_running_process_of_ours_and_empties_the_store() {
    let mut store = SessionStore {
        current: Some(ManageableBrowserInstance::launched(CHROME.to_string(), 9223, ws(9223), 10)),
    };
    let teardown = sunset_browser_instance(&mut store);
    assert_eq!(store.current, None);
    let done = run_teardown(teardown, ChildStatus::Running);
    assert_eq!(done, vec![Effect::Poll { pid: 10 }, Effect::Kill { pid: 10 }]);
}

#[test]
fn release_does_not_kill_a_process_that_has_ended() {
    let mut store = SessionStore {
        current: Some(ManageableBrowserInstance::launched(CHROME.to_string(), 9223, ws(9223), 10)),
    };
    let done = run_teardown(sunset_browser_instance(&mut store), ChildStatus::Exited { code: None });
    assert_eq!(done, vec![Effect::Poll { pid: 10 }]);
}

#[test]
fn release_kills_a_process_whose_state_is_unknown_and_still_succeeds() {
    let mut store = SessionStore {
        current: Some(ManageableBrowserInstance::launched(CHROME.to_string(), 9223, ws(9223), 10)),
    };
    let teardown = sunset_browser_instance(&mut store);
    assert_eq!(store.current, None);
    let done = run_teardown(teardown, ChildStatus::Unknown);
    assert_eq!(done, vec![Effect::Poll { pid: 10 }, Effect::Kill { pid: 10 }]);
}

#[test]
fn release_drops_an_adopted_session_and_leaves_the_browser_alone() {
    let mut store = SessionStore {
        current: Some(ManageableBrowserInstance::adopted(CHROME.to_string(), 9222, ws(9222))),
    };
    let teardown = sunset_browser_instance(&mut store);
    assert_eq!(teardown.pending(), None);
    assert!(teardown.is_done());
    assert_eq!(store.current, None);
}

#[test]
fn release_without_a_session_is_a_success_and_can_be_repeated() {
    let mut store = SessionStore::new();
    for _ in 0..3 {
        let teardown = sunset_browser_instance(&mut store);
        assert_eq!(teardown.phase, TeardownPhase::Done);
        assert_eq!(teardown.pending(), None);
        assert!(teardown.is_done());
        assert_eq!(store.current, None);
    }
}

#[test]
fn force_close_restores_a_session_that_was_not_launched() {
    let held = || ManageableBrowserInstance::adopted(CHROME.to_string(), 9222, ws(9222));
    let mut store = SessionStore { current: Some(held()) };
    let teardown = force_close_browser(&mut store);
    assert_eq!(teardown.pending(), None);
    assert!(teardown.is_done());
    assert_eq!(store.current, Some(held()));
    assert!(store.is_active());
}

#[test]
fn force_close_kills_a_launched_browser_without_a_look() {
    let mut store = SessionStore {
        current: Some(ManageableBrowserInstance::launched(CHROME.to_string(), 9223, ws(9223), 10)),
    };
    let teardown = force_close_browser(&mut store);
    assert_eq!(store.current, None);
    let done = run_teardown(teardown, ChildStatus::Running);
    assert_eq!(done, vec![Effect::Kill { pid: 10 }]);
}

#[test]
fn force_close_without_a_session_does_nothing() {
    let mut store = SessionStore::new();
    let teardown = force_close_browser(&mut store);
    assert_eq!(teardown.pending(), None);
    assert!(teardown.is_done());
    assert_eq!(store.current, None);
}

#[test]
fn teardown_ignores_an_outcome_that_answers_nothing() {
    let teardown = Teardown { phase: TeardownPhase::Killing { pid: 4 } };
    assert_eq!(teardown.advance(&Outcome::Slept), teardown);
    assert_eq!(teardown.advance(&Outcome::Polled { status: ChildStatus::Running }), teardown);
    assert!(!teardown.is_done());
}

#[test]
fn launch_over_a_session_of_ours_kills_its_process_only_once_the_new_browser_is_up() {
    let held = || ManageableBrowserInstance::launched(EDGE.to_string(), 9300, ws(9300), 10);
    let mut store = SessionStore { current: Some(held()) };
    let launch = launch_new_instance(CHROME, 9223, &on_linux());
    assert!(matches!(launch.phase, LaunchPhase::Spawning));
    assert_eq!(store.current, Some(held()));
    let (done, result) = run_launch(launch, &mut store, |e| match e {
        Effect::Kill { .. } => Outcome::Killed,
        Effect::Spawn { .. } => Outcome::Spawned { pid: Some(11) },
        Effect::Sleep { .. } => Outcome::Slept,
        Effect::Poll { .. } => Outcome::Polled { status: ChildStatus::Running },
        Effect::Get { .. } => described(9223, "Chrome/120"),
        other => panic!("unexpected effect {:?}", other),
    });
    assert!(matches!(done[0], Effect::Spawn { .. }));
    assert_eq!(done.last(), Some(&Effect::Kill { pid: 10 }));
    assert_eq!(count(&done, |e| matches!(e, Effect::Kill { .. })), 1);
    assert_eq!(result, Ok(ws(9223)));
    assert_eq!(store.current, Some(ManageableBrowserInstance::launched(CHROME.to_string(), 9223, ws(9223), 11)));
}

#[test]
fn launch_over_an_adopted_session_replaces_the_record_on_success_and_kills_nothing() {
    let held = || ManageableBrowserInstance::adopted(EDGE.to_string(), 9222, ws(9222));
    let mut store = SessionStore { current: Some(held()) };
    let launch = launch_new_instance(CHROME, 9223, &on_linux());
    assert_eq!(store.current, Some(held()));
    let (done, result) = run_launch(launch, &mut store, |e| match e {
        Effect::Spawn { .. } => Outcome::Spawned { pid: Some(11) },
        Effect::Sleep { .. } => Outcome::Slept,
        Effect::Poll { .. } => Outcome::Polled { status: ChildStatus::Running },
        Effect::Get { .. } => described(9223, "Chrome/120"),
        other => panic!("unexpected effect {:?}", other),
    });
    assert_eq!(count(&done, |e| matches!(e, Effect::Kill { .. })), 0);
    assert_eq!(result, Ok(ws(9223)));
    assert_eq!(store.current.unwrap().child, Some(11));
}

#[test]
fn failed_spawn_leaves_a_held_session_as_it_was() {
    let held = || ManageableBrowserInstance::launched(EDGE.to_string(), 9300, ws(9300), 10);
    let mut store = SessionStore { current: Some(held()) };
    let (done, result) = run_launch(launch_new_instance(CHROME, 9223, &on_linux()), &mut store, |_| {
        Outcome::Spawned { pid: None }
    });
    assert_eq!(result, Err(SessionError::ProcessSpawnFailed));
    assert_eq!(done.len(), 1);
    assert_eq!(store.current, Some(held()));
}

#[test]
fn early_exit_leaves_a_held_session_as_it_was_and_asks_nothing_of_the_endpoint() {
    let held = || ManageableBrowserInstance::launched(EDGE.to_string(), 9300, ws(9300), 10);
    let mut store = SessionStore { current: Some(held()) };
    let (done, result) = run_launch(launch_new_instance(CHROME, 9223, &on_linux()), &mut store, |e| match e {
        Effect::Spawn { .. } => Outcome::Spawned { pid: Some(11) },
        Effect::Sleep { .. } => Outcome::Slept,
        Effect::Poll { pid: 11 } => Outcome::Polled { status: ChildStatus::Exited { code: Some(3) } },
        other => panic!("unexpected effect {:?}", other),
    });
    assert_eq!(result, Err(SessionError::ProcessExitedEarly { code: Some(3) }));
    assert_eq!(count(&done, |e| matches!(e, Effect::Get { .. } | Effect::Kill { .. })), 0);
    assert_eq!(store.current, Some(held()));
}

#[test]
fn unreachable_endpoint_kills_the_new_process_and_leaves_an_adopted_session_as_it_was() {
    let held = || ManageableBrowserInstance::adopted(EDGE.to_string(), 9222, ws(9222));
    let mut store = SessionStore { current: Some(held()) };
    let (done, result) = run_launch(launch_new_instance(CHROME, 9223, &on_linux()), &mut store, |e| match e {
        Effect::Spawn { .. } => Outcome::Spawned { pid: Some(11) },
        Effect::Sleep { .. } => Outcome::Slept,
        Effect::Poll { .. } => Outcome::Polled { status: ChildStatus::Running },
        Effect::Get { .. } => silent(),
        Effect::Kill { .. } => Outcome::Killed,
        other => panic!("unexpected effect {:?}", other),
    });
    assert_eq!(result, Err(SessionError::EndpointUnreachable { attempts: 1 }));
    assert_eq!(count(&done, |e| matches!(e, Effect::Get { .. })), 1);
    assert_eq!(done.last(), Some(&Effect::Kill { pid: 11 }));
    assert_eq!(store.current, Some(held()));
}

#[test]
fn launch_kills_a_process_that_came_into_the_store_meanwhile() {
    let mut store = SessionStore::new();
    let mut launch = launch_new_instance(CHROME, 9223, &on_linux());
    launch = launch.advance(&mut store, Outcome::Spawned { pid: Some(11) });
    launch = launch.advance(&mut store, Outcome::Slept);
    launch = launch.advance(&mut store, Outcome::Polled { status: ChildStatus::Running });
    launch = launch.advance(&mut store, described(9223, "Chrome/120"));
    store.current = Some(ManageableBrowserInstance::launched(EDGE.to_string(), 9300, ws(9300), 10));
    launch = launch.advance(&mut store, described(9223, "Chrome/120"));
    assert!(matches!(launch.phase, LaunchPhase::Replacing { pid: 11, old: 10, .. }));
    assert_eq!(launch.pending(), Some(Effect::Kill { pid: 10 }));
    assert_eq!(process_of(&store), Some(10));
    launch = launch.advance(&mut store, Outcome::Killed);
    assert_eq!(launch.result(), Some(Ok(ws(9223))));
    assert_eq!(process_of(&store), Some(11));
}

#[test]
fn forget_drops_only_the_session_of_that_process() {
    let held = || ManageableBrowserInstance::launched(EDGE.to_string(), 9300, ws(9300), 10);
    let mut store = SessionStore { current: Some(held()) };
    forget(&mut store, 11);
    assert_eq!(store.current, Some(held()));
    forget(&mut store, 10);
    assert_eq!(store.current, None);
    forget(&mut store, 10);
    assert_eq!(store.current, None);
    assert_eq!(process_of(&store), None);
}

#[test]
fn reuse_does_not_adopt_over_a_process_of_ours() {
    let mut store = SessionStore::new();
    let mut reuse = get_running_instance(&mut store, CHROME, &linux());
    reuse = reuse.advance(&mut store, Outcome::Located { installed: vec![CHROME.to_string()] });
    reuse = reuse.advance(&mut store, described(9222, "Chrome/120"));
    let held = || ManageableBrowserInstance::launched(EDGE.to_string(), 9300, ws(9300), 10);
    store.current = Some(held());
    reuse = reuse.advance(&mut store, described(9222, "Chrome/120"));
    assert_eq!(reuse.result(), Some(None));
    assert_eq!(store.current, Some(held()));
}

#[test]
fn trial_of_a_missing_executable_ends_at_once() {
    let mut store = SessionStore::new();
    let run = debug_browser_connection(&mut store, CHROME, false, &linux(), &on_linux());
    assert_eq!(run.pending(), None);
    assert_eq!(run.report(), Some("Browser executable not found at specified path".to_string()));
}

#[test]
fn trial_reports_a_running_browser() {
    let mut store = SessionStore::new();
    let run = debug_browser_connection(&mut store, EDGE, true, &linux(), &on_linux());
    assert_eq!(run.report(), None);
    let (done, report) = run_diagnosis(run, &mut store, |e, _| match e {
        Effect::Locate { .. } => Outcome::Located { installed: vec![EDGE.to_string()] },
        Effect::Get { url, .. } if *url == version(9222) => described(9222, "Edg/120"),
        other => panic!("unexpected effect {:?}", other),
    });
    assert_eq!(
        report,
        format!(
            "Browser executable found\nBrowser detected as: edge\nFound existing edge instance: {}",
            ws(9222)
        )
    );
    assert_eq!(done.len(), 3);
    assert_eq!(store.current, None);
}

#[test]
fn trial_starts_the_browser_and_closes_it_again() {
    let mut store = SessionStore::new();
    let run = debug_browser_connection(&mut store, CHROME, true, &linux(), &on_linux());
    let (done, report) = run_diagnosis(run, &mut store, fresh_machine(21, CHROME, "Chrome/120"));
    assert_eq!(
        report,
        format!(
            "Browser executable found\nBrowser detected as: chrome\nNo existing instances found\n\
             Found free port: 9223\nAttempting to launch browser...\n\
             Successfully launched browser with WebSocket: {}\nCleaned up test instance",
            ws(9223)
        )
    );
    let n = done.len();
    assert_eq!(done[n - 2], Effect::Poll { pid: 21 });
    assert_eq!(done[n - 1], Effect::Kill { pid: 21 });
    assert_eq!(store.current, None);
}

#[test]
fn trial_reports_a_failed_launch_and_a_missing_port() {
    let mut store = SessionStore::new();
    let run = debug_browser_connection(&mut store, "/opt/custom/browser", true, &linux(), &on_linux());
    let (_, report) = run_diagnosis(run, &mut store, |e, _| match e {
        Effect::Locate { .. } => Outcome::Located { installed: Vec::new() },
        Effect::Bind { port } => Outcome::Bound { local: Some(*port) },
        Effect::Spawn { .. } => Outcome::Spawned { pid: None },
        other => panic!("unexpected effect {:?}", other),
    });
    assert_eq!(
        report,
        "Browser executable found\nFound free port: 9223\nAttempting to launch browser...\n\
         Failed to launch browser: Failed to launch browser"
    );
    let run = debug_browser_connection(&mut store, "/opt/custom/browser", true, &linux(), &on_linux());
    let (_, report) = run_diagnosis(run, &mut store, |e, _| match e {
        Effect::Locate { .. } => Outcome::Located { installed: Vec::new() },
        Effect::Bind { .. } => Outcome::Bound { local: None },
        other => panic!("unexpected effect {:?}", other),
    });
    assert_eq!(report, "Browser executable found\nNo free ports available");
}

#[test]
fn trial_over_a_held_session_replaces_it_only_when_its_browser_comes_up() {
    let held = || ManageableBrowserInstance::launched(EDGE.to_string(), 9300, ws(9300), 10);
    let mut store = SessionStore { current: Some(held()) };
    let run = debug_browser_connection(&mut store, CHROME, true, &linux(), &on_linux());
    assert_eq!(store.current, Some(held()));
    let mut inner = fresh_machine(21, CHROME, "Chrome/120");
    let (done, _) = run_diagnosis(run, &mut store, |e, s| {
        if let Effect::Spawn { .. } = e {
            assert_eq!(s.current, Some(held()));
        }
        inner(e, s)
    });
    let kills: Vec<&Effect> = done.iter().filter(|e| matches!(e, Effect::Kill { .. })).collect();
    assert_eq!(kills, vec![&Effect::Kill { pid: 10 }, &Effect::Kill { pid: 21 }]);
    assert_eq!(store.current, None);
}

#[test]
fn trial_whose_launch_fails_leaves_the_held_session_as_it_was() {
    let held = || ManageableBrowserInstance::launched(EDGE.to_string(), 9300, ws(9300), 10);
    let mut store = SessionStore { current: Some(held()) };
    let run = debug_browser_connection(&mut store, "/opt/custom/browser", true, &linux(), &on_linux());
    let (done, report) = run_diagnosis(run, &mut store, |e, _| match e {
        Effect::Locate { .. } => Outcome::Located { installed: Vec::new() },
        Effect::Bind { port } => Outcome::Bound { local: Some(*port) },
        Effect::Spawn { .. } => Outcome::Spawned { pid: None },
        other => panic!("unexpected effect {:?}", other),
    });
    assert!(report.ends_with("Failed to launch browser: Failed to launch browser"));
    assert_eq!(count(&done, |e| matches!(e, Effect::Kill { .. })), 0);
    assert_eq!(store.current, Some(held()));
}
