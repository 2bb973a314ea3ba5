use hyper::header::HeaderValue;
use hyper::{HeaderMap, Method, Uri};
use tauri_driver::args::Args;
use tauri_driver::command::{launch_app, CommandPlan, Word};
use tauri_driver::plugin::{
    begin_session, carry_error, error_response, handle_plugin, is_deletion_call, is_expected,
    is_session_delete, plugin_step, ErrorReply, PluginAction, PluginEvent, PluginPhase, PluginState, READY_TIMEOUT,
};
use tauri_driver::request::{Fault, ProxyError, ProxyRequest};

fn arriving(method: Method, uri: &str, body: &str) -> ProxyRequest {
    let mut headers = HeaderMap::new();
    headers.insert("host", HeaderValue::from_static("127.0.0.1:4444"));
    ProxyRequest { method, uri: uri.parse().unwrap(), headers, body: body.as_bytes().to_vec() }
}

const SESSION: &str =
    r#"{"capabilities": {"alwaysMatch": {"tauri:options": {"application": "/bin/app"}}}}"#;

fn next(step: (PluginPhase, PluginAction), event: PluginEvent) -> (PluginPhase, PluginAction) {
    assert!(is_expected(&step.0, &event));
    plugin_step(step.0, event, &Args::default())
}

fn text(reply: &ErrorReply) -> String {
    String::from_utf8(reply.body.clone()).unwrap()
}

fn automated(program: &str) -> CommandPlan<'static> {
    CommandPlan {
        program: Word::Text(program.to_string()),
        args: vec![],
        env: vec![
            ("TAURI_AUTOMATION".to_string(), "true".to_string()),
            ("TAURI_WEBVIEW_AUTOMATION".to_string(), "true".to_string()),
        ],
    }
}

#[test]
fn applications_are_told_that_they_are_driven() {
    assert_eq!(launch_app("/bin/app".to_string()), automated("/bin/app"));
}

#[test]
fn errors_are_webdriver_errors() {
    let reply = error_response("session not created", "say \"hi\"");
    let body = r#"{"value":{"error":"session not created","message":"say \"hi\""}}"#;
    assert_eq!(reply.status, 500);
    assert_eq!(text(&reply), body);
    assert_eq!(
        reply.headers,
        vec![
            ("Content-Type".to_string(), "application/json; charset=utf-8".to_string()),
            ("content-length".to_string(), body.len().to_string()),
        ],
    );
}

#[test]
fn errors_read_back() {
    for (error, message) in [("", ""), ("a \"b\"", "\\ \n\t\u{0}\u{7f}"), ("\u{e9}", "\u{1f600}\u{2028}")] {
        let reply = error_response(error, message);
        let read: serde_json::Value = serde_json::from_slice(&reply.body).unwrap();
        assert_eq!(read["value"]["error"], error);
        assert_eq!(read["value"]["message"], message);
        assert_eq!(read["value"].as_object().unwrap().len(), 2);
        assert_eq!(reply.headers[1].1, reply.body.len().to_string());
    }
}

#[test]
fn an_error_is_carried_with_its_length() {
    let reply = carry_error(b"{}".to_vec());
    assert_eq!(reply.status, 500);
    assert_eq!(reply.headers[1].1, "2");
    assert_eq!(reply.body, b"{}");
}

#[test]
fn nothing_runs_at_first() {
    assert_eq!(PluginState::new(), PluginState { app_running: false });
}

#[test]
fn deletions_of_sessions_are_known() {
    for path in ["/session/1", "/session/", "/session/a-b?x=/y", "http://h/session/1"] {
        assert!(is_session_delete(&arriving(Method::DELETE, path, "")), "{path}");
    }
    for path in ["/session", "/session/1/window", "/session/1/", "/sessions/1", "/", "/xsession/1"] {
        assert!(!is_session_delete(&arriving(Method::DELETE, path, "")), "{path}");
    }
    assert!(!is_session_delete(&arriving(Method::GET, "/session/1", "")));
}

#[test]
fn deletions_are_known_by_method_and_path() {
    assert!(is_deletion_call("DELETE", "/session/abc"));
    assert!(is_deletion_call("DELETE", "/session/\u{e9}"));
    assert!(!is_deletion_call("DELETE", "/session"));
    assert!(!is_deletion_call("DELETE", "/session/a/b"));
    assert!(!is_deletion_call("DELETE", "/Session/a"));
    assert!(!is_deletion_call("POST", "/session/abc"));
}

#[test]
fn a_session_begins_with_its_application_or_without() {
    let step = begin_session(
        arriving(Method::POST, "/session", "x"),
        Some("app".to_string()),
        &Args::default(),
    );
    assert!(matches!(step.1, PluginAction::Lock));
    match step.0 {
        PluginPhase::Locking { app, .. } => assert_eq!(app, "app"),
        _ => panic!("not waiting for the state"),
    }
    let step = begin_session(arriving(Method::POST, "/session", "x"), None, &Args::default());
    match step.1 {
        PluginAction::Send(out) => assert_eq!(out.headers["content-length"], "1"),
        _ => panic!("not sent"),
    }
}

#[test]
fn a_session_launches_its_application() {
    let step = handle_plugin(arriving(Method::POST, "/session", SESSION), &Args::default());
    assert!(matches!(step.1, PluginAction::Lock));
    let step = next(step, PluginEvent::Locked(PluginState { app_running: false }));
    match &step.1 {
        PluginAction::Launch(plan) => assert_eq!(*plan, automated("/bin/app")),
        _ => panic!("not launched"),
    }
    let step = next(step, PluginEvent::Launched);
    assert!(matches!(step.1, PluginAction::Unlock(PluginState { app_running: true })));
    let step = next(step, PluginEvent::Unlocked);
    assert!(matches!(step.1, PluginAction::AwaitPlugin(30)));
    assert_eq!(READY_TIMEOUT, 30);
    let step = next(step, PluginEvent::Ready(true));
    match &step.1 {
        PluginAction::Send(out) => {
            assert_eq!(out.uri, "http://127.0.0.1:4445/session".parse::<Uri>().unwrap());
            assert_eq!(out.method, Method::POST);
            assert_eq!(out.body, SESSION.as_bytes());
            assert_eq!(out.headers["content-length"], SESSION.len().to_string());
            assert!(!out.headers.contains_key("host"));
        }
        _ => panic!("not sent"),
    }
    let step = next(step, PluginEvent::Responded);
    assert!(matches!(step.1, PluginAction::Return));
    assert!(matches!(step.0, PluginPhase::Done));
}

#[test]
fn a_session_ends_the_application_of_another() {
    let step = handle_plugin(arriving(Method::POST, "/session", SESSION), &Args::default());
    let step = next(step, PluginEvent::Locked(PluginState { app_running: true }));
    assert!(matches!(step.1, PluginAction::Kill));
    let step = next(step, PluginEvent::Killed);
    match &step.1 {
        PluginAction::Launch(plan) => assert_eq!(*plan, automated("/bin/app")),
        _ => panic!("not launched"),
    }
}

#[test]
fn a_deletion_ends_what_another_request_launched() {
    let post = handle_plugin(arriving(Method::POST, "/session", SESSION), &Args::default());
    let post = next(post, PluginEvent::Locked(PluginState::new()));
    let post = next(post, PluginEvent::Launched);
    let state = match post.1 {
        PluginAction::Unlock(state) => state,
        _ => panic!("not given back"),
    };
    let delete = handle_plugin(arriving(Method::DELETE, "/session/1", ""), &Args::default());
    let delete = next(delete, PluginEvent::Responded);
    let delete = next(delete, PluginEvent::Locked(state));
    assert!(matches!(delete.1, PluginAction::Kill));
    let delete = next(delete, PluginEvent::Killed);
    let state = match delete.1 {
        PluginAction::Unlock(state) => state,
        _ => panic!("not given back"),
    };
    assert_eq!(state, PluginState::new());
    let again = handle_plugin(arriving(Method::POST, "/session", SESSION), &Args::default());
    let again = next(again, PluginEvent::Locked(state));
    assert!(matches!(again.1, PluginAction::Launch(_)));
}

#[test]
fn sessions_and_their_plugin_are_on_the_native_host() {
    let args = Args { native_host: "192.168.1.5".to_string(), ..Args::default() };
    let step = handle_plugin(arriving(Method::POST, "/session", "{}"), &args);
    match &step.1 {
        PluginAction::Send(out) => {
            assert_eq!(out.uri, "http://192.168.1.5:4445/session".parse::<Uri>().unwrap())
        }
        _ => panic!("not sent"),
    }
}

#[test]
fn a_failed_launch_is_reported() {
    for app_running in [false, true] {
        let step = handle_plugin(arriving(Method::POST, "/session", SESSION), &Args::default());
        let mut step = next(step, PluginEvent::Locked(PluginState { app_running }));
        if app_running {
            step = next(step, PluginEvent::Killed);
        }
        let step = next(step, PluginEvent::LaunchFailed("no such file".to_string()));
        match &step.1 {
            PluginAction::Unlock(state) => assert_eq!(state.app_running, app_running),
            _ => panic!("not given back"),
        }
        let step = next(step, PluginEvent::Unlocked);
        match &step.1 {
            PluginAction::Reply(reply) => assert_eq!(
                text(reply),
                r#"{"value":{"error":"session not created","message":"Failed to launch Tauri app: no such file"}}"#,
            ),
            _ => panic!("not answered"),
        }
    }
}

#[test]
fn a_plugin_that_is_not_ready_is_reported() {
    let step = handle_plugin(arriving(Method::POST, "/session", SESSION), &Args::default());
    let step = next(step, PluginEvent::Locked(PluginState::new()));
    let step = next(step, PluginEvent::Launched);
    let step = next(step, PluginEvent::Unlocked);
    let step = next(step, PluginEvent::Ready(false));
    match &step.1 {
        PluginAction::Reply(reply) => {
            assert_eq!(reply.status, 500);
            assert_eq!(
                text(reply),
                r#"{"value":{"error":"session not created","message":"Plugin server not ready after timeout"}}"#,
            );
        }
        _ => panic!("not answered"),
    }
    assert!(matches!(step.0, PluginPhase::Done));
}

#[test]
fn a_session_without_application_is_sent_at_once() {
    let step = handle_plugin(arriving(Method::POST, "/session", "{ }"), &Args::default());
    match &step.1 {
        PluginAction::Send(out) => {
            assert_eq!(out.body, b"{ }");
            assert_eq!(out.headers["content-length"], "3");
        }
        _ => panic!("not sent"),
    }
    let step = next(step, PluginEvent::Responded);
    assert!(matches!(step.1, PluginAction::Return));
}

#[test]
fn a_broken_session_is_refused_by_the_plugin_side() {
    let step = handle_plugin(arriving(Method::POST, "/session", "{"), &Args::default());
    assert!(matches!(step.1, PluginAction::Refuse(ProxyError::Json(_))));
    assert!(matches!(step.0, PluginPhase::Done));
}

#[test]
fn deleting_a_session_ends_its_application() {
    let step = handle_plugin(arriving(Method::DELETE, "/session/1", ""), &Args::default());
    assert!(matches!(step.1, PluginAction::Send(_)));
    let step = next(step, PluginEvent::Responded);
    assert!(matches!(step.1, PluginAction::Lock));
    let step = next(step, PluginEvent::Locked(PluginState { app_running: true }));
    assert!(matches!(step.1, PluginAction::Kill));
    let step = next(step, PluginEvent::Killed);
    assert!(matches!(step.1, PluginAction::Unlock(PluginState { app_running: false })));
    let step = next(step, PluginEvent::Unlocked);
    assert!(matches!(step.1, PluginAction::Return));
}

#[test]
fn deleting_a_session_without_application_ends_nothing() {
    let step = handle_plugin(arriving(Method::DELETE, "/session/1", ""), &Args::default());
    let step = next(step, PluginEvent::Responded);
    let step = next(step, PluginEvent::Locked(PluginState { app_running: false }));
    assert!(matches!(step.1, PluginAction::Unlock(PluginState { app_running: false })));
    let step = next(step, PluginEvent::Unlocked);
    assert!(matches!(step.1, PluginAction::Return));
}

#[test]
fn other_requests_leave_the_application() {
    for (method, path) in [(Method::GET, "/status"), (Method::DELETE, "/session/1/window")] {
        let step = handle_plugin(arriving(method, path, "x"), &Args::default());
        match &step.1 {
            PluginAction::Send(out) => {
                assert_eq!(out.uri.path(), path);
                assert_eq!(out.uri.port_u16(), Some(4445));
                assert_eq!(out.body, b"x");
            }
            _ => panic!("not sent"),
        }
        let step = next(step, PluginEvent::Responded);
        assert!(matches!(step.1, PluginAction::Return));
        assert!(matches!(step.0, PluginPhase::Done));
    }
}

#[test]
fn a_request_without_host_is_given_up_by_the_plugin_side() {
    let mut get = arriving(Method::GET, "/status", "");
    get.headers.remove("host");
    let step = handle_plugin(get, &Args::default());
    assert!(matches!(step.1, PluginAction::Abort(Fault::NoHost)));
    assert!(matches!(step.0, PluginPhase::Done));
}

#[test]
fn events_out_of_turn_are_not_expected() {
    assert!(!is_expected(&PluginPhase::Done, &PluginEvent::Responded));
    assert!(!is_expected(&PluginPhase::Closing, &PluginEvent::Killed));
    assert!(!is_expected(&PluginPhase::Ending, &PluginEvent::Locked(PluginState::new())));
    assert!(is_expected(&PluginPhase::Ended, &PluginEvent::Unlocked));
}
