use hyper::Uri;
use tauri_driver::args::Args;
use tauri_driver::readiness::{status_probe, wait_for_plugin, WaitAction, WaitEvent, PAUSE};
use tauri_driver::server::{run, run_plugin_mode, ServerAction, ServerEvent, KILL_FAILED};

fn both(event: fn() -> ServerEvent) -> ServerAction {
    let native = run(event(), &Args::default());
    let plugin = run_plugin_mode(event(), &Args::default());
    assert_eq!(native, plugin);
    native.action
}

#[test]
fn the_server_starts_and_serves() {
    assert_eq!(both(|| ServerEvent::Started), ServerAction::Watch);
    assert_eq!(both(|| ServerEvent::WatchFailed), ServerAction::Fail);
    assert_eq!(both(|| ServerEvent::Bound), ServerAction::Accept);
    assert_eq!(both(|| ServerEvent::Accepted), ServerAction::Serve);
    assert_eq!(both(|| ServerEvent::Serving), ServerAction::Accept);
}

#[test]
fn the_server_listens_on_the_port_that_was_set() {
    let args = Args { port: 5000, native_port: 6000, ..Args::default() };
    let native = run(ServerEvent::Watching, &args);
    assert_eq!(native.action, ServerAction::Bind { ip: (127, 0, 0, 1), port: 5000 });
    assert!(native.say.is_empty());
    let plugin = run_plugin_mode(ServerEvent::Watching, &args);
    assert_eq!(plugin.action, ServerAction::Bind { ip: (127, 0, 0, 1), port: 5000 });
    assert_eq!(
        plugin.say,
        vec!["tauri-driver running on port 5000", "Plugin expected on port 6000"],
    );
}

#[test]
fn an_address_in_use_ends_the_server() {
    for step in [
        run(ServerEvent::BindFailed, &Args::default()),
        run_plugin_mode(ServerEvent::BindFailed, &Args::default()),
    ] {
        assert_eq!(step.action, ServerAction::Finish);
        assert_eq!(step.say, vec!["can not listen to address: 127.0.0.1:4444"]);
    }
}

#[test]
fn a_client_that_fails_to_connect_is_passed_over() {
    for step in [
        run(ServerEvent::AcceptFailed, &Args::default()),
        run_plugin_mode(ServerEvent::AcceptFailed, &Args::default()),
    ] {
        assert_eq!(step.action, ServerAction::Accept);
        assert_eq!(step.say, vec!["accept new stream fail, ignore here"]);
    }
}

#[test]
fn a_client_that_cannot_be_served_is_left() {
    let event = ServerEvent::ServeFailed("Io".to_string());
    let step = run(event, &Args::default());
    assert_eq!(step.action, ServerAction::Leave);
    assert_eq!(step.say, vec!["Error serving connection: Io"]);
}

#[test]
fn a_signal_ends_the_native_driver() {
    for running in [true, false] {
        let step = run(ServerEvent::Signalled(running), &Args::default());
        assert_eq!(step.action, ServerAction::Kill);
    }
    assert_eq!(run(ServerEvent::Killed, &Args::default()).action, ServerAction::Exit(0));
    assert_eq!(run(ServerEvent::KillFailed, &Args::default()).action, ServerAction::Abort);
    assert_eq!(KILL_FAILED, "unable to kill native webdriver server");
}

#[test]
fn a_signal_ends_the_application() {
    let args = Args::default();
    let running = run_plugin_mode(ServerEvent::Signalled(true), &args);
    assert_eq!(running.action, ServerAction::Kill);
    let none = run_plugin_mode(ServerEvent::Signalled(false), &args);
    assert_eq!(none.action, ServerAction::Exit(0));
    assert_eq!(run_plugin_mode(ServerEvent::Killed, &args).action, ServerAction::Exit(0));
    assert_eq!(run_plugin_mode(ServerEvent::KillFailed, &args).action, ServerAction::Exit(0));
}

#[test]
fn the_plugin_is_asked_for_its_status() {
    let probe = status_probe("localhost", 4445).unwrap();
    assert_eq!(probe.uri, "http://localhost:4445/status".parse::<Uri>().unwrap());
    assert_eq!(probe.host.unwrap(), "localhost:4445");
    assert_eq!(probe.method, "GET");
    assert!(probe.body.is_empty());
}

#[test]
fn hosts_without_address_cannot_be_asked() {
    assert!(status_probe("a b", 1).is_none());
    assert!(status_probe("", 1).is_some());
    assert!(status_probe("\u{e9}", 1).is_none());
}

#[test]
fn the_wait_looks_at_the_clock_first() {
    assert_eq!(wait_for_plugin(30, true, WaitEvent::Begun), WaitAction::ReadClock);
    assert_eq!(wait_for_plugin(30, true, WaitEvent::Rested), WaitAction::ReadClock);
}

#[test]
fn the_wait_asks_in_time() {
    assert_eq!(wait_for_plugin(30, true, WaitEvent::Time(0)), WaitAction::Ask);
    assert_eq!(wait_for_plugin(30, true, WaitEvent::Time(29_999_999_999)), WaitAction::Ask);
    assert_eq!(wait_for_plugin(30, true, WaitEvent::Time(30_000_000_000)), WaitAction::Finish(false));
    assert_eq!(wait_for_plugin(0, true, WaitEvent::Time(0)), WaitAction::Finish(false));
    assert_eq!(wait_for_plugin(u64::MAX, true, WaitEvent::Time(1 << 64)), WaitAction::Ask);
}

#[test]
fn the_wait_rests_where_nothing_can_be_asked() {
    assert_eq!(wait_for_plugin(30, false, WaitEvent::Time(1)), WaitAction::Rest(100));
    assert_eq!(wait_for_plugin(30, false, WaitEvent::Time(30_000_000_000)), WaitAction::Finish(false));
    assert_eq!(PAUSE, 100);
}

#[test]
fn the_wait_ends_with_a_success() {
    for status in [200, 204, 299] {
        assert_eq!(wait_for_plugin(30, true, WaitEvent::Answer(status)), WaitAction::Finish(true));
    }
    for status in [100, 199, 300, 404, 500] {
        assert_eq!(wait_for_plugin(30, true, WaitEvent::Answer(status)), WaitAction::Rest(100));
    }
    assert_eq!(wait_for_plugin(30, true, WaitEvent::Silence), WaitAction::Rest(100));
}
