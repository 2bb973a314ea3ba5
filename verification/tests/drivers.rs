use std::path::PathBuf;
use tauri_driver::args::Args;
use tauri_driver::command::{CommandPlan, Word};
use tauri_driver::text::{same_text, to_decimal};
use tauri_driver::webdriver;
use tauri_driver::webdriver::{driver_binary, driver_source, DriverSource, Failure, Platform};
use tauri_driver::webdriver_macos;

fn settings() -> Args {
    Args { native_port: 8080, native_host: "::1".to_string(), ..Args::default() }
}

fn planned<'a>(outcome: Result<CommandPlan<'a>, Failure>) -> CommandPlan<'a> {
    match outcome {
        Ok(plan) => plan,
        Err(failure) => panic!("{:?}", failure.lines),
    }
}

fn failed(outcome: Result<CommandPlan, Failure>) -> Failure {
    match outcome {
        Ok(plan) => panic!("{plan:?}"),
        Err(failure) => failure,
    }
}

fn word(text: &str) -> Word<'static> {
    Word::Text(text.to_string())
}

fn pair(name: &str, value: &str) -> (String, String) {
    (name.to_string(), value.to_string())
}

#[test]
fn settings_where_nothing_is_said() {
    let args = Args::default();
    assert_eq!(args.port, 4444);
    assert_eq!(args.native_port, 4445);
    assert_eq!(args.native_host, "127.0.0.1");
    assert_eq!(args.native_driver, None);
}

#[test]
fn decimal_notation() {
    assert_eq!(to_decimal(0), "0");
    assert_eq!(to_decimal(7), "7");
    assert_eq!(to_decimal(1002), "1002");
    assert_eq!(to_decimal(u64::MAX), "18446744073709551615");
}

#[test]
fn texts_are_told_apart() {
    assert!(same_text("", ""));
    assert!(same_text("a\u{e9}", "a\u{e9}"));
    assert!(!same_text("a", "A"));
    assert!(!same_text("a", "ab"));
}

#[test]
fn binaries_of_the_platforms() {
    assert_eq!(driver_binary(Platform::Linux), "WebKitWebDriver");
    assert_eq!(driver_binary(Platform::Windows), "msedgedriver.exe");
}

#[test]
fn a_given_driver_is_not_searched_for() {
    let path = PathBuf::from("/opt/driver");
    let given = Args { native_driver: Some(path.clone()), ..Args::default() };
    match driver_source(&given, Platform::Linux) {
        DriverSource::Given(found) => assert_eq!(*found, path),
        DriverSource::Search(name) => panic!("{name}"),
    }
    match driver_source(&Args::default(), Platform::Windows) {
        DriverSource::Given(found) => panic!("{found:?}"),
        DriverSource::Search(name) => assert_eq!(name, "msedgedriver.exe"),
    }
}

fn given(path: &str) -> Args {
    Args { native_driver: Some(PathBuf::from(path)), ..settings() }
}

#[test]
fn the_native_driver_of_the_system_is_started() {
    let binary = PathBuf::from("/usr/bin/WebKitWebDriver");
    let finding = webdriver::Finding::InPath(binary.clone());
    let args = settings();
    assert!(webdriver::is_answer(&args, &finding));
    assert_eq!(
        planned(webdriver::native(&args, Platform::Linux, &finding)),
        CommandPlan {
            program: Word::Path(&binary),
            args: vec![word("--port=8080"), word("--host=::1")],
            env: vec![pair("TAURI_AUTOMATION", "true"), pair("TAURI_WEBVIEW_AUTOMATION", "true")],
        },
    );
}

#[test]
fn the_native_driver_that_was_given_is_started() {
    let args = given("/opt/driver");
    let finding = webdriver::Finding::GivenExists;
    assert!(webdriver::is_answer(&args, &finding));
    let plan = planned(webdriver::native(&args, Platform::Windows, &finding));
    assert_eq!(plan.program, Word::Path(&PathBuf::from("/opt/driver")));
    assert_eq!(plan.args, vec![word("--port=8080"), word("--host=::1")]);
    assert_eq!(plan.env.len(), 2);
}

#[test]
fn other_settings_do_not_change_the_start() {
    let other = Args { port: 1, ..given("/a") };
    let one = webdriver::Finding::InPath(PathBuf::from("/b"));
    let args = settings();
    let searched = planned(webdriver::native(&args, Platform::Linux, &one));
    let chosen = planned(webdriver::native(&other, Platform::Linux, &webdriver::Finding::GivenExists));
    assert_eq!(searched.args, chosen.args);
    assert_eq!(searched.env, chosen.env);
}

#[test]
fn findings_answer_where_the_driver_was_looked_for() {
    let missing = webdriver::Finding::NotInPath { error: "x".to_string() };
    assert!(webdriver::is_answer(&settings(), &missing));
    assert!(!webdriver::is_answer(&given("/a"), &missing));
    assert!(!webdriver::is_answer(&given("/a"), &webdriver::Finding::InPath(PathBuf::new())));
    assert!(!webdriver::is_answer(&settings(), &webdriver::Finding::GivenExists));
    assert!(webdriver_macos::is_answer(&settings(), &webdriver_macos::Finding::NotGiven));
    assert!(!webdriver_macos::is_answer(&given("/a"), &webdriver_macos::Finding::NotGiven));
    let found = webdriver_macos::Finding::Found(PathBuf::new());
    assert!(webdriver_macos::is_answer(&given("/a"), &found));
    assert!(!webdriver_macos::is_answer(&settings(), &found));
}

#[test]
fn the_project_is_in_the_given_directory() {
    assert_eq!(webdriver_macos::project_directory(&settings()), None);
    assert_eq!(webdriver_macos::project_directory(&given("/wda")), Some(&PathBuf::from("/wda")));
}

#[test]
fn a_missing_given_driver_is_reported() {
    let finding = webdriver::Finding::GivenMissing {
        path: "/nowhere".to_string(),
        directory: Ok("/home".to_string()),
    };
    let args = given("/nowhere");
    let failure = failed(webdriver::native(&args, Platform::Linux, &finding));
    assert_eq!(failure.exit_code, 1);
    assert_eq!(
        failure.lines,
        vec![
            "can not find the supplied binary path /nowhere. This is currently required.",
            "current working directory: /home",
        ],
    );
}

#[test]
fn a_missing_directory_is_reported() {
    let finding = webdriver::Finding::GivenMissing {
        path: "x".to_string(),
        directory: Err("gone".to_string()),
    };
    let args = given("x");
    let failure = failed(webdriver::native(&args, Platform::Windows, &finding));
    assert_eq!(failure.lines[1], "can not find current working directory: gone");
}

#[test]
fn a_driver_that_is_not_in_the_path_is_reported() {
    let finding = webdriver::Finding::NotInPath { error: "CannotFindBinaryPath".to_string() };
    let args = settings();
    let failure = failed(webdriver::native(&args, Platform::Linux, &finding));
    assert_eq!(failure.exit_code, 1);
    assert_eq!(
        failure.lines,
        vec![
            "can not find binary WebKitWebDriver in the PATH. This is currently required.\
             You can also pass a custom path with --native-driver",
            "CannotFindBinaryPath",
        ],
    );
}

#[test]
fn the_test_runner_is_started() {
    let project = PathBuf::from("/wda").join(webdriver_macos::PROJECT);
    let finding = webdriver_macos::Finding::Found(project.clone());
    let args = given("/wda");
    assert_eq!(
        planned(webdriver_macos::native(&args, &finding)),
        CommandPlan {
            program: word("xcodebuild"),
            args: vec![
                word("build-for-testing"),
                word("test-without-building"),
                word("-project"),
                Word::Path(&project),
                word("-scheme"),
                word("WebDriverAgentRunner"),
                word("COMPILER_INDEX_STORE_ENABLE=NO"),
            ],
            env: vec![pair("USE_PORT", "8080"), pair("USE_HOST", "::1")],
        },
    );
}

#[test]
fn a_missing_project_is_reported() {
    let finding = webdriver_macos::Finding::Missing { directory: "/wda".to_string() };
    let args = given("/wda");
    let failure = failed(webdriver_macos::native(&args, &finding));
    assert_eq!(failure.exit_code, 1);
    assert_eq!(
        failure.lines,
        vec![
            "can not find WebDriverAgentMac.xcodeproj in /wda. --native-driver must point to \
             the WebDriverAgentMac project directory.",
        ],
    );
}

#[test]
fn a_missing_native_driver_is_reported() {
    let args = settings();
    let failure = failed(webdriver_macos::native(&args, &webdriver_macos::Finding::NotGiven));
    assert_eq!(failure.exit_code, 1);
    assert_eq!(
        failure.lines,
        vec![
            "on macOS, --native-driver is required and must point to the WebDriverAgentMac \
             project directory (from appium-mac2-driver)",
        ],
    );
}
