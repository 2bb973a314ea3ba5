use serde_json::Value;
use tauri_driver::capabilities::{extract_app_path, map_capabilities, TauriOptions, TAURI_OPTIONS};

fn document(text: &str) -> Value {
    serde_json::from_str(text).unwrap()
}

fn mapped(text: &str) -> Value {
    map_capabilities(document(text))
}

#[test]
fn key_of_the_options() {
    assert_eq!(TAURI_OPTIONS, "tauri:options");
}

#[test]
fn options_become_native_options() {
    assert_eq!(
        mapped(
            r#"{"capabilities": {"alwaysMatch": {"browserName": "wry",
                "tauri:options": {"application": "/bin/app", "args": ["-v", "two words"]}}}}"#
        ),
        document(
            r#"{"capabilities": {"alwaysMatch": {"browserName": "wry",
                "webkitgtk:browserOptions": {"binary": "/bin/app", "args": ["-v", "two words"]}}}}"#
        ),
    );
}

#[test]
fn arguments_may_be_left_out() {
    assert_eq!(
        mapped(r#"{"capabilities": {"alwaysMatch": {"tauri:options": {"application": "/bin/app"}}}}"#),
        document(
            r#"{"capabilities": {"alwaysMatch":
                {"webkitgtk:browserOptions": {"binary": "/bin/app", "args": []}}}}"#
        ),
    );
}

#[test]
fn unknown_options_are_passed_over() {
    assert_eq!(
        mapped(
            r#"{"capabilities": {"alwaysMatch":
                {"tauri:options": {"application": "a", "webviewOptions": {}}}}}"#
        ),
        document(
            r#"{"capabilities": {"alwaysMatch":
                {"webkitgtk:browserOptions": {"binary": "a", "args": []}}}}"#
        ),
    );
}

#[test]
fn native_options_replace_those_of_the_client() {
    assert_eq!(
        mapped(
            r#"{"capabilities": {"alwaysMatch": {"webkitgtk:browserOptions": {"binary": "old"},
                "tauri:options": {"application": "new"}}}}"#
        ),
        document(
            r#"{"capabilities": {"alwaysMatch":
                {"webkitgtk:browserOptions": {"binary": "new", "args": []}}}}"#
        ),
    );
}

#[test]
fn desired_capabilities_get_the_native_options() {
    assert_eq!(
        mapped(
            r#"{"capabilities": {"alwaysMatch": {"tauri:options": {"application": "a"}},
                "firstMatch": [{}]},
                "desiredCapabilities": {"tauri:options": {"application": "b"}, "x": 1}, "y": null}"#
        ),
        document(
            r#"{"capabilities": {"alwaysMatch":
                {"webkitgtk:browserOptions": {"binary": "a", "args": []}}, "firstMatch": [{}]},
                "desiredCapabilities":
                {"webkitgtk:browserOptions": {"binary": "a", "args": []}, "x": 1}, "y": null}"#
        ),
    );
}

#[test]
fn desired_capabilities_that_are_no_object_stay() {
    assert_eq!(
        mapped(
            r#"{"capabilities": {"alwaysMatch": {"tauri:options": {"application": "a"}}},
                "desiredCapabilities": [1]}"#
        ),
        document(
            r#"{"capabilities": {"alwaysMatch":
                {"webkitgtk:browserOptions": {"binary": "a", "args": []}}},
                "desiredCapabilities": [1]}"#
        ),
    );
}

#[test]
fn desired_capabilities_alone_stay() {
    let text = r#"{"desiredCapabilities": {"tauri:options": {"application": "a"}}}"#;
    assert_eq!(mapped(text), document(text));
}

#[test]
fn unreadable_options_are_dropped() {
    for options in [
        r#"{}"#,
        r#"{"args": []}"#,
        r#"{"application": 1}"#,
        r#"{"application": null}"#,
        r#"{"application": "a", "args": null}"#,
        r#"{"application": "a", "args": "b"}"#,
        r#"{"application": "a", "args": ["b", 1]}"#,
        r#"[]"#,
        r#"["a", ["b"], 1]"#,
        r#"["a", "b"]"#,
        r#"[1]"#,
        r#""a""#,
        r#"null"#,
        r#"true"#,
        r#"1"#,
    ] {
        let text = format!(
            "{{\"capabilities\": {{\"alwaysMatch\": {{\"tauri:options\": {options}, \"x\": 1}}}}, \
             \"desiredCapabilities\": {{\"tauri:options\": 1}}}}"
        );
        assert_eq!(
            mapped(&text),
            document(
                r#"{"capabilities": {"alwaysMatch": {"x": 1}},
                    "desiredCapabilities": {"tauri:options": 1}}"#
            ),
            "{options}",
        );
    }
}

#[test]
fn options_may_be_an_array() {
    for (options, args) in [(r#"["a"]"#, "[]"), (r#"["a", ["b", "c"]]"#, r#"["b", "c"]"#)] {
        let text =
            format!("{{\"capabilities\": {{\"alwaysMatch\": {{\"tauri:options\": {options}}}}}}}");
        let expected = format!(
            "{{\"capabilities\": {{\"alwaysMatch\": {{\"webkitgtk:browserOptions\": \
             {{\"binary\": \"a\", \"args\": {args}}}}}}}}}"
        );
        assert_eq!(mapped(&text), document(&expected));
    }
}

#[test]
fn documents_without_options_stay() {
    for text in [
        "null",
        "1",
        "\"capabilities\"",
        "[]",
        "{}",
        r#"{"capabilities": 1}"#,
        r#"{"capabilities": {}}"#,
        r#"{"capabilities": {"alwaysMatch": []}}"#,
        r#"{"capabilities": {"alwaysMatch": {"x": {"tauri:options": {"application": "a"}}}}}"#,
        r#"{"capabilities": {"firstMatch": [{"tauri:options": {"application": "a"}}]}}"#,
    ] {
        assert_eq!(mapped(text), document(text));
    }
}

#[test]
fn mapping_twice_is_mapping_once() {
    let once = mapped(
        r#"{"capabilities": {"alwaysMatch": {"tauri:options": {"application": "a", "args": ["b"]}}},
            "desiredCapabilities": {}}"#,
    );
    assert_eq!(map_capabilities(once.clone()), once);
}

#[test]
fn options_are_read_from_a_value() {
    let options =
        TauriOptions::from_value(&document(r#"{"application": "a", "args": ["b", ""]}"#)).unwrap();
    assert_eq!(options.application, "a");
    assert_eq!(options.args, vec!["b".to_string(), "".to_string()]);
    assert!(TauriOptions::from_value(&document("{}")).is_none());
}

#[test]
fn options_as_a_native_object() {
    let options = TauriOptions { application: "a b".to_string(), args: vec!["c".to_string()] };
    assert_eq!(
        Value::from(options.into_native_object()),
        document(r#"{"webkitgtk:browserOptions": {"args": ["c"], "binary": "a b"}}"#),
    );
}

#[test]
fn app_path_is_the_application() {
    assert_eq!(
        extract_app_path(&document(
            r#"{"capabilities": {"alwaysMatch": {"tauri:options":
                {"application": "/path/to/YourApp.app/Contents/MacOS/YourApp"}}}}"#
        )),
        Some("/path/to/YourApp.app/Contents/MacOS/YourApp".to_string()),
    );
    assert_eq!(
        extract_app_path(&document(
            r#"{"capabilities": {"alwaysMatch": {"tauri:options":
                {"application": "C:\\path\\to\\YourApp.exe", "args": 1}}}}"#
        )),
        Some("C:\\path\\to\\YourApp.exe".to_string()),
    );
}

#[test]
fn app_path_is_missing() {
    for text in [
        "[]",
        "{}",
        r#"{"capabilities": {}}"#,
        r#"{"capabilities": {"alwaysMatch": {}}}"#,
        r#"{"capabilities": {"alwaysMatch": {"tauri:options": {}}}}"#,
        r#"{"capabilities": {"alwaysMatch": {"tauri:options": ["a"]}}}"#,
        r#"{"capabilities": {"alwaysMatch": {"tauri:options": {"application": ["a"]}}}}"#,
        r#"{"desiredCapabilities": {"tauri:options": {"application": "a"}}}"#,
    ] {
        assert_eq!(extract_app_path(&document(text)), None);
    }
}
