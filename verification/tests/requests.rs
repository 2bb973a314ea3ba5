use hyper::header::HeaderValue;
use hyper::{HeaderMap, Method, Uri};
use tauri_driver::args::Args;
use tauri_driver::request::{
    find_fault, forward_to_native_driver, forward_to_plugin, handle, is_crowded, is_new_session,
    is_new_session_call, relay_session, relay_to_native_driver, relay_to_plugin,
    set_content_length, write_driver_uri, Fault, ProxyError, ProxyRequest, Relay,
};

fn request(method: Method, uri: &str, host: &[u8], body: &str) -> ProxyRequest {
    let mut headers = HeaderMap::new();
    headers.insert("host", HeaderValue::from_bytes(host).unwrap());
    headers.insert("accept", HeaderValue::from_static("*/*"));
    headers.append("accept", HeaderValue::from_static("text/html"));
    ProxyRequest { method, uri: uri.parse().unwrap(), headers, body: body.as_bytes().to_vec() }
}

fn sent(relay: Relay) -> ProxyRequest {
    match relay {
        Relay::Send(request) => request,
        Relay::Refuse(_) => panic!("refused"),
        Relay::Abort(fault) => panic!("{fault:?}"),
    }
}

fn refused(relay: Relay) -> ProxyError {
    match relay {
        Relay::Refuse(error) => error,
        _ => panic!("not refused"),
    }
}

fn aborted(relay: Relay) -> Fault {
    match relay {
        Relay::Abort(fault) => fault,
        _ => panic!("not aborted"),
    }
}

#[test]
fn addresses_of_a_driver() {
    assert_eq!(write_driver_uri("localhost", 4445, "/status?a=b"), "http://localhost:4445/status?a=b");
    assert_eq!(write_driver_uri("[::1]", 0, ""), "http://[::1]:0");
    assert_eq!(write_driver_uri("h", 65535, "/"), "http://h:65535/");
}

#[test]
fn new_sessions_are_known() {
    assert!(is_new_session(&request(Method::POST, "/session", b"h", "")));
    assert!(is_new_session(&request(Method::POST, "/session?x", b"h", "")));
    assert!(is_new_session(&request(Method::POST, "http://h:1/session", b"h", "")));
    assert!(!is_new_session(&request(Method::GET, "/session", b"h", "")));
    assert!(!is_new_session(&request(Method::POST, "/session/", b"h", "")));
    assert!(!is_new_session(&request(Method::POST, "/session/1/url", b"h", "")));
}

#[test]
fn new_sessions_are_known_by_method_and_path() {
    assert!(is_new_session_call("POST", "/session"));
    assert!(!is_new_session_call("post", "/session"));
    assert!(!is_new_session_call("POST", "session"));
    assert!(!is_new_session_call("DELETE", "/session"));
}

#[test]
fn fragments_are_not_passed_on() {
    let get = request(Method::GET, "/a?b#c", b"h", "");
    let out = sent(handle(get, &Args::default()));
    assert_eq!(out.uri, "http://127.0.0.1:4445/a?b".parse::<Uri>().unwrap());
}

#[test]
fn a_session_is_relayed_with_the_document_that_was_read() {
    let post = request(Method::POST, "/session", b"h", "not looked at");
    let json: serde_json::Value = serde_json::from_str(
        r#"{"capabilities": {"alwaysMatch": {"tauri:options": {"application": "a", "args": ["b"]}}}}"#,
    )
    .unwrap();
    let out = sent(relay_session(post, json, &Args::default()));
    assert_eq!(
        String::from_utf8(out.body).unwrap(),
        r#"{"capabilities":{"alwaysMatch":{"webkitgtk:browserOptions":{"args":["b"],"binary":"a"}}}}"#,
    );
    assert_eq!(out.uri, "http://127.0.0.1:4445/session".parse::<Uri>().unwrap());
}

#[test]
fn requests_are_addressed_to_the_native_driver() {
    let get = request(Method::GET, "/session/1/title?x=%20&y", b"127.0.0.1:4444", "body");
    let out = sent(handle(get, &Args::default()));
    assert_eq!(out.method, Method::GET);
    assert_eq!(out.uri, "http://127.0.0.1:4445/session/1/title?x=%20&y".parse::<Uri>().unwrap());
    assert_eq!(out.uri.scheme_str(), Some("http"));
    assert_eq!(out.body, b"body");
    assert!(!out.headers.contains_key("host"));
    let accepted: Vec<&HeaderValue> = out.headers.get_all("accept").iter().collect();
    assert_eq!(accepted, vec!["*/*", "text/html"]);
    assert_eq!(out.headers.len(), 2);
}

#[test]
fn native_port_is_the_one_that_was_set() {
    let args = Args { native_port: 9515, ..Args::default() };
    let native = sent(relay_to_native_driver(request(Method::GET, "/", b"h", ""), &args));
    assert_eq!(native.uri, "http://127.0.0.1:9515/".parse::<Uri>().unwrap());
    let plugin = sent(relay_to_plugin(request(Method::GET, "/", b"h:80", ""), &args));
    assert_eq!(plugin.uri, "http://127.0.0.1:9515/".parse::<Uri>().unwrap());
}

#[test]
fn the_native_driver_is_on_the_native_host() {
    let args = Args { native_host: "10.0.0.2".to_string(), ..Args::default() };
    let get = request(Method::GET, "/status", b"localhost:4444", "");
    match forward_to_native_driver(get, &args) {
        Ok(out) => {
            assert_eq!(out.uri, "http://10.0.0.2:4445/status".parse::<Uri>().unwrap());
            assert!(!out.headers.contains_key("host"));
        }
        Err(error) => panic!("{}", error.message()),
    }
}

#[test]
fn the_plugin_is_on_the_native_host() {
    let args = Args { native_host: "192.168.1.5".to_string(), ..Args::default() };
    let post = request(Method::POST, "/session", b"localhost:4444", "");
    match forward_to_plugin(post, &args) {
        Ok(out) => assert_eq!(out.uri, "http://192.168.1.5:4445/session".parse::<Uri>().unwrap()),
        Err(error) => panic!("{}", error.message()),
    }
}

#[test]
fn native_hosts_of_all_forms() {
    for host in ["localhost", "[::1]", "driver.example", "user@host"] {
        let args = Args { native_host: host.to_string(), ..Args::default() };
        let out = sent(handle(request(Method::GET, "/a", b"h", ""), &args));
        assert_eq!(out.uri.authority().unwrap().as_str(), format!("{host}:4445"));
        assert_eq!(out.uri.path(), "/a");
    }
    for host in ["a b", "::1", "[::1", "h\u{e9}"] {
        let args = Args { native_host: host.to_string(), ..Args::default() };
        let error = refused(handle(request(Method::GET, "/a", b"h", ""), &args));
        assert!(matches!(error, ProxyError::Target(_)), "{host}");
    }
}

#[test]
fn host_headers_of_all_forms() {
    for host in ["localhost", "localhost:4444", "[::1]:4444", "user:secret@[::1]:4444", "user@host"] {
        let get = request(Method::GET, "/a", host.as_bytes(), "");
        match forward_to_plugin(get, &Args::default()) {
            Ok(out) => assert_eq!(out.uri, "http://127.0.0.1:4445/a".parse::<Uri>().unwrap()),
            Err(error) => panic!("{host}: {}", error.message()),
        }
    }
}

#[test]
fn the_first_host_counts() {
    let mut get = request(Method::GET, "/", b"first", "");
    get.headers.append("host", HeaderValue::from_static("a b"));
    let out = sent(handle(get, &Args::default()));
    assert!(!out.headers.contains_key("host"));
    let mut get = request(Method::GET, "/", b"a b", "");
    get.headers.append("host", HeaderValue::from_static("second"));
    let error = refused(handle(get, &Args::default()));
    assert!(matches!(error, ProxyError::HostAuthority(_)));
}

#[test]
fn refusals_have_the_message_of_the_error() {
    let args = Args::default();
    let error = refused(handle(request(Method::GET, "/", b"h\xe9", ""), &args));
    assert_eq!(error.message(), "failed to convert header to a str");
    let error = refused(handle(request(Method::GET, "/", b"h:1:2", ""), &args));
    assert_eq!(error.message(), "invalid authority");
    let error = refused(handle(request(Method::GET, "/", b"a b", ""), &args));
    assert_eq!(error.message(), "invalid uri character");
    let long = format!("/{}", "a".repeat(65_520));
    let error = refused(handle(request(Method::GET, &long, b"h", ""), &args));
    assert_eq!(error.message(), "uri too long");
    let error = refused(handle(request(Method::POST, "/session", b"h", "{"), &args));
    assert_eq!(error.message(), "EOF while parsing an object at line 1 column 1");
}

#[test]
fn a_query_alone_is_kept() {
    let get = request(Method::GET, "http://h?q=1", b"h", "");
    let out = sent(handle(get, &Args::default()));
    assert_eq!(out.uri.query(), Some("q=1"));
    assert_eq!(out.uri.path(), "/");
    assert_eq!(out.uri.authority().unwrap().as_str(), "127.0.0.1:4445");
}

#[test]
fn the_asterisk_becomes_part_of_the_authority() {
    let options = request(Method::OPTIONS, "*", b"h", "");
    let out = sent(handle(options, &Args::default()));
    assert_eq!(out.uri.authority().unwrap().as_str(), "127.0.0.1:4445*");
    assert_eq!(out.uri.path(), "/");
}

#[test]
fn hosts_that_are_no_text_are_refused() {
    let get = request(Method::GET, "/", b"h\xe9", "");
    let out = forward_to_native_driver(get, &Args::default());
    assert!(matches!(out, Err(ProxyError::HostText(_))));
}

#[test]
fn hosts_that_are_no_authority_are_refused() {
    for host in ["", "a b", "h:1:2", "user@", "[::1", "h/x", "a%20b"] {
        let get = request(Method::GET, "/", host.as_bytes(), "");
        let out = relay_to_plugin(get, &Args::default());
        assert!(matches!(refused(out), ProxyError::HostAuthority(_)), "{host}");
    }
}

#[test]
fn an_address_that_is_too_long_is_refused() {
    let long = format!("/{}", "a".repeat(65_520));
    let get = request(Method::GET, &long, b"localhost", "");
    assert!(matches!(refused(handle(get, &Args::default())), ProxyError::Target(_)));
}

#[test]
fn requests_without_host_cannot_be_dealt_with() {
    let mut get = request(Method::GET, "/", b"h", "");
    get.headers.remove("host");
    assert_eq!(find_fault(&get), Some(Fault::NoHost));
    assert_eq!(aborted(handle(get, &Args::default())), Fault::NoHost);
}

#[test]
fn requests_without_path_cannot_be_dealt_with() {
    let connect = request(Method::CONNECT, "h:80", b"h", "");
    assert_eq!(find_fault(&connect), Some(Fault::NoTarget));
    assert_eq!(aborted(relay_to_native_driver(connect, &Args::default())), Fault::NoTarget);
}

#[test]
fn a_bad_host_is_refused_before_a_missing_path() {
    let connect = request(Method::CONNECT, "h:80", b"a b", "");
    assert_eq!(find_fault(&connect), None);
    let out = relay_to_native_driver(connect, &Args::default());
    assert!(matches!(refused(out), ProxyError::HostAuthority(_)));
    let connect = request(Method::CONNECT, "h:80", b"\xff", "");
    assert_eq!(find_fault(&connect), None);
    let out = relay_to_native_driver(connect, &Args::default());
    assert!(matches!(refused(out), ProxyError::HostText(_)));
}

#[test]
fn ordinary_requests_have_no_fault() {
    assert_eq!(find_fault(&request(Method::GET, "/", b"h", "")), None);
}

#[test]
fn new_sessions_are_mapped() {
    let body = r#"{ "capabilities": {"alwaysMatch": {"tauri:options": {"application": "a"}}} }"#;
    let mut post = request(Method::POST, "/session", b"127.0.0.1:4444", body);
    post.headers.insert("content-length", HeaderValue::from(body.len()));
    let out = sent(handle(post, &Args::default()));
    let expected =
        r#"{"capabilities":{"alwaysMatch":{"webkitgtk:browserOptions":{"args":[],"binary":"a"}}}}"#;
    assert_eq!(String::from_utf8(out.body).unwrap(), expected);
    assert_eq!(out.headers["content-length"], expected.len().to_string());
    assert_eq!(out.headers["accept"], "*/*");
    assert!(!out.headers.contains_key("host"));
    assert_eq!(out.uri, "http://127.0.0.1:4445/session".parse::<Uri>().unwrap());
    assert_eq!(out.method, Method::POST);
}

#[test]
fn the_bound_on_header_names_is_exact() {
    let mut post = request(Method::POST, "/session", b"h", "{}");
    for i in 0..6551 {
        let name = hyper::header::HeaderName::from_bytes(format!("x-{i}").as_bytes()).unwrap();
        post.headers.insert(name, HeaderValue::from_static("y"));
    }
    assert_eq!(post.headers.keys_len(), 6553);
    assert!(!is_crowded(&post));
    post.headers.insert("x-last", HeaderValue::from_static("y"));
    assert!(is_crowded(&post));
}

#[test]
fn the_mapped_session_reads_back() {
    let body = "{\"capabilities\": {\"alwaysMatch\": {\"tauri:options\": {\"application\": \
                \"C:\\\\a \\\"b\\\" \\u00e9\", \"args\": []}, \"n\": [-5, 18446744073709551615, true, null]}}}";
    let json: serde_json::Value = serde_json::from_str(body).unwrap();
    let post = request(Method::POST, "/session", b"h", body);
    let out = sent(handle(post, &Args::default()));
    let read: serde_json::Value = serde_json::from_slice(&out.body).unwrap();
    assert_eq!(read, tauri_driver::capabilities::map_capabilities(json));
}

#[test]
fn the_deepest_session_that_is_read_is_sent() {
    for (levels, read) in [(126, true), (127, false)] {
        let deep = format!("{}{}", "[".repeat(levels), "]".repeat(levels));
        let body = format!(
            "{{\"x\": {deep}, \"capabilities\": {{\"alwaysMatch\": \
             {{\"tauri:options\": {{\"application\": \"a\"}}}}}}}}"
        );
        let relay = handle(request(Method::POST, "/session", b"h", &body), &Args::default());
        if read {
            let out = sent(relay);
            let back: serde_json::Value = serde_json::from_slice(&out.body).unwrap();
            let json: serde_json::Value = serde_json::from_str(&body).unwrap();
            assert_eq!(back, tauri_driver::capabilities::map_capabilities(json));
        } else {
            assert!(matches!(refused(relay), ProxyError::Json(_)));
        }
    }
}

#[test]
fn a_session_with_an_empty_path_is_none() {
    let connect = request(Method::POST, "h:80", b"h", "{}");
    assert!(!is_new_session(&connect));
    assert_eq!(aborted(handle(connect, &Args::default())), Fault::NoTarget);
}

#[test]
fn sessions_without_options_are_written_anew() {
    let post = request(Method::POST, "/session", b"h", "{ \"b\" : [1, 2.50], \"a\" : \"\\u0041\" }");
    let out = sent(handle(post, &Args::default()));
    assert_eq!(String::from_utf8(out.body).unwrap(), r#"{"a":"A","b":[1,2.5]}"#);
    assert_eq!(out.headers["content-length"], "21");
}

#[test]
fn sessions_that_are_no_json_are_refused() {
    for body in ["", "{", "{\"a\": 1} x", "nil"] {
        let mut post = request(Method::POST, "/session", b"h", body);
        post.headers.remove("host");
        assert!(matches!(refused(handle(post, &Args::default())), ProxyError::Json(_)));
    }
}

#[test]
fn other_bodies_need_not_be_json() {
    let post = request(Method::POST, "/session/1/url", b"h", "{");
    let out = sent(handle(post, &Args::default()));
    assert_eq!(out.body, b"{");
    assert!(!out.headers.contains_key("content-length"));
}

#[test]
fn content_length_is_that_of_the_body() {
    for (length, text) in [(0, "0"), (9, "9"), (10, "10"), (1234, "1234")] {
        let mut post = request(Method::POST, "/", b"h", &"x".repeat(length));
        post.headers.append("content-length", HeaderValue::from_static("7"));
        post.headers.append("content-length", HeaderValue::from_static("8"));
        let out = match set_content_length(post) {
            Ok(out) => out,
            Err(fault) => panic!("{fault:?}"),
        };
        let lengths: Vec<&HeaderValue> = out.headers.get_all("content-length").iter().collect();
        assert_eq!(lengths, vec![text]);
    }
}

#[test]
fn a_full_header_map_has_no_room() {
    let mut post = request(Method::POST, "/session", b"h", "{}");
    let mut i = 0;
    while post
        .headers
        .try_insert(
            hyper::header::HeaderName::from_bytes(format!("x-{i}").as_bytes()).unwrap(),
            HeaderValue::from_static("y"),
        )
        .is_ok()
    {
        i += 1;
    }
    assert!(post.headers.len() > 6553);
    assert!(is_crowded(&post));
    assert!(!is_crowded(&request(Method::POST, "/session", b"h", "{}")));
    assert_eq!(aborted(handle(post, &Args::default())), Fault::NoRoom);
}
