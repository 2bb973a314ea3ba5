//! Requests on their way from a WebDriver client to a driver.

use vstd::prelude::*;

use crate::args::Args;
use crate::capabilities;
use crate::json;
use crate::json::Json;
use crate::text;
use crate::wire;
use crate::wire::UriParts;

verus! {

/// A request whose body has arrived.
pub struct ProxyRequest {
    pub method: hyper::Method,
    pub uri: hyper::Uri,
    pub headers: hyper::HeaderMap,
    pub body: Vec<u8>,
}

/// A request as plain values.
#[verifier::ext_equal]
pub struct Message {
    pub method: Seq<char>,
    pub uri: UriParts,
    pub headers: Map<Seq<char>, Seq<Seq<u8>>>,
    pub body: Seq<u8>,
}

impl View for ProxyRequest {
    type V = Message;

    open spec fn view(&self) -> Message {
        Message {
            method: wire::method_text(self.method),
            uri: wire::uri_parts(self.uri),
            headers: wire::header_values(self.headers),
            body: self.body@,
        }
    }
}

/// Why a request is refused.
pub enum ProxyError {
    /// The body is no JSON document.
    Json(serde_json::Error),
    /// The host header is no visible text.
    HostText(hyper::header::ToStrError),
    /// The host header names no host.
    HostAuthority(hyper::http::uri::InvalidUri),
    /// The driver cannot be addressed.
    Target(hyper::http::uri::InvalidUri),
}

/// Why a request is refused, with the message of the error that came, where
/// there is more than one.
#[verifier::ext_equal]
pub enum Refusal {
    Json(Seq<char>),
    HostText,
    HostAuthority(Seq<char>),
    Target(Seq<char>),
}

impl Refusal {
    /// The message of the error that came.
    pub open spec fn message(self) -> Seq<char> {
        match self {
            Refusal::Json(message) => message,
            Refusal::HostText => "failed to convert header to a str"@,
            Refusal::HostAuthority(message) => message,
            Refusal::Target(message) => message,
        }
    }
}

impl View for ProxyError {
    type V = Refusal;

    open spec fn view(&self) -> Refusal {
        match self {
            ProxyError::Json(error) => Refusal::Json(json::error_text(*error)),
            ProxyError::HostText(_) => Refusal::HostText,
            ProxyError::HostAuthority(error) => Refusal::HostAuthority(
                wire::uri_error_text(*error),
            ),
            ProxyError::Target(error) => Refusal::Target(wire::uri_error_text(*error)),
        }
    }
}

impl ProxyError {
    /// The message of the error that came.
    pub fn message(&self) -> (message: String)
        ensures
            message@ == self@.message(),
    {
        match self {
            ProxyError::Json(error) => json::error_message(error),
            ProxyError::HostText(error) => wire::to_str_error_message(error),
            ProxyError::HostAuthority(error) => wire::uri_error_message(error),
            ProxyError::Target(error) => wire::uri_error_message(error),
        }
    }
}

/// Why a request cannot be dealt with.
#[derive(Clone, Copy, Debug, PartialEq, Eq, Structural)]
pub enum Fault {
    /// There is no host header.
    NoHost,
    /// The address has no path.
    NoTarget,
    /// There is no room for another header.
    NoRoom,
}

/// What becomes of a request.
pub enum Relay {
    /// It goes to the driver in this form.
    Send(ProxyRequest),
    /// It is refused.
    Refuse(ProxyError),
    /// It cannot be dealt with.
    Abort(Fault),
}

/// What becomes of a request, as plain values.
#[verifier::ext_equal]
pub enum Outcome {
    Send(Message),
    Refuse(Refusal),
    Abort(Fault),
}

impl View for Relay {
    type V = Outcome;

    open spec fn view(&self) -> Outcome {
        match self {
            Relay::Send(request) => Outcome::Send(request@),
            Relay::Refuse(error) => Outcome::Refuse(error@),
            Relay::Abort(fault) => Outcome::Abort(*fault),
        }
    }
}

/// Whether a method and a path ask for a new session.
pub open spec fn new_session_call(method: Seq<char>, path: Seq<char>) -> bool {
    method == "POST"@ && path == "/session"@
}

/// Whether a request asks for a new session.
pub open spec fn opens_session(message: Message) -> bool {
    new_session_call(message.method, message.uri.path)
}

/// The address of a driver on `host`.
pub open spec fn driver_uri(host: Seq<char>, port: u16, target: Seq<char>) -> Seq<char> {
    "http://"@ + host + ":"@ + text::decimal(port as nat) + target
}

/// The text of the host header, where it is one.
pub open spec fn host_text(message: Message) -> Option<Seq<char>> {
    let bytes = message.headers["host"@][0];
    if forall|i: int| 0 <= i < bytes.len() ==> wire::visible(#[trigger] bytes[i]) {
        Some(text::ascii_chars(bytes))
    } else {
        None
    }
}

/// Why a request cannot be dealt with, where that is so. Without a host header
/// it has no addressee; with a good one, it still needs something to ask for.
pub open spec fn fault_in(message: Message) -> Option<Fault> {
    if !message.headers.contains_key("host"@) {
        Some(Fault::NoHost)
    } else if message.uri.path_and_query is None && (host_text(message) matches Some(host)
        && wire::authority_refusal(host) is None) {
        Some(Fault::NoTarget)
    } else {
        None
    }
}

/// What becomes of a request that is passed on to a driver.
///
/// It must name its host in a header, which is taken out. The driver is
/// addressed on its own host and port, with the path and query of the request.
pub open spec fn retargeted(message: Message, native_host: Seq<char>, port: u16) -> Outcome {
    match (fault_in(message), host_text(message)) {
        (Some(fault), _) => Outcome::Abort(fault),
        (None, None) => Outcome::Refuse(Refusal::HostText),
        (None, Some(host)) => match wire::authority_refusal(host) {
            Some(reason) => Outcome::Refuse(Refusal::HostAuthority(reason)),
            None => {
                let target = message.uri.path_and_query->0;
                match wire::parsed_uri(driver_uri(native_host, port, target)) {
                    Ok(uri) => Outcome::Send(
                        Message { uri, headers: message.headers.remove("host"@), ..message },
                    ),
                    Err(reason) => Outcome::Refuse(Refusal::Target(reason)),
                }
            },
        },
    }
}

/// Whether `uri` addresses the driver by `http` on its host and port, with the
/// path and query of `message`.
pub open spec fn reaches_driver(
    message: Message,
    native_host: Seq<char>,
    port: u16,
    uri: UriParts,
) -> bool {
    let target = message.uri.path_and_query->0;
    uri == UriParts {
        scheme: Some("http"@),
        authority: Some(native_host + seq![':'] + text::decimal(port as nat)),
        path: wire::or_slash(wire::before_first(target, set!['?'])),
        path_and_query: Some(target),
    }
}

/// Whether the address of a request is the asterisk, which stands for a server
/// as a whole.
pub open spec fn is_asterisk(uri: UriParts) -> bool {
    uri.path_and_query == Some(seq!['*'])
}

/// Whether `uri` addresses the driver, if its host can stand in an address and
/// the request is not for the server as a whole.
pub open spec fn well_addressed(
    message: Message,
    native_host: Seq<char>,
    port: u16,
    uri: UriParts,
) -> bool {
    wire::free_of(native_host, wire::authority_stops()) && !is_asterisk(message.uri)
        ==> reaches_driver(message, native_host, port, uri)
}

/// Whether a method and a path ask for a new session.
pub fn is_new_session_call(method: &str, path: &str) -> (answer: bool)
    ensures
        answer == new_session_call(method@, path@),
{
    text::same_text(method, "POST") && text::same_text(path, "/session")
}

/// Whether a request asks for a new session.
pub fn is_new_session(request: &ProxyRequest) -> (answer: bool)
    ensures
        answer == opens_session(request@),
        answer ==> request@.uri.path_and_query is Some && !is_asterisk(request@.uri),
{
    proof {
        reveal_strlit("/session");
        wire::lemma_asterisk_path();
    }
    is_new_session_call(request.method.as_str(), request.uri.path())
}

/// Writes the address of a driver on `host`.
pub fn write_driver_uri(host: &str, port: u16, target: &str) -> (uri: String)
    ensures
        uri@ == driver_uri(host@, port, target@),
{
    let start: String = "http://".to_owned().concat(host).concat(":");
    start.concat(text::to_decimal(port as u64).as_str()).concat(target)
}

/// Finds out whether a request cannot be dealt with, and why.
pub fn find_fault(request: &ProxyRequest) -> (fault: Option<Fault>)
    ensures
        fault == fault_in(request@),
{
    proof {
        reveal_strlit("host");
    }
    let host: &hyper::header::HeaderValue = match wire::header(&request.headers, "host") {
        Some(host) => host,
        None => return Some(Fault::NoHost),
    };
    if request.uri.path_and_query().is_some() {
        return None;
    }
    match host.to_str() {
        Ok(host) => match wire::parse_authority(host) {
            Ok(_) => Some(Fault::NoTarget),
            Err(_) => None,
        },
        Err(_) => None,
    }
}

/// Addresses a request to the driver.
fn retarget(request: ProxyRequest, args: &Args) -> (outcome: Result<ProxyRequest, ProxyError>)
    requires
        fault_in(request@) is None,
    ensures
        retargeted(request@, args.native_host@, args.native_port) == match outcome {
            Ok(sent) => Outcome::Send(sent@),
            Err(error) => Outcome::Refuse(error@),
        },
        outcome matches Ok(sent) ==> well_addressed(
            request@,
            args.native_host@,
            args.native_port,
            sent@.uri,
        ),
{
    let ghost message = request@;
    let mut headers: hyper::HeaderMap = request.headers;
    proof {
        reveal_strlit("host");
    }
    let host: hyper::header::HeaderValue = wire::remove_header(&mut headers, "host").unwrap();
    match host.to_str() {
        Ok(host) => match wire::parse_authority(host) {
            Ok(_) => {},
            Err(error) => return Err(ProxyError::HostAuthority(error)),
        },
        Err(error) => return Err(ProxyError::HostText(error)),
    }
    let target: &str = request.uri.path_and_query().unwrap().as_str();
    let uri: String = write_driver_uri(args.native_host.as_str(), args.native_port, target);
    proof {
        let host = args.native_host@;
        let target = message.uri.path_and_query->0;
        let rest = host + seq![':'] + text::decimal(args.native_port as nat) + target;
        reveal_strlit("http://");
        reveal_strlit(":");
        assert(":"@ =~= seq![':']);
        assert(uri@ =~= "http://"@ + rest);
        assert(uri@.take(7) =~= "http://"@);
        assert(uri@.skip(7) =~= rest);
        if wire::free_of(host, wire::authority_stops()) && !is_asterisk(message.uri) {
            wire::lemma_http_parts(host, args.native_port as nat, target);
        }
    }
    match wire::parse_uri(uri.as_str()) {
        Ok(uri) => Ok(ProxyRequest { method: request.method, uri, headers, body: request.body }),
        Err(error) => Err(ProxyError::Target(error)),
    }
}

/// Passes a request on to the native driver.
pub fn forward_to_native_driver(request: ProxyRequest, args: &Args) -> (outcome: Result<
    ProxyRequest,
    ProxyError,
>)
    requires
        fault_in(request@) is None,
    ensures
        retargeted(request@, args.native_host@, args.native_port) == match outcome {
            Ok(sent) => Outcome::Send(sent@),
            Err(error) => Outcome::Refuse(error@),
        },
        outcome matches Ok(sent) ==> well_addressed(
            request@,
            args.native_host@,
            args.native_port,
            sent@.uri,
        ),
{
    retarget(request, args)
}

/// Passes a request on to the plugin inside the application.
pub fn forward_to_plugin(request: ProxyRequest, args: &Args) -> (outcome: Result<
    ProxyRequest,
    ProxyError,
>)
    requires
        fault_in(request@) is None,
    ensures
        retargeted(request@, args.native_host@, args.native_port) == match outcome {
            Ok(sent) => Outcome::Send(sent@),
            Err(error) => Outcome::Refuse(error@),
        },
        outcome matches Ok(sent) ==> well_addressed(
            request@,
            args.native_host@,
            args.native_port,
            sent@.uri,
        ),
{
    retarget(request, args)
}

/// Passes any request on to the native driver.
pub fn relay_to_native_driver(request: ProxyRequest, args: &Args) -> (relay: Relay)
    ensures
        relay@ == retargeted(request@, args.native_host@, args.native_port),
        relay matches Relay::Send(sent) ==> well_addressed(
            request@,
            args.native_host@,
            args.native_port,
            sent@.uri,
        ),
{
    match find_fault(&request) {
        Some(fault) => Relay::Abort(fault),
        None => match forward_to_native_driver(request, args) {
            Ok(sent) => Relay::Send(sent),
            Err(error) => Relay::Refuse(error),
        },
    }
}

/// Passes any request on to the plugin inside the application.
pub fn relay_to_plugin(request: ProxyRequest, args: &Args) -> (relay: Relay)
    ensures
        relay@ == retargeted(request@, args.native_host@, args.native_port),
        relay matches Relay::Send(sent) ==> well_addressed(
            request@,
            args.native_host@,
            args.native_port,
            sent@.uri,
        ),
{
    match find_fault(&request) {
        Some(fault) => Relay::Abort(fault),
        None => match forward_to_plugin(request, args) {
            Ok(sent) => Relay::Send(sent),
            Err(error) => Relay::Refuse(error),
        },
    }
}

/// The request with the length of its body in its headers.
pub open spec fn with_length(message: Message) -> Message {
    let length = text::ascii_bytes(text::decimal(message.body.len()));
    Message { headers: message.headers.insert("content-length"@, seq![length]), ..message }
}

/// Whether a request has more header names than every header map has room for.
pub open spec fn crowded(message: Message) -> bool {
    message.headers.len() > wire::HEADER_NAMES
}

/// Whether a request has more header names than every header map has room for.
pub fn is_crowded(request: &ProxyRequest) -> (answer: bool)
    ensures
        answer == crowded(request@),
{
    wire::name_count(&request.headers) > wire::HEADER_NAMES
}

/// States the length of the body in the headers, where there is room for it.
/// There is, unless the request is crowded.
pub fn set_content_length(request: ProxyRequest) -> (outcome: Result<ProxyRequest, Fault>)
    ensures
        match outcome {
            Ok(stated) => stated@ == with_length(request@),
            Err(fault) => fault == Fault::NoRoom && crowded(request@),
        },
{
    let mut headers: hyper::HeaderMap = request.headers;
    let length: hyper::header::HeaderValue = wire::number_value(request.body.len());
    proof {
        reveal_strlit("content-length");
    }
    match wire::insert_header(&mut headers, "content-length", length) {
        Ok(_) => Ok(
            ProxyRequest { method: request.method, uri: request.uri, headers, body: request.body },
        ),
        Err(_) => Err(Fault::NoRoom),
    }
}

/// A new session request in the form that the native driver reads, given the
/// JSON document in its body.
pub open spec fn native_session(message: Message, json: Json) -> Message {
    let body = json::rendered(capabilities::mapped_capabilities(json));
    with_length(Message { body, ..message })
}

/// What becomes of a request to the native driver.
pub open spec fn handled(message: Message, native_host: Seq<char>, port: u16) -> Outcome {
    if !opens_session(message) {
        retargeted(message, native_host, port)
    } else {
        match json::reading(message.body) {
            Ok(json) => retargeted(native_session(message, json), native_host, port),
            Err(reason) => Outcome::Refuse(Refusal::Json(reason)),
        }
    }
}

/// Whether a request is one that there may be no room for.
pub open spec fn crowded_session(message: Message) -> bool {
    opens_session(message) && json::parsed(message.body) is Some && crowded(message)
}

/// Passes a new session request on to the native driver, given the JSON
/// document in its body.
pub fn relay_session(request: ProxyRequest, json: serde_json::Value, args: &Args) -> (relay: Relay)
    ensures
        relay@ == retargeted(
            native_session(request@, json::document(json)),
            args.native_host@,
            args.native_port,
        ) || crowded(request@) && relay@ == Outcome::Abort(Fault::NoRoom),
        relay matches Relay::Send(sent) ==> well_addressed(
            request@,
            args.native_host@,
            args.native_port,
            sent@.uri,
        ),
        relay matches Relay::Send(sent) ==> ({
            let mapped = capabilities::mapped_capabilities(json::document(json));
            json::plain(mapped) ==> json::parsed(sent@.body) == Some(mapped)
        }),
        request@.uri.path_and_query is Some ==> relay@ != Outcome::Abort(Fault::NoTarget),
{
    let json: serde_json::Value = capabilities::map_capabilities(json);
    let body: Vec<u8> = match json::render(&json) {
        Ok(body) => body,
        Err(error) => return Relay::Refuse(ProxyError::Json(error)),
    };
    let session = ProxyRequest {
        method: request.method,
        uri: request.uri,
        headers: request.headers,
        body,
    };
    proof {
        lemma_host_is_not_length();
    }
    match set_content_length(session) {
        Ok(session) => relay_to_native_driver(session, args),
        Err(fault) => Relay::Abort(fault),
    }
}

/// Deals with a request to the native driver. A new session request is put in
/// the form that the driver reads; everything else is passed on.
pub fn handle(request: ProxyRequest, args: &Args) -> (relay: Relay)
    ensures
        relay@ == handled(request@, args.native_host@, args.native_port) || crowded_session(
            request@,
        ) && relay@ == Outcome::Abort(Fault::NoRoom),
        relay matches Relay::Send(sent) ==> well_addressed(
            request@,
            args.native_host@,
            args.native_port,
            sent@.uri,
        ),
        opens_session(request@) ==> !is_asterisk(request@.uri) && relay@ != Outcome::Abort(
            Fault::NoTarget,
        ),
        relay matches Relay::Send(sent) ==> opens_session(request@) ==> ({
            let mapped = capabilities::mapped_capabilities(json::parsed(request@.body)->0);
            json::integral(mapped, json::DEPTH as nat) ==> json::parsed(sent@.body) == Some(mapped)
        }),
{
    if !is_new_session(&request) {
        return relay_to_native_driver(request, args);
    }
    match json::parse(request.body.as_slice()) {
        Ok(json) => {
            proof {
                capabilities::law_mapping_stays_readable(
                    json::document(json),
                    json::DEPTH as nat,
                );
            }
            relay_session(request, json, args)
        },
        Err(error) => Relay::Refuse(ProxyError::Json(error)),
    }
}

/// The two headers that are changed are told apart.
pub(crate) proof fn lemma_host_is_not_length()
    ensures
        "host"@ != "content-length"@,
{
    reveal_strlit("host");
    reveal_strlit("content-length");
    assert("host"@.len() != "content-length"@.len());
}

/// A request that is passed on keeps its method, its body and every header but
/// the host, which it loses.
pub proof fn law_passing_on_keeps_the_request(
    message: Message,
    native_host: Seq<char>,
    port: u16,
    sent: Message,
)
    requires
        retargeted(message, native_host, port) == Outcome::Send(sent),
    ensures
        sent.method == message.method,
        sent.body == message.body,
        !sent.headers.contains_key("host"@),
        forall|name: Seq<char>|
            name != "host"@ ==> {
                &&& #[trigger] sent.headers.contains_key(name) == message.headers.contains_key(name)
                &&& sent.headers.contains_key(name) ==> sent.headers[name] == message.headers[name]
            },
{
}

/// The native driver gets every request but a new session as the client wrote
/// it.
pub proof fn law_other_requests_are_passed_on(message: Message, native_host: Seq<char>, port: u16)
    requires
        !opens_session(message),
    ensures
        handled(message, native_host, port) == retargeted(message, native_host, port),
{
}

/// A new session reaches the native driver with its capabilities mapped, its
/// length stated, and every other header but the host as it was.
pub proof fn law_new_session_is_mapped(
    message: Message,
    native_host: Seq<char>,
    port: u16,
    sent: Message,
)
    requires
        opens_session(message),
        handled(message, native_host, port) == Outcome::Send(sent),
    ensures
        json::parsed(message.body) matches Some(json) && sent.body == json::rendered(
            capabilities::mapped_capabilities(json),
        ),
        sent.headers["content-length"@] == seq![
            text::ascii_bytes(text::decimal(sent.body.len())),
        ],
        sent.headers.contains_key("content-length"@),
        sent.method == message.method,
        !sent.headers.contains_key("host"@),
        forall|name: Seq<char>|
            name != "host"@ && name != "content-length"@ ==> {
                &&& #[trigger] sent.headers.contains_key(name) == message.headers.contains_key(name)
                &&& sent.headers.contains_key(name) ==> sent.headers[name] == message.headers[name]
            },
{
    lemma_host_is_not_length();
    let session = native_session(message, json::parsed(message.body)->0);
    law_passing_on_keeps_the_request(session, native_host, port, sent);
}

/// A new session whose body is no JSON document is refused, whatever else it
/// holds, with the message of the error in its body.
pub proof fn law_broken_session_is_refused(message: Message, native_host: Seq<char>, port: u16)
    requires
        opens_session(message),
        json::reading(message.body) is Err,
    ensures
        handled(message, native_host, port) == Outcome::Refuse(
            Refusal::Json(json::reading(message.body)->Err_0),
        ),
{
}

/// A request is known by its method, its address, its headers and its body, and
/// so is one that is sent on.
pub proof fn law_request_is_known_whole(request: ProxyRequest, relay: Relay)
    ensures
        request@.method == wire::method_text(request.method),
        request@.uri == wire::uri_parts(request.uri),
        request@.headers == wire::header_values(request.headers),
        request@.body == request.body@,
        match relay {
            Relay::Send(sent) => relay@ == Outcome::Send(sent@),
            Relay::Refuse(error) => relay@ == Outcome::Refuse(error@),
            Relay::Abort(fault) => relay@ == Outcome::Abort(fault),
        },
{
}

/// A refusal is known by what failed and by the message of the error.
pub proof fn law_refusal_keeps_the_message(error: ProxyError)
    ensures
        match error {
            ProxyError::Json(inner) => error@ == Refusal::Json(json::error_text(inner))
                && error@.message() == json::error_text(inner),
            ProxyError::HostText(_) => error@ == Refusal::HostText && error@.message()
                == "failed to convert header to a str"@,
            ProxyError::HostAuthority(inner) => error@ == Refusal::HostAuthority(
                wire::uri_error_text(inner),
            ) && error@.message() == wire::uri_error_text(inner),
            ProxyError::Target(inner) => error@ == Refusal::Target(wire::uri_error_text(inner))
                && error@.message() == wire::uri_error_text(inner),
        },
{
}

/// A request with a host header whose first value is visible text and accepted
/// as an authority, and with something to ask for, is never given up, whatever
/// its method, its other headers and its body. It is sent as it is, but for the
/// host, to the host and port of the driver; it is refused only where that is no
/// address.
pub proof fn law_good_request_is_sent(
    message: Message,
    native_host: Seq<char>,
    port: u16,
    host: Seq<u8>,
    target: Seq<char>,
)
    requires
        message.headers.contains_key("host"@),
        message.headers["host"@][0] == host,
        forall|i: int| 0 <= i < host.len() ==> 32 <= #[trigger] host[i] < 127 || host[i] == 9,
        wire::authority_refusal(Seq::new(host.len(), |i: int| host[i] as char)) is None,
        message.uri.path_and_query == Some(target),
    ensures
        fault_in(message) is None,
        retargeted(message, native_host, port) == match wire::parsed_uri(
            "http://"@ + native_host + ":"@ + text::decimal(port as nat) + target,
        ) {
            Ok(uri) => Outcome::Send(
                Message {
                    method: message.method,
                    uri,
                    headers: message.headers.remove("host"@),
                    body: message.body,
                },
            ),
            Err(reason) => Outcome::Refuse(Refusal::Target(reason)),
        },
{
    text::law_ascii_place_by_place(Seq::empty(), host);
}

/// Without a host header a request is given up, and with a good one but nothing
/// to ask for; with one that is no visible text or no authority it is refused,
/// the latter with the message of the error.
pub proof fn law_bad_request_is_not_sent(message: Message, native_host: Seq<char>, port: u16)
    ensures
        ({
            let host = message.headers["host"@][0];
            let shown = Seq::new(host.len(), |i: int| host[i] as char);
            let outcome = retargeted(message, native_host, port);
            let visible = forall|i: int|
                0 <= i < host.len() ==> 32 <= #[trigger] host[i] < 127 || host[i] == 9;
            if !message.headers.contains_key("host"@) {
                outcome == Outcome::Abort(Fault::NoHost) && fault_in(message) == Some(Fault::NoHost)
            } else if !visible {
                outcome == Outcome::Refuse(Refusal::HostText) && fault_in(message) is None
            } else {
                match wire::authority_refusal(shown) {
                    Some(reason) => outcome == Outcome::Refuse(Refusal::HostAuthority(reason))
                        && fault_in(message) is None,
                    None => message.uri.path_and_query is None ==> outcome == Outcome::Abort(
                        Fault::NoTarget,
                    ) && fault_in(message) == Some(Fault::NoTarget),
                }
            }
        }),
{
    let host = message.headers["host"@][0];
    text::law_ascii_place_by_place(Seq::empty(), host);
    assert((forall|i: int|
        0 <= i < host.len() ==> 32 <= #[trigger] host[i] < 127 || host[i] == 9) <==> (forall|i: int|
        0 <= i < host.len() ==> wire::visible(#[trigger] host[i])));
}

/// The native driver is sent every request but a `POST` to `/session` as any
/// request is passed on. Such a `POST` is refused where its body is no JSON text;
/// elsewhere it is passed on with the mapped document in its place, and its
/// length in bytes as the one value of its length header.
pub proof fn law_native_driver_gets_every_request(
    message: Message,
    native_host: Seq<char>,
    port: u16,
)
    ensures
        message.method != "POST"@ || message.uri.path != "/session"@ ==> handled(
            message,
            native_host,
            port,
        ) == retargeted(message, native_host, port),
        message.method == "POST"@ && message.uri.path == "/session"@ ==> handled(
            message,
            native_host,
            port,
        ) == match json::reading(message.body) {
            Err(reason) => Outcome::Refuse(Refusal::Json(reason)),
            Ok(json) => {
                let body = json::rendered(capabilities::mapped_capabilities(json));
                let length = text::decimal(body.len());
                retargeted(
                    Message {
                        method: message.method,
                        uri: message.uri,
                        headers: message.headers.insert(
                            "content-length"@,
                            seq![Seq::new(length.len(), |i: int| length[i] as u8)],
                        ),
                        body,
                    },
                    native_host,
                    port,
                )
            },
        },
{
    if let Ok(json) = json::reading(message.body) {
        let body = json::rendered(capabilities::mapped_capabilities(json));
        text::law_ascii_place_by_place(text::decimal(body.len()), Seq::empty());
    }
}

/// A session in the native driver's form has the mapped document as its body and
/// its length in bytes as the one value of its length header; nothing else
/// changes.
pub proof fn law_session_gets_the_mapped_document(message: Message, json: Json)
    ensures
        ({
            let session = native_session(message, json);
            let length = text::decimal(session.body.len());
            &&& session.method == message.method
            &&& session.uri == message.uri
            &&& session.body == json::rendered(capabilities::mapped_capabilities(json))
            &&& session.headers == message.headers.insert(
                "content-length"@,
                seq![Seq::new(length.len(), |i: int| length[i] as u8)],
            )
        }),
{
    let body = json::rendered(capabilities::mapped_capabilities(json));
    text::law_ascii_place_by_place(text::decimal(body.len()), Seq::empty());
}

/// A new session is a `POST` to `/session`, and nothing else is.
pub proof fn law_new_session_is_a_post(message: Message)
    ensures
        opens_session(message) <==> message.method == "POST"@ && message.uri.path == "/session"@,
        forall|method: Seq<char>, path: Seq<char>| #[trigger]
            new_session_call(method, path) <==> method == "POST"@ && path == "/session"@,
{
}

/// The length of a body is the one value of its header, and everything else
/// stays.
pub proof fn law_length_is_stated(message: Message)
    ensures
        ({
            let stated = with_length(message);
            let length = text::decimal(message.body.len());
            &&& stated.method == message.method
            &&& stated.uri == message.uri
            &&& stated.body == message.body
            &&& stated.headers == message.headers.insert(
                "content-length"@,
                seq![Seq::new(length.len(), |i: int| length[i] as u8)],
            )
        }),
{
    text::law_ascii_place_by_place(text::decimal(message.body.len()), Seq::empty());
}

/// Room is wanting only for a new session with more than 6553 header names.
pub proof fn law_ordinary_requests_have_room(message: Message)
    ensures
        crowded(message) <==> message.headers.len() > 6553,
        crowded_session(message) ==> message.headers.len() > 6553 && message.method == "POST"@
            && message.uri.path == "/session"@,
{
}

/// A driver is addressed by `http`, its host and its port in decimal notation,
/// and then what it is asked for.
pub proof fn law_driver_address(host: Seq<char>, port: u16, target: Seq<char>)
    ensures
        driver_uri(host, port, target) == "http://"@ + host + ":"@ + text::decimal(port as nat)
            + target,
{
}

/// An address that is the driver's has its scheme, host and port, and the path
/// and query of the request.
pub proof fn law_driver_is_reached(
    message: Message,
    native_host: Seq<char>,
    port: u16,
    target: Seq<char>,
    uri: UriParts,
)
    requires
        message.uri.path_and_query == Some(target),
        target != seq!['*'],
        forall|i: int|
            0 <= i < native_host.len() ==> #[trigger] native_host[i] != '/' && native_host[i] != '?'
                && native_host[i] != '#',
        well_addressed(message, native_host, port, uri),
    ensures
        uri.scheme == Some("http"@),
        uri.authority == Some(native_host + seq![':'] + text::decimal(port as nat)),
        uri.path_and_query == Some(target),
{
}

} // verus!
