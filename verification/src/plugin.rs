//! Sessions with the plugin inside an application.
//!
//! The application runs only while a session does: a new session launches it,
//! the deletion of the session terminates it. What is done for a request is a
//! run through [`PluginPhase`]s. [`handle_plugin`] takes the first step and
//! [`plugin_step`] each further one: it is told what came of the last action
//! and says what to do next.

use vstd::prelude::*;

use crate::args::Args;
use crate::capabilities;
use crate::command;
use crate::command::{Command, CommandPlan, Term};
use crate::json;
use crate::json::Json;
use crate::request;
use crate::request::{Fault, Message, Outcome, ProxyError, ProxyRequest, Refusal, Relay};
use crate::text;
use crate::wire;

verus! {

/// A response of the program's own.
pub struct ErrorReply {
    pub status: u16,
    pub headers: Vec<(String, String)>,
    pub body: Vec<u8>,
}

/// A response of the program's own, as plain values.
#[verifier::ext_equal]
pub struct Reply {
    pub status: int,
    pub headers: Seq<(Seq<char>, Seq<char>)>,
    pub body: Seq<u8>,
}

impl View for ErrorReply {
    type V = Reply;

    open spec fn view(&self) -> Reply {
        Reply {
            status: self.status as int,
            headers: self.headers@.map_values(|pair: (String, String)| (pair.0@, pair.1@)),
            body: self.body@,
        }
    }
}

/// A WebDriver error, as a JSON document.
pub open spec fn error_document(error: Seq<char>, message: Seq<char>) -> Json {
    Json::Object(
        map![
            "value"@ => Json::Object(
                map!["error"@ => Json::Text(error), "message"@ => Json::Text(message)],
            ),
        ],
    )
}

/// The response that carries a JSON text about an error.
pub open spec fn error_carrier(body: Seq<u8>) -> Reply {
    Reply {
        status: 500,
        headers: seq![
            ("Content-Type"@, "application/json; charset=utf-8"@),
            ("content-length"@, text::decimal(body.len())),
        ],
        body,
    }
}

/// The response to a request that failed.
pub open spec fn error_reply(error: Seq<char>, message: Seq<char>) -> Reply {
    error_carrier(json::rendered(error_document(error, message)))
}

/// Both texts of a WebDriver error can be found in its document, as they were.
pub proof fn law_error_texts_are_found(error: Seq<char>, message: Seq<char>)
    ensures
        json::field(error_document(error, message), "value"@) matches Some(value) && {
            &&& json::field(value, "error"@) == Some(Json::Text(error))
            &&& json::field(value, "message"@) == Some(Json::Text(message))
        },
{
    reveal_strlit("error");
    reveal_strlit("message");
    assert("error"@.len() != "message"@.len());
}

/// Writes the response that carries a JSON text about an error.
pub fn carry_error(body: Vec<u8>) -> (reply: ErrorReply)
    ensures
        reply@ == error_carrier(body@),
{
    let mut headers: Vec<(String, String)> = Vec::new();
    headers.push(("Content-Type".to_owned(), "application/json; charset=utf-8".to_owned()));
    headers.push(("content-length".to_owned(), text::to_decimal(body.len() as u64)));
    let reply = ErrorReply { status: 500, headers, body };
    assert(reply@.headers =~= error_carrier(body@).headers);
    reply
}

/// Writes the response to a request that failed. Its body reads back as the
/// document of the error.
pub fn error_response(error: &str, message: &str) -> (reply: ErrorReply)
    ensures
        reply@ == error_reply(error@, message@),
        json::parsed(reply@.body) == Some(error_document(error@, message@)),
{
    let mut inner: serde_json::Map<String, serde_json::Value> = serde_json::Map::new();
    inner.insert("error".to_owned(), json::text_value(error.to_owned()));
    inner.insert("message".to_owned(), json::text_value(message.to_owned()));
    let mut outer: serde_json::Map<String, serde_json::Value> = serde_json::Map::new();
    assert(json::members(inner) =~= json::field(
        error_document(error@, message@),
        "value"@,
    )->0->Object_0);
    outer.insert("value".to_owned(), json::object_value(inner));
    let document: serde_json::Value = json::object_value(outer);
    assert(json::document(document) =~= error_document(error@, message@));
    proof {
        reveal_with_fuel(json::shallow, 3);
        reveal_with_fuel(json::integral, 3);
    }
    let body: Vec<u8> = json::render(&document).unwrap();
    carry_error(body)
}

/// What is remembered between requests.
#[derive(Clone, Copy, Debug, PartialEq, Eq, Structural)]
pub struct PluginState {
    /// Whether an application was launched and not seen off.
    pub app_running: bool,
}

impl PluginState {
    /// Nothing was launched yet.
    pub fn new() -> (state: PluginState)
        ensures
            !state.app_running,
    {
        PluginState { app_running: false }
    }
}

/// How long an application may take until its plugin answers, in seconds.
pub const READY_TIMEOUT: u64 = 30;

/// Where a request stands.
pub enum PluginPhase {
    /// A new session waits for the state, to launch the application.
    Locking { request: ProxyRequest, app: String },
    /// It waits for the application of an earlier session to be killed.
    Killing { request: ProxyRequest, app: String, state: PluginState },
    /// It waits for its application to be launched.
    Launching { request: ProxyRequest, state: PluginState },
    /// It waits for the state to be given back.
    Launched { request: ProxyRequest },
    /// It waits for the plugin to be ready.
    Waiting { request: ProxyRequest },
    /// It was not launched, and waits for the state to be given back.
    Failing { reply: ErrorReply },
    /// A request waits for its response, and may end the session.
    Sending { closes: bool },
    /// The end of the session waits for the state.
    Closing,
    /// It waits for the application to be killed.
    Ending,
    /// It waits for the state to be given back.
    Ended,
    /// Nothing is left to do.
    Done,
}

/// What came of an action.
pub enum PluginEvent {
    /// The state is held, and is this.
    Locked(PluginState),
    /// The state was given back.
    Unlocked,
    /// The application was told to stop, whether it did or not.
    Killed,
    /// The application runs.
    Launched,
    /// The application does not run, for this reason.
    LaunchFailed(String),
    /// The plugin answered in time, or not.
    Ready(bool),
    /// The plugin's response came, or the failure to get one.
    Responded,
}

/// What to do next.
pub enum PluginAction {
    /// Take hold of the state.
    Lock,
    /// Make this the state, and give it back.
    Unlock(PluginState),
    /// Kill the application.
    Kill,
    /// Launch the application.
    Launch(CommandPlan<'static>),
    /// Wait for the plugin, for so many seconds.
    AwaitPlugin(u64),
    /// Send this to the plugin.
    Send(ProxyRequest),
    /// Answer with what the plugin answered.
    Return,
    /// Answer with this.
    Reply(ErrorReply),
    /// Refuse the request.
    Refuse(ProxyError),
    /// Give the request up.
    Abort(Fault),
}

/// Where a request stands, as plain values.
#[verifier::ext_equal]
pub enum Phase {
    Locking { request: Message, app: Seq<char> },
    Killing { request: Message, app: Seq<char>, state: PluginState },
    Launching { request: Message, state: PluginState },
    Launched { request: Message },
    Waiting { request: Message },
    Failing { reply: Reply },
    Sending { closes: bool },
    Closing,
    Ending,
    Ended,
    Done,
}

/// What came of an action, as plain values.
pub enum Event {
    Locked(PluginState),
    Unlocked,
    Killed,
    Launched,
    LaunchFailed(Seq<char>),
    Ready(bool),
    Responded,
}

/// What to do next, as plain values.
#[verifier::ext_equal]
pub enum Action {
    Lock,
    Unlock(PluginState),
    Kill,
    Launch(Command),
    AwaitPlugin(u64),
    Send(Message),
    Return,
    Reply(Reply),
    Refuse(Refusal),
    Abort(Fault),
}

impl View for PluginPhase {
    type V = Phase;

    open spec fn view(&self) -> Phase {
        match self {
            PluginPhase::Locking { request, app } => Phase::Locking {
                request: request@,
                app: app@,
            },
            PluginPhase::Killing { request, app, state } => Phase::Killing {
                request: request@,
                app: app@,
                state: *state,
            },
            PluginPhase::Launching { request, state } => Phase::Launching {
                request: request@,
                state: *state,
            },
            PluginPhase::Launched { request } => Phase::Launched { request: request@ },
            PluginPhase::Waiting { request } => Phase::Waiting { request: request@ },
            PluginPhase::Failing { reply } => Phase::Failing { reply: reply@ },
            PluginPhase::Sending { closes } => Phase::Sending { closes: *closes },
            PluginPhase::Closing => Phase::Closing,
            PluginPhase::Ending => Phase::Ending,
            PluginPhase::Ended => Phase::Ended,
            PluginPhase::Done => Phase::Done,
        }
    }
}

impl View for PluginEvent {
    type V = Event;

    open spec fn view(&self) -> Event {
        match self {
            PluginEvent::Locked(state) => Event::Locked(*state),
            PluginEvent::Unlocked => Event::Unlocked,
            PluginEvent::Killed => Event::Killed,
            PluginEvent::Launched => Event::Launched,
            PluginEvent::LaunchFailed(reason) => Event::LaunchFailed(reason@),
            PluginEvent::Ready(ready) => Event::Ready(*ready),
            PluginEvent::Responded => Event::Responded,
        }
    }
}

impl View for PluginAction {
    type V = Action;

    open spec fn view(&self) -> Action {
        match self {
            PluginAction::Lock => Action::Lock,
            PluginAction::Unlock(state) => Action::Unlock(*state),
            PluginAction::Kill => Action::Kill,
            PluginAction::Launch(plan) => Action::Launch(plan@),
            PluginAction::AwaitPlugin(seconds) => Action::AwaitPlugin(*seconds),
            PluginAction::Send(request) => Action::Send(request@),
            PluginAction::Return => Action::Return,
            PluginAction::Reply(reply) => Action::Reply(reply@),
            PluginAction::Refuse(error) => Action::Refuse(error@),
            PluginAction::Abort(fault) => Action::Abort(*fault),
        }
    }
}

/// Whether a path is that of one session: `/session/` and then its name.
pub open spec fn session_path(path: Seq<char>) -> bool {
    &&& path.len() >= 9
    &&& path.take(9) == "/session/"@
    &&& !path.skip(9).contains('/')
}

/// Whether a method and a path end a session.
pub open spec fn deletion_call(method: Seq<char>, path: Seq<char>) -> bool {
    method == "DELETE"@ && session_path(path)
}

/// Whether a request ends a session.
pub open spec fn closes_session(message: Message) -> bool {
    deletion_call(message.method, message.uri.path)
}

/// Sending a request to the plugin.
pub open spec fn sending(
    message: Message,
    closes: bool,
    native_host: Seq<char>,
    port: u16,
) -> (Phase, Action) {
    match request::retargeted(message, native_host, port) {
        Outcome::Send(sent) => (Phase::Sending { closes }, Action::Send(sent)),
        Outcome::Refuse(refusal) => (Phase::Done, Action::Refuse(refusal)),
        Outcome::Abort(fault) => (Phase::Done, Action::Abort(fault)),
    }
}

/// The first step for a new session that names an application, or none.
pub open spec fn session_step(
    message: Message,
    app: Option<Seq<char>>,
    native_host: Seq<char>,
    port: u16,
) -> (Phase, Action) {
    match app {
        Some(app) => (Phase::Locking { request: message, app }, Action::Lock),
        None => sending(request::with_length(message), false, native_host, port),
    }
}

/// The first step for a request.
pub open spec fn first_step(message: Message, native_host: Seq<char>, port: u16) -> (
    Phase,
    Action,
) {
    if !request::opens_session(message) {
        sending(message, closes_session(message), native_host, port)
    } else {
        match json::reading(message.body) {
            Err(reason) => (Phase::Done, Action::Refuse(Refusal::Json(reason))),
            Ok(json) => session_step(message, capabilities::app_path(json), native_host, port),
        }
    }
}

/// Whether an event is one that a request can meet where it stands.
pub open spec fn expected(phase: Phase, event: Event) -> bool {
    match phase {
        Phase::Locking { .. } | Phase::Closing => event is Locked,
        Phase::Killing { .. } | Phase::Ending => event is Killed,
        Phase::Launching { .. } => event is Launched || event is LaunchFailed,
        Phase::Launched { .. } | Phase::Failing { .. } | Phase::Ended => event is Unlocked,
        Phase::Waiting { .. } => event is Ready,
        Phase::Sending { .. } => event is Responded,
        Phase::Done => false,
    }
}

/// The step for a request after the first.
pub open spec fn next_step(phase: Phase, event: Event, native_host: Seq<char>, port: u16) -> (
    Phase,
    Action,
) {
    match (phase, event) {
        (Phase::Locking { request, app }, Event::Locked(state)) => if state.app_running {
            (Phase::Killing { request, app, state }, Action::Kill)
        } else {
            (Phase::Launching { request, state }, Action::Launch(command::app_command(app)))
        },
        (Phase::Killing { request, app, state }, _) => (
            Phase::Launching { request, state },
            Action::Launch(command::app_command(app)),
        ),
        (Phase::Launching { request, .. }, Event::Launched) => (
            Phase::Launched { request },
            Action::Unlock(PluginState { app_running: true }),
        ),
        (Phase::Launching { state, .. }, Event::LaunchFailed(reason)) => (
            Phase::Failing {
                reply: error_reply(
                    "session not created"@,
                    "Failed to launch Tauri app: "@ + reason,
                ),
            },
            Action::Unlock(state),
        ),
        (Phase::Launched { request }, _) => (
            Phase::Waiting { request },
            Action::AwaitPlugin(READY_TIMEOUT),
        ),
        (Phase::Failing { reply }, _) => (Phase::Done, Action::Reply(reply)),
        (Phase::Waiting { request }, Event::Ready(true)) => sending(
            request::with_length(request),
            false,
            native_host,
            port,
        ),
        (Phase::Waiting { .. }, _) => (
            Phase::Done,
            Action::Reply(
                error_reply("session not created"@, "Plugin server not ready after timeout"@),
            ),
        ),
        (Phase::Sending { closes: true }, _) => (Phase::Closing, Action::Lock),
        (Phase::Closing, Event::Locked(PluginState { app_running: true })) => (
            Phase::Ending,
            Action::Kill,
        ),
        (Phase::Closing, _) | (Phase::Ending, _) => (
            Phase::Ended,
            Action::Unlock(PluginState { app_running: false }),
        ),
        _ => (Phase::Done, Action::Return),
    }
}

/// Whether a step may fail for want of room: where it states the length of a
/// crowded request.
pub open spec fn crowded_step(phase: Phase, event: Event) -> bool {
    phase matches Phase::Waiting { request } && event == Event::Ready(true) && request::crowded(
        request,
    )
}

/// Whether the first step may fail for want of room.
pub open spec fn crowded_first_step(message: Message) -> bool {
    &&& request::opens_session(message)
    &&& json::parsed(message.body) matches Some(json) && capabilities::app_path(json) is None
    &&& request::crowded(message)
}

/// Whether a path is that of one session.
fn is_session_path(path: &str) -> (answer: bool)
    ensures
        answer == session_path(path@),
{
    let length: usize = path.unicode_len();
    if length < 9 {
        return false;
    }
    if !text::same_text(path.substring_char(0, 9), "/session/") {
        return false;
    }
    let ghost name = path@.skip(9);
    let mut i: usize = 9;
    while i < length
        invariant
            9 <= i <= length,
            length == path@.len(),
            name == path@.skip(9),
            forall|k: int| 0 <= k < i - 9 ==> name[k] != '/',
        decreases length - i,
    {
        if path.get_char(i) == '/' {
            assert(name[i - 9] == '/');
            return false;
        }
        i += 1;
    }
    true
}

/// Whether a method and a path end a session.
pub fn is_deletion_call(method: &str, path: &str) -> (answer: bool)
    ensures
        answer == deletion_call(method@, path@),
{
    text::same_text(method, "DELETE") && is_session_path(path)
}

/// Whether a request ends a session.
pub fn is_session_delete(request: &ProxyRequest) -> (answer: bool)
    ensures
        answer == closes_session(request@),
        answer ==> request@.uri.path_and_query is Some && !request::is_asterisk(request@.uri),
{
    proof {
        reveal_strlit("/session/");
        wire::lemma_asterisk_path();
    }
    is_deletion_call(request.method.as_str(), request.uri.path())
}

/// Sends a request to the plugin.
fn send(request: ProxyRequest, closes: bool, args: &Args) -> (step: (PluginPhase, PluginAction))
    ensures
        (step.0@, step.1@) == sending(request@, closes, args.native_host@, args.native_port),
        step.1 matches PluginAction::Send(sent) ==> request::well_addressed(
            request@,
            args.native_host@,
            args.native_port,
            sent@.uri,
        ),
{
    match request::relay_to_plugin(request, args) {
        Relay::Send(sent) => (PluginPhase::Sending { closes }, PluginAction::Send(sent)),
        Relay::Refuse(error) => (PluginPhase::Done, PluginAction::Refuse(error)),
        Relay::Abort(fault) => (PluginPhase::Done, PluginAction::Abort(fault)),
    }
}

/// Sends a new session to the plugin, its length stated.
fn send_session(request: ProxyRequest, args: &Args) -> (step: (PluginPhase, PluginAction))
    ensures
        (step.0@, step.1@) == sending(
            request::with_length(request@),
            false,
            args.native_host@,
            args.native_port,
        ) || (request::crowded(request@) && (step.0@, step.1@) == (
            Phase::Done,
            Action::Abort(Fault::NoRoom),
        )),
        step.1 matches PluginAction::Send(sent) ==> request::well_addressed(
            request@,
            args.native_host@,
            args.native_port,
            sent@.uri,
        ),
{
    proof {
        request::lemma_host_is_not_length();
    }
    match request::set_content_length(request) {
        Ok(request) => send(request, false, args),
        Err(fault) => (PluginPhase::Done, PluginAction::Abort(fault)),
    }
}

/// Takes the first step for a new session that names an application, or none.
pub fn begin_session(request: ProxyRequest, app: Option<String>, args: &Args) -> (step: (
    PluginPhase,
    PluginAction,
))
    ensures
        ({
            let path = match app {
                Some(app) => Some(app@),
                None => None,
            };
            (step.0@, step.1@) == session_step(
                request@,
                path,
                args.native_host@,
                args.native_port,
            ) || app is None && request::crowded(request@) && (step.0@, step.1@) == (
                Phase::Done,
                Action::Abort(Fault::NoRoom),
            )
        }),
        step.1 matches PluginAction::Send(sent) ==> request::well_addressed(
            request@,
            args.native_host@,
            args.native_port,
            sent@.uri,
        ),
{
    match app {
        Some(app) => (PluginPhase::Locking { request, app }, PluginAction::Lock),
        None => send_session(request, args),
    }
}

/// Takes the first step for a request.
pub fn handle_plugin(request: ProxyRequest, args: &Args) -> (step: (PluginPhase, PluginAction))
    ensures
        (step.0@, step.1@) == first_step(request@, args.native_host@, args.native_port)
            || crowded_first_step(request@) && (step.0@, step.1@) == (Phase::Done, Action::Abort(Fault::NoRoom)),
        step.1 matches PluginAction::Send(sent) ==> request::well_addressed(
            request@,
            args.native_host@,
            args.native_port,
            sent@.uri,
        ),
        request::opens_session(request@) || closes_session(request@) ==> !request::is_asterisk(
            request@.uri,
        ) && step.1@ != Action::Abort(Fault::NoTarget),
{
    if !request::is_new_session(&request) {
        let closes: bool = is_session_delete(&request);
        return send(request, closes, args);
    }
    let json: serde_json::Value = match json::parse(request.body.as_slice()) {
        Ok(json) => json,
        Err(error) => return (PluginPhase::Done, PluginAction::Refuse(ProxyError::Json(error))),
    };
    let app: Option<String> = capabilities::extract_app_path(&json);
    begin_session(request, app, args)
}

/// Whether an event is one that a request can meet where it stands.
pub fn is_expected(phase: &PluginPhase, event: &PluginEvent) -> (answer: bool)
    ensures
        answer == expected(phase@, event@),
{
    match (phase, event) {
        (PluginPhase::Locking { .. }, PluginEvent::Locked(_)) => true,
        (PluginPhase::Killing { .. }, PluginEvent::Killed) => true,
        (PluginPhase::Launching { .. }, PluginEvent::Launched) => true,
        (PluginPhase::Launching { .. }, PluginEvent::LaunchFailed(_)) => true,
        (PluginPhase::Launched { .. }, PluginEvent::Unlocked) => true,
        (PluginPhase::Failing { .. }, PluginEvent::Unlocked) => true,
        (PluginPhase::Waiting { .. }, PluginEvent::Ready(_)) => true,
        (PluginPhase::Sending { .. }, PluginEvent::Responded) => true,
        (PluginPhase::Closing, PluginEvent::Locked(_)) => true,
        (PluginPhase::Ending, PluginEvent::Killed) => true,
        (PluginPhase::Ended, PluginEvent::Unlocked) => true,
        _ => false,
    }
}

/// Takes a further step for a request.
pub fn plugin_step(phase: PluginPhase, event: PluginEvent, args: &Args) -> (step: (
    PluginPhase,
    PluginAction,
))
    requires
        expected(phase@, event@),
    ensures
        (step.0@, step.1@) == next_step(phase@, event@, args.native_host@, args.native_port)
            || crowded_step(phase@, event@) && (step.0@, step.1@) == (Phase::Done, Action::Abort(Fault::NoRoom)),
        step.1 matches PluginAction::Send(sent) ==> (phase matches PluginPhase::Waiting { request }
            ==> request::well_addressed(
            request@,
            args.native_host@,
            args.native_port,
            sent@.uri,
        )),
        step.0 matches PluginPhase::Failing { reply } ==> (event matches PluginEvent::LaunchFailed(
            reason,
        ) && json::parsed(reply@.body) == Some(
            error_document("session not created"@, "Failed to launch Tauri app: "@ + reason@),
        )),
        step.1 matches PluginAction::Reply(reply) ==> phase is Waiting ==> json::parsed(reply@.body)
            == Some(
            error_document("session not created"@, "Plugin server not ready after timeout"@),
        ),
{
    match (phase, event) {
        (PluginPhase::Locking { request, app }, PluginEvent::Locked(state)) => {
            if state.app_running {
                (PluginPhase::Killing { request, app, state }, PluginAction::Kill)
            } else {
                (
                    PluginPhase::Launching { request, state },
                    PluginAction::Launch(command::launch_app(app)),
                )
            }
        },
        (PluginPhase::Killing { request, app, state }, _) => (
            PluginPhase::Launching { request, state },
            PluginAction::Launch(command::launch_app(app)),
        ),
        (PluginPhase::Launching { request, .. }, PluginEvent::Launched) => (
            PluginPhase::Launched { request },
            PluginAction::Unlock(PluginState { app_running: true }),
        ),
        (PluginPhase::Launching { state, .. }, PluginEvent::LaunchFailed(reason)) => {
            let message: String = "Failed to launch Tauri app: ".to_owned().concat(reason.as_str());
            (
                PluginPhase::Failing {
                    reply: error_response("session not created", message.as_str()),
                },
                PluginAction::Unlock(state),
            )
        },
        (PluginPhase::Launched { request }, _) => (
            PluginPhase::Waiting { request },
            PluginAction::AwaitPlugin(READY_TIMEOUT),
        ),
        (PluginPhase::Failing { reply }, _) => (PluginPhase::Done, PluginAction::Reply(reply)),
        (PluginPhase::Waiting { request }, PluginEvent::Ready(true)) => send_session(request, args),
        (PluginPhase::Waiting { .. }, _) => (
            PluginPhase::Done,
            PluginAction::Reply(
                error_response("session not created", "Plugin server not ready after timeout"),
            ),
        ),
        (PluginPhase::Sending { closes }, _) => {
            if closes {
                (PluginPhase::Closing, PluginAction::Lock)
            } else {
                (PluginPhase::Done, PluginAction::Return)
            }
        },
        (PluginPhase::Closing, PluginEvent::Locked(state)) => {
            if state.app_running {
                (PluginPhase::Ending, PluginAction::Kill)
            } else {
                (PluginPhase::Ended, PluginAction::Unlock(PluginState { app_running: false }))
            }
        },
        (PluginPhase::Ending, _) => (
            PluginPhase::Ended,
            PluginAction::Unlock(PluginState { app_running: false }),
        ),
        _ => (PluginPhase::Done, PluginAction::Return),
    }
}

/// A new session that names an application launches it, ready to be driven,
/// once the application of an earlier session was killed. When the plugin is
/// ready the session goes there as it came, but for its stated length.
pub proof fn law_new_session_launches_the_app(
    message: Message,
    native_host: Seq<char>,
    port: u16,
    app: Seq<char>,
    state: PluginState,
)
    requires
        request::opens_session(message),
        json::parsed(message.body) matches Some(json) && capabilities::app_path(json) == Some(app),
    ensures
        ({
            let (locking, lock) = first_step(message, native_host, port);
            let (held, first) = next_step(locking, Event::Locked(state), native_host, port);
            let (launching, launch) = if state.app_running {
                next_step(held, Event::Killed, native_host, port)
            } else {
                (held, first)
            };
            let (launched, unlock) = next_step(launching, Event::Launched, native_host, port);
            let (waiting, wait) = next_step(launched, Event::Unlocked, native_host, port);
            &&& lock == Action::Lock
            &&& state.app_running ==> first == Action::Kill
            &&& launch == Action::Launch(command::app_command(app))
            &&& unlock == Action::Unlock(PluginState { app_running: true })
            &&& wait == Action::AwaitPlugin(READY_TIMEOUT)
            &&& next_step(waiting, Event::Ready(true), native_host, port) == sending(
                request::with_length(message),
                false,
                native_host,
                port,
            )
        }),
{
}

/// Once a session had to wait, the plugin gets it only when it is ready.
pub proof fn law_session_waits_for_the_plugin(phase: Phase, event: Event, native_host: Seq<char>, port: u16)
    requires
        expected(phase, event),
        next_step(phase, event, native_host, port).1 is Send,
    ensures
        phase is Waiting,
        event == Event::Ready(true),
{
}

/// Whether as many applications run as the state can account for: one at most,
/// and none where it knows of none.
pub open spec fn accounted_for(running: nat, state: PluginState) -> bool {
    running <= 1 && (!state.app_running ==> running == 0)
}

/// How many applications run after an action and what came of it, if killing
/// one ends it.
pub open spec fn running_after(running: nat, action: Action, event: Event) -> nat {
    match (action, event) {
        (Action::Kill, _) => 0,
        (Action::Launch(_), Event::Launched) => running + 1,
        _ => running,
    }
}

/// A new session leaves one application running at most, whether its own could
/// be launched or not: every running application is accounted for in the state
/// that is given back.
pub proof fn law_one_app_at_a_time(
    message: Message,
    native_host: Seq<char>,
    port: u16,
    app: Seq<char>,
    state: PluginState,
    running: nat,
    launched: Event,
)
    requires
        accounted_for(running, state),
        launched is Launched || launched is LaunchFailed,
    ensures
        ({
            let locking = Phase::Locking { request: message, app };
            let (held, first) = next_step(locking, Event::Locked(state), native_host, port);
            let (launching, launch, left) = if state.app_running {
                let (launching, launch) = next_step(held, Event::Killed, native_host, port);
                (launching, launch, running_after(running, first, Event::Killed))
            } else {
                (held, first, running)
            };
            let (_, unlock) = next_step(launching, launched, native_host, port);
            &&& launch is Launch
            &&& unlock matches Action::Unlock(after)
            &&& accounted_for(running_after(left, launch, launched), after)
        }),
{
}

/// The deletion of a session goes to the plugin first; when the response has
/// come, the application is killed if one runs, none is accounted for any
/// more, and only then the client is answered.
pub proof fn law_deletion_terminates_the_app(message: Message, native_host: Seq<char>, port: u16, state: PluginState)
    requires
        closes_session(message),
        request::retargeted(message, native_host, port) is Send,
    ensures
        ({
            let (sending, send) = first_step(message, native_host, port);
            let (closing, lock) = next_step(sending, Event::Responded, native_host, port);
            let (held, first) = next_step(closing, Event::Locked(state), native_host, port);
            let (ended, unlock) = if state.app_running {
                next_step(held, Event::Killed, native_host, port)
            } else {
                (held, first)
            };
            &&& send is Send
            &&& lock == Action::Lock
            &&& state.app_running ==> first == Action::Kill
            &&& unlock == Action::Unlock(PluginState { app_running: false })
            &&& next_step(ended, Event::Unlocked, native_host, port) == (Phase::Done, Action::Return)
        }),
{
    reveal_strlit("DELETE");
    reveal_strlit("POST");
    assert("DELETE"@.len() != "POST"@.len());
}

/// The deletion of one session terminates the application that another request
/// launched: with the state that the launch gave back, the application is
/// killed, and the state that is given back knows of none.
pub proof fn law_deletion_ends_what_was_launched(
    session: Message,
    before: PluginState,
    native_host: Seq<char>,
    port: u16,
    state: PluginState,
)
    requires
        next_step(
            Phase::Launching { request: session, state: before },
            Event::Launched,
            native_host,
            port,
        ).1 == Action::Unlock(state),
    ensures
        ({
            let (held, kill) = next_step(Phase::Closing, Event::Locked(state), native_host, port);
            let (_, unlock) = next_step(held, Event::Killed, native_host, port);
            &&& kill == Action::Kill
            &&& unlock == Action::Unlock(PluginState { app_running: false })
        }),
{
}

/// The deletion of a session leaves no application running, and none accounted
/// for, if all were accounted for before.
pub proof fn law_deletion_leaves_no_app(native_host: Seq<char>, port: u16, state: PluginState, running: nat)
    requires
        accounted_for(running, state),
    ensures
        ({
            let (held, first) = next_step(Phase::Closing, Event::Locked(state), native_host, port);
            let (unlock, left) = if state.app_running {
                let (_, unlock) = next_step(held, Event::Killed, native_host, port);
                (unlock, running_after(running, first, Event::Killed))
            } else {
                (first, running)
            };
            &&& left == 0
            &&& unlock == Action::Unlock(PluginState { app_running: false })
        }),
{
}

/// No other request touches the application: its response is returned as soon
/// as it has come.
pub proof fn law_other_requests_leave_the_app(message: Message, native_host: Seq<char>, port: u16)
    requires
        !request::opens_session(message),
        !closes_session(message),
        request::retargeted(message, native_host, port) is Send,
    ensures
        first_step(message, native_host, port).1 is Send,
        next_step(first_step(message, native_host, port).0, Event::Responded, native_host, port) == (
            Phase::Done,
            Action::Return,
        ),
{
}

/// The plugin gets a request that needs no launch with the method, the body
/// and the headers that the client wrote, but for the host. Where it opens a
/// session, its length is stated.
pub proof fn law_plugin_gets_the_request(
    message: Message,
    native_host: Seq<char>,
    port: u16,
    sent: Message,
)
    requires
        first_step(message, native_host, port).1 == Action::Send(sent),
    ensures
        sent.body == message.body,
        sent.method == message.method,
        !sent.headers.contains_key("host"@),
        forall|name: Seq<char>|
            name != "host"@ && (name != "content-length"@ || !request::opens_session(message))
                ==> {
                &&& #[trigger] sent.headers.contains_key(name) == message.headers.contains_key(name)
                &&& sent.headers.contains_key(name) ==> sent.headers[name] == message.headers[name]
            },
        request::opens_session(message) ==> {
            &&& sent.headers.contains_key("content-length"@)
            &&& sent.headers["content-length"@] == seq![
                text::ascii_bytes(text::decimal(message.body.len())),
            ]
        },
{
    request::lemma_host_is_not_length();
}

/// The plugin of a launched application gets the session with the method, the
/// body and the headers that the client wrote, but for the host and the length.
pub proof fn law_launched_plugin_gets_the_session(message: Message, native_host: Seq<char>, port: u16, sent: Message)
    requires
        next_step(Phase::Waiting { request: message }, Event::Ready(true), native_host, port).1 == Action::Send(
            sent,
        ),
    ensures
        sent.body == message.body,
        sent.method == message.method,
        !sent.headers.contains_key("host"@),
        forall|name: Seq<char>|
            name != "host"@ && name != "content-length"@ ==> {
                &&& #[trigger] sent.headers.contains_key(name) == message.headers.contains_key(name)
                &&& sent.headers.contains_key(name) ==> sent.headers[name] == message.headers[name]
            },
        sent.headers.contains_key("content-length"@),
        sent.headers["content-length"@] == seq![
            text::ascii_bytes(text::decimal(message.body.len())),
        ],
{
    request::lemma_host_is_not_length();
}

/// Whether the state is held where a request stands: from when it was taken
/// until it was given back.
pub open spec fn holds_state(phase: Phase) -> bool {
    ||| phase is Killing
    ||| phase is Launching
    ||| phase is Launched
    ||| phase is Failing
    ||| phase is Ending
    ||| phase is Ended
}

/// While the state is held it is not waited for anything but a kill or a
/// launch before it is given back; nothing of this is done while it is not
/// held.
pub proof fn law_state_is_given_back(phase: Phase, event: Event, native_host: Seq<char>, port: u16)
    requires
        expected(phase, event),
    ensures
        ({
            let (after, action) = next_step(phase, event, native_host, port);
            &&& holds_state(after) <==> event is Locked || holds_state(phase) && !(event is Unlocked)
            &&& holds_state(after) <==> action is Kill || action is Launch || action is Unlock
            &&& event is Unlocked ==> holds_state(phase)
            &&& event is Locked ==> !holds_state(phase)
        }),
{
}

/// How many steps a request has before it at most.
pub open spec fn steps_left(phase: Phase) -> nat {
    match phase {
        Phase::Locking { .. } => 9,
        Phase::Killing { .. } => 8,
        Phase::Launching { .. } => 7,
        Phase::Launched { .. } => 6,
        Phase::Waiting { .. } => 5,
        Phase::Sending { .. } => 4,
        Phase::Closing => 3,
        Phase::Ending => 2,
        Phase::Ended => 1,
        Phase::Failing { .. } => 1,
        Phase::Done => 0,
    }
}

/// Whether an action answers the client, or gives the request up.
pub open spec fn answers(action: Action) -> bool {
    action is Return || action is Reply || action is Refuse || action is Abort
}

/// Every request is answered, and once: each step brings the end nearer, and
/// the one that reaches it answers.
pub proof fn law_every_request_is_answered(
    message: Message,
    phase: Phase,
    event: Event,
    native_host: Seq<char>,
    port: u16,
)
    requires
        expected(phase, event),
    ensures
        steps_left(next_step(phase, event, native_host, port).0) < steps_left(phase),
        next_step(phase, event, native_host, port).0 is Done <==> answers(next_step(phase, event, native_host, port).1),
        first_step(message, native_host, port).0 is Done <==> answers(first_step(message, native_host, port).1),
{
}

/// A failed request is answered with the status 500 and a JSON text that holds
/// both texts under `value` and nothing else; its headers are its type and its
/// length.
pub proof fn law_failure_is_a_webdriver_error(
    error: Seq<char>,
    message: Seq<char>,
    body: Seq<u8>,
    reply: ErrorReply,
)
    ensures
        error_reply(error, message).status == 500,
        error_reply(error, message).body == json::rendered(
            Json::Object(
                map![
                    "value"@ => Json::Object(
                        map!["error"@ => Json::Text(error), "message"@ => Json::Text(message)],
                    ),
                ],
            ),
        ),
        error_reply(error, message).headers == seq![
            ("Content-Type"@, "application/json; charset=utf-8"@),
            ("content-length"@, text::decimal(error_reply(error, message).body.len())),
        ],
        error_carrier(body).status == 500,
        error_carrier(body).body == body,
        error_carrier(body).headers == seq![
            ("Content-Type"@, "application/json; charset=utf-8"@),
            ("content-length"@, text::decimal(body.len())),
        ],
        reply@.status == reply.status,
        reply@.body == reply.body@,
        reply@.headers == Seq::new(
            reply.headers@.len(),
            |i: int| (reply.headers@[i].0@, reply.headers@[i].1@),
        ),
{
    assert(reply@.headers =~= Seq::new(
        reply.headers@.len(),
        |i: int| (reply.headers@[i].0@, reply.headers@[i].1@),
    ));
}

/// A path is that of one session where `/session/` is followed by a name of any
/// length without a slash, and nowhere else.
pub proof fn law_session_path_has_one_name(name: Seq<char>, path: Seq<char>, method: Seq<char>)
    ensures
        session_path("/session/"@ + name) <==> !name.contains('/'),
        deletion_call(method, "/session/"@ + name) <==> method == "DELETE"@ && !name.contains('/'),
        deletion_call(method, path) ==> method == "DELETE"@ && session_path(path),
        session_path(path) ==> exists|rest: Seq<char>|
            path == #[trigger] ("/session/"@ + rest) && !rest.contains('/'),
{
    reveal_strlit("/session/");
    let whole = "/session/"@ + name;
    assert(whole.take(9) =~= "/session/"@);
    assert(whole.skip(9) =~= name);
    if session_path(path) {
        assert(path =~= "/session/"@ + path.skip(9));
    }
}

/// A `DELETE` of `/session/` and any name without a slash, of whatever length,
/// ends the session: it goes to the plugin, and when the response has come the
/// state is taken, the application is killed where one runs, the state that is
/// given back knows of none, and then the client is answered.
pub proof fn law_delete_of_any_session_ends_it(
    message: Message,
    native_host: Seq<char>,
    port: u16,
    name: Seq<char>,
    sent: Message,
)
    requires
        message.method == "DELETE"@,
        message.uri.path == "/session/"@ + name,
        !name.contains('/'),
        request::retargeted(message, native_host, port) == Outcome::Send(sent),
    ensures
        closes_session(message),
        first_step(message, native_host, port) == (
            Phase::Sending { closes: true },
            Action::Send(sent),
        ),
        next_step(Phase::Sending { closes: true }, Event::Responded, native_host, port) == (
            Phase::Closing,
            Action::Lock,
        ),
        next_step(
            Phase::Closing,
            Event::Locked(PluginState { app_running: true }),
            native_host,
            port,
        ) == (Phase::Ending, Action::Kill),
        next_step(Phase::Ending, Event::Killed, native_host, port) == (
            Phase::Ended,
            Action::Unlock(PluginState { app_running: false }),
        ),
        next_step(
            Phase::Closing,
            Event::Locked(PluginState { app_running: false }),
            native_host,
            port,
        ) == (Phase::Ended, Action::Unlock(PluginState { app_running: false })),
        next_step(Phase::Ended, Event::Unlocked, native_host, port) == (
            Phase::Done,
            Action::Return,
        ),
{
    law_session_path_has_one_name(name, message.uri.path, message.method);
    reveal_strlit("DELETE");
    reveal_strlit("POST");
    assert("DELETE"@.len() != "POST"@.len());
}

/// A request that neither opens nor ends a session goes to the plugin, and its
/// response is returned at once.
pub proof fn law_any_other_request_is_only_passed_on(
    message: Message,
    native_host: Seq<char>,
    port: u16,
)
    requires
        message.method != "POST"@ || message.uri.path != "/session"@,
        message.method != "DELETE"@ || forall|name: Seq<char>|
            message.uri.path == #[trigger] ("/session/"@ + name) ==> name.contains('/'),
    ensures
        !closes_session(message),
        first_step(message, native_host, port) == match request::retargeted(
            message,
            native_host,
            port,
        ) {
            Outcome::Send(sent) => (Phase::Sending { closes: false }, Action::Send(sent)),
            Outcome::Refuse(refusal) => (Phase::Done, Action::Refuse(refusal)),
            Outcome::Abort(fault) => (Phase::Done, Action::Abort(fault)),
        },
        next_step(Phase::Sending { closes: false }, Event::Responded, native_host, port) == (
            Phase::Done,
            Action::Return,
        ),
{
    law_session_path_has_one_name(Seq::empty(), message.uri.path, message.method);
}

/// A request that opens no session and cannot be sent is answered at once with
/// what stands in its way.
pub proof fn law_unsent_request_is_answered_at_once(
    message: Message,
    native_host: Seq<char>,
    port: u16,
)
    requires
        message.method != "POST"@ || message.uri.path != "/session"@,
    ensures
        match request::retargeted(message, native_host, port) {
            Outcome::Send(sent) => first_step(message, native_host, port).1 == Action::Send(sent),
            Outcome::Refuse(refusal) => first_step(message, native_host, port) == (
                Phase::Done,
                Action::Refuse(refusal),
            ),
            Outcome::Abort(fault) => first_step(message, native_host, port) == (
                Phase::Done,
                Action::Abort(fault),
            ),
        },
{
}

/// A `POST` to `/session` is refused where its body is no JSON text. Where it
/// names no application it goes to the plugin at once, as it came but for its
/// length and its host.
pub proof fn law_session_without_application(
    message: Message,
    native_host: Seq<char>,
    port: u16,
)
    requires
        message.method == "POST"@,
        message.uri.path == "/session"@,
    ensures
        match json::reading(message.body) {
            Err(reason) => first_step(message, native_host, port) == (
                Phase::Done,
                Action::Refuse(Refusal::Json(reason)),
            ),
            Ok(json) => capabilities::app_path(json) is None ==> {
                let length = text::decimal(message.body.len());
                first_step(message, native_host, port) == match request::retargeted(
                    Message {
                        method: message.method,
                        uri: message.uri,
                        headers: message.headers.insert(
                            "content-length"@,
                            seq![Seq::new(length.len(), |i: int| length[i] as u8)],
                        ),
                        body: message.body,
                    },
                    native_host,
                    port,
                ) {
                    Outcome::Send(sent) => (Phase::Sending { closes: false }, Action::Send(sent)),
                    Outcome::Refuse(refusal) => (Phase::Done, Action::Refuse(refusal)),
                    Outcome::Abort(fault) => (Phase::Done, Action::Abort(fault)),
                }
            },
        },
{
    request::law_length_is_stated(message);
}

/// A session that names an application waits for the state, and holds the path
/// of that application; one that names none goes to the plugin at once, as it
/// came but for its length and its host.
pub proof fn law_session_begins(
    message: Message,
    native_host: Seq<char>,
    port: u16,
    app: Seq<char>,
)
    ensures
        session_step(message, Some(app), native_host, port) == (
            Phase::Locking { request: message, app },
            Action::Lock,
        ),
        ({
            let length = text::decimal(message.body.len());
            session_step(message, None, native_host, port) == match request::retargeted(
                Message {
                    method: message.method,
                    uri: message.uri,
                    headers: message.headers.insert(
                        "content-length"@,
                        seq![Seq::new(length.len(), |i: int| length[i] as u8)],
                    ),
                    body: message.body,
                },
                native_host,
                port,
            ) {
                Outcome::Send(sent) => (Phase::Sending { closes: false }, Action::Send(sent)),
                Outcome::Refuse(refusal) => (Phase::Done, Action::Refuse(refusal)),
                Outcome::Abort(fault) => (Phase::Done, Action::Abort(fault)),
            }
        }),
{
    request::law_length_is_stated(message);
}

/// A `POST` to `/session` that names an application takes the state, kills the
/// application that runs, if one does, launches its own by its path and gives the
/// state back. Then the plugin may take 30 seconds to be ready, and gets the
/// request as it came but for its length and its host.
pub proof fn law_session_with_an_application(
    message: Message,
    native_host: Seq<char>,
    port: u16,
    json: Json,
    app: Seq<char>,
    running: bool,
)
    requires
        message.method == "POST"@,
        message.uri.path == "/session"@,
        json::reading(message.body) == Ok::<Json, Seq<char>>(json),
        capabilities::app_path(json) == Some(app),
    ensures
        ({
            let state = PluginState { app_running: running };
            let launch = Action::Launch(
                Command {
                    program: Term::Text(app),
                    args: seq![],
                    env: seq![("TAURI_AUTOMATION"@, "true"@), ("TAURI_WEBVIEW_AUTOMATION"@, "true"@)],
                },
            );
            let locking = Phase::Locking { request: message, app };
            let launching = Phase::Launching { request: message, state };
            let waiting = Phase::Waiting { request: message };
            let length = text::decimal(message.body.len());
            &&& first_step(message, native_host, port) == (locking, Action::Lock)
            &&& if running {
                &&& next_step(locking, Event::Locked(state), native_host, port) == (
                    Phase::Killing { request: message, app, state },
                    Action::Kill,
                )
                &&& next_step(
                    Phase::Killing { request: message, app, state },
                    Event::Killed,
                    native_host,
                    port,
                ) == (launching, launch)
            } else {
                next_step(locking, Event::Locked(state), native_host, port) == (launching, launch)
            }
            &&& next_step(launching, Event::Launched, native_host, port) == (
                Phase::Launched { request: message },
                Action::Unlock(PluginState { app_running: true }),
            )
            &&& next_step(
                Phase::Launched { request: message },
                Event::Unlocked,
                native_host,
                port,
            ) == (waiting, Action::AwaitPlugin(30))
            &&& next_step(waiting, Event::Ready(true), native_host, port)
                == match request::retargeted(
                Message {
                    method: message.method,
                    uri: message.uri,
                    headers: message.headers.insert(
                        "content-length"@,
                        seq![Seq::new(length.len(), |i: int| length[i] as u8)],
                    ),
                    body: message.body,
                },
                native_host,
                port,
            ) {
                Outcome::Send(sent) => (Phase::Sending { closes: false }, Action::Send(sent)),
                Outcome::Refuse(refusal) => (Phase::Done, Action::Refuse(refusal)),
                Outcome::Abort(fault) => (Phase::Done, Action::Abort(fault)),
            }
        }),
{
    request::law_length_is_stated(message);
}

/// A launch that failed gives the state back as it was, and a plugin that is not
/// ready leaves it; both are answered with a `session not created` that says
/// which it was.
pub proof fn law_session_that_is_not_created(
    message: Message,
    native_host: Seq<char>,
    port: u16,
    state: PluginState,
    reason: Seq<char>,
)
    ensures
        ({
            let reply = error_reply(
                "session not created"@,
                "Failed to launch Tauri app: "@ + reason,
            );
            &&& next_step(
                Phase::Launching { request: message, state },
                Event::LaunchFailed(reason),
                native_host,
                port,
            ) == (Phase::Failing { reply }, Action::Unlock(state))
            &&& next_step(Phase::Failing { reply }, Event::Unlocked, native_host, port) == (
                Phase::Done,
                Action::Reply(reply),
            )
        }),
        next_step(Phase::Waiting { request: message }, Event::Ready(false), native_host, port) == (
            Phase::Done,
            Action::Reply(
                error_reply("session not created"@, "Plugin server not ready after timeout"@),
            ),
        ),
{
}

/// Room is wanting only for a new session with more than 6553 header names, when
/// it is sent to the plugin.
pub proof fn law_ordinary_sessions_have_room(message: Message, phase: Phase, event: Event)
    ensures
        crowded_first_step(message) ==> message.headers.len() > 6553 && message.method == "POST"@
            && message.uri.path == "/session"@,
        crowded_step(phase, event) ==> (phase matches Phase::Waiting { request }
            && request.headers.len() > 6553) && event == Event::Ready(true),
{
}

/// Each phase waits for what can come of its action, and for nothing else.
pub proof fn law_phases_wait_for_their_events(phase: Phase, event: Event)
    ensures
        expected(phase, event) <==> match event {
            Event::Locked(_) => phase is Locking || phase is Closing,
            Event::Killed => phase is Killing || phase is Ending,
            Event::Launched => phase is Launching,
            Event::LaunchFailed(_) => phase is Launching,
            Event::Unlocked => phase is Launched || phase is Failing || phase is Ended,
            Event::Ready(_) => phase is Waiting,
            Event::Responded => phase is Sending,
        },
{
}

/// A phase is known with the request, the path, the state and the reply that it
/// holds.
pub proof fn law_phase_is_known_whole(phase: PluginPhase)
    ensures
        match phase {
            PluginPhase::Locking { request, app } => phase@ == (Phase::Locking {
                request: request@,
                app: app@,
            }),
            PluginPhase::Killing { request, app, state } => phase@ == (Phase::Killing {
                request: request@,
                app: app@,
                state,
            }),
            PluginPhase::Launching { request, state } => phase@ == (Phase::Launching {
                request: request@,
                state,
            }),
            PluginPhase::Launched { request } => phase@ == (Phase::Launched { request: request@ }),
            PluginPhase::Waiting { request } => phase@ == (Phase::Waiting { request: request@ }),
            PluginPhase::Failing { reply } => phase@ == (Phase::Failing { reply: reply@ }),
            PluginPhase::Sending { closes } => phase@ == (Phase::Sending { closes }),
            PluginPhase::Closing => phase@ == Phase::Closing,
            PluginPhase::Ending => phase@ == Phase::Ending,
            PluginPhase::Ended => phase@ == Phase::Ended,
            PluginPhase::Done => phase@ == Phase::Done,
        },
{
}

/// An action is known with what it is done with, and an event with what came.
pub proof fn law_action_is_known_whole(action: PluginAction, event: PluginEvent)
    ensures
        match action {
            PluginAction::Lock => action@ == Action::Lock,
            PluginAction::Unlock(state) => action@ == Action::Unlock(state),
            PluginAction::Kill => action@ == Action::Kill,
            PluginAction::Launch(plan) => action@ == Action::Launch(plan@),
            PluginAction::AwaitPlugin(seconds) => action@ == Action::AwaitPlugin(seconds),
            PluginAction::Send(request) => action@ == Action::Send(request@),
            PluginAction::Return => action@ == Action::Return,
            PluginAction::Reply(reply) => action@ == Action::Reply(reply@),
            PluginAction::Refuse(error) => action@ == Action::Refuse(error@),
            PluginAction::Abort(fault) => action@ == Action::Abort(fault),
        },
        match event {
            PluginEvent::Locked(state) => event@ == Event::Locked(state),
            PluginEvent::Unlocked => event@ == Event::Unlocked,
            PluginEvent::Killed => event@ == Event::Killed,
            PluginEvent::Launched => event@ == Event::Launched,
            PluginEvent::LaunchFailed(reason) => event@ == Event::LaunchFailed(reason@),
            PluginEvent::Ready(ready) => event@ == Event::Ready(ready),
            PluginEvent::Responded => event@ == Event::Responded,
        },
{
}

} // verus!
