//! The server that WebDriver clients connect to.
//!
//! It stands before the native driver or before the plugin of an application.
//! [`run`] and [`run_plugin_mode`] are told what has happened and say what to
//! tell the user and what to do next.

use vstd::prelude::*;

use crate::args::Args;
use crate::text;

verus! {

/// What is said where the native driver cannot be killed.
pub const KILL_FAILED: &'static str = "unable to kill native webdriver server";

/// What has happened.
#[derive(Debug, PartialEq, Eq)]
pub enum ServerEvent {
    /// The program was started.
    Started,
    /// The signals that end the program are watched.
    Watching,
    /// The signals cannot be watched.
    WatchFailed,
    /// The address is listened on.
    Bound,
    /// The address cannot be listened on.
    BindFailed,
    /// A client connected.
    Accepted,
    /// A client failed to connect.
    AcceptFailed,
    /// The client that connected is being served.
    Serving,
    /// Serving a client ended with this error.
    ServeFailed(String),
    /// A signal to end the program came, while the native driver or the
    /// application was running, or not.
    Signalled(bool),
    /// The native driver or the application was killed.
    Killed,
    /// The native driver or the application could not be killed.
    KillFailed,
}

/// What to do next.
#[derive(Clone, Copy, Debug, PartialEq, Eq)]
pub enum ServerAction {
    /// Watch for the signals that end the program.
    Watch,
    /// Listen on this address.
    Bind { ip: (u8, u8, u8, u8), port: u16 },
    /// Wait for a client.
    Accept,
    /// Serve the client that connected, without waiting for it.
    Serve,
    /// Leave the client.
    Leave,
    /// Kill the native driver or the application.
    Kill,
    /// End the program with this code.
    Exit(i32),
    /// Stop watching for signals and end well.
    Finish,
    /// End with the error that came.
    Fail,
    /// Panic with [`KILL_FAILED`].
    Abort,
}

/// The lines for the user, and what to do next.
#[derive(Debug, PartialEq, Eq)]
pub struct ServerStep {
    pub say: Vec<String>,
    pub action: ServerAction,
}

/// The address that is listened on, as text.
pub open spec fn listen_address(port: u16) -> Seq<char> {
    "127.0.0.1:"@ + text::decimal(port as nat)
}

/// The lines that a user is told.
pub open spec fn lines(say: Vec<String>) -> Seq<Seq<char>> {
    say@.map_values(|line: String| line@)
}

/// What to do next, before the native driver or before a plugin.
pub open spec fn next_action(plugin: bool, event: ServerEvent, port: u16) -> ServerAction {
    match event {
        ServerEvent::Started => ServerAction::Watch,
        ServerEvent::Watching => ServerAction::Bind { ip: (127, 0, 0, 1), port },
        ServerEvent::WatchFailed => ServerAction::Fail,
        ServerEvent::Bound => ServerAction::Accept,
        ServerEvent::BindFailed => ServerAction::Finish,
        ServerEvent::Accepted => ServerAction::Serve,
        ServerEvent::AcceptFailed => ServerAction::Accept,
        ServerEvent::Serving => ServerAction::Accept,
        ServerEvent::ServeFailed(_) => ServerAction::Leave,
        ServerEvent::Signalled(running) => if plugin && !running {
            ServerAction::Exit(0)
        } else {
            ServerAction::Kill
        },
        ServerEvent::Killed => ServerAction::Exit(0),
        ServerEvent::KillFailed => if plugin {
            ServerAction::Exit(0)
        } else {
            ServerAction::Abort
        },
    }
}

/// What to tell the user, before the native driver or before a plugin.
pub open spec fn next_lines(plugin: bool, event: ServerEvent, port: u16, native_port: u16) -> Seq<
    Seq<char>,
> {
    match event {
        ServerEvent::Watching => if plugin {
            seq![
                "tauri-driver running on port "@ + text::decimal(port as nat),
                "Plugin expected on port "@ + text::decimal(native_port as nat),
            ]
        } else {
            seq![]
        },
        ServerEvent::BindFailed => seq!["can not listen to address: "@ + listen_address(port)],
        ServerEvent::AcceptFailed => seq!["accept new stream fail, ignore here"@],
        ServerEvent::ServeFailed(error) => seq!["Error serving connection: "@ + error@],
        _ => seq![],
    }
}

/// A step in which the user is told nothing.
fn quiet(action: ServerAction) -> (step: ServerStep)
    ensures
        step.action == action,
        lines(step.say) == Seq::<Seq<char>>::empty(),
{
    let step: ServerStep = ServerStep { say: Vec::new(), action };
    assert(lines(step.say) =~= Seq::<Seq<char>>::empty());
    step
}

/// A step in which the user is told one line.
fn saying(line: String, action: ServerAction) -> (step: ServerStep)
    ensures
        step.action == action,
        lines(step.say) == seq![line@],
{
    let mut say: Vec<String> = Vec::new();
    say.push(line);
    assert(lines(say) =~= seq![line@]);
    ServerStep { say, action }
}

/// The lines that greet the user of a plugin.
fn greeting(args: &Args) -> (say: Vec<String>)
    ensures
        lines(say) == seq![
            "tauri-driver running on port "@ + text::decimal(args.port as nat),
            "Plugin expected on port "@ + text::decimal(args.native_port as nat),
        ],
{
    let port: String = text::to_decimal(args.port as u64);
    let native_port: String = text::to_decimal(args.native_port as u64);
    let mut say: Vec<String> = Vec::new();
    say.push("tauri-driver running on port ".to_owned().concat(port.as_str()));
    say.push("Plugin expected on port ".to_owned().concat(native_port.as_str()));
    assert(lines(say) =~= seq![
        "tauri-driver running on port "@ + text::decimal(args.port as nat),
        "Plugin expected on port "@ + text::decimal(args.native_port as nat),
    ]);
    say
}

/// Says what to do next to stand before the native driver.
pub fn run(event: ServerEvent, args: &Args) -> (step: ServerStep)
    ensures
        step.action == next_action(false, event, args.port),
        lines(step.say) == next_lines(false, event, args.port, args.native_port),
{
    match event {
        ServerEvent::Started => quiet(ServerAction::Watch),
        ServerEvent::Watching => quiet(
            ServerAction::Bind { ip: (127, 0, 0, 1), port: args.port },
        ),
        ServerEvent::WatchFailed => quiet(ServerAction::Fail),
        ServerEvent::Bound => quiet(ServerAction::Accept),
        ServerEvent::BindFailed => {
            let port: String = text::to_decimal(args.port as u64);
            let address: String = "127.0.0.1:".to_owned().concat(port.as_str());
            saying(
                "can not listen to address: ".to_owned().concat(address.as_str()),
                ServerAction::Finish,
            )
        },
        ServerEvent::Accepted => quiet(ServerAction::Serve),
        ServerEvent::AcceptFailed => saying(
            "accept new stream fail, ignore here".to_owned(),
            ServerAction::Accept,
        ),
        ServerEvent::Serving => quiet(ServerAction::Accept),
        ServerEvent::ServeFailed(error) => saying(
            "Error serving connection: ".to_owned().concat(error.as_str()),
            ServerAction::Leave,
        ),
        ServerEvent::Signalled(_) => quiet(ServerAction::Kill),
        ServerEvent::Killed => quiet(ServerAction::Exit(0)),
        ServerEvent::KillFailed => quiet(ServerAction::Abort),
    }
}

/// Says what to do next to stand before the plugin of an application.
pub fn run_plugin_mode(event: ServerEvent, args: &Args) -> (step: ServerStep)
    ensures
        step.action == next_action(true, event, args.port),
        lines(step.say) == next_lines(true, event, args.port, args.native_port),
{
    match event {
        ServerEvent::Watching => ServerStep {
            say: greeting(args),
            action: ServerAction::Bind { ip: (127, 0, 0, 1), port: args.port },
        },
        ServerEvent::Signalled(false) => quiet(ServerAction::Exit(0)),
        ServerEvent::KillFailed => quiet(ServerAction::Exit(0)),
        event => run(event, args),
    }
}

/// No client keeps another from connecting: the server ends by itself only
/// where it could not begin.
pub proof fn law_serving_goes_on(plugin: bool, event: ServerEvent, port: u16)
    ensures
        event is Bound || event is AcceptFailed || event is Serving ==> next_action(
            plugin,
            event,
            port,
        ) is Accept,
        next_action(plugin, event, port) is Finish <==> event is BindFailed,
        next_action(plugin, event, port) is Fail <==> event is WatchFailed,
{
}

/// A program that is told to end leaves neither its driver nor its application
/// running: it ends only where none runs, or after an attempt to kill it.
pub proof fn law_nothing_is_left_running(plugin: bool, event: ServerEvent, port: u16, code: i32)
    requires
        next_action(plugin, event, port) == ServerAction::Exit(code),
    ensures
        code == 0,
        event is Killed || (plugin && (event is KillFailed || event == ServerEvent::Signalled(
            false,
        ))),
{
}

/// Clients of this machine alone can connect, on the port that was asked for.
pub proof fn law_listens_on_this_machine(
    plugin: bool,
    event: ServerEvent,
    asked: u16,
    ip: (u8, u8, u8, u8),
    port: u16,
)
    requires
        next_action(plugin, event, asked) == (ServerAction::Bind { ip, port }),
    ensures
        ip == (127u8, 0u8, 0u8, 1u8),
        port == asked,
{
}

/// A server that is started watches for signals, listens on this machine on the
/// port of its settings, and waits for clients.
pub proof fn law_server_starts(plugin: bool, port: u16)
    ensures
        next_action(plugin, ServerEvent::Started, port) == ServerAction::Watch,
        next_action(plugin, ServerEvent::Watching, port) == (ServerAction::Bind {
            ip: (127, 0, 0, 1),
            port,
        }),
        next_action(plugin, ServerEvent::Bound, port) == ServerAction::Accept,
{
}

/// Every client that connects is served, and meanwhile the next is waited for,
/// whatever came of the last.
pub proof fn law_every_client_is_served(plugin: bool, port: u16, error: String)
    ensures
        next_action(plugin, ServerEvent::Accepted, port) == ServerAction::Serve,
        next_action(plugin, ServerEvent::Serving, port) == ServerAction::Accept,
        next_action(plugin, ServerEvent::AcceptFailed, port) == ServerAction::Accept,
        next_action(plugin, ServerEvent::ServeFailed(error), port) == ServerAction::Leave,
{
}

/// A server that cannot begin ends. A signal kills the native driver in any
/// event, and an application where one runs; then the program ends well, unless
/// the native driver could not be killed.
pub proof fn law_server_ends(port: u16, running: bool, plugin: bool)
    ensures
        next_action(plugin, ServerEvent::WatchFailed, port) == ServerAction::Fail,
        next_action(plugin, ServerEvent::BindFailed, port) == ServerAction::Finish,
        next_action(false, ServerEvent::Signalled(running), port) == ServerAction::Kill,
        next_action(true, ServerEvent::Signalled(true), port) == ServerAction::Kill,
        next_action(true, ServerEvent::Signalled(false), port) == ServerAction::Exit(0),
        next_action(plugin, ServerEvent::Killed, port) == ServerAction::Exit(0),
        next_action(true, ServerEvent::KillFailed, port) == ServerAction::Exit(0),
        next_action(false, ServerEvent::KillFailed, port) == ServerAction::Abort,
{
}

/// The user is told what failed, and where a plugin is waited for; of anything
/// else nothing is said.
pub proof fn law_user_is_told(plugin: bool, event: ServerEvent, port: u16, native_port: u16)
    ensures
        ({
            let told = next_lines(plugin, event, port, native_port);
            match event {
                ServerEvent::BindFailed => told.len() == 1 && told[0]
                    == "can not listen to address: "@ + ("127.0.0.1:"@ + text::decimal(
                    port as nat,
                )),
                ServerEvent::AcceptFailed => told.len() == 1 && told[0]
                    == "accept new stream fail, ignore here"@,
                ServerEvent::ServeFailed(error) => told.len() == 1 && told[0]
                    == "Error serving connection: "@ + error@,
                ServerEvent::Watching => if plugin {
                    &&& told.len() == 2
                    &&& told[0] == "tauri-driver running on port "@ + text::decimal(port as nat)
                    &&& told[1] == "Plugin expected on port "@ + text::decimal(native_port as nat)
                } else {
                    told.len() == 0
                },
                _ => told.len() == 0,
            }
        }),
{
}

/// Each line that is said is told as it is, in order.
pub proof fn law_lines_are_told_as_they_are(say: Vec<String>)
    ensures
        lines(say) == Seq::new(say@.len(), |i: int| say@[i]@),
{
    assert(lines(say) =~= Seq::new(say@.len(), |i: int| say@[i]@));
}

} // verus!
