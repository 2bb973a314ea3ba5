//! The native driver that is a binary of its own.

use vstd::prelude::*;

use crate::args::Args;
use crate::command;
use crate::command::{Command, CommandPlan, Term, Word};
use crate::request;
use crate::request::{Message, Outcome};
use crate::text;
use crate::wire;
use crate::wire::UriParts;

verus! {

/// A platform whose native driver is a binary of its own.
#[derive(Clone, Copy, Debug, PartialEq, Eq, Structural)]
pub enum Platform {
    Linux,
    Windows,
}

/// The name of the binary that is searched for.
pub open spec fn binary_name(platform: Platform) -> Seq<char> {
    match platform {
        Platform::Linux => "WebKitWebDriver"@,
        Platform::Windows => "msedgedriver.exe"@,
    }
}

/// The name of the binary to find among the programs of the system.
pub fn driver_binary(platform: Platform) -> (name: &'static str)
    ensures
        name@ == binary_name(platform),
{
    match platform {
        Platform::Linux => "WebKitWebDriver",
        Platform::Windows => "msedgedriver.exe",
    }
}

/// Where the native driver is to be looked for.
pub enum DriverSource<'a> {
    /// At the path that was given.
    Given(&'a std::path::PathBuf),
    /// Under this name among the programs of the system.
    Search(&'static str),
}

/// Where to look for the native driver: at the path that was given, and only
/// without one among the programs of the system.
pub fn driver_source<'a>(args: &'a Args, platform: Platform) -> (source: DriverSource<'a>)
    ensures
        match (source, args.native_driver) {
            (DriverSource::Given(path), Some(given)) => *path == given,
            (DriverSource::Search(name), None) => name@ == binary_name(platform),
            _ => false,
        },
{
    match &args.native_driver {
        Some(path) => DriverSource::Given(path),
        None => DriverSource::Search(driver_binary(platform)),
    }
}

/// What came of looking for the native driver.
pub enum Finding {
    /// The path that was given leads somewhere.
    GivenExists,
    /// The path that was given leads nowhere; with it, as text, comes the
    /// current directory or why there is none.
    GivenMissing { path: String, directory: Result<String, String> },
    /// This program of the system has the name.
    InPath(std::path::PathBuf),
    /// No program of the system has the name; with it comes why.
    NotInPath { error: String },
}

/// Whether a finding is about the place where the native driver is to be looked
/// for.
pub open spec fn answers(args: Args, finding: Finding) -> bool {
    match finding {
        Finding::GivenExists | Finding::GivenMissing { .. } => args.native_driver is Some,
        Finding::InPath(_) | Finding::NotInPath { .. } => args.native_driver is None,
    }
}

/// Whether a finding is about the place where the native driver is to be looked
/// for.
pub fn is_answer(args: &Args, finding: &Finding) -> (answer: bool)
    ensures
        answer == answers(*args, *finding),
{
    match finding {
        Finding::GivenExists => args.native_driver.is_some(),
        Finding::GivenMissing { .. } => args.native_driver.is_some(),
        Finding::InPath(_) => args.native_driver.is_none(),
        Finding::NotInPath { .. } => args.native_driver.is_none(),
    }
}

/// The binary of the native driver, where it was found: what was given, whatever
/// the system has.
pub open spec fn driver_program(args: Args, finding: Finding) -> Option<std::path::PathBuf> {
    match finding {
        Finding::GivenExists => args.native_driver,
        Finding::InPath(binary) => Some(binary),
        _ => None,
    }
}

/// Why the program cannot go on: lines for its user, and its exit code.
pub struct Failure {
    pub lines: Vec<String>,
    pub exit_code: i32,
}

impl Failure {
    /// The lines, as plain text.
    pub open spec fn text(&self) -> Seq<Seq<char>> {
        self.lines@.map_values(|line: String| line@)
    }
}

/// The command that starts the native driver.
pub open spec fn native_command(binary: std::path::PathBuf, args: Args) -> Command {
    Command {
        program: Term::Path(binary),
        args: seq![
            Term::Text("--port="@ + text::decimal(args.native_port as nat)),
            Term::Text("--host="@ + args.native_host@),
        ],
        env: command::automation(),
    }
}

/// What is said where the native driver was not found.
pub open spec fn complaint(finding: Finding, platform: Platform) -> Seq<Seq<char>> {
    match finding {
        Finding::GivenMissing { path, directory } => seq![
            "can not find the supplied binary path "@ + path@
                + ". This is currently required."@,
            match directory {
                Ok(directory) => "current working directory: "@ + directory@,
                Err(error) => "can not find current working directory: "@ + error@,
            },
        ],
        Finding::NotInPath { error } => seq![
            "can not find binary "@ + binary_name(platform)
                + " in the PATH. This is currently required.You can also pass a custom path with --native-driver"@,
            error@,
        ],
        _ => seq![],
    }
}

/// Starts the native driver from its binary.
fn start<'a>(binary: &'a std::path::PathBuf, args: &Args) -> (plan: CommandPlan<'a>)
    ensures
        plan@ == native_command(*binary, *args),
{
    let port: String = "--port=".to_owned().concat(
        text::to_decimal(args.native_port as u64).as_str(),
    );
    let host: String = "--host=".to_owned().concat(args.native_host.as_str());
    let mut words: Vec<Word<'a>> = Vec::new();
    words.push(Word::Text(port));
    words.push(Word::Text(host));
    let plan = CommandPlan {
        program: Word::Path(binary),
        args: words,
        env: command::automation_env(),
    };
    assert(plan@.args =~= native_command(*binary, *args).args);
    plan
}

/// How to start the native driver, given what came of looking for it.
pub fn native<'a>(args: &'a Args, platform: Platform, finding: &'a Finding) -> (outcome: Result<
    CommandPlan<'a>,
    Failure,
>)
    requires
        answers(*args, *finding),
    ensures
        match driver_program(*args, *finding) {
            Some(binary) => outcome matches Ok(plan) && plan@ == native_command(binary, *args),
            None => outcome matches Err(failure) && failure.text() == complaint(*finding, platform)
                && failure.exit_code == 1,
        },
        args.native_driver matches Some(given) ==> outcome matches Ok(plan) ==> plan@.program
            == Term::Path(given),
{
    let ghost complaint = complaint(*finding, platform);
    let mut lines: Vec<String> = Vec::new();
    match finding {
        Finding::GivenExists => match &args.native_driver {
            Some(given) => return Ok(start(given, args)),
            None => {},
        },
        Finding::InPath(binary) => return Ok(start(binary, args)),
        Finding::GivenMissing { path, directory } => {
            let start: String = "can not find the supplied binary path ".to_owned();
            lines.push(start.concat(path.as_str()).concat(". This is currently required."));
            match directory {
                Ok(directory) => {
                    let start: String = "current working directory: ".to_owned();
                    lines.push(start.concat(directory.as_str()));
                },
                Err(error) => {
                    let start: String = "can not find current working directory: ".to_owned();
                    lines.push(start.concat(error.as_str()));
                },
            }
        },
        Finding::NotInPath { error } => {
            let start: String = "can not find binary ".to_owned().concat(driver_binary(platform));
            lines.push(
                start.concat(
                    " in the PATH. This is currently required.You can also pass a custom path with --native-driver",
                ),
            );
            lines.push(error.clone());
        },
    }
    let failure = Failure { lines, exit_code: 1 };
    assert(failure.text() =~= complaint);
    Err(failure)
}

/// The port and host of the native driver alone decide how its binary is
/// started: the arguments and the environment are the same for the same two.
pub proof fn law_same_settings_same_start(
    one: Args,
    other: Args,
    binary: std::path::PathBuf,
    other_binary: std::path::PathBuf,
)
    requires
        one.native_port == other.native_port,
        one.native_host@ == other.native_host@,
    ensures
        native_command(binary, one).args == native_command(other_binary, other).args,
        native_command(binary, one).env == native_command(other_binary, other).env,
{
}

/// A path that is given is the program that is started, whatever the programs of
/// the system are, and it is never searched for among them.
pub proof fn law_given_driver_is_started(args: Args, given: std::path::PathBuf, finding: Finding)
    requires
        args.native_driver == Some(given),
        answers(args, finding),
    ensures
        !(finding is InPath || finding is NotInPath),
        driver_program(args, finding) matches Some(binary) ==> native_command(binary, args).program
            == Term::Path(given),
{
}

/// For all settings, the driver is started by its binary with two arguments, its
/// port and its host, and told in both versions that it drives an application.
pub proof fn law_driver_is_told_port_and_host(binary: std::path::PathBuf, args: Args)
    ensures
        native_command(binary, args).program == Term::Path(binary),
        native_command(binary, args).args.len() == 2,
        native_command(binary, args).args[0] == Term::Text(
            "--port="@ + text::decimal(args.native_port as nat),
        ),
        native_command(binary, args).args[1] == Term::Text("--host="@ + args.native_host@),
        native_command(binary, args).env.len() == 2,
        native_command(binary, args).env[0] == ("TAURI_AUTOMATION"@, "true"@),
        native_command(binary, args).env[1] == ("TAURI_WEBVIEW_AUTOMATION"@, "true"@),
{
}

/// The driver listens where requests go: where its arguments are a port and a
/// host, a request that is sent is addressed to that host and port.
pub proof fn law_driver_listens_where_requests_go(
    binary: std::path::PathBuf,
    args: Args,
    message: Message,
    sent: Message,
    port: Seq<char>,
    host: Seq<char>,
)
    requires
        native_command(binary, args).args == seq![
            Term::Text("--port="@ + port),
            Term::Text("--host="@ + host),
        ],
        request::retargeted(message, args.native_host@, args.native_port) == Outcome::Send(sent),
    ensures
        message.uri.path_and_query matches Some(target) && wire::parsed_uri(
            "http://"@ + host + ":"@ + port + target,
        ) == Ok::<UriParts, Seq<char>>(sent.uri),
{
    let command = native_command(binary, args);
    let own_port = text::decimal(args.native_port as nat);
    assert(command.args[0] == Term::Text("--port="@ + port));
    assert(command.args[1] == Term::Text("--host="@ + host));
    assert("--port="@ + port == "--port="@ + own_port);
    assert("--host="@ + host == "--host="@ + args.native_host@);
    assert(port =~= ("--port="@ + port).skip("--port="@.len() as int));
    assert(own_port =~= ("--port="@ + own_port).skip("--port="@.len() as int));
    assert(host =~= ("--host="@ + host).skip("--host="@.len() as int));
    assert(args.native_host@ =~= ("--host="@ + args.native_host@).skip("--host="@.len() as int));
}

/// Where the driver is found it is started, and where it is not the user is told
/// so: a given path that leads somewhere is the program, and so is a binary that
/// the system has.
pub proof fn law_driver_is_found_or_missed(
    args: Args,
    binary: std::path::PathBuf,
    path: String,
    directory: Result<String, String>,
    error: String,
    platform: Platform,
)
    ensures
        driver_program(args, Finding::GivenExists) == args.native_driver,
        driver_program(args, Finding::InPath(binary)) == Some(binary),
        driver_program(args, Finding::GivenMissing { path, directory }) is None,
        driver_program(args, Finding::NotInPath { error }) is None,
        answers(args, Finding::GivenExists) <==> args.native_driver is Some,
        answers(args, Finding::GivenMissing { path, directory }) <==> args.native_driver is Some,
        answers(args, Finding::InPath(binary)) <==> args.native_driver is None,
        answers(args, Finding::NotInPath { error }) <==> args.native_driver is None,
        ({
            let missing = complaint(Finding::GivenMissing { path, directory }, platform);
            &&& missing.len() == 2
            &&& missing[0] == "can not find the supplied binary path "@ + path@
                + ". This is currently required."@
            &&& directory matches Ok(place) ==> missing[1] == "current working directory: "@ + place@
            &&& directory matches Err(reason) ==> missing[1]
                == "can not find current working directory: "@ + reason@
        }),
        ({
            let missing = complaint(Finding::NotInPath { error }, platform);
            let name = if platform == Platform::Linux {
                "WebKitWebDriver"@
            } else {
                "msedgedriver.exe"@
            };
            &&& binary_name(platform) == name
            &&& missing.len() == 2
            &&& missing[0] == "can not find binary "@ + name
                + " in the PATH. This is currently required.You can also pass a custom path with --native-driver"@
            &&& missing[1] == error@
        }),
{
}

/// Each line of a failure is told as it is, in order.
pub proof fn law_failure_is_told_as_it_is(failure: Failure)
    ensures
        failure.text() == Seq::new(failure.lines@.len(), |i: int| failure.lines@[i]@),
{
    assert(failure.text() =~= Seq::new(failure.lines@.len(), |i: int| failure.lines@[i]@));
}

} // verus!
