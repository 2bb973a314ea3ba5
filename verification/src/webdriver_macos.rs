//! The native driver that is a test runner, built and started by Xcode.

use vstd::prelude::*;

use crate::args::Args;
use crate::command::{Command, CommandPlan, Term, Word};
use crate::text;
use crate::webdriver::Failure;

verus! {

/// The project of the test runner, in the directory that is given as the
/// native driver.
pub const PROJECT: &'static str = "WebDriverAgentMac.xcodeproj";

/// What came of looking for the project of the test runner.
pub enum Finding {
    /// It is here.
    Found(std::path::PathBuf),
    /// It is not in the directory that was given; with it comes that
    /// directory, as text.
    Missing { directory: String },
    /// No directory was given.
    NotGiven,
}

/// The directory in which the project is to be looked for, where one was given.
pub fn project_directory<'a>(args: &'a Args) -> (directory: Option<&'a std::path::PathBuf>)
    ensures
        match (directory, args.native_driver) {
            (Some(path), Some(given)) => *path == given,
            (None, None) => true,
            _ => false,
        },
{
    match &args.native_driver {
        Some(path) => Some(path),
        None => None,
    }
}

/// Whether a finding is about the directory that was given, or about none.
pub open spec fn answers(args: Args, finding: Finding) -> bool {
    finding is NotGiven <==> args.native_driver is None
}

/// Whether a finding is about the directory that was given, or about none.
pub fn is_answer(args: &Args, finding: &Finding) -> (answer: bool)
    ensures
        answer == answers(*args, *finding),
{
    match finding {
        Finding::NotGiven => args.native_driver.is_none(),
        _ => args.native_driver.is_some(),
    }
}

/// The command that builds and starts the test runner.
pub open spec fn native_command(project: std::path::PathBuf, args: Args) -> Command {
    Command {
        program: Term::Text("xcodebuild"@),
        args: seq![
            Term::Text("build-for-testing"@),
            Term::Text("test-without-building"@),
            Term::Text("-project"@),
            Term::Path(project),
            Term::Text("-scheme"@),
            Term::Text("WebDriverAgentRunner"@),
            Term::Text("COMPILER_INDEX_STORE_ENABLE=NO"@),
        ],
        env: seq![
            ("USE_PORT"@, text::decimal(args.native_port as nat)),
            ("USE_HOST"@, args.native_host@),
        ],
    }
}

/// What is said where the project was not found.
pub open spec fn complaint(finding: Finding) -> Seq<Seq<char>> {
    match finding {
        Finding::Found(_) => seq![],
        Finding::Missing { directory } => seq![
            "can not find WebDriverAgentMac.xcodeproj in "@ + directory@
                + ". --native-driver must point to the WebDriverAgentMac project directory."@,
        ],
        Finding::NotGiven => seq![
            "on macOS, --native-driver is required and must point to the WebDriverAgentMac project directory (from appium-mac2-driver)"@,
        ],
    }
}

/// How to start the test runner, given what came of looking for its project. It
/// cannot be started where no directory was given, or the project is not in it.
pub fn native<'a>(args: &'a Args, finding: &'a Finding) -> (outcome: Result<
    CommandPlan<'a>,
    Failure,
>)
    requires
        answers(*args, *finding),
    ensures
        match *finding {
            Finding::Found(project) => outcome matches Ok(plan) && plan@ == native_command(
                project,
                *args,
            ),
            _ => outcome matches Err(failure) && failure.text() == complaint(*finding)
                && failure.exit_code == 1,
        },
        outcome is Err <==> args.native_driver is None || *finding is Missing,
{
    let ghost complaint = complaint(*finding);
    let mut lines: Vec<String> = Vec::new();
    match finding {
        Finding::Found(project) => {
            let mut words: Vec<Word<'a>> = Vec::new();
            words.push(Word::Text("build-for-testing".to_owned()));
            words.push(Word::Text("test-without-building".to_owned()));
            words.push(Word::Text("-project".to_owned()));
            words.push(Word::Path(project));
            words.push(Word::Text("-scheme".to_owned()));
            words.push(Word::Text("WebDriverAgentRunner".to_owned()));
            words.push(Word::Text("COMPILER_INDEX_STORE_ENABLE=NO".to_owned()));
            let mut env: Vec<(String, String)> = Vec::new();
            env.push(("USE_PORT".to_owned(), text::to_decimal(args.native_port as u64)));
            env.push(("USE_HOST".to_owned(), args.native_host.clone()));
            let plan = CommandPlan {
                program: Word::Text("xcodebuild".to_owned()),
                args: words,
                env,
            };
            assert(plan@.args =~= native_command(*project, *args).args);
            assert(plan@.env =~= native_command(*project, *args).env);
            return Ok(plan);
        },
        Finding::Missing { directory } => {
            let start: String = "can not find WebDriverAgentMac.xcodeproj in ".to_owned();
            lines.push(
                start.concat(directory.as_str()).concat(
                    ". --native-driver must point to the WebDriverAgentMac project directory.",
                ),
            );
        },
        Finding::NotGiven => {
            lines.push(
                "on macOS, --native-driver is required and must point to the WebDriverAgentMac project directory (from appium-mac2-driver)".to_owned(),
            );
        },
    }
    let failure = Failure { lines, exit_code: 1 };
    assert(failure.text() =~= complaint);
    Err(failure)
}

/// For all settings, the test runner is built and started from the project that
/// was found, and told its port and its host.
pub proof fn law_test_runner_is_told_port_and_host(project: std::path::PathBuf, args: Args)
    ensures
        native_command(project, args).program == Term::Text("xcodebuild"@),
        native_command(project, args).args.len() == 7,
        native_command(project, args).args[0] == Term::Text("build-for-testing"@),
        native_command(project, args).args[1] == Term::Text("test-without-building"@),
        native_command(project, args).args[2] == Term::Text("-project"@),
        native_command(project, args).args[3] == Term::Path(project),
        native_command(project, args).args[4] == Term::Text("-scheme"@),
        native_command(project, args).args[5] == Term::Text("WebDriverAgentRunner"@),
        native_command(project, args).args[6] == Term::Text("COMPILER_INDEX_STORE_ENABLE=NO"@),
        native_command(project, args).env.len() == 2,
        native_command(project, args).env[0] == ("USE_PORT"@, text::decimal(args.native_port as nat)),
        native_command(project, args).env[1] == ("USE_HOST"@, args.native_host@),
{
}

/// The user is told in one line where no directory was given, and where the
/// project is not in the one that was. Only the first is said without a
/// directory.
pub proof fn law_missing_project_is_told(
    args: Args,
    project: std::path::PathBuf,
    directory: String,
)
    ensures
        complaint(Finding::NotGiven).len() == 1,
        complaint(Finding::NotGiven)[0]
            == "on macOS, --native-driver is required and must point to the WebDriverAgentMac project directory (from appium-mac2-driver)"@,
        complaint(Finding::Missing { directory }).len() == 1,
        complaint(Finding::Missing { directory })[0]
            == "can not find WebDriverAgentMac.xcodeproj in "@ + directory@
            + ". --native-driver must point to the WebDriverAgentMac project directory."@,
        answers(args, Finding::NotGiven) <==> args.native_driver is None,
        answers(args, Finding::Missing { directory }) <==> args.native_driver is Some,
        answers(args, Finding::Found(project)) <==> args.native_driver is Some,
{
}

} // verus!
