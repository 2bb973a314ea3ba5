//! Programs to start.

use vstd::prelude::*;

verus! {

/// A word of a command line.
#[derive(Debug, PartialEq, Eq)]
pub enum Word<'a> {
    Text(String),
    Path(&'a std::path::PathBuf),
}

/// A program to start, with its arguments and what is added to its environment.
#[derive(Debug, PartialEq, Eq)]
pub struct CommandPlan<'a> {
    pub program: Word<'a>,
    pub args: Vec<Word<'a>>,
    pub env: Vec<(String, String)>,
}

/// A word of a command line, as plain values.
#[verifier::ext_equal]
pub enum Term {
    Text(Seq<char>),
    Path(std::path::PathBuf),
}

/// A program to start, as plain values.
#[verifier::ext_equal]
pub struct Command {
    pub program: Term,
    pub args: Seq<Term>,
    pub env: Seq<(Seq<char>, Seq<char>)>,
}

impl<'a> View for Word<'a> {
    type V = Term;

    open spec fn view(&self) -> Term {
        match self {
            Word::Text(text) => Term::Text(text@),
            Word::Path(path) => Term::Path(**path),
        }
    }
}

impl<'a> View for CommandPlan<'a> {
    type V = Command;

    open spec fn view(&self) -> Command {
        Command {
            program: self.program@,
            args: self.args@.map_values(|word: Word<'a>| word@),
            env: self.env@.map_values(|pair: (String, String)| (pair.0@, pair.1@)),
        }
    }
}

/// What tells a Tauri application that it is driven: the first name for
/// version 1, the second for version 2.
pub open spec fn automation() -> Seq<(Seq<char>, Seq<char>)> {
    seq![("TAURI_AUTOMATION"@, "true"@), ("TAURI_WEBVIEW_AUTOMATION"@, "true"@)]
}

/// What tells a Tauri application that it is driven.
pub(crate) fn automation_env() -> (env: Vec<(String, String)>)
    ensures
        env@.map_values(|pair: (String, String)| (pair.0@, pair.1@)) == automation(),
{
    let mut env: Vec<(String, String)> = Vec::new();
    env.push(("TAURI_AUTOMATION".to_owned(), "true".to_owned()));
    env.push(("TAURI_WEBVIEW_AUTOMATION".to_owned(), "true".to_owned()));
    assert(env@.map_values(|pair: (String, String)| (pair.0@, pair.1@)) =~= automation());
    env
}

/// The command that starts an application to be driven.
pub open spec fn app_command(path: Seq<char>) -> Command {
    Command { program: Term::Text(path), args: seq![], env: automation() }
}

/// How to start an application to be driven.
pub fn launch_app(path: String) -> (plan: CommandPlan<'static>)
    ensures
        plan@ == app_command(path@),
{
    let plan = CommandPlan {
        program: Word::Text(path),
        args: Vec::new(),
        env: automation_env(),
    };
    assert(plan@.args =~= seq![]);
    plan
}

/// A plan is known by its program, each of its arguments and each variable, in
/// order.
pub proof fn law_plan_is_known_whole(plan: CommandPlan, word: Word)
    ensures
        plan@.program == plan.program@,
        plan@.args == Seq::new(plan.args@.len(), |i: int| plan.args@[i]@),
        plan@.env == Seq::new(
            plan.env@.len(),
            |i: int| (plan.env@[i].0@, plan.env@[i].1@),
        ),
        match word {
            Word::Text(text) => word@ == Term::Text(text@),
            Word::Path(path) => word@ == Term::Path(*path),
        },
{
    assert(plan@.args =~= Seq::new(plan.args@.len(), |i: int| plan.args@[i]@));
    assert(plan@.env =~= Seq::new(
        plan.env@.len(),
        |i: int| (plan.env@[i].0@, plan.env@[i].1@),
    ));
}

/// Any application is started by its path and no arguments, and told in both
/// versions that it is driven.
pub proof fn law_application_is_told_that_it_is_driven(path: Seq<char>)
    ensures
        app_command(path).program == Term::Text(path),
        app_command(path).args.len() == 0,
        app_command(path).env.len() == 2,
        app_command(path).env[0] == ("TAURI_AUTOMATION"@, "true"@),
        app_command(path).env[1] == ("TAURI_WEBVIEW_AUTOMATION"@, "true"@),
{
}

} // verus!
