//! Conflict resolution: the two ways out of a merge that stopped on
//! conflicts. Prefer-remote takes the incoming side of every conflicted path
//! and completes the merge; abort puts everything back as it was before.
//!
//! Both are carried out by the version-control command-line tool. The machine
//! here says which commands to run, in which order, and what their results
//! amount to; whoever drives it runs them in the repository's directory.

use vstd::prelude::*;
use crate::error::{result_view, GitError, GitErrorView};
use crate::text::copy_all;

verus! {

/// How a conflicted merge is resolved.
#[derive(Debug, Clone, Copy, PartialEq, Eq)]
pub enum Strategy {
    /// Take the incoming version of every path, stage all and commit.
    PreferRemote,
    /// Go back to the state before the merge.
    Abort,
}

/// What a finished command left behind.
#[derive(Debug, PartialEq, Eq)]
pub struct CommandOutput {
    /// The exit status, where the command ended by exiting.
    pub exit_code: Option<i32>,
    /// What the command wrote to standard error.
    pub stderr: String,
}

/// Mathematical value of a [`CommandOutput`].
pub struct CommandOutputView {
    pub exit_code: Option<i32>,
    pub stderr: Seq<char>,
}

impl DeepView for CommandOutput {
    type V = CommandOutputView;

    open spec fn deep_view(&self) -> CommandOutputView {
        CommandOutputView { exit_code: self.exit_code, stderr: self.stderr@ }
    }
}

impl View for CommandOutput {
    type V = CommandOutputView;

    open spec fn view(&self) -> CommandOutputView {
        self.deep_view()
    }
}

/// What the driver reports of a command: its output, or the text of the error
/// that kept it from running.
pub type CommandReport = Result<CommandOutput, String>;

/// Mathematical value of a [`CommandReport`].
pub type CommandReportView = Result<CommandOutputView, Seq<char>>;

/// What the machine asks the driver to do.
#[derive(Debug, PartialEq, Eq)]
pub enum ResolutionAction {
    /// Run the program with these arguments in the repository's directory.
    Run { program: String, args: Vec<String> },
    /// Stop; the resolution has this result.
    Finish { result: Result<String, GitError> },
}

/// Mathematical value of a [`ResolutionAction`].
pub enum ResolutionActionView {
    Run { program: Seq<char>, args: Seq<Seq<char>> },
    Finish { result: Result<Seq<char>, GitErrorView> },
}

impl DeepView for ResolutionAction {
    type V = ResolutionActionView;

    open spec fn deep_view(&self) -> ResolutionActionView {
        match *self {
            ResolutionAction::Run { program, args } => ResolutionActionView::Run {
                program: program@,
                args: args.deep_view(),
            },
            ResolutionAction::Finish { result } => ResolutionActionView::Finish {
                result: result_view(result),
            },
        }
    }
}

impl View for ResolutionAction {
    type V = ResolutionActionView;

    open spec fn view(&self) -> ResolutionActionView {
        self.deep_view()
    }
}

/// Where a resolution stands: how many of its commands have succeeded, and
/// the failure that ended it, if one did.
#[derive(Debug, PartialEq, Eq)]
pub struct Resolution {
    pub strategy: Strategy,
    pub completed: usize,
    pub failure: Option<GitError>,
}

/// Mathematical value of a [`Resolution`].
pub struct ResolutionView {
    pub strategy: Strategy,
    pub completed: nat,
    pub failure: Option<GitErrorView>,
}

impl DeepView for Resolution {
    type V = ResolutionView;

    open spec fn deep_view(&self) -> ResolutionView {
        ResolutionView {
            strategy: self.strategy,
            completed: self.completed as nat,
            failure: self.failure.deep_view(),
        }
    }
}

impl View for Resolution {
    type V = ResolutionView;

    open spec fn view(&self) -> ResolutionView {
        self.deep_view()
    }
}

/// The command-line tool that carries out a resolution.
pub open spec fn tool() -> Seq<char> {
    "git"@
}

impl Strategy {
    /// The argument lists of the commands of this strategy, in order.
    pub open spec fn script(self) -> Seq<Seq<Seq<char>>> {
        match self {
            Strategy::PreferRemote => seq![
                seq!["checkout"@, "--theirs"@, "."@],
                seq!["add"@, "."@],
                seq!["commit"@, "-m"@, "Merge resolved by preferring remote"@],
            ],
            Strategy::Abort => seq![seq!["merge"@, "--abort"@]],
        }
    }

    /// The message of a resolution that went through.
    pub open spec fn success_text(self) -> Seq<char> {
        match self {
            Strategy::PreferRemote => "Merge resolved by preferring remote"@,
            Strategy::Abort => "Merge aborted"@,
        }
    }

    /// The argument lists of the commands to run, in order.
    pub fn commands(&self) -> (script: Vec<Vec<String>>)
        ensures
            script.deep_view() == self.script(),
    {
        let mut script: Vec<Vec<String>> = Vec::new();
        match self {
            Strategy::PreferRemote => {
                let mut checkout: Vec<String> = Vec::new();
                checkout.push("checkout".to_owned());
                checkout.push("--theirs".to_owned());
                checkout.push(".".to_owned());
                let mut stage: Vec<String> = Vec::new();
                stage.push("add".to_owned());
                stage.push(".".to_owned());
                let mut commit: Vec<String> = Vec::new();
                commit.push("commit".to_owned());
                commit.push("-m".to_owned());
                commit.push("Merge resolved by preferring remote".to_owned());
                assert(checkout.deep_view() =~= self.script()[0]);
                assert(stage.deep_view() =~= self.script()[1]);
                assert(commit.deep_view() =~= self.script()[2]);
                script.push(checkout);
                script.push(stage);
                script.push(commit);
            },
            Strategy::Abort => {
                let mut abort: Vec<String> = Vec::new();
                abort.push("merge".to_owned());
                abort.push("--abort".to_owned());
                assert(abort.deep_view() =~= self.script()[0]);
                script.push(abort);
            },
        }
        assert(script.deep_view() =~= self.script());
        script
    }

    /// The message shown when the resolution went through.
    pub fn success_message(&self) -> (text: String)
        ensures
            text@ == self.success_text(),
    {
        match self {
            Strategy::PreferRemote => "Merge resolved by preferring remote".to_owned(),
            Strategy::Abort => "Merge aborted".to_owned(),
        }
    }
}

impl CommandOutputView {
    /// The command exited with status zero.
    pub open spec fn succeeded(self) -> bool {
        self.exit_code == Some(0i32)
    }
}

/// Whether a report tells of a command that ran and exited with status zero.
pub open spec fn is_success(report: CommandReportView) -> bool {
    report matches Ok(output) && output.succeeded()
}

/// The error that a report of no success amounts to: a command that could not
/// be run is an I/O failure, one that ran and failed is a failed resolution,
/// told in the command's own words.
pub open spec fn failure_of(report: CommandReportView) -> GitErrorView {
    match report {
        Err(text) => GitErrorView::Io(text),
        Ok(output) => GitErrorView::ConflictResolution(output.stderr),
    }
}

impl ResolutionView {
    /// The action that is pending in this state.
    pub open spec fn pending(self) -> ResolutionActionView {
        match self.failure {
            Some(error) => ResolutionActionView::Finish { result: Err(error) },
            None => if self.completed < self.strategy.script().len() {
                ResolutionActionView::Run {
                    program: tool(),
                    args: self.strategy.script()[self.completed as int],
                }
            } else {
                ResolutionActionView::Finish { result: Ok(self.strategy.success_text()) }
            },
        }
    }

    /// The state after a report on the pending command. Once the resolution
    /// is over, reports change nothing.
    pub open spec fn advance(self, report: CommandReportView) -> ResolutionView {
        if self.pending() is Run {
            if is_success(report) {
                ResolutionView { completed: self.completed + 1, ..self }
            } else {
                ResolutionView { failure: Some(failure_of(report)), ..self }
            }
        } else {
            self
        }
    }
}

impl CommandOutput {
    /// Whether the command exited with status zero.
    pub fn succeeded(&self) -> (ok: bool)
        ensures
            ok == self@.succeeded(),
    {
        match self.exit_code {
            Some(code) => code == 0,
            None => false,
        }
    }
}

impl Resolution {
    /// The state in which a resolution begins.
    pub fn start(strategy: Strategy) -> (state: Resolution)
        ensures
            state@ == (ResolutionView { strategy, completed: 0, failure: None }),
    {
        Resolution { strategy, completed: 0, failure: None }
    }

    /// The action that the driver is to perform now.
    pub fn pending(&self) -> (action: ResolutionAction)
        ensures
            action@ == self@.pending(),
    {
        match &self.failure {
            Some(error) => ResolutionAction::Finish { result: Err(error.clone()) },
            None => {
                let script = self.strategy.commands();
                if self.completed < script.len() {
                    assert(script.deep_view()[self.completed as int]
                        == script@[self.completed as int].deep_view());
                    ResolutionAction::Run {
                        program: "git".to_owned(),
                        args: copy_all(&script[self.completed]),
                    }
                } else {
                    ResolutionAction::Finish { result: Ok(self.strategy.success_message()) }
                }
            },
        }
    }

    /// Whether a command is pending.
    pub fn is_running(&self) -> (running: bool)
        ensures
            running == self@.pending() is Run,
    {
        self.failure.is_none() && self.completed < self.strategy.commands().len()
    }

    /// Takes in the report on the pending command and moves to the next state.
    pub fn advance(self, report: CommandReport) -> (next: Resolution)
        ensures
            next@ == self@.advance(result_view(report)),
    {
        if self.is_running() {
            match report {
                Err(text) => Resolution {
                    strategy: self.strategy,
                    completed: self.completed,
                    failure: Some(GitError::Io(text)),
                },
                Ok(output) => {
                    if output.succeeded() {
                        assert(self.strategy.script().len() <= 3);
                        Resolution {
                            strategy: self.strategy,
                            completed: self.completed + 1,
                            failure: self.failure,
                        }
                    } else {
                        Resolution {
                            strategy: self.strategy,
                            completed: self.completed,
                            failure: Some(GitError::ConflictResolution(output.stderr)),
                        }
                    }
                },
            }
        } else {
            self
        }
    }
}

/// One turn of the machine: takes in the report on the pending command and
/// answers with the next state and the action pending in it.
pub fn resolution_step(state: Resolution, report: CommandReport) -> (turn: (
    Resolution,
    ResolutionAction,
))
    ensures
        turn.0@ == state@.advance(result_view(report)),
        turn.1@ == turn.0@.pending(),
{
    let next = state.advance(report);
    let action = next.pending();
    (next, action)
}

/// The state of a resolution after the driver has given `reports`, in order,
/// starting from `state`.
pub open spec fn resolved(state: ResolutionView, reports: Seq<CommandReportView>) -> ResolutionView
    decreases reports.len(),
{
    if reports.len() == 0 {
        state
    } else {
        resolved(state, reports.drop_last()).advance(reports.last())
    }
}

/// The state in which a resolution by `strategy` begins.
pub open spec fn beginning(strategy: Strategy) -> ResolutionView {
    ResolutionView { strategy, completed: 0, failure: None }
}

/// While every command succeeds, a resolution runs its commands one after the
/// other in the order of its script, and when the last has succeeded it
/// finishes with the strategy's message.
pub proof fn lemma_resolution_runs_its_script(strategy: Strategy, reports: Seq<CommandReportView>)
    requires
        reports.len() <= strategy.script().len(),
        forall|i: int| 0 <= i < reports.len() ==> is_success(#[trigger] reports[i]),
    ensures
        resolved(beginning(strategy), reports) == (ResolutionView {
            strategy,
            completed: reports.len(),
            failure: None,
        }),
        reports.len() < strategy.script().len() ==> resolved(
            beginning(strategy),
            reports,
        ).pending() == (ResolutionActionView::Run {
            program: tool(),
            args: strategy.script()[reports.len() as int],
        }),
        reports.len() == strategy.script().len() ==> resolved(
            beginning(strategy),
            reports,
        ).pending() == (ResolutionActionView::Finish { result: Ok(strategy.success_text()) }),
    decreases reports.len(),
{
    if reports.len() > 0 {
        lemma_resolution_runs_its_script(strategy, reports.drop_last());
    }
}

/// The first command that does not succeed ends a resolution: whatever is
/// reported afterwards, no further command is run, and the resolution
/// finishes with the error of that command.
pub proof fn lemma_first_failure_ends_resolution(
    strategy: Strategy,
    good: Seq<CommandReportView>,
    bad: CommandReportView,
    rest: Seq<CommandReportView>,
)
    requires
        good.len() < strategy.script().len(),
        forall|i: int| 0 <= i < good.len() ==> is_success(#[trigger] good[i]),
        !is_success(bad),
    ensures
        resolved(beginning(strategy), good.push(bad) + rest).pending() == (
        ResolutionActionView::Finish { result: Err(failure_of(bad)) }),
    decreases rest.len(),
{
    let reports = good.push(bad) + rest;
    if rest.len() == 0 {
        assert(reports.drop_last() =~= good);
        assert(reports.last() == bad);
        lemma_resolution_runs_its_script(strategy, good);
    } else {
        assert(reports.drop_last() =~= good.push(bad) + rest.drop_last());
        lemma_first_failure_ends_resolution(strategy, good, bad, rest.drop_last());
    }
}

} // verus!
