use git_sync::conflict::{
    resolution_step, CommandOutput, CommandReport, Resolution, ResolutionAction, Strategy,
};
use git_sync::error::GitError;

fn exited(code: i32, stderr: &str) -> CommandReport {
    Ok(CommandOutput { exit_code: Some(code), stderr: stderr.to_string() })
}

fn run(args: &[&str]) -> ResolutionAction {
    ResolutionAction::Run {
        program: "git".to_string(),
        args: args.iter().map(|a| a.to_string()).collect(),
    }
}

fn finish(result: Result<&str, GitError>) -> ResolutionAction {
    ResolutionAction::Finish { result: result.map(|m| m.to_string()) }
}

#[test]
fn prefer_remote_takes_theirs_stages_and_commits() {
    let state = Resolution::start(Strategy::PreferRemote);
    assert_eq!(state.pending(), run(&["checkout", "--theirs", "."]));
    let (state, action) = resolution_step(state, exited(0, ""));
    assert_eq!(action, run(&["add", "."]));
    let (state, action) = resolution_step(state, exited(0, "warning: LF will be replaced"));
    assert_eq!(action, run(&["commit", "-m", "Merge resolved by preferring remote"]));
    let (state, action) = resolution_step(state, exited(0, ""));
    assert_eq!(action, finish(Ok("Merge resolved by preferring remote")));
    assert!(!state.is_running());
    assert_eq!(state.completed, 3);
}

#[test]
fn abort_runs_one_command() {
    let state = Resolution::start(Strategy::Abort);
    assert!(state.is_running());
    assert_eq!(state.pending(), run(&["merge", "--abort"]));
    let (state, action) = resolution_step(state, exited(0, ""));
    assert_eq!(action, finish(Ok("Merge aborted")));
    assert!(!state.is_running());
}

#[test]
fn scripts_and_messages() {
    let words = |script: Vec<Vec<String>>| -> Vec<String> {
        script.iter().map(|args| args.join(" ")).collect()
    };
    assert_eq!(
        words(Strategy::PreferRemote.commands()),
        vec!["checkout --theirs .", "add .", "commit -m Merge resolved by preferring remote"]
    );
    assert_eq!(words(Strategy::Abort.commands()), vec!["merge --abort"]);
    assert_eq!(Strategy::PreferRemote.success_message(), "Merge resolved by preferring remote");
    assert_eq!(Strategy::Abort.success_message(), "Merge aborted");
}

#[test]
fn non_zero_status_fails_with_the_commands_own_words() {
    let state = Resolution::start(Strategy::PreferRemote);
    let (state, action) = resolution_step(state, exited(0, ""));
    assert_eq!(action, run(&["add", "."]));
    let (state, action) = resolution_step(state, exited(128, "fatal: unable to write index"));
    let failure = GitError::ConflictResolution("fatal: unable to write index".to_string());
    assert_eq!(action, finish(Err(failure.clone())));
    assert_eq!(state.completed, 1);
    let (_, action) = resolution_step(state, exited(0, ""));
    assert_eq!(action, finish(Err(failure)));
}

#[test]
fn failed_abort_is_reported() {
    let state = Resolution::start(Strategy::Abort);
    let report = exited(128, "fatal: There is no merge to abort (MERGE_HEAD missing).\n");
    let (_, action) = resolution_step(state, report);
    assert_eq!(
        action,
        finish(Err(GitError::ConflictResolution(
            "fatal: There is no merge to abort (MERGE_HEAD missing).\n".to_string()
        )))
    );
}

#[test]
fn command_that_cannot_run_is_an_io_failure() {
    let state = Resolution::start(Strategy::Abort);
    let (_, action) = resolution_step(state, Err("No such file or directory".to_string()));
    assert_eq!(action, finish(Err(GitError::Io("No such file or directory".to_string()))));
}

#[test]
fn command_ended_by_a_signal_has_not_succeeded() {
    let killed = CommandOutput { exit_code: None, stderr: String::new() };
    assert!(!killed.succeeded());
    assert!(CommandOutput { exit_code: Some(0), stderr: "noise".to_string() }.succeeded());
    assert!(!CommandOutput { exit_code: Some(1), stderr: String::new() }.succeeded());
    assert!(!CommandOutput { exit_code: Some(-1), stderr: String::new() }.succeeded());
    let state = Resolution::start(Strategy::Abort);
    let (_, action) = resolution_step(state, Ok(killed));
    assert_eq!(action, finish(Err(GitError::ConflictResolution(String::new()))));
}

#[test]
fn finished_resolution_ignores_reports() {
    let state = Resolution::start(Strategy::Abort);
    let (state, _) = resolution_step(state, exited(0, ""));
    let (state, action) = resolution_step(state, exited(1, "late"));
    assert_eq!(action, finish(Ok("Merge aborted")));
    assert_eq!(state, Resolution { strategy: Strategy::Abort, completed: 1, failure: None });
}
