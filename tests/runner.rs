use procvisor::cfg::Process;
use procvisor::proc::{
    exit_success, invocation_from_words, resolve_invocation, runner_outcome, runner_step, RunError,
    RunnerAction, RunnerEvent, SpawnError,
};
use procvisor::sig::InternalSignal;

fn process(command: &str, directory: Option<&str>, shell: Option<&str>) -> Process {
    Process {
        command: command.to_string(),
        directory: directory.map(|d| d.to_string()),
        shell: shell.map(|s| s.to_string()),
    }
}

#[test]
fn exit_code_zero_is_success() {
    assert!(exit_success(Some(0)));
}

#[test]
fn nonzero_exit_code_is_failure() {
    assert!(!exit_success(Some(1)));
    assert!(!exit_success(Some(7)));
    assert!(!exit_success(Some(-1)));
    assert!(!exit_success(Some(255)));
}

#[test]
fn exit_by_signal_is_success() {
    assert!(exit_success(None));
}

#[test]
fn shell_runs_command_with_dash_c() {
    let inv = resolve_invocation(&process("exit 7", None, Some("/bin/sh")), "/work").unwrap();
    assert_eq!(inv.program, "/bin/sh");
    assert_eq!(inv.args, vec!["-c".to_string(), "exit 7".to_string()]);
    assert_eq!(inv.directory, "/work");
    assert_eq!(runner_step(RunnerEvent::Exited(Some(7))), RunnerAction::Finish(false));
}

#[test]
fn command_is_split_with_shell_quoting() {
    let inv =
        resolve_invocation(&process("echo \"hello world\" 'a b' c\\ d", Some("/srv"), None), "/work")
            .unwrap();
    assert_eq!(inv.program, "echo");
    assert_eq!(
        inv.args,
        vec!["hello world".to_string(), "a b".to_string(), "c d".to_string()]
    );
    assert_eq!(inv.directory, "/srv");
}

#[test]
fn nonexistent_binary_is_resolved_then_fails_the_runner() {
    let inv = resolve_invocation(&process("/no/such/binary --flag", None, None), "/").unwrap();
    assert_eq!(inv.program, "/no/such/binary");
    assert_eq!(inv.args, vec!["--flag".to_string()]);
    assert!(!runner_outcome(Err(RunError::Launch)));
}

#[test]
fn empty_command_is_a_spawn_error() {
    let r = resolve_invocation(&process("   ", None, None), "/");
    assert_eq!(r.unwrap_err(), SpawnError::EmptyCommand);
    let r = resolve_invocation(&process("", None, None), "/");
    assert_eq!(r.unwrap_err(), SpawnError::EmptyCommand);
    assert_eq!(SpawnError::EmptyCommand.message(), "empty command");
}

#[test]
fn unbalanced_quote_is_a_spawn_error() {
    let r = resolve_invocation(&process("echo 'oops", None, None), "/");
    assert_eq!(r.unwrap_err(), SpawnError::Tokenize);
}

#[test]
fn words_give_program_and_arguments() {
    let inv = invocation_from_words(
        vec!["sleep".to_string(), "100".to_string()],
        "/tmp".to_string(),
    )
    .unwrap();
    assert_eq!(inv.program, "sleep");
    assert_eq!(inv.args, vec!["100".to_string()]);
    assert_eq!(inv.directory, "/tmp");
    assert_eq!(
        invocation_from_words(vec![], "/tmp".to_string()).unwrap_err(),
        SpawnError::EmptyCommand
    );
}

#[test]
fn runner_decisions() {
    assert_eq!(runner_step(RunnerEvent::Exited(Some(0))), RunnerAction::Finish(true));
    assert_eq!(runner_step(RunnerEvent::Exited(None)), RunnerAction::Finish(true));
    assert_eq!(runner_step(RunnerEvent::WaitFailed), RunnerAction::Finish(false));
    assert_eq!(
        runner_step(RunnerEvent::Signal(InternalSignal::Hangup)),
        RunnerAction::Forward(InternalSignal::Hangup)
    );
    assert_eq!(
        runner_step(RunnerEvent::SignalChannelClosed),
        RunnerAction::Fail(RunError::SignalChannelClosed)
    );
    assert_eq!(
        runner_step(RunnerEvent::DeliveryFailed),
        RunnerAction::Fail(RunError::SignalDelivery)
    );
}

#[test]
fn runner_outcome_counts_errors_as_failure() {
    assert!(runner_outcome(Ok(true)));
    assert!(!runner_outcome(Ok(false)));
    assert!(!runner_outcome(Err(RunError::SignalDelivery)));
    assert_eq!(RunError::SignalDelivery.message(), "failed to broadcast signal");
    assert_eq!(RunError::SignalChannelClosed.message(), "signal channel closed");
    assert_eq!(RunError::Spawn(SpawnError::Tokenize).message(), "missing closing quote");
    assert_eq!(RunError::Spawn(SpawnError::EmptyCommand).message(), "empty command");
    assert_eq!(RunError::Launch.message(), "could not start the command");
    assert_eq!(RunError::Pipe.message(), "could not pipe output");
    assert!(!runner_outcome(Err(RunError::Launch)));
}
