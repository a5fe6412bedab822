use vstd::prelude::*;
use vstd::string::*;

use crate::cfg::Process;
use crate::sig::InternalSignal;

verus! {

/// What `shell_words::split` makes of a command line: its words, or `None` where
/// the quoting is unbalanced.
pub uninterp spec fn shell_split(line: Seq<char>) -> Option<Seq<Seq<char>>>;

pub open spec fn views(v: Seq<String>) -> Seq<Seq<char>> {
    v.map_values(|s: String| s@)
}

#[verifier::external_type_specification]
#[verifier::external_body]
pub struct ExParseError(shell_words::ParseError);

/// Relies on shell_words::split: POSIX shell quoting, without expansion. An empty
/// line has no words.
#[verifier::external_body]
fn split_words(line: &str) -> (r: Result<Vec<String>, shell_words::ParseError>)
    ensures
        r is Ok ==> shell_split(line@) == Some(views(r->Ok_0@)),
        r is Err ==> shell_split(line@) is None,
        line@.len() == 0 ==> r is Ok && r->Ok_0@.len() == 0,
{
    shell_words::split(line)
}

/// Why a command could not be started.
#[derive(Clone, Copy, Debug, PartialEq, Eq, Structural)]
pub enum SpawnError {
    /// The command line's quoting is unbalanced.
    Tokenize,
    /// The command line holds no word.
    EmptyCommand,
}

pub open spec fn spawn_message(e: SpawnError) -> Seq<char> {
    match e {
        SpawnError::Tokenize => "missing closing quote"@,
        SpawnError::EmptyCommand => "empty command"@,
    }
}

impl SpawnError {
    pub fn message(&self) -> (r: String)
        ensures
            r@ == spawn_message(*self),
    {
        match self {
            SpawnError::Tokenize => String::from_str("missing closing quote"),
            SpawnError::EmptyCommand => String::from_str("empty command"),
        }
    }
}

/// A program to execute, with its arguments and working directory.
#[derive(Clone, Debug)]
pub struct Invocation {
    pub program: String,
    pub args: Vec<String>,
    pub directory: String,
}

/// The program is the first word and the arguments the rest.
pub fn invocation_from_words(words: Vec<String>, directory: String) -> (r: Result<Invocation, SpawnError>)
    ensures
        words@.len() == 0 <==> r == Err::<Invocation, SpawnError>(SpawnError::EmptyCommand),
        words@.len() > 0 <==> r is Ok,
        r matches Ok(inv) ==> {
            &&& inv.program@ == words@[0]@
            &&& views(inv.args@) == views(words@).drop_first()
            &&& inv.directory@ == directory@
        },
{
    if words.len() == 0 {
        return Err(SpawnError::EmptyCommand);
    }
    let program = words[0].clone();
    let mut args: Vec<String> = Vec::new();
    let mut i: usize = 1;
    while i < words.len()
        invariant
            1 <= i <= words@.len(),
            args@.len() == i - 1,
            forall|k: int| 0 <= k < args@.len() ==> args@[k]@ == words@[k + 1]@,
        decreases words@.len() - i,
    {
        let w = words[i].clone();
        args.push(w);
        i = i + 1;
    }
    assert(views(args@) =~= views(words@).drop_first());
    Ok(Invocation { program, args, directory })
}

/// What starting `process` from the working directory `cwd` executes: with a shell,
/// `<shell> -c <command>`; without one, the words of the command line.
pub fn resolve_invocation(process: &Process, cwd: &str) -> (r: Result<Invocation, SpawnError>)
    ensures
        r matches Ok(inv) ==> inv.directory@ == match process.directory {
            Some(d) => d@,
            None => cwd@,
        },
        match process.shell {
            Some(sh) => r matches Ok(inv) && inv.program@ == sh@ && views(inv.args@) == seq![
                "-c"@,
                process.command@,
            ],
            None => match shell_split(process.command@) {
                None => r == Err::<Invocation, SpawnError>(SpawnError::Tokenize),
                Some(words) => if words.len() == 0 {
                    r == Err::<Invocation, SpawnError>(SpawnError::EmptyCommand)
                } else {
                    r matches Ok(inv) && inv.program@ == words[0] && views(inv.args@)
                        == words.drop_first()
                },
            },
        },
{
    let directory = match &process.directory {
        Some(d) => d.clone(),
        None => cwd.to_owned(),
    };
    match &process.shell {
        Some(sh) => {
            let mut args: Vec<String> = Vec::new();
            args.push(String::from_str("-c"));
            args.push(process.command.clone());
            assert(views(args@) =~= seq!["-c"@, process.command@]);
            let inv = Invocation { program: sh.clone(), args, directory };
            assert(inv.program@ == sh@);
            Ok(inv)
        },
        None => match split_words(process.command.as_str()) {
            Err(_) => Err(SpawnError::Tokenize),
            Ok(words) => {
                assert(views(words@).len() == words@.len());
                if words.len() > 0 {
                    assert(views(words@)[0] == words@[0]@);
                }
                invocation_from_words(words, directory)
            },
        },
    }
}

/// Whether a process ended well: by exit code 0, or by a signal (no exit code),
/// which the supervisor asked for.
pub fn exit_success(code: Option<i32>) -> (r: bool)
    ensures
        r == (code is None || code == Some(0i32)),
        code is None ==> r,
        code matches Some(c) ==> (r <==> c == 0),
{
    match code {
        Some(c) => c == 0,
        None => true,
    }
}

/// Why a runner ended without an outcome of its process.
#[derive(Clone, Copy, Debug, PartialEq, Eq, Structural)]
pub enum RunError {
    /// The command could not be resolved.
    Spawn(SpawnError),
    /// The system would not start the program (missing, not executable, bad directory).
    Launch,
    /// The output of the process could not be captured.
    Pipe,
    /// The channel of signals for this runner closed.
    SignalChannelClosed,
    /// A signal could not be delivered to the process group.
    SignalDelivery,
}

pub open spec fn run_message(e: RunError) -> Seq<char> {
    match e {
        RunError::Spawn(s) => spawn_message(s),
        RunError::Launch => "could not start the command"@,
        RunError::Pipe => "could not pipe output"@,
        RunError::SignalChannelClosed => "signal channel closed"@,
        RunError::SignalDelivery => "failed to broadcast signal"@,
    }
}

impl RunError {
    pub fn message(&self) -> (r: String)
        ensures
            r@ == run_message(*self),
    {
        match self {
            RunError::Spawn(e) => e.message(),
            RunError::Launch => String::from_str("could not start the command"),
            RunError::Pipe => String::from_str("could not pipe output"),
            RunError::SignalChannelClosed => String::from_str("signal channel closed"),
            RunError::SignalDelivery => String::from_str("failed to broadcast signal"),
        }
    }
}

/// What a runner observes while its process runs.
#[derive(Clone, Copy, Debug, PartialEq, Eq, Structural)]
pub enum RunnerEvent {
    /// The process exited, with its exit code if it has one.
    Exited(Option<i32>),
    /// Waiting for the process failed.
    WaitFailed,
    /// A signal arrived for the process.
    Signal(InternalSignal),
    /// The channel of signals closed.
    SignalChannelClosed,
    /// Delivering a signal to the process group failed.
    DeliveryFailed,
}

/// What a runner does next.
#[derive(Clone, Copy, Debug, PartialEq, Eq, Structural)]
pub enum RunnerAction {
    /// Stop, reporting whether the process succeeded.
    Finish(bool),
    /// Send the signal to the whole process group and keep waiting.
    Forward(InternalSignal),
    /// Stop with an error, which counts as a failure.
    Fail(RunError),
}

pub open spec fn runner_action(event: RunnerEvent) -> RunnerAction {
    match event {
        RunnerEvent::Exited(code) => RunnerAction::Finish(code is None || code == Some(0i32)),
        RunnerEvent::WaitFailed => RunnerAction::Finish(false),
        RunnerEvent::Signal(sig) => RunnerAction::Forward(sig),
        RunnerEvent::SignalChannelClosed => RunnerAction::Fail(RunError::SignalChannelClosed),
        RunnerEvent::DeliveryFailed => RunnerAction::Fail(RunError::SignalDelivery),
    }
}

/// One decision of the runner's loop.
pub fn runner_step(event: RunnerEvent) -> (r: RunnerAction)
    ensures
        r == runner_action(event),
{
    match event {
        RunnerEvent::Exited(code) => RunnerAction::Finish(exit_success(code)),
        RunnerEvent::WaitFailed => RunnerAction::Finish(false),
        RunnerEvent::Signal(sig) => RunnerAction::Forward(sig),
        RunnerEvent::SignalChannelClosed => RunnerAction::Fail(RunError::SignalChannelClosed),
        RunnerEvent::DeliveryFailed => RunnerAction::Fail(RunError::SignalDelivery),
    }
}

/// The outcome that a runner reports to the supervisor: an error counts as a failure.
pub fn runner_outcome(result: Result<bool, RunError>) -> (r: bool)
    ensures
        r == (result == Ok::<bool, RunError>(true)),
{
    match result {
        Ok(success) => success,
        Err(_) => false,
    }
}

} // verus!
