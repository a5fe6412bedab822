use vstd::prelude::*;

verus! {

/// How to start one supervised command.
#[derive(Clone, Debug)]
pub struct Process {
    /// The command line.
    pub command: String,
    /// The working directory; the supervisor's own when absent.
    pub directory: Option<String>,
    /// A shell to run the command line with, as `<shell> -c <command>`.
    pub shell: Option<String>,
}

/// The supervised commands, each under a name of its own.
#[derive(Clone, Debug)]
pub struct Config {
    pub processes: Vec<(String, Process)>,
}

impl Config {
    /// No two processes share a name.
    pub open spec fn wf(&self) -> bool {
        forall|i: int, j: int|
            0 <= i < j < self.processes@.len() ==> self.processes@[i].0@ != self.processes@[j].0@
    }
}

} // verus!
