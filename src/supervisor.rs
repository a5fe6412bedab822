use vstd::prelude::*;

use crate::cfg::Config;
use crate::log::{process_label, Logger};
use crate::sig::InternalSignal;

verus! {

/// The supervisor's bookkeeping: how many processes it runs, the outcome of the
/// first one to exit, and how many runners it has joined.
pub struct SupervisorState {
    pub count: nat,
    pub first: Option<bool>,
    pub joined: nat,
}

impl SupervisorState {
    pub open spec fn start(count: nat) -> Self {
        SupervisorState { count, first: None, joined: 0 }
    }

    /// The broadcast that an exit triggers: a terminate request, on the first exit only.
    pub open spec fn exit_broadcast(self) -> Option<InternalSignal> {
        if self.first is None {
            Some(InternalSignal::Terminate)
        } else {
            None
        }
    }

    /// The first exit fixes the outcome; later exits leave it as it is.
    pub open spec fn record_exit(self, success: bool) -> Self {
        SupervisorState {
            first: if self.first is None {
                Some(success)
            } else {
                self.first
            },
            ..self
        }
    }
}

/// The state after the exits `outcomes`, in the order they were observed.
pub open spec fn after_exits(s: SupervisorState, outcomes: Seq<bool>) -> SupervisorState
    decreases outcomes.len(),
{
    if outcomes.len() == 0 {
        s
    } else {
        after_exits(s.record_exit(outcomes[0]), outcomes.drop_first())
    }
}

/// How many of the exits `outcomes` trigger a broadcast.
pub open spec fn broadcasts_during(s: SupervisorState, outcomes: Seq<bool>) -> nat
    decreases outcomes.len(),
{
    if outcomes.len() == 0 {
        0
    } else {
        (if s.exit_broadcast() is Some {
            1nat
        } else {
            0nat
        }) + broadcasts_during(s.record_exit(outcomes[0]), outcomes.drop_first())
    }
}

/// One send of a signal to the runner of process `target`.
#[derive(Clone, Copy, Debug, PartialEq, Eq, Structural)]
pub struct Delivery {
    pub target: usize,
    pub signal: InternalSignal,
}

/// A broadcast: one send to each of the `count` runners, in order.
pub open spec fn fan_out(count: nat, signal: InternalSignal) -> Seq<Delivery> {
    Seq::new(count, |i: int| Delivery { target: i as usize, signal })
}

/// How a run ends.
#[derive(Clone, Copy, Debug, PartialEq, Eq, Structural)]
pub enum RunEnd {
    /// The first process to exit decided the run.
    Finished(bool),
    /// The configuration could not be loaded.
    ConfigFailed,
    /// A coordination channel closed before it delivered what the run needs.
    CoordinationFailed,
}

pub open spec fn exit_code_of(end: RunEnd) -> i32 {
    match end {
        RunEnd::Finished(true) => 0,
        RunEnd::Finished(false) => 1,
        RunEnd::ConfigFailed => 1,
        RunEnd::CoordinationFailed => 2,
    }
}

/// The status the supervisor exits with.
pub fn exit_code(end: RunEnd) -> (r: i32)
    ensures
        r == exit_code_of(end),
{
    match end {
        RunEnd::Finished(true) => 0,
        RunEnd::Finished(false) => 1,
        RunEnd::ConfigFailed => 1,
        RunEnd::CoordinationFailed => 2,
    }
}

/// The coordination of one run: the first exit decides the outcome and triggers a
/// single terminate broadcast; the run ends once every runner is joined.
#[derive(Clone, Debug)]
pub struct Supervisor {
    count: usize,
    first: Option<bool>,
    joined: usize,
}

impl View for Supervisor {
    type V = SupervisorState;

    closed spec fn view(&self) -> SupervisorState {
        SupervisorState { count: self.count as nat, first: self.first, joined: self.joined as nat }
    }
}

impl Supervisor {
    pub closed spec fn wf(&self) -> bool {
        self.joined <= self.count
    }

    pub fn new(count: usize) -> (r: Self)
        ensures
            r.wf(),
            r@ == SupervisorState::start(count as nat),
    {
        Supervisor { count, first: None, joined: 0 }
    }

    pub fn count(&self) -> (r: usize)
        ensures
            r == self@.count,
    {
        self.count
    }

    /// Records the exit of a process; the first one returns the signal to broadcast.
    pub fn on_exit(&mut self, success: bool) -> (r: Option<InternalSignal>)
        requires
            old(self).wf(),
        ensures
            final(self).wf(),
            final(self)@ == old(self)@.record_exit(success),
            r == old(self)@.exit_broadcast(),
    {
        if self.first.is_none() {
            self.first = Some(success);
            Some(InternalSignal::Terminate)
        } else {
            None
        }
    }

    /// The sends that broadcast `signal` to every runner.
    pub fn deliveries(&self, signal: InternalSignal) -> (r: Vec<Delivery>)
        ensures
            r@ == fan_out(self@.count, signal),
    {
        let mut r: Vec<Delivery> = Vec::new();
        let mut i: usize = 0;
        while i < self.count
            invariant
                i <= self.count,
                r@ == fan_out(i as nat, signal),
            decreases self.count - i,
        {
            r.push(Delivery { target: i, signal });
            assert(r@ =~= fan_out((i + 1) as nat, signal));
            i = i + 1;
        }
        r
    }

    /// Records that one more runner was joined.
    pub fn on_joined(&mut self)
        requires
            old(self).wf(),
            old(self)@.joined < old(self)@.count,
        ensures
            final(self).wf(),
            final(self)@ == (SupervisorState { joined: old(self)@.joined + 1, ..old(self)@ }),
    {
        self.joined = self.joined + 1;
    }

    /// Whether every runner has been joined.
    pub fn all_joined(&self) -> (r: bool)
        requires
            self.wf(),
        ensures
            r == (self@.joined == self@.count),
    {
        self.joined == self.count
    }

    /// How the run ends: as the first exit decided, once every runner is joined, or,
    /// where no exit was ever reported, as a coordination failure.
    pub fn outcome(&self) -> (r: RunEnd)
        requires
            self@.first is Some ==> self@.joined == self@.count,
        ensures
            r == match self@.first {
                Some(b) => RunEnd::Finished(b),
                None => RunEnd::CoordinationFailed,
            },
    {
        match self.first {
            Some(b) => RunEnd::Finished(b),
            None => RunEnd::CoordinationFailed,
        }
    }
}

/// Registers the label of every configured process, before any line is rendered.
pub fn register_processes(logger: &mut Logger, config: &Config)
    requires
        old(logger).wf(),
    ensures
        final(logger).wf(),
        forall|i: int|
            0 <= i < config.processes@.len() ==> final(logger).labels().contains(
                process_label(config.processes@[i].0@),
            ),
        forall|l: Seq<char>| old(logger).labels().contains(l) ==> final(logger).labels().contains(l),
        forall|l: Seq<char>|
            final(logger).labels().contains(l) ==> old(logger).labels().contains(l) || exists|i: int|
                0 <= i < config.processes@.len() && l == process_label(config.processes@[i].0@),
{
    let mut i: usize = 0;
    while i < config.processes.len()
        invariant
            i <= config.processes@.len(),
            logger.wf(),
            forall|k: int|
                0 <= k < i ==> logger.labels().contains(process_label(config.processes@[k].0@)),
            forall|l: Seq<char>| old(logger).labels().contains(l) ==> logger.labels().contains(l),
            forall|l: Seq<char>|
                logger.labels().contains(l) ==> old(logger).labels().contains(l) || exists|k: int|
                    0 <= k < i && l == process_label(config.processes@[k].0@),
        decreases config.processes@.len() - i,
    {
        let ghost before = logger.labels();
        logger.register_name(config.processes[i].0.as_str());
        proof {
            let p = choose|p: int|
                0 <= p <= before.len() && logger.labels() == before.insert(
                    p,
                    process_label(config.processes@[i as int].0@),
                );
            assert(logger.labels()[p] == process_label(config.processes@[i as int].0@));
            assert forall|l: Seq<char>| before.contains(l) implies logger.labels().contains(l) by {
                let q = choose|q: int| 0 <= q < before.len() && before[q] == l;
                if q < p {
                    assert(logger.labels()[q] == l);
                } else {
                    assert(logger.labels()[q + 1] == l);
                }
            }
            assert forall|l: Seq<char>| logger.labels().contains(l) implies old(logger).labels().contains(l)
                || exists|k: int|
                0 <= k < i + 1 && l == process_label(config.processes@[k].0@) by {
                let q = choose|q: int| 0 <= q < logger.labels().len() && logger.labels()[q] == l;
                if q < p {
                    assert(before[q] == l);
                } else if q > p {
                    assert(before[q - 1] == l);
                } else {
                    assert(l == process_label(config.processes@[i as int].0@));
                }
            }
        }
        i = i + 1;
    }
}

/// Whatever the number of processes and however they exit, exactly one terminate
/// broadcast is triggered, and it is triggered by the first exit.
pub proof fn lemma_single_termination_broadcast(count: nat, outcomes: Seq<bool>)
    requires
        outcomes.len() >= 1,
    ensures
        SupervisorState::start(count).exit_broadcast() == Some(InternalSignal::Terminate),
        broadcasts_during(SupervisorState::start(count), outcomes) == 1,
{
    let s1 = SupervisorState::start(count).record_exit(outcomes[0]);
    lemma_no_broadcast_once_decided(s1, outcomes.drop_first());
}

proof fn lemma_no_broadcast_once_decided(s: SupervisorState, outcomes: Seq<bool>)
    requires
        s.first is Some,
    ensures
        broadcasts_during(s, outcomes) == 0,
        after_exits(s, outcomes) == s,
    decreases outcomes.len(),
{
    if outcomes.len() > 0 {
        lemma_no_broadcast_once_decided(s.record_exit(outcomes[0]), outcomes.drop_first());
    }
}

/// The outcome of a run is that of the process that exited first, whatever the
/// others do afterwards.
pub proof fn lemma_first_exit_decides(count: nat, outcomes: Seq<bool>)
    requires
        outcomes.len() >= 1,
    ensures
        after_exits(SupervisorState::start(count), outcomes).first == Some(outcomes[0]),
{
    let s1 = SupervisorState::start(count).record_exit(outcomes[0]);
    lemma_no_broadcast_once_decided(s1, outcomes.drop_first());
}

/// A broadcast reaches every runner exactly once, and carries the signal unchanged.
pub proof fn lemma_broadcast_reaches_each_once(count: nat, signal: InternalSignal, target: nat)
    requires
        target < count,
        count <= usize::MAX + 1,
    ensures
        exists|i: int|
            0 <= i < fan_out(count, signal).len() && fan_out(count, signal)[i] == (Delivery {
                target: target as usize,
                signal,
            }),
        forall|i: int|
            0 <= i < fan_out(count, signal).len() && fan_out(count, signal)[i].target == target
                ==> i == target,
        forall|i: int| 0 <= i < fan_out(count, signal).len() ==> fan_out(count, signal)[i].signal == signal,
{
    assert(fan_out(count, signal)[target as int] == Delivery { target: target as usize, signal });
}

} // verus!
