//! The decisions of the thread that probes the monitored processes
//!
//! The thread receives messages one at a time; each one changes the set of monitored processes,
//! asks for the monitored processes to be probed, or stops the thread. The probing itself, and
//! the channels, are the caller's.

use std::collections::HashSet;

use vstd::prelude::*;

use crate::process::Pid;

verus! {

broadcast use vstd::std_specs::hash::group_hash_axioms;

/// Contains messages that can be sent to a probing thread
#[derive(PartialEq, Eq, Structural, Debug, Copy, Clone)]
pub enum ProbeInput {
    Kill(),
    AddProcess(Pid),
    DelProcess(Pid),
    Probe(),
}

/// What the probing thread does once it handled a message
#[derive(PartialEq, Eq, Structural, Debug, Copy, Clone)]
pub enum ProbeAction {
    /// Wait for the next message
    Continue,
    /// Probe the monitored processes, send their metrics, then wait for the next message
    Probe,
    /// The thread was killed: stop
    Stop,
}

/// The set of monitored processes after a message
pub open spec fn spec_monitored_after(monitored: Set<Pid>, msg: ProbeInput) -> Set<Pid> {
    match msg {
        ProbeInput::AddProcess(pid) => monitored.insert(pid),
        ProbeInput::DelProcess(pid) => monitored.remove(pid),
        _ => monitored,
    }
}

/// What the thread does after a message
pub open spec fn spec_action(msg: ProbeInput) -> ProbeAction {
    match msg {
        ProbeInput::Kill() => ProbeAction::Stop,
        ProbeInput::Probe() => ProbeAction::Probe,
        _ => ProbeAction::Continue,
    }
}

/// Keeps track of the processes that the probing thread monitors
pub struct ProbeRunner {
    monitored_pids: HashSet<Pid>,
}

impl ProbeRunner {
    /// The monitored processes
    pub closed spec fn spec_monitored(&self) -> Set<Pid> {
        self.monitored_pids@
    }

    /// No process is monitored at first
    pub fn new() -> (r: Self)
        ensures
            r.spec_monitored() == Set::<Pid>::empty(),
    {
        ProbeRunner { monitored_pids: HashSet::new() }
    }

    /// Handles a message: adding a process that is already monitored, or deleting one that is
    /// not, changes nothing
    pub fn handle_message(&mut self, msg: ProbeInput) -> (a: ProbeAction)
        ensures
            final(self).spec_monitored() == spec_monitored_after(old(self).spec_monitored(), msg),
            a == spec_action(msg),
    {
        match msg {
            ProbeInput::Kill() => ProbeAction::Stop,
            ProbeInput::AddProcess(pid) => {
                self.monitored_pids.insert(pid);
                ProbeAction::Continue
            },
            ProbeInput::DelProcess(pid) => {
                self.monitored_pids.remove(&pid);
                ProbeAction::Continue
            },
            ProbeInput::Probe() => ProbeAction::Probe,
        }
    }

    /// The monitored processes, to be probed
    pub fn monitored_pids(&self) -> (s: &HashSet<Pid>)
        ensures
            s@ == self.spec_monitored(),
    {
        &self.monitored_pids
    }

    /// Is the process monitored?
    pub fn is_monitored(&self, pid: Pid) -> (b: bool)
        ensures
            b == self.spec_monitored().contains(pid),
    {
        self.monitored_pids.contains(&pid)
    }
}

/// Adding a process twice monitors it once, as adding it once does; adding a process then
/// deleting it leaves it unmonitored, whether or not it was monitored before.
pub proof fn law_monitoring_is_a_set(monitored: Set<Pid>, pid: Pid)
    ensures
        spec_monitored_after(
            spec_monitored_after(monitored, ProbeInput::AddProcess(pid)),
            ProbeInput::AddProcess(pid),
        ) == spec_monitored_after(monitored, ProbeInput::AddProcess(pid)),
        !spec_monitored_after(
            spec_monitored_after(monitored, ProbeInput::AddProcess(pid)),
            ProbeInput::DelProcess(pid),
        ).contains(pid),
        spec_monitored_after(
            spec_monitored_after(monitored, ProbeInput::AddProcess(pid)),
            ProbeInput::DelProcess(pid),
        ) == monitored.remove(pid),
{
    assert(monitored.insert(pid).insert(pid) =~= monitored.insert(pid));
    assert(monitored.insert(pid).remove(pid) =~= monitored.remove(pid));
}

/// The metric of each probed process, in the order of `pids`: the metric that probing it gave,
/// or `default` for a process that could not be probed (`None`)
pub fn metrics_or_default<M: Copy>(pids: &Vec<Pid>, probed: &Vec<Option<M>>, default: M) -> (metrics: Vec<(Pid, M)>)
    requires
        probed@.len() == pids@.len(),
    ensures
        metrics@.len() == pids@.len(),
        forall|i: int|
            0 <= i < pids@.len() ==> #[trigger] metrics@[i] == (pids@[i], match probed@[i] {
                Some(m) => m,
                None => default,
            }),
{
    let mut metrics: Vec<(Pid, M)> = Vec::new();
    let mut i: usize = 0;
    while i < pids.len()
        invariant
            probed@.len() == pids@.len(),
            i <= pids@.len(),
            metrics@.len() == i,
            forall|j: int|
                0 <= j < i ==> #[trigger] metrics@[j] == (pids@[j], match probed@[j] {
                    Some(m) => m,
                    None => default,
                }),
        decreases pids@.len() - i,
    {
        let metric = match probed[i] {
            Some(m) => m,
            None => default,
        };
        metrics.push((pids[i], metric));
        i = i + 1;
    }
    metrics
}

} // verus!
