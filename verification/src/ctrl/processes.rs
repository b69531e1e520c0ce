//! Selection of a process among the displayed ones

use vstd::prelude::*;

use crate::process::{first_index_of, lemma_first_index_exists, spec_pids, Pid, ProcessMetadata};

verus! {

/// The position of the selected process: the first process with the selected pid, or the
/// first process when no pid is selected or the selected pid is not displayed anymore
pub open spec fn spec_selected_index(processes: Seq<ProcessMetadata>, selected_pid: Option<Pid>) -> Option<
    int,
> {
    match selected_pid {
        Some(pid) if spec_pids(processes).contains(pid) => first_index_of(spec_pids(processes), pid),
        _ => if processes.len() > 0 {
            Some(0)
        } else {
            None
        },
    }
}

/// Keeps track of the process selected by the user among the displayed processes
pub struct ProcessSelector {
    sorted_processes: Vec<ProcessMetadata>,
    // We have to track the selected process using its Pid and not its index, as the position of the selected process
    // might change in sorted_processes over time
    selected_pid: Option<Pid>,
}

impl ProcessSelector {
    /// The displayed processes, in order
    pub closed spec fn spec_processes(&self) -> Seq<ProcessMetadata> {
        self.sorted_processes@
    }

    /// The pid of the last process the user selected, if any
    pub closed spec fn spec_selected_pid(&self) -> Option<Pid> {
        self.selected_pid
    }

    /// The position of the selected process among the displayed processes
    pub open spec fn spec_index(&self) -> Option<int> {
        spec_selected_index(self.spec_processes(), self.spec_selected_pid())
    }

    /// The pid that is selected once the selection moved one process down: the last process
    /// stays selected
    pub open spec fn spec_pid_after_next(&self) -> Option<Pid> {
        match self.spec_index() {
            Some(i) => Some(
                self.spec_processes()[if i + 1 < self.spec_processes().len() {
                    i + 1
                } else {
                    i
                }].spec_pid(),
            ),
            None => None,
        }
    }

    /// The pid that is selected once the selection moved one process up: the first process
    /// stays selected
    pub open spec fn spec_pid_after_previous(&self) -> Option<Pid> {
        match self.spec_index() {
            Some(i) => Some(
                self.spec_processes()[if i > 0 {
                    i - 1
                } else {
                    0
                }].spec_pid(),
            ),
            None => None,
        }
    }

    /// A selector with no process to select
    pub fn new() -> (s: Self)
        ensures
            s.spec_processes() == Seq::<ProcessMetadata>::empty(),
            s.spec_selected_pid() == None::<Pid>,
    {
        ProcessSelector { sorted_processes: Vec::new(), selected_pid: None }
    }

    /// Replaces the displayed processes; the selected pid is kept
    pub fn set_processes(&mut self, processes: &[ProcessMetadata])
        ensures
            final(self).spec_processes() == processes@,
            final(self).spec_selected_pid() == old(self).spec_selected_pid(),
    {
        let mut v: Vec<ProcessMetadata> = Vec::new();
        let mut i: usize = 0;
        while i < processes.len()
            invariant
                i <= processes@.len(),
                v@ == processes@.take(i as int),
            decreases processes@.len() - i,
        {
            v.push(processes[i].clone());
            assert(processes@.take(i + 1) =~= processes@.take(i as int).push(processes@[i as int]));
            i = i + 1;
        }
        assert(processes@.take(i as int) =~= processes@);
        self.sorted_processes = v;
    }

    /// The displayed processes, in order
    pub fn processes(&self) -> (p: &[ProcessMetadata])
        ensures
            p@ == self.spec_processes(),
    {
        self.sorted_processes.as_slice()
    }

    /// Returns the selected process, if any process is displayed
    pub fn selected_process(&self) -> (r: Option<&ProcessMetadata>)
        ensures
            match self.spec_index() {
                Some(i) => 0 <= i < self.spec_processes().len() && r is Some && *r->Some_0
                    == self.spec_processes()[i],
                None => r is None && self.spec_processes().len() == 0,
            },
    {
        match self.selected_index() {
            Some(idx) => {
                let pm = &self.sorted_processes[idx];
                Some(pm)
            },
            None => None,
        }
    }

    /// Selects the process after the selected one; the last process stays selected
    pub fn next_process(&mut self)
        ensures
            final(self).spec_processes() == old(self).spec_processes(),
            final(self).spec_selected_pid() == old(self).spec_pid_after_next(),
    {
        let next_index = match self.selected_index() {
            Some(idx) => {
                let last = if self.sorted_processes.len() > 0 {
                    self.sorted_processes.len() - 1
                } else {
                    0
                };
                Some(if idx + 1 < last {
                    idx + 1
                } else {
                    last
                })
            },
            None => None,
        };
        self.set_selected_process_from_index(next_index);
    }

    /// Selects the process before the selected one; the first process stays selected
    pub fn previous_process(&mut self)
        ensures
            final(self).spec_processes() == old(self).spec_processes(),
            final(self).spec_selected_pid() == old(self).spec_pid_after_previous(),
    {
        let prev_index = match self.selected_index() {
            Some(idx) => {
                let prev = if idx > 0 {
                    idx - 1
                } else {
                    0
                };
                Some(prev)
            },
            None => None,
        };
        self.set_selected_process_from_index(prev_index);
    }

    // If it returns Some(idx), idx is always within bound of self.sorted_process
    fn selected_index(&self) -> (r: Option<usize>)
        ensures
            match self.spec_index() {
                Some(i) => r is Some && r->Some_0 as int == i && 0 <= i < self.spec_processes().len(),
                None => r is None && self.spec_processes().len() == 0,
            },
    {
        let found = match self.selected_pid {
            Some(pid) => self.find_index_of_process(pid),
            None => None,
        };
        match found {
            Some(idx) => Some(idx),
            None => if self.sorted_processes.len() > 0 {
                Some(0)
            } else {
                None
            },
        }
    }

    fn find_index_of_process(&self, pid: Pid) -> (r: Option<usize>)
        ensures
            match first_index_of(spec_pids(self.spec_processes()), pid) {
                Some(i) => r is Some && r->Some_0 as int == i && 0 <= i < self.spec_processes().len(),
                None => r is None,
            },
            r is None <==> !spec_pids(self.spec_processes()).contains(pid),
    {
        let ghost pids = spec_pids(self.sorted_processes@);
        let mut i: usize = 0;
        while i < self.sorted_processes.len()
            invariant
                i <= self.sorted_processes@.len(),
                pids == spec_pids(self.sorted_processes@),
                forall|j: int| 0 <= j < i ==> pids[j] != pid,
            decreases self.sorted_processes@.len() - i,
        {
            if self.sorted_processes[i].pid() == pid {
                proof {
                    assert(pids[i as int] == pid);
                    lemma_first_index_exists(pids, pid);
                    let f = first_index_of(pids, pid)->Some_0;
                    if f < i {
                        assert(pids[f] == pid);
                    }
                    if f > i {
                        assert(pids[i as int] == pid);
                    }
                }
                return Some(i);
            }
            i = i + 1;
        }
        None
    }

    fn set_selected_process_from_index(&mut self, index: Option<usize>)
        requires
            index matches Some(i) ==> i < old(self).spec_processes().len(),
        ensures
            final(self).spec_processes() == old(self).spec_processes(),
            final(self).spec_selected_pid() == match index {
                Some(i) => Some(old(self).spec_processes()[i as int].spec_pid()),
                None => None,
            },
    {
        self.selected_pid = match index {
            None => None,
            Some(idx) => Some(self.sorted_processes[idx].pid()),
        }
    }
}

impl Default for ProcessSelector {
    fn default() -> (s: Self)
        ensures
            s.spec_processes() == Seq::<ProcessMetadata>::empty(),
            s.spec_selected_pid() == None::<Pid>,
    {
        ProcessSelector::new()
    }
}

/// The selection follows the selected process, not its position: whatever the order of the
/// displayed processes, the process selected is the first one with the selected pid, as long as
/// one is displayed
pub proof fn law_selection_follows_the_pid(processes: Seq<ProcessMetadata>, pid: Pid)
    requires
        spec_pids(processes).contains(pid),
    ensures
        spec_selected_index(processes, Some(pid)) matches Some(i) && 0 <= i < processes.len()
            && processes[i].spec_pid() == pid && forall|j: int|
            0 <= j < i ==> processes[j].spec_pid() != pid,
{
    let pids = spec_pids(processes);
    lemma_first_index_exists(pids, pid);
    let i = choose|i: int| 0 <= i < pids.len() && pids[i] == pid && forall|j: int| 0 <= j < i ==> pids[j] != pid;
    assert(pids[i] == processes[i].spec_pid());
    assert forall|j: int| 0 <= j < i implies processes[j].spec_pid() != pid by {
        assert(pids[j] == processes[j].spec_pid());
    }
}

} // verus!
