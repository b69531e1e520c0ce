//! Process discovery and tracking

use vstd::prelude::*;

use crate::iteration::{Iteration, Span};

verus! {

/// Represents the unique ID of a running process
///
/// On Linux 64 bits, the maximum value for a PID is 4194304, hence u32
pub type Pid = u32;

/// The position of the first occurrence of `x` in `s`, if any
pub open spec fn first_index_of(s: Seq<Pid>, x: Pid) -> Option<int> {
    if s.contains(x) {
        Some(choose|i: int| 0 <= i < s.len() && s[i] == x && forall|j: int| 0 <= j < i ==> s[j] != x)
    } else {
        None
    }
}

pub proof fn lemma_first_index_exists(s: Seq<Pid>, x: Pid)
    requires
        s.contains(x),
    ensures
        exists|i: int| 0 <= i < s.len() && s[i] == x && forall|j: int| 0 <= j < i ==> s[j] != x,
    decreases s.len(),
{
    let k = choose|k: int| 0 <= k < s.len() && s[k] == x;
    if s[0] == x {
        assert(forall|j: int| 0 <= j < 0 ==> s[j] != x);
    } else {
        assert(s.drop_first().contains(x)) by {
            assert(s.drop_first()[k - 1] == x);
        }
        lemma_first_index_exists(s.drop_first(), x);
        let i = choose|i: int|
            0 <= i < s.drop_first().len() && s.drop_first()[i] == x && forall|j: int|
                0 <= j < i ==> s.drop_first()[j] != x;
        assert forall|j: int| 0 <= j < i + 1 implies s[j] != x by {
            if j > 0 {
                assert(s[j] == s.drop_first()[j - 1]);
            }
        }
    }
}

/// Indicates if a process is still running
#[derive(PartialEq, Eq, Structural, Debug, Copy, Clone)]
pub enum Status {
    RUNNING,
    DEAD,
}

impl Status {
    /// The name of the status, as displayed to the user
    pub fn label(&self) -> (s: &'static str)
        ensures
            s@ == (match self {
                Status::RUNNING => "running"@,
                Status::DEAD => "dead"@,
            }),
    {
        match self {
            Status::RUNNING => "running",
            Status::DEAD => "dead",
        }
    }
}

/// Basic metadata of a process (PID, command, etc...)
#[derive(PartialEq, Eq, Debug)]
pub struct ProcessMetadata {
    pid: Pid,
    command: String,
    status: Status,
    running_span: Span,
}

impl ProcessMetadata {
    pub closed spec fn spec_pid(&self) -> Pid {
        self.pid
    }

    pub closed spec fn spec_command(&self) -> Seq<char> {
        self.command@
    }

    pub closed spec fn spec_status(&self) -> Status {
        self.status
    }

    pub closed spec fn spec_running_span(&self) -> Span {
        self.running_span
    }

    /// Returns a new instance of a ProcessMetadata: the process is running, and its span only
    /// covers the iteration at which it was spawned
    pub fn new(pid: Pid, spawn_iteration: Iteration, command: &str) -> (pm: Self)
        ensures
            pm.spec_pid() == pid,
            pm.spec_command() == command@,
            pm.spec_status() == Status::RUNNING,
            pm.spec_running_span().spec_begin() == spawn_iteration,
            pm.spec_running_span().spec_end() == spawn_iteration,
            pm.spec_running_span().spec_size() == 1,
    {
        ProcessMetadata {
            pid,
            command: String::from_str(command),
            status: Status::RUNNING,
            running_span: Span::from_begin(spawn_iteration),
        }
    }

    /// Returns the process identifier assigned to the process by the OS
    ///
    /// Whilst a PID can be recycled, two running processes can not share the same PID
    pub fn pid(&self) -> (p: Pid)
        ensures
            p == self.spec_pid(),
    {
        self.pid
    }

    /// Returns the command used to execute the given process
    ///
    /// This method does not return the arguments passed to the command
    pub fn command(&self) -> (c: &str)
        ensures
            c@ == self.spec_command(),
    {
        self.command.as_str()
    }

    /// Returns the status of the process, indicating if it is still running or not
    pub fn status(&self) -> (s: Status)
        ensures
            s == self.spec_status(),
    {
        self.status
    }

    /// Marks a process as dead
    pub fn mark_dead(&mut self)
        ensures
            final(self).spec_status() == Status::DEAD,
            final(self).spec_pid() == old(self).spec_pid(),
            final(self).spec_command() == old(self).spec_command(),
            final(self).spec_running_span() == old(self).spec_running_span(),
    {
        self.status = Status::DEAD;
    }

    /// Indicates the span of iterations during which the process is running
    pub fn running_span(&self) -> (s: &Span)
        ensures
            *s == self.spec_running_span(),
    {
        &self.running_span
    }

    /// Updates the span of the process, indicating that it is still running at the given iteration
    ///
    /// # Arguments
    /// * `current_iteration`: The iteration at which the process is still running
    pub fn mark_alive_at_iteration(&mut self, current_iteration: Iteration)
        requires
            old(self).spec_running_span().spec_begin() <= current_iteration < usize::MAX,
        ensures
            final(self).spec_pid() == old(self).spec_pid(),
            final(self).spec_command() == old(self).spec_command(),
            final(self).spec_status() == old(self).spec_status(),
            final(self).spec_running_span().spec_begin() == old(self).spec_running_span().spec_begin(),
            final(self).spec_running_span().spec_end() == current_iteration,
            final(self).spec_running_span().spec_size() == current_iteration - old(
                self,
            ).spec_running_span().spec_begin() + 1,
    {
        self.running_span.set_end_and_resize(current_iteration);
    }
}

impl Clone for ProcessMetadata {
    fn clone(&self) -> (pm: Self)
        ensures
            pm == *self,
    {
        ProcessMetadata {
            pid: self.pid,
            command: self.command.clone(),
            status: self.status,
            running_span: self.running_span,
        }
    }
}

/// The pids of `processes`, in order
pub open spec fn spec_pids(processes: Seq<ProcessMetadata>) -> Seq<Pid> {
    processes.map_values(|pm: ProcessMetadata| pm.spec_pid())
}

/// The processes of `processes` that are running, in order
pub open spec fn spec_running(processes: Seq<ProcessMetadata>) -> Seq<ProcessMetadata> {
    processes.filter(|pm: ProcessMetadata| pm.spec_status() == Status::RUNNING)
}

/// The processes whose running span meets `span`: they ran during at least one of its
/// iterations
pub open spec fn spec_running_within(processes: Seq<ProcessMetadata>, span: Span) -> Seq<ProcessMetadata> {
    processes.filter(
        |pm: ProcessMetadata|
            !(pm.spec_running_span().spec_end() < span.spec_begin() || pm.spec_running_span().spec_begin()
                > span.spec_end()),
    )
}

/// No two processes of `processes` share a pid
pub open spec fn distinct_pids(processes: Seq<ProcessMetadata>) -> bool {
    forall|i: int, j: int|
        0 <= i < j < processes.len() ==> (#[trigger] processes[i]).spec_pid() != (
        #[trigger] processes[j]).spec_pid()
}

/// What a registered process becomes after a collection at `iteration` that found the pids
/// `running` alive: a dead process stays as it is; a running one is marked dead if its pid was
/// not found, and otherwise its span is extended to `iteration`.
pub open spec fn spec_refreshed(pm: ProcessMetadata, running: Seq<Pid>, iteration: nat, after: ProcessMetadata) -> bool {
    &&& after.spec_pid() == pm.spec_pid()
    &&& after.spec_command() == pm.spec_command()
    &&& if pm.spec_status() == Status::DEAD {
        after == pm
    } else if !running.contains(pm.spec_pid()) {
        &&& after.spec_status() == Status::DEAD
        &&& after.spec_running_span() == pm.spec_running_span()
    } else {
        &&& after.spec_status() == Status::RUNNING
        &&& after.spec_running_span().spec_begin() == pm.spec_running_span().spec_begin()
        &&& after.spec_running_span().spec_end() == iteration
        &&& after.spec_running_span().spec_size() == iteration - pm.spec_running_span().spec_begin()
            + 1
    }
}

/// Registers `pm`: it replaces the process of the same pid, if there is one, and is added
/// after the others otherwise
pub open spec fn spec_register(registered: Seq<ProcessMetadata>, pm: ProcessMetadata) -> Seq<ProcessMetadata> {
    if exists|i: int| 0 <= i < registered.len() && registered[i].spec_pid() == pm.spec_pid() {
        registered.update(
            choose|i: int| 0 <= i < registered.len() && registered[i].spec_pid() == pm.spec_pid(),
            pm,
        )
    } else {
        registered.push(pm)
    }
}

/// Registers each process of `new_processes`, in order
pub open spec fn spec_register_all(registered: Seq<ProcessMetadata>, new_processes: Seq<ProcessMetadata>) -> Seq<
    ProcessMetadata,
>
    decreases new_processes.len(),
{
    if new_processes.len() == 0 {
        registered
    } else {
        spec_register(
            spec_register_all(registered, new_processes.drop_last()),
            new_processes.last(),
        )
    }
}

proof fn lemma_register_all_origin(registered: Seq<ProcessMetadata>, new_processes: Seq<ProcessMetadata>)
    ensures
        forall|k: int|
            0 <= k < spec_register_all(registered, new_processes).len() ==> registered.contains(
                #[trigger] spec_register_all(registered, new_processes)[k],
            ) || new_processes.contains(spec_register_all(registered, new_processes)[k]),
    decreases new_processes.len(),
{
    if new_processes.len() > 0 {
        let prev = spec_register_all(registered, new_processes.drop_last());
        lemma_register_all_origin(registered, new_processes.drop_last());
        assert forall|k: int|
            0 <= k < spec_register_all(registered, new_processes).len() implies registered.contains(
                #[trigger] spec_register_all(registered, new_processes)[k],
            ) || new_processes.contains(spec_register_all(registered, new_processes)[k]) by {
            let x = spec_register_all(registered, new_processes)[k];
            if x == new_processes.last() {
                assert(new_processes[new_processes.len() - 1] == x);
            } else {
                assert(prev.contains(x));
                let j = choose|j: int| 0 <= j < prev.len() && prev[j] == x;
                assert(prev[j] == x);
                if !registered.contains(x) {
                    assert(new_processes.drop_last().contains(x));
                    let m = choose|m: int|
                        0 <= m < new_processes.drop_last().len() && new_processes.drop_last()[m]
                            == x;
                    assert(new_processes[m] == x);
                }
            }
        }
    }
}

/// Does `pids` contain `pid`?
pub fn slice_contains(pids: &[Pid], pid: Pid) -> (b: bool)
    ensures
        b == pids@.contains(pid),
{
    let mut i: usize = 0;
    while i < pids.len()
        invariant
            i <= pids@.len(),
            forall|j: int| 0 <= j < i ==> pids@[j] != pid,
        decreases pids@.len() - i,
    {
        if pids[i] == pid {
            return true;
        }
        i = i + 1;
    }
    false
}

/// Registers `pm` into `registered`
fn register_process(registered: &mut Vec<ProcessMetadata>, pm: ProcessMetadata)
    requires
        distinct_pids(old(registered)@),
    ensures
        final(registered)@ == spec_register(old(registered)@, pm),
        distinct_pids(final(registered)@),
{
    let ghost pid = pm.spec_pid();
    let mut i: usize = 0;
    while i < registered.len()
        invariant
            i <= registered@.len(),
            registered@ == old(registered)@,
            distinct_pids(registered@),
            pid == pm.spec_pid(),
            forall|j: int| 0 <= j < i ==> registered@[j].spec_pid() != pid,
        decreases registered@.len() - i,
    {
        if registered[i].pid == pm.pid {
            let ghost s = registered@;
            proof {
                assert(distinct_pids(s));
                assert(s[i as int].spec_pid() == pid);
                let c = choose|c: int| 0 <= c < s.len() && s[c].spec_pid() == pid;
                if c < i {
                    assert(s[c].spec_pid() != s[i as int].spec_pid());
                } else if c > i {
                    assert(s[i as int].spec_pid() != s[c].spec_pid());
                }
                assert(c == i);
            }
            registered.set(i, pm);
            proof {
                let n = registered@;
                assert(distinct_pids(s));
                assert(n == s.update(i as int, pm));
                assert forall|a: int, b: int| 0 <= a < b < n.len() implies n[a].spec_pid()
                    != n[b].spec_pid() by {
                    if a != i && b != i {
                        assert(s[a].spec_pid() != s[b].spec_pid());
                    } else if a == i {
                        assert(s[a].spec_pid() != s[b].spec_pid());
                    } else {
                        assert(s[a].spec_pid() != s[b].spec_pid());
                    }
                }
            }
            return;
        }
        i = i + 1;
    }
    registered.push(pm);
}

/// Collects the running processes
pub struct ProcessCollector {
    registered_processes: Vec<ProcessMetadata>,
}

impl ProcessCollector {
    #[verifier::type_invariant]
    spec fn pids_are_distinct(&self) -> bool {
        distinct_pids(self.registered_processes@)
    }

    /// All the processes collected so far, running or not
    pub closed spec fn spec_processes(&self) -> Seq<ProcessMetadata> {
        self.registered_processes@
    }

    /// A collector that has not collected any process yet
    pub fn new() -> (c: Self)
        ensures
            c.spec_processes() == Seq::<ProcessMetadata>::empty(),
    {
        ProcessCollector { registered_processes: Vec::new() }
    }

    /// Returns the list of all processes, regardless of their status (running or not)
    pub fn processes(&self) -> (r: Vec<ProcessMetadata>)
        ensures
            r@ == self.spec_processes(),
            distinct_pids(r@),
    {
        proof {
            use_type_invariant(self);
        }
        let mut r: Vec<ProcessMetadata> = Vec::new();
        let mut i: usize = 0;
        while i < self.registered_processes.len()
            invariant
                i <= self.registered_processes@.len(),
                r@ == self.registered_processes@.take(i as int),
            decreases self.registered_processes@.len() - i,
        {
            r.push(self.registered_processes[i].clone());
            assert(self.registered_processes@.take(i + 1) =~= self.registered_processes@.take(
                i as int,
            ).push(self.registered_processes@[i as int]));
            i = i + 1;
        }
        assert(self.registered_processes@.take(i as int) =~= self.registered_processes@);
        r
    }

    /// Returns the list of processes that were still running as of the last collection
    pub fn running_processes(&self) -> (r: Vec<ProcessMetadata>)
        ensures
            r@ == spec_running(self.spec_processes()),
    {
        let ghost all = self.registered_processes@;
        let mut r: Vec<ProcessMetadata> = Vec::new();
        let mut i: usize = 0;
        while i < self.registered_processes.len()
            invariant
                i <= all.len(),
                all == self.registered_processes@,
                r@ == spec_running(all.take(i as int)),
            decreases all.len() - i,
        {
            assert(all.take(i + 1).drop_last() =~= all.take(i as int));
            reveal_with_fuel(Seq::<_>::filter, 1);
            let pm = &self.registered_processes[i];
            if pm.status == Status::RUNNING {
                r.push(pm.clone());
            }
            i = i + 1;
        }
        assert(all.take(i as int) =~= all);
        r
    }

    /// Returns the processes, running or not, that ran during at least one iteration of `span`
    pub fn processes_within(&self, span: &Span) -> (r: Vec<ProcessMetadata>)
        ensures
            r@ == spec_running_within(self.spec_processes(), *span),
    {
        let ghost all = self.registered_processes@;
        let mut r: Vec<ProcessMetadata> = Vec::new();
        let mut i: usize = 0;
        while i < self.registered_processes.len()
            invariant
                i <= all.len(),
                all == self.registered_processes@,
                r@ == spec_running_within(all.take(i as int), *span),
            decreases all.len() - i,
        {
            assert(all.take(i + 1).drop_last() =~= all.take(i as int));
            reveal_with_fuel(Seq::<_>::filter, 1);
            let pm = &self.registered_processes[i];
            if pm.running_span().intersects(span) {
                r.push(pm.clone());
            }
            i = i + 1;
        }
        assert(all.take(i as int) =~= all);
        r
    }

    /// Returns the list of pids of the processes that were still running as of the last collection
    pub fn running_pids(&self) -> (r: Vec<Pid>)
        ensures
            r@ == spec_pids(spec_running(self.spec_processes())),
    {
        let ghost all = self.registered_processes@;
        let mut r: Vec<Pid> = Vec::new();
        let mut i: usize = 0;
        while i < self.registered_processes.len()
            invariant
                i <= all.len(),
                all == self.registered_processes@,
                r@ == spec_pids(spec_running(all.take(i as int))),
            decreases all.len() - i,
        {
            assert(all.take(i + 1).drop_last() =~= all.take(i as int));
            reveal_with_fuel(Seq::<_>::filter, 1);
            let pm = &self.registered_processes[i];
            if pm.status == Status::RUNNING {
                r.push(pm.pid);
                assert(spec_pids(spec_running(all.take(i + 1))) =~= spec_pids(
                    spec_running(all.take(i as int)),
                ).push(pm.pid));
            }
            i = i + 1;
        }
        assert(all.take(i as int) =~= all);
        r
    }

    /// Records the processes found by a scan performed at `current_iteration`.
    ///
    /// # Arguments
    /// * `running_pids`: The pids of the processes found running by the scan
    /// * `new_processes`: The metadata fetched for the running processes that were not
    ///   registered yet (see [`unregistered_pids`](#method.unregistered_pids)); those whose
    ///   metadata could not be fetched are simply left out
    /// * `current_iteration`: The iteration of the scan
    ///
    /// The new processes are registered, then every running process is marked dead if its pid
    /// is not in `running_pids`, and has its span extended to `current_iteration` otherwise.
    pub fn collect_processes(
        &mut self,
        running_pids: &[Pid],
        new_processes: Vec<ProcessMetadata>,
        current_iteration: Iteration,
    )
        requires
            current_iteration < usize::MAX,
            forall|i: int|
                0 <= i < old(self).spec_processes().len() && #[trigger] old(
                    self,
                ).spec_processes()[i].spec_status() == Status::RUNNING ==> old(
                    self,
                ).spec_processes()[i].spec_running_span().spec_begin() <= current_iteration,
            forall|i: int|
                0 <= i < new_processes@.len() && #[trigger] new_processes@[i].spec_status()
                    == Status::RUNNING ==> new_processes@[i].spec_running_span().spec_begin()
                    <= current_iteration,
        ensures
            ({
                let registered = spec_register_all(old(self).spec_processes(), new_processes@);
                &&& final(self).spec_processes().len() == registered.len()
                &&& forall|i: int|
                    0 <= i < registered.len() ==> spec_refreshed(
                        #[trigger] registered[i],
                        running_pids@,
                        current_iteration as nat,
                        final(self).spec_processes()[i],
                    )
            }),
            distinct_pids(final(self).spec_processes()),
    {
        proof {
            use_type_invariant(&*self);
        }
        let ghost old_registered = self.registered_processes@;
        let mut v: Vec<ProcessMetadata> = Vec::new();
        std::mem::swap(&mut v, &mut self.registered_processes);
        let mut k: usize = 0;
        while k < new_processes.len()
            invariant
                k <= new_processes@.len(),
                v@ == spec_register_all(old_registered, new_processes@.take(k as int)),
                distinct_pids(v@),
            decreases new_processes@.len() - k,
        {
            assert(new_processes@.take(k + 1).drop_last() =~= new_processes@.take(k as int));
            register_process(&mut v, new_processes[k].clone());
            k = k + 1;
        }
        assert(new_processes@.take(k as int) =~= new_processes@);
        let ghost registered = v@;
        proof {
            lemma_register_all_origin(old_registered, new_processes@);
            assert forall|j: int|
                0 <= j < old_registered.len() && #[trigger] old_registered[j].spec_status()
                    == Status::RUNNING implies old_registered[j].spec_running_span().spec_begin()
                    <= current_iteration by {
                assert(old_registered[j] == old(self).spec_processes()[j]);
            }
        }
        let mut i: usize = 0;
        while i < v.len()
            invariant
                i <= v@.len(),
                v@.len() == registered.len(),
                current_iteration < usize::MAX,
                registered == spec_register_all(old_registered, new_processes@),
                distinct_pids(registered),
                forall|j: int| 0 <= j < v@.len() ==> (#[trigger] v@[j]).spec_pid() == registered[j].spec_pid(),
                forall|j: int| 0 <= j < i ==> spec_refreshed(
                    #[trigger] registered[j],
                    running_pids@,
                    current_iteration as nat,
                    v@[j],
                ),
                forall|j: int| i <= j < v@.len() ==> #[trigger] v@[j] == registered[j],
                forall|j: int|
                    0 <= j < registered.len() ==> old_registered.contains(#[trigger] registered[j])
                        || new_processes@.contains(registered[j]),
                forall|j: int|
                    0 <= j < old_registered.len() && #[trigger] old_registered[j].spec_status()
                        == Status::RUNNING ==> old_registered[j].spec_running_span().spec_begin()
                        <= current_iteration,
                forall|j: int|
                    0 <= j < new_processes@.len() && #[trigger] new_processes@[j].spec_status()
                        == Status::RUNNING ==> new_processes@[j].spec_running_span().spec_begin()
                        <= current_iteration,
            decreases v@.len() - i,
        {
            let mut pm = v[i].clone();
            if pm.status == Status::RUNNING {
                proof {
                    assert(registered[i as int] == pm);
                    if old_registered.contains(pm) {
                        let j = choose|j: int| 0 <= j < old_registered.len() && old_registered[j] == pm;
                        assert(old_registered[j].spec_status() == Status::RUNNING);
                    } else {
                        let j = choose|j: int|
                            0 <= j < new_processes@.len() && new_processes@[j] == pm;
                        assert(new_processes@[j].spec_status() == Status::RUNNING);
                    }
                }
                if slice_contains(running_pids, pm.pid) {
                    pm.mark_alive_at_iteration(current_iteration);
                } else {
                    pm.mark_dead();
                }
            }
            v.set(i, pm);
            i = i + 1;
        }
        proof {
            assert forall|a: int, b: int| 0 <= a < b < v@.len() implies v@[a].spec_pid() != v@[
                b
            ].spec_pid() by {
                assert(v@[a].spec_pid() == registered[a].spec_pid());
                assert(v@[b].spec_pid() == registered[b].spec_pid());
            }
        }
        self.registered_processes = v;
    }

    /// Is `pid` the pid of a registered process?
    pub fn is_registered(&self, pid: Pid) -> (b: bool)
        ensures
            b == spec_pids(self.spec_processes()).contains(pid),
    {
        let mut i: usize = 0;
        while i < self.registered_processes.len()
            invariant
                i <= self.registered_processes@.len(),
                forall|j: int| 0 <= j < i ==> self.registered_processes@[j].spec_pid() != pid,
            decreases self.registered_processes@.len() - i,
        {
            if self.registered_processes[i].pid == pid {
                assert(spec_pids(self.spec_processes())[i as int] == pid);
                return true;
            }
            i = i + 1;
        }
        false
    }

    /// Among `running_pids`, those which are not registered yet, in order: their metadata must
    /// be fetched before they can be collected.
    pub fn unregistered_pids(&self, running_pids: &[Pid]) -> (r: Vec<Pid>)
        ensures
            r@ == running_pids@.filter(|p: Pid| !spec_pids(self.spec_processes()).contains(p)),
    {
        let ghost keep = |p: Pid| !spec_pids(self.spec_processes()).contains(p);
        let mut r: Vec<Pid> = Vec::new();
        let mut i: usize = 0;
        while i < running_pids.len()
            invariant
                i <= running_pids@.len(),
                keep == (|p: Pid| !spec_pids(self.spec_processes()).contains(p)),
                r@ == running_pids@.take(i as int).filter(keep),
            decreases running_pids@.len() - i,
        {
            assert(running_pids@.take(i + 1).drop_last() =~= running_pids@.take(i as int));
            reveal_with_fuel(Seq::<_>::filter, 1);
            let pid = running_pids[i];
            if !self.is_registered(pid) {
                r.push(pid);
            }
            i = i + 1;
        }
        assert(running_pids@.take(i as int) =~= running_pids@);
        r
    }
}

} // verus!
