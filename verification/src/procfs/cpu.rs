//! CPU usage bookkeeping
//!
//! The CPU usage of a process over an iteration is the share of the clock ticks elapsed on the
//! whole system that the process spent running. This module keeps the counters read at the
//! previous iteration and computes the tick differences that make up this share.

use std::collections::HashMap;

use vstd::prelude::*;

use crate::process::Pid;
use crate::procfs::parsers::process::PidStat;
use crate::procfs::parsers::system::Stat;

verus! {

broadcast use vstd::std_specs::hash::group_hash_axioms;

/// Keeps the counters read at the previous iteration, for the whole system and per process
pub struct UsageCalculator {
    processes_prev_stats: HashMap<Pid, PidStat>,
    prev_global_stat: Stat,
    global_runtime_diff: u64,
}

impl UsageCalculator {
    /// The last `/proc/<pid>/stat` content read for each process
    pub closed spec fn spec_prev_stats(&self) -> Map<Pid, PidStat> {
        self.processes_prev_stats@
    }

    /// The last `/proc/stat` content read
    pub closed spec fn spec_prev_global_stat(&self) -> Stat {
        self.prev_global_stat
    }

    /// The clock ticks elapsed on the system between the last two reads of `/proc/stat`
    pub closed spec fn spec_global_runtime_diff(&self) -> nat {
        self.global_runtime_diff as nat
    }

    /// A calculator whose previous `/proc/stat` content is `initial_stat`
    pub fn new(initial_stat: Stat) -> (c: Self)
        ensures
            c.spec_prev_stats() == Map::<Pid, PidStat>::empty(),
            c.spec_prev_global_stat() == initial_stat,
            c.spec_global_runtime_diff() == 0,
    {
        UsageCalculator {
            processes_prev_stats: HashMap::new(),
            prev_global_stat: initial_stat,
            global_runtime_diff: 0,
        }
    }

    /// Given new content of /proc/stat and the last known content of /proc/stat, calculates the
    /// elapsed ticks corresponding to global CPU runtime in this lapse of time
    ///
    /// # Arguments
    ///  * `stat_data` The new content of /proc/stat; its counters may not be below the previous
    ///    ones
    pub fn compute_new_runtime_diff(&mut self, stat_data: Stat)
        requires
            stat_data.spec_running_time() <= u64::MAX,
            old(self).spec_prev_global_stat().spec_running_time() <= stat_data.spec_running_time(),
        ensures
            final(self).spec_global_runtime_diff() == stat_data.spec_running_time() - old(
                self,
            ).spec_prev_global_stat().spec_running_time(),
            final(self).spec_prev_global_stat() == stat_data,
            final(self).spec_prev_stats() == old(self).spec_prev_stats(),
    {
        let cur_runtime = stat_data.running_time();
        let prev_runtime = self.prev_global_stat.running_time();
        self.global_runtime_diff = cur_runtime - prev_runtime;
        self.prev_global_stat = stat_data;
    }

    /// The last `/proc/stat` content read
    pub fn prev_global_stat(&self) -> (s: &Stat)
        ensures
            *s == self.spec_prev_global_stat(),
    {
        &self.prev_global_stat
    }

    /// The clock ticks elapsed on the system between the last two reads of `/proc/stat`
    pub fn global_runtime_diff(&self) -> (d: u64)
        ensures
            d == self.spec_global_runtime_diff(),
    {
        self.global_runtime_diff
    }

    /// Given new content of /proc/\[pid\]/stat and its last known content, calculates the elapsed
    /// ticks corresponding to CPU runtime related to this process, and records the new content.
    /// A process read for the first time is counted from 0.
    ///
    /// # Arguments
    ///  * `pid` The ID of a process
    ///  * `pid_stat_data`: The new content of the stat file of the process with ID `pid`
    pub fn calculate_pid_runtime_diff(&mut self, pid: Pid, pid_stat_data: PidStat) -> (d: i64)
        ensures
            d == pid_stat_data.spec_running_time() - (if old(self).spec_prev_stats().contains_key(
                pid,
            ) {
                old(self).spec_prev_stats()[pid].spec_running_time()
            } else {
                0
            }),
            final(self).spec_prev_stats() == old(self).spec_prev_stats().insert(pid, pid_stat_data),
            final(self).spec_prev_global_stat() == old(self).spec_prev_global_stat(),
            final(self).spec_global_runtime_diff() == old(self).spec_global_runtime_diff(),
    {
        let last_iter_runtime: i64 = match self.processes_prev_stats.get(&pid) {
            Some(stat_data) => stat_data.running_time(),
            None => 0,
        };
        let pid_runtime_diff = pid_stat_data.running_time() - last_iter_runtime;
        self.processes_prev_stats.insert(pid, pid_stat_data);
        pid_runtime_diff
    }
}

impl Default for UsageCalculator {
    /// A calculator whose previous `/proc/stat` content has all counters at 0
    fn default() -> (c: Self)
        ensures
            c.spec_prev_stats() == Map::<Pid, PidStat>::empty(),
            c.spec_prev_global_stat().spec_fields() == (0u64, 0u64, 0u64, 0u64, 0u64, 0u64),
            c.spec_global_runtime_diff() == 0,
    {
        UsageCalculator::new(Stat::new(0, 0, 0, 0, 0, 0))
    }
}

} // verus!
