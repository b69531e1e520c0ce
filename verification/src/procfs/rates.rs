//! Rates of accumulative values of processes, such as the bytes a process read from disk
//!
//! The values pushed for a process are dated. A rate is estimated from the values that are
//! recent enough (within the retention duration), plus the last value that is not, which serves
//! to estimate the value at the beginning of the retention duration.

use std::collections::HashMap;
use std::collections::VecDeque;

use vstd::prelude::*;

use crate::process::Pid;
use crate::procfs::ProcfsError;
pub use crate::time::Nanos;

verus! {

broadcast use vstd::std_specs::hash::group_hash_axioms;

/// A value pushed for a process, with the instant at which it was pushed
#[derive(Copy, Clone, PartialEq, Eq, Structural, Debug)]
pub struct DatedValue {
    pub date: Nanos,
    pub value: usize,
}

/// Indicates how pushed values should be handled
#[derive(Copy, Clone, PartialEq, Eq, Structural, Debug)]
pub enum PushMode {
    /// The value should be handled as-is
    Accumulative,
    /// The given value is the difference with the last pushed value
    Increment,
}

/// Is `values[i]` the last of the values dated before `range_begin` that are the most recent
/// among those?
pub open spec fn is_last_outdated(values: Seq<DatedValue>, range_begin: nat, i: int) -> bool {
    &&& 0 <= i < values.len()
    &&& values[i].date < range_begin
    &&& forall|j: int|
        0 <= j < values.len() && values[j].date < range_begin ==> values[j].date <= values[i].date
    &&& forall|j: int| i < j < values.len() && values[j].date < range_begin ==> values[j].date < values[i].date
}

/// The values dated at or after `range_begin`, in order
pub open spec fn spec_recent(values: Seq<DatedValue>, range_begin: nat) -> Seq<DatedValue> {
    values.filter(|dv: DatedValue| dv.date >= range_begin)
}

/// The values once those dated before `range_begin` are removed, except the most recent of
/// them, which comes first
pub open spec fn spec_outdated_removed(values: Seq<DatedValue>, range_begin: nat) -> Seq<
    DatedValue,
> {
    if exists|i: int| is_last_outdated(values, range_begin, i) {
        let i = choose|i: int| is_last_outdated(values, range_begin, i);
        seq![values[i]] + spec_recent(values, range_begin)
    } else {
        spec_recent(values, range_begin)
    }
}

/// The value recorded when `value` is pushed after `previous`
pub open spec fn spec_recorded_value(mode: PushMode, previous: Seq<DatedValue>, value: nat) -> nat {
    match mode {
        PushMode::Accumulative => value,
        PushMode::Increment => (if previous.len() > 0 {
            previous.last().value as nat
        } else {
            0
        }) + value,
    }
}

/// The values of a process once `value` is pushed at the instant `now`: the recorded value is
/// appended, then, if `now` is at least the retention duration `range`, the values older than
/// `now - range` are removed, except the most recent of them
pub open spec fn spec_after_push(
    mode: PushMode,
    previous: Seq<DatedValue>,
    value: nat,
    now: Nanos,
    range: Nanos,
) -> Seq<DatedValue> {
    let pushed = previous.push(
        DatedValue { date: now, value: spec_recorded_value(mode, previous, value) as usize },
    );
    if now >= range {
        spec_outdated_removed(pushed, (now - range) as nat)
    } else {
        pushed
    }
}

/// What a rate is estimated from: the first two values of a process, which estimate its value
/// at the beginning of the retention duration, and its last value
#[derive(Copy, Clone, PartialEq, Eq, Structural, Debug)]
pub struct RateInputs {
    pub first: DatedValue,
    pub second: DatedValue,
    pub last: DatedValue,
}

proof fn lemma_last_outdated_unique(values: Seq<DatedValue>, range_begin: nat, i: int, k: int)
    requires
        is_last_outdated(values, range_begin, i),
        is_last_outdated(values, range_begin, k),
    ensures
        i == k,
{
    if i < k {
        assert(values[k].date < values[i].date);
        assert(values[i].date <= values[k].date);
    } else if k < i {
        assert(values[i].date < values[k].date);
        assert(values[k].date <= values[i].date);
    }
}

/// Removes all values associated to a timestamp earlier than `range_begin`, except the
/// last one, which is kept first (it serves to estimate the value at `range_begin`)
fn remove_outdated_values(values: &VecDeque<DatedValue>, range_begin: Nanos) -> (r: VecDeque<
    DatedValue,
>)
    ensures
        r@ == spec_outdated_removed(values@, range_begin as nat),
{
    let ghost vs = values@;
    let ghost pred = |dv: DatedValue| dv.date >= range_begin;
    let mut recent: VecDeque<DatedValue> = VecDeque::new();
    let mut last_outdated: Option<usize> = None;
    let mut k: usize = 0;
    while k < values.len()
        invariant
            vs == values@,
            pred == (|dv: DatedValue| dv.date >= range_begin),
            0 <= k <= vs.len(),
            recent@ == vs.take(k as int).filter(pred),
            match last_outdated {
                Some(i) => is_last_outdated(vs.take(k as int), range_begin as nat, i as int),
                None => forall|j: int| 0 <= j < k ==> vs[j].date >= range_begin,
            },
        decreases vs.len() - k,
    {
        let dv = values[k];
        proof {
            reveal_with_fuel(Seq::<_>::filter, 1);
            assert(vs.take(k + 1).drop_last() =~= vs.take(k as int));
            assert(vs.take(k + 1).last() == dv);
            assert(vs.take(k + 1).filter(pred) == if dv.date >= range_begin {
                vs.take(k as int).filter(pred).push(dv)
            } else {
                vs.take(k as int).filter(pred)
            });
        }
        if dv.date >= range_begin {
            recent.push_back(dv);
        } else {
            let replace = match last_outdated {
                Some(i) => dv.date >= values[i].date,
                None => true,
            };
            if replace {
                last_outdated = Some(k);
            }
        }
        proof {
            let t = vs.take(k + 1);
            match last_outdated {
                Some(i) => {
                    assert forall|j: int|
                        0 <= j < t.len() && t[j].date < range_begin implies t[j].date
                        <= t[i as int].date by {
                        if j < k {
                            assert(t[j] == vs.take(k as int)[j]);
                        }
                    }
                    assert forall|j: int|
                        i < j < t.len() && t[j].date < range_begin implies t[j].date
                        < t[i as int].date by {
                        if j < k {
                            assert(t[j] == vs.take(k as int)[j]);
                        }
                    }
                },
                None => {},
            }
        }
        k = k + 1;
    }
    proof {
        assert(vs.take(k as int) =~= vs);
    }
    match last_outdated {
        Some(i) => {
            proof {
                let c = choose|c: int| is_last_outdated(vs, range_begin as nat, c);
                lemma_last_outdated_unique(vs, range_begin as nat, i as int, c);
            }
            recent.push_front(values[i]);
            assert(recent@ =~= seq![vs[i as int]] + spec_recent(vs, range_begin as nat));
        },
        None => {
            assert(!exists|i: int| is_last_outdated(vs, range_begin as nat, i));
        },
    }
    recent
}

/// Once a value is pushed at the instant `now`, the last kept value of the process is the one
/// recorded for it, dated `now`; every kept value but the first is dated within the retention
/// duration before `now`.
pub proof fn law_push_keeps_recent_values(
    mode: PushMode,
    previous: Seq<DatedValue>,
    value: nat,
    now: Nanos,
    range: Nanos,
)
    requires
        spec_recorded_value(mode, previous, value) <= usize::MAX,
    ensures
        ({
            let kept = spec_after_push(mode, previous, value, now, range);
            &&& kept.len() > 0
            &&& kept.last() == DatedValue {
                date: now,
                value: spec_recorded_value(mode, previous, value) as usize,
            }
            &&& forall|j: int| 1 <= j < kept.len() ==> kept[j].date + range >= now
        }),
{
    let pushed = previous.push(
        DatedValue { date: now, value: spec_recorded_value(mode, previous, value) as usize },
    );
    if now >= range {
        let rb = (now - range) as nat;
        let pred = |dv: DatedValue| dv.date >= rb;
        reveal_with_fuel(Seq::<_>::filter, 1);
        assert(pushed.drop_last() =~= previous);
        let recent = spec_recent(pushed, rb);
        assert(recent == previous.filter(pred).push(pushed.last()));
        pushed.filter_lemma(pred);
        if exists|i: int| is_last_outdated(pushed, rb, i) {
            let i = choose|i: int| is_last_outdated(pushed, rb, i);
            let kept = seq![pushed[i]] + recent;
            assert forall|j: int| 1 <= j < kept.len() implies kept[j].date + range >= now by {
                assert(kept[j] == recent[j - 1]);
            }
        } else {
            assert forall|j: int| 1 <= j < recent.len() implies recent[j].date + range >= now by {
            }
        }
    } else {
        assert forall|j: int| 1 <= j < pushed.len() implies pushed[j].date + range >= now by {}
    }
}

/// Keeps tracks of dated accumulative values of processes to calculate their rate
pub struct ProcessesRates {
    acc_values: HashMap<Pid, VecDeque<DatedValue>>,
    range: Nanos,
    mode: PushMode,
}

impl ProcessesRates {
    /// The values pushed for each process that are still kept
    pub closed spec fn spec_values(&self) -> Map<Pid, Seq<DatedValue>> {
        self.acc_values@.map_values(|q: VecDeque<DatedValue>| q@)
    }

    /// The values pushed for a process that are still kept; none if no value was pushed for it
    pub open spec fn spec_values_of(&self, pid: Pid) -> Seq<DatedValue> {
        if self.spec_values().contains_key(pid) {
            self.spec_values()[pid]
        } else {
            Seq::empty()
        }
    }

    /// Over how much time rates are calculated
    pub closed spec fn spec_range(&self) -> Nanos {
        self.range
    }

    /// How pushed values are handled
    pub closed spec fn spec_mode(&self) -> PushMode {
        self.mode
    }

    /// Creates a new ProcessRates structure, configured to calculate the frequency from the last
    /// data covered by the given retention duration
    ///
    /// # Arguments
    ///  * `mode`: Indicates how pushed values should be handled:
    ///     - PushMode.ACCUMULATIVE indicates that the value should be handled as-is
    ///     - PushMode.INCREMENT indicates that the given value is the difference with the last
    ///         pushed value
    ///  * `data_retention`: Indicates over how much time to calculate the rate.
    pub fn new(mode: PushMode, data_retention: Nanos) -> (r: Self)
        ensures
            r.spec_values() == Map::<Pid, Seq<DatedValue>>::empty(),
            r.spec_range() == data_retention,
            r.spec_mode() == mode,
    {
        let r = ProcessesRates { acc_values: HashMap::new(), range: data_retention, mode };
        assert(r.spec_values() =~= Map::<Pid, Seq<DatedValue>>::empty());
        r
    }

    /// Pushes a new data associated to the given PID, at the instant `now`
    pub fn push(&mut self, pid: Pid, value: usize, now: Nanos)
        requires
            old(self).spec_mode() == PushMode::Increment && old(self).spec_values_of(pid).len() > 0
                ==> old(self).spec_values_of(pid).last().value + value <= usize::MAX,
        ensures
            final(self).spec_values() == old(self).spec_values().insert(
                pid,
                spec_after_push(
                    old(self).spec_mode(),
                    old(self).spec_values_of(pid),
                    value as nat,
                    now,
                    old(self).spec_range(),
                ),
            ),
            final(self).spec_range() == old(self).spec_range(),
            final(self).spec_mode() == old(self).spec_mode(),
    {
        let ghost previous = self.spec_values_of(pid);
        let mut existing_values = match self.acc_values.remove(&pid) {
            Some(values) => values,
            None => VecDeque::new(),
        };
        assert(existing_values@ == previous);

        let new_value = match self.mode {
            PushMode::Accumulative => value,
            PushMode::Increment => {
                let last = if existing_values.len() > 0 {
                    existing_values[existing_values.len() - 1].value
                } else {
                    0
                };
                last + value
            },
        };

        existing_values.push_back(DatedValue { date: now, value: new_value });

        let kept = if now >= self.range {
            remove_outdated_values(&existing_values, now - self.range)
        } else {
            existing_values
        };
        self.acc_values.insert(pid, kept);
        proof {
            assert(self.spec_values() =~= old(self).spec_values().insert(
                pid,
                spec_after_push(self.mode, previous, value as nat, now, self.range),
            ));
        }
    }

    /// Selects the values from which the rate (per second) of the associated PID is estimated:
    /// none when fewer than two values are kept, in which case the rate is 0.
    ///
    /// The rate is the increment between the value estimated at `last.date - range` (by a
    /// regression from the first two values) and the last value, divided by the range.
    ///
    /// # Arguments
    ///  * `pid`: The PID of the process for which to calculate the rate
    pub fn rate_inputs(&self, pid: Pid) -> (r: Result<Option<RateInputs>, ProcfsError>)
        ensures
            !self.spec_values().contains_key(pid) ==> (r matches Err(ProcfsError::UnknownPID(p))
                && p == pid),
            self.spec_values().contains_key(pid) ==> r is Ok,
            r matches Ok(inputs) ==> {
                let values = self.spec_values()[pid];
                match inputs {
                    Some(i) => values.len() >= 2 && i.first == values[0] && i.second == values[1]
                        && i.last == values.last(),
                    None => values.len() < 2,
                }
            },
    {
        match self.acc_values.get(&pid) {
            None => Err(ProcfsError::UnknownPID(pid)),
            Some(values) => {
                assert(values@ == self.spec_values()[pid]);
                if values.len() < 2 {
                    Ok(None)
                } else {
                    Ok(
                        Some(
                            RateInputs {
                                first: values[0],
                                second: values[1],
                                last: values[values.len() - 1],
                            },
                        ),
                    )
                }
            },
        }
    }

    /// Over how much time rates are calculated, in nanoseconds
    pub fn range(&self) -> (r: Nanos)
        ensures
            r == self.spec_range(),
    {
        self.range
    }
}

} // verus!
