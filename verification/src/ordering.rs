//! Criteria by which the displayed processes are sorted

use std::collections::HashMap;

use vstd::prelude::*;

use crate::decimal::chars_of;
use crate::process::{Pid, ProcessMetadata, Status};

verus! {

broadcast use vstd::std_specs::hash::group_hash_axioms;

/// Defines on which criteria processes should be sorted
#[derive(Copy, Clone, PartialEq, Eq, Structural, Debug)]
pub enum ProcessOrdering {
    /// Orders the processes by their current metrics, in a descending order
    CurrentMetric,
    /// Orders the processes by their Pid, in an ascending order
    Pid,
    /// Orders the processes by their command, in an alphabetically ascending order
    Command,
}

/// How many sorting criteria there are
pub const CRITERIA_COUNT: usize = 3;

/// The sorting criteria, in the order in which they are offered to the user
pub open spec fn spec_criteria() -> Seq<ProcessOrdering> {
    seq![ProcessOrdering::CurrentMetric, ProcessOrdering::Pid, ProcessOrdering::Command]
}

/// The sorting criterion at the given position of the list of criteria
pub fn criteria_at(index: usize) -> (c: ProcessOrdering)
    requires
        index < CRITERIA_COUNT,
    ensures
        c == spec_criteria()[index as int],
{
    match index {
        0 => ProcessOrdering::CurrentMetric,
        1 => ProcessOrdering::Pid,
        _ => ProcessOrdering::Command,
    }
}

/// As it is not possible to iterate over enumeration variants, this list is used to iterate over
/// them
pub fn process_ordering_criteria() -> (v: Vec<ProcessOrdering>)
    ensures
        v@ == spec_criteria(),
{
    let v = vec![ProcessOrdering::CurrentMetric, ProcessOrdering::Pid, ProcessOrdering::Command];
    assert(v@ =~= spec_criteria());
    v
}

/// The position of a criterion in the list of criteria
pub fn criteria_position(criteria: ProcessOrdering) -> (i: usize)
    ensures
        i < CRITERIA_COUNT,
        spec_criteria()[i as int] == criteria,
{
    match criteria {
        ProcessOrdering::CurrentMetric => 0,
        ProcessOrdering::Pid => 1,
        ProcessOrdering::Command => 2,
    }
}

/// Lets the user browse the sorting criteria (the selected one), and remembers the criteria
/// with which the processes are currently sorted (the applied one)
pub struct SortCriteriaSelector {
    selected_index: usize,
    applied_index: usize,
}

impl SortCriteriaSelector {
    #[verifier::type_invariant]
    spec fn indices_in_bounds(&self) -> bool {
        &&& self.selected_index < CRITERIA_COUNT
        &&& self.applied_index < CRITERIA_COUNT
    }

    /// The position of the selected criterion in the list of criteria
    pub closed spec fn spec_selected(&self) -> nat {
        self.selected_index as nat
    }

    /// The position of the applied criterion in the list of criteria
    pub closed spec fn spec_applied(&self) -> nat {
        self.applied_index as nat
    }

    /// Both the selected and the applied criteria are the first one: the current metric
    pub fn new() -> (s: Self)
        ensures
            s.spec_selected() == 0,
            s.spec_applied() == 0,
    {
        SortCriteriaSelector { selected_index: 0, applied_index: 0 }
    }

    /// The positions held by any selector are within the list of criteria
    pub fn positions(&self) -> (p: (usize, usize))
        ensures
            p.0 == self.spec_selected(),
            p.1 == self.spec_applied(),
            p.0 < CRITERIA_COUNT,
            p.1 < CRITERIA_COUNT,
    {
        proof {
            use_type_invariant(self);
        }
        (self.selected_index, self.applied_index)
    }

    /// Selects the criterion after the selected one; the last criterion stays selected
    pub fn next(&mut self)
        ensures
            final(self).spec_selected() == if old(self).spec_selected() + 1 < CRITERIA_COUNT {
                old(self).spec_selected() + 1
            } else {
                old(self).spec_selected()
            },
            final(self).spec_applied() == old(self).spec_applied(),
    {
        proof {
            use_type_invariant(&*self);
        }
        if self.selected_index + 1 < CRITERIA_COUNT {
            self.selected_index = self.selected_index + 1;
        }
    }

    /// Selects the criterion before the selected one; the first criterion stays selected
    pub fn previous(&mut self)
        ensures
            final(self).spec_selected() == if old(self).spec_selected() > 0 {
                (old(self).spec_selected() - 1) as nat
            } else {
                0
            },
            final(self).spec_applied() == old(self).spec_applied(),
    {
        proof {
            use_type_invariant(&*self);
        }
        if self.selected_index > 0 {
            self.selected_index = self.selected_index - 1;
        }
    }

    /// The selected criterion becomes the applied one
    pub fn apply(&mut self)
        ensures
            final(self).spec_selected() == old(self).spec_selected(),
            final(self).spec_applied() == old(self).spec_selected(),
    {
        proof {
            use_type_invariant(&*self);
        }
        self.applied_index = self.selected_index;
    }

    /// The criterion that the user is looking at
    pub fn selected(&self) -> (c: ProcessOrdering)
        ensures
            self.spec_selected() < CRITERIA_COUNT,
            c == spec_criteria()[self.spec_selected() as int],
    {
        proof {
            use_type_invariant(self);
        }
        criteria_at(self.selected_index)
    }

    /// The criterion with which the processes are sorted
    pub fn applied(&self) -> (c: ProcessOrdering)
        ensures
            self.spec_applied() < CRITERIA_COUNT,
            c == spec_criteria()[self.spec_applied() as int],
    {
        proof {
            use_type_invariant(self);
        }
        criteria_at(self.applied_index)
    }
}

impl Default for SortCriteriaSelector {
    fn default() -> (s: Self)
        ensures
            s.spec_selected() == 0,
            s.spec_applied() == 0,
    {
        Self::new()
    }
}

/// The lexicographic order of sequences of characters, by code point: the order of `str`, as
/// UTF-8 encodes code points in an order-preserving way
pub open spec fn seq_le(a: Seq<char>, b: Seq<char>) -> bool
    decreases a.len(),
{
    if a.len() == 0 {
        true
    } else if b.len() == 0 {
        false
    } else if a[0] != b[0] {
        (a[0] as int) < (b[0] as int)
    } else {
        seq_le(a.drop_first(), b.drop_first())
    }
}

proof fn lemma_seq_le_reflexive(a: Seq<char>)
    ensures
        seq_le(a, a),
    decreases a.len(),
{
    if a.len() > 0 {
        lemma_seq_le_reflexive(a.drop_first());
    }
}

proof fn lemma_seq_le_total(a: Seq<char>, b: Seq<char>)
    ensures
        seq_le(a, b) || seq_le(b, a),
    decreases a.len(),
{
    if a.len() > 0 && b.len() > 0 {
        if a[0] == b[0] {
            lemma_seq_le_total(a.drop_first(), b.drop_first());
        }
    }
}

proof fn lemma_seq_le_transitive(a: Seq<char>, b: Seq<char>, c: Seq<char>)
    requires
        seq_le(a, b),
        seq_le(b, c),
    ensures
        seq_le(a, c),
    decreases a.len(),
{
    if a.len() > 0 && b.len() > 0 && c.len() > 0 && a[0] == b[0] && b[0] == c[0] {
        lemma_seq_le_transitive(a.drop_first(), b.drop_first(), c.drop_first());
    }
}

/// Comparing two sequences that share their first `i` characters compares what follows them
proof fn lemma_seq_le_skip(a: Seq<char>, b: Seq<char>, i: int)
    requires
        0 <= i <= a.len(),
        i <= b.len(),
        forall|j: int| 0 <= j < i ==> a[j] == b[j],
    ensures
        seq_le(a, b) == seq_le(a.skip(i), b.skip(i)),
    decreases i,
{
    if i == 0 {
        assert(a.skip(0) =~= a);
        assert(b.skip(0) =~= b);
    } else {
        assert(a[0] == b[0]);
        lemma_seq_le_skip(a.drop_first(), b.drop_first(), i - 1);
        assert(a.drop_first().skip(i - 1) =~= a.skip(i));
        assert(b.drop_first().skip(i - 1) =~= b.skip(i));
    }
}

/// Does the command `a` come no later than `b` in the alphabetical order?
fn commands_le(a: &str, b: &str) -> (r: bool)
    ensures
        r == seq_le(a@, b@),
{
    let ac = chars_of(a);
    let bc = chars_of(b);
    let mut i: usize = 0;
    while i < ac.len() && i < bc.len() && ac[i] == bc[i]
        invariant
            i <= ac@.len(),
            i <= bc@.len(),
            forall|j: int| 0 <= j < i ==> ac@[j] == bc@[j],
        decreases ac@.len() - i,
    {
        i = i + 1;
    }
    proof {
        lemma_seq_le_skip(ac@, bc@, i as int);
    }
    if i == ac.len() {
        true
    } else if i == bc.len() {
        false
    } else {
        assert(ac@.skip(i as int)[0] == ac@[i as int]);
        assert(bc@.skip(i as int)[0] == bc@[i as int]);
        ac[i] < bc[i]
    }
}

/// The last metric of a process, as a key that orders processes as their last metrics do; a
/// process of which no metric was collected has the key of the default metric
pub open spec fn spec_metric_key(last_metrics: Map<Pid, u64>, default_metric: u64, pid: Pid) -> u64 {
    if last_metrics.contains_key(pid) {
        last_metrics[pid]
    } else {
        default_metric
    }
}

/// Running processes come before dead ones
pub open spec fn status_rank(status: Status) -> int {
    match status {
        Status::RUNNING => 0,
        Status::DEAD => 1,
    }
}

/// Does `a` come no later than `b` according to the criteria alone: by descending last metric,
/// by ascending pid, or by alphabetically ascending command
pub open spec fn spec_criteria_le(
    criteria: ProcessOrdering,
    last_metrics: Map<Pid, u64>,
    default_metric: u64,
    a: ProcessMetadata,
    b: ProcessMetadata,
) -> bool {
    match criteria {
        ProcessOrdering::CurrentMetric => spec_metric_key(last_metrics, default_metric, b.spec_pid())
            <= spec_metric_key(last_metrics, default_metric, a.spec_pid()),
        ProcessOrdering::Pid => a.spec_pid() <= b.spec_pid(),
        ProcessOrdering::Command => seq_le(a.spec_command(), b.spec_command()),
    }
}

/// Does `a` come no later than `b` in the sorted processes? Regardless of the criteria, running
/// processes are displayed before dead processes
pub open spec fn spec_sort_le(
    criteria: ProcessOrdering,
    last_metrics: Map<Pid, u64>,
    default_metric: u64,
    a: ProcessMetadata,
    b: ProcessMetadata,
) -> bool {
    ||| status_rank(a.spec_status()) < status_rank(b.spec_status())
    ||| status_rank(a.spec_status()) == status_rank(b.spec_status()) && spec_criteria_le(
        criteria,
        last_metrics,
        default_metric,
        a,
        b,
    )
}

/// The processes that compare equal to `x`: the sort keeps them in their relative order
pub open spec fn spec_same_rank(
    criteria: ProcessOrdering,
    last_metrics: Map<Pid, u64>,
    default_metric: u64,
    x: ProcessMetadata,
) -> spec_fn(ProcessMetadata) -> bool {
    |y: ProcessMetadata|
        spec_sort_le(criteria, last_metrics, default_metric, x, y) && spec_sort_le(
            criteria,
            last_metrics,
            default_metric,
            y,
            x,
        )
}

/// Are the processes sorted?
pub open spec fn spec_sorted(
    processes: Seq<ProcessMetadata>,
    criteria: ProcessOrdering,
    last_metrics: Map<Pid, u64>,
    default_metric: u64,
) -> bool {
    forall|i: int, j: int|
        0 <= i < j < processes.len() ==> spec_sort_le(
            criteria,
            last_metrics,
            default_metric,
            #[trigger] processes[i],
            #[trigger] processes[j],
        )
}

/// The order of the sorted processes is total, reflexive and transitive
pub proof fn law_sort_order_is_a_total_preorder(
    criteria: ProcessOrdering,
    last_metrics: Map<Pid, u64>,
    default_metric: u64,
    a: ProcessMetadata,
    b: ProcessMetadata,
    c: ProcessMetadata,
)
    ensures
        spec_sort_le(criteria, last_metrics, default_metric, a, a),
        spec_sort_le(criteria, last_metrics, default_metric, a, b) || spec_sort_le(
            criteria,
            last_metrics,
            default_metric,
            b,
            a,
        ),
        spec_sort_le(criteria, last_metrics, default_metric, a, b) && spec_sort_le(
            criteria,
            last_metrics,
            default_metric,
            b,
            c,
        ) ==> spec_sort_le(criteria, last_metrics, default_metric, a, c),
{
    lemma_seq_le_reflexive(a.spec_command());
    lemma_seq_le_total(a.spec_command(), b.spec_command());
    if seq_le(a.spec_command(), b.spec_command()) && seq_le(b.spec_command(), c.spec_command()) {
        lemma_seq_le_transitive(a.spec_command(), b.spec_command(), c.spec_command());
    }
}

/// Does `a` come no later than `b` in the sorted processes?
fn sort_le(
    criteria: ProcessOrdering,
    last_metrics: &HashMap<Pid, u64>,
    default_metric: u64,
    a: &ProcessMetadata,
    b: &ProcessMetadata,
) -> (r: bool)
    ensures
        r == spec_sort_le(criteria, last_metrics@, default_metric, *a, *b),
{
    let rank_a: u8 = match a.status() {
        Status::RUNNING => 0,
        Status::DEAD => 1,
    };
    let rank_b: u8 = match b.status() {
        Status::RUNNING => 0,
        Status::DEAD => 1,
    };
    if rank_a != rank_b {
        return rank_a < rank_b;
    }
    match criteria {
        ProcessOrdering::CurrentMetric => {
            let key_a = match last_metrics.get(&a.pid()) {
                Some(k) => *k,
                None => default_metric,
            };
            let key_b = match last_metrics.get(&b.pid()) {
                Some(k) => *k,
                None => default_metric,
            };
            key_b <= key_a
        },
        ProcessOrdering::Pid => a.pid() <= b.pid(),
        ProcessOrdering::Command => commands_le(a.command(), b.command()),
    }
}

/// Inserting `x` at `p` adds it to the class of the processes equal to it, after them, and
/// leaves the other classes as they were, when the processes before `p` come no later than `x`
/// and those after come later
proof fn lemma_insert_keeps_classes(
    s: Seq<ProcessMetadata>,
    p: int,
    x: ProcessMetadata,
    z: ProcessMetadata,
    criteria: ProcessOrdering,
    last_metrics: Map<Pid, u64>,
    default_metric: u64,
)
    requires
        0 <= p <= s.len(),
        forall|j: int|
            p <= j < s.len() ==> !spec_sort_le(
                criteria,
                last_metrics,
                default_metric,
                #[trigger] s[j],
                x,
            ),
    ensures
        ({
            let class = spec_same_rank(criteria, last_metrics, default_metric, z);
            s.insert(p, x).filter(class) == if class(x) {
                s.filter(class).push(x)
            } else {
                s.filter(class)
            }
        }),
{
    let class = spec_same_rank(criteria, last_metrics, default_metric, z);
    let before = s.take(p);
    let after = s.skip(p);
    assert(s =~= before + after);
    assert(s.insert(p, x) =~= before + seq![x] + after);
    Seq::filter_distributes_over_add(before, after, class);
    Seq::filter_distributes_over_add(before + seq![x], after, class);
    Seq::filter_distributes_over_add(before, seq![x], class);
    reveal_with_fuel(Seq::<_>::filter, 2);
    assert(seq![x].drop_last() =~= Seq::<ProcessMetadata>::empty());
    if class(x) {
        assert forall|j: int| 0 <= j < after.len() implies !class(#[trigger] after[j]) by {
            law_sort_order_is_a_total_preorder(
                criteria,
                last_metrics,
                default_metric,
                after[j],
                z,
                x,
            );
            assert(after[j] == s[p + j]);
        }
        after.lemma_all_neg_filter_empty(class);
        assert(s.filter(class) =~= before.filter(class));
        assert(s.insert(p, x).filter(class) =~= before.filter(class) + seq![x]);
    } else {
        assert(seq![x].filter(class) =~= Seq::<ProcessMetadata>::empty());
        assert(s.insert(p, x).filter(class) =~= before.filter(class) + after.filter(class));
    }
}

/// Sort processes based on the specified criteria
///
/// Regardless of the criteria, running processes are displayed before dead processes.
/// The sort is stable: processes that compare equal keep their relative order.
///
/// # Arguments
///  * `last_metrics`: For the processes of which metrics were collected, a key that orders them
///    as their last metrics do; `default_metric` is the key of the others
pub fn sort_processes(
    processes: &mut Vec<ProcessMetadata>,
    criteria: ProcessOrdering,
    last_metrics: &HashMap<Pid, u64>,
    default_metric: u64,
)
    ensures
        final(processes)@.to_multiset() == old(processes)@.to_multiset(),
        spec_sorted(final(processes)@, criteria, last_metrics@, default_metric),
        forall|x: ProcessMetadata|
            #![trigger spec_same_rank(criteria, last_metrics@, default_metric, x)]
            final(processes)@.filter(spec_same_rank(criteria, last_metrics@, default_metric, x))
                == old(processes)@.filter(spec_same_rank(criteria, last_metrics@, default_metric, x)),
{
    broadcast use vstd::seq_lib::group_to_multiset_ensures;

    let ghost keys = last_metrics@;
    let ghost input = processes@;
    let mut sorted: Vec<ProcessMetadata> = Vec::new();
    let mut k: usize = 0;
    while k < processes.len()
        invariant
            input == processes@,
            keys == last_metrics@,
            k <= input.len(),
            sorted@.to_multiset() == input.take(k as int).to_multiset(),
            spec_sorted(sorted@, criteria, keys, default_metric),
            forall|x: ProcessMetadata|
                #![trigger spec_same_rank(criteria, keys, default_metric, x)]
                sorted@.filter(spec_same_rank(criteria, keys, default_metric, x)) == input.take(
                    k as int,
                ).filter(spec_same_rank(criteria, keys, default_metric, x)),
        decreases input.len() - k,
    {
        let x = processes[k].clone();
        let mut p: usize = 0;
        while p < sorted.len() && sort_le(criteria, last_metrics, default_metric, &sorted[p], &x)
            invariant
                keys == last_metrics@,
                p <= sorted@.len(),
                forall|j: int|
                    0 <= j < p ==> spec_sort_le(
                        criteria,
                        keys,
                        default_metric,
                        #[trigger] sorted@[j],
                        x,
                    ),
            decreases sorted@.len() - p,
        {
            p = p + 1;
        }
        let ghost s = sorted@;
        proof {
            // The processes from `p` on come later than `x`, as the first of them does
            assert forall|j: int| p <= j < s.len() implies !spec_sort_le(
                criteria,
                keys,
                default_metric,
                #[trigger] s[j],
                x,
            ) by {
                if j > p {
                    assert(spec_sort_le(criteria, keys, default_metric, s[p as int], s[j]));
                    law_sort_order_is_a_total_preorder(
                        criteria,
                        keys,
                        default_metric,
                        s[p as int],
                        s[j],
                        x,
                    );
                }
            }
        }
        sorted.insert(p, x);
        proof {
            let t = input.take(k + 1);
            assert(t =~= input.take(k as int).push(x));
            assert(sorted@ =~= s.insert(p as int, x));
            // The insertion keeps the processes sorted
            assert forall|i: int, j: int|
                0 <= i < j < sorted@.len() implies spec_sort_le(
                criteria,
                keys,
                default_metric,
                #[trigger] sorted@[i],
                #[trigger] sorted@[j],
            ) by {
                if j < p {
                } else if j == p {
                    assert(sorted@[i] == s[i]);
                } else if i < p {
                    assert(sorted@[i] == s[i]);
                    assert(sorted@[j] == s[j - 1]);
                    assert(spec_sort_le(criteria, keys, default_metric, s[i], s[j - 1]));
                } else if i == p {
                    assert(sorted@[j] == s[j - 1]);
                    assert(!spec_sort_le(criteria, keys, default_metric, s[j - 1], x));
                    law_sort_order_is_a_total_preorder(
                        criteria,
                        keys,
                        default_metric,
                        x,
                        s[j - 1],
                        x,
                    );
                } else {
                    assert(sorted@[i] == s[i - 1]);
                    assert(sorted@[j] == s[j - 1]);
                }
            }
            // It keeps the processes the same
            vstd::seq_lib::to_multiset_insert(s, p as int, x);
            vstd::seq_lib::to_multiset_build(input.take(k as int), x);
            // It keeps the processes that compare equal in their relative order
            assert forall|z: ProcessMetadata|
                #![trigger spec_same_rank(criteria, keys, default_metric, z)]
                sorted@.filter(spec_same_rank(criteria, keys, default_metric, z)) == t.filter(
                    spec_same_rank(criteria, keys, default_metric, z),
                ) by {
                lemma_insert_keeps_classes(s, p as int, x, z, criteria, keys, default_metric);
                reveal_with_fuel(Seq::<_>::filter, 1);
                assert(t.drop_last() =~= input.take(k as int));
            }
        }
        k = k + 1;
    }
    proof {
        assert(input.take(k as int) =~= input);
    }
    *processes = sorted;
}

/// Regardless of the criteria, running processes are displayed before dead processes
pub proof fn law_running_processes_come_first(
    processes: Seq<ProcessMetadata>,
    criteria: ProcessOrdering,
    last_metrics: Map<Pid, u64>,
    default_metric: u64,
)
    requires
        spec_sorted(processes, criteria, last_metrics, default_metric),
    ensures
        forall|i: int, j: int|
            0 <= i < processes.len() && 0 <= j < processes.len() && (#[trigger] processes[i]).spec_status()
                == Status::RUNNING && (#[trigger] processes[j]).spec_status() == Status::DEAD ==> i < j,
{
    assert forall|i: int, j: int|
        0 <= i < processes.len() && 0 <= j < processes.len() && (#[trigger] processes[i]).spec_status()
            == Status::RUNNING && (#[trigger] processes[j]).spec_status() == Status::DEAD implies i < j by {
        if j < i {
            assert(spec_sort_le(criteria, last_metrics, default_metric, processes[j], processes[i]));
        }
    }
}

} // verus!
