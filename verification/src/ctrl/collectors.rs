//! Manages the selection of which type of metrics to render

use vstd::prelude::*;

verus! {

/// The position after `index` in a cyclic list of `len` elements
pub open spec fn spec_next_index(index: int, len: int) -> int {
    (index + 1) % len
}

/// The position before `index` in a cyclic list of `len` elements
pub open spec fn spec_previous_index(index: int, len: int) -> int {
    if index == 0 {
        len - 1
    } else {
        index - 1
    }
}

/// Contains the list of collectors available to the application,
/// and allow a user from selecting one
pub struct Collectors<C> {
    collectors: Vec<C>,
    selected_index: usize,
}

impl<C> Collectors<C> {
    /// The available collectors
    pub closed spec fn spec_collectors(&self) -> Seq<C> {
        self.collectors@
    }

    /// The position of the selected collector
    pub closed spec fn spec_selected(&self) -> nat {
        self.selected_index as nat
    }

    /// The selected collector is one of the available collectors
    pub open spec fn wf(&self) -> bool {
        self.spec_selected() < self.spec_collectors().len()
    }

    /// Builds a new metric collectors selector; the first collector is selected
    ///
    /// There must be at least one collector
    pub fn new(collectors: Vec<C>) -> (c: Self)
        requires
            collectors@.len() > 0,
        ensures
            c.wf(),
            c.spec_collectors() == collectors@,
            c.spec_selected() == 0,
    {
        Collectors { collectors, selected_index: 0 }
    }

    /// Selects the collector after the current one; the first one comes after the last one
    pub fn next_collector(&mut self)
        requires
            old(self).wf(),
        ensures
            final(self).wf(),
            final(self).spec_collectors() == old(self).spec_collectors(),
            final(self).spec_selected() == spec_next_index(
                old(self).spec_selected() as int,
                old(self).spec_collectors().len() as int,
            ),
    {
        let len = self.collectors.len();
        self.selected_index = (self.selected_index + 1) % len;
    }

    /// Selects the collector before the current one; the last one comes before the first one
    pub fn previous_collector(&mut self)
        requires
            old(self).wf(),
        ensures
            final(self).wf(),
            final(self).spec_collectors() == old(self).spec_collectors(),
            final(self).spec_selected() == spec_previous_index(
                old(self).spec_selected() as int,
                old(self).spec_collectors().len() as int,
            ),
    {
        self.selected_index = if self.selected_index == 0 {
            self.collectors.len() - 1
        } else {
            self.selected_index - 1
        };
    }

    /// The selected collector
    pub fn current(&self) -> (c: &C)
        requires
            self.wf(),
        ensures
            self.spec_selected() < self.spec_collectors().len(),
            *c == self.spec_collectors()[self.spec_selected() as int],
    {
        &self.collectors[self.selected_index]
    }

    /// The position of the selected collector
    pub fn selected_index(&self) -> (i: usize)
        requires
            self.wf(),
        ensures
            i == self.spec_selected(),
            i < self.spec_collectors().len(),
    {
        self.selected_index
    }

    /// The available collectors, which the caller may update in place
    pub fn as_mut_slice(&mut self) -> (s: &mut [C])
        ensures
            s@ == old(self).spec_collectors(),
            final(self).spec_collectors() == final(s)@,
            final(self).spec_selected() == old(self).spec_selected(),
    {
        self.collectors.as_mut_slice()
    }

    /// The available collectors
    pub fn as_slice(&self) -> (s: &[C])
        ensures
            s@ == self.spec_collectors(),
    {
        self.collectors.as_slice()
    }
}

/// Selecting the next collector, then the previous one, selects the collector that was selected
/// at first; and the other way round.
pub proof fn law_next_and_previous_cancel(index: int, len: int)
    requires
        0 <= index < len,
    ensures
        spec_previous_index(spec_next_index(index, len), len) == index,
        spec_next_index(spec_previous_index(index, len), len) == index,
        0 <= spec_next_index(index, len) < len,
        0 <= spec_previous_index(index, len) < len,
{
    lemma_next_index(index, len);
    lemma_next_index(spec_previous_index(index, len), len);
}

proof fn lemma_next_index(index: int, len: int)
    requires
        0 <= index < len,
    ensures
        spec_next_index(index, len) == if index + 1 < len {
            index + 1
        } else {
            0
        },
{
    if index + 1 < len {
        assert((index + 1) % len == index + 1) by (nonlinear_arith)
            requires
                0 <= index + 1 < len,
        ;
    } else {
        assert(len % len == 0) by (nonlinear_arith)
            requires
                len > 0,
        ;
    }
}

} // verus!
