//! Iterations of the program's main loop, and spans of iterations.

use vstd::prelude::*;

verus! {

/// Represents an iteration of the program's main loop
pub type Iteration = usize;

/// Keeps track of the current iteration of the program
pub struct IterationTracker {
    counter: usize,
}

impl IterationTracker {
    /// The iteration counter, as a number
    pub closed spec fn spec_current(&self) -> nat {
        self.counter as nat
    }

    /// A tracker that starts at iteration 0
    pub fn new() -> (t: Self)
        ensures
            t.spec_current() == 0,
    {
        IterationTracker { counter: 0 }
    }

    /// Moves to the next iteration
    pub fn tick(&mut self)
        requires
            old(self).spec_current() < usize::MAX,
        ensures
            final(self).spec_current() == old(self).spec_current() + 1,
    {
        self.counter = self.counter + 1;
    }

    /// Returns the current iteration
    pub fn current(&self) -> (c: usize)
        ensures
            c == self.spec_current(),
    {
        self.counter
    }
}

impl Default for IterationTracker {
    fn default() -> (t: Self)
        ensures
            t.spec_current() == 0,
    {
        IterationTracker { counter: 0 }
    }
}

/// The first iteration of a span that ends at `end` and covers `size` iterations, when
/// iterations before 0 are cut off
pub open spec fn clamped_begin(end: int, size: int) -> int {
    if end - size + 1 >= 0 {
        end - size + 1
    } else {
        0
    }
}

/// Represents a temporal region, expressed using iterations
///
/// A `Span` has a `begin`, an `end` and a `size`.
/// The `begin` and `end` are inclusive.
/// The `size` is kept as an attribute to represent spans covering iterations before 0
/// (e.g. `[-59; 0]`): `begin` is then 0 while `size` is greater than `end - begin + 1`.
#[derive(Copy, Clone, PartialEq, Eq, Structural, Debug)]
pub struct Span {
    begin: Iteration,
    end: Iteration,
    size: Iteration,
}

impl Span {
    #[verifier::type_invariant]
    spec fn consistent(&self) -> bool {
        &&& self.size >= 1
        &&& self.begin == clamped_begin(self.end as int, self.size as int)
    }

    /// The first iteration covered by the span
    pub closed spec fn spec_begin(&self) -> nat {
        self.begin as nat
    }

    /// The last iteration covered by the span
    pub closed spec fn spec_end(&self) -> nat {
        self.end as nat
    }

    /// The number of iterations covered by the span, counting those before 0
    pub closed spec fn spec_size(&self) -> nat {
        self.size as nat
    }

    /// Creates the span covering the iterations `begin` to `end` (both included)
    pub fn new(begin: Iteration, end: Iteration) -> (s: Self)
        requires
            begin <= end,
            end - begin + 1 <= usize::MAX,
        ensures
            s.spec_begin() == begin,
            s.spec_end() == end,
            s.spec_size() == end - begin + 1,
    {
        Span { begin, end, size: end - begin + 1 }
    }

    /// Creates a `Span` starting at the given `Iteration`
    /// The `Span` will have a size of 1. This means that it ends at the same `Iteration` than `begin`.
    ///
    /// # Arguments
    /// * `begin`: The left-bound iteration of the span
    pub fn from_begin(begin: Iteration) -> (s: Self)
        ensures
            s.spec_begin() == begin,
            s.spec_end() == begin,
            s.spec_size() == 1,
    {
        Span { begin, end: begin, size: 1 }
    }

    /// Creates a `Span` with the given size.
    /// The `Span` ends at the `Iteration` 0.
    /// To update the end of the span, see [`set_end_and_shift`](#method.set_end_and_shift)
    ///
    /// # Arguments
    /// * `size`: The size of the `Span`. It must at least 1.
    pub fn from_size(size: Iteration) -> (s: Self)
        requires
            size >= 1,
        ensures
            s.spec_begin() == 0,
            s.spec_end() == 0,
            s.spec_size() == size,
    {
        Span { begin: 0, end: 0, size }
    }

    /// Creates the span of the given size that ends at `end`
    pub fn from_end_and_size(end: Iteration, size: Iteration) -> (s: Self)
        requires
            size >= 1,
        ensures
            s.spec_end() == end,
            s.spec_size() == size,
            s.spec_begin() == clamped_begin(end as int, size as int),
    {
        let begin = if end >= size {
            end - size + 1
        } else {
            0
        };
        Span { begin, end, size }
    }

    /// Updates the end of the span and updates the `begin` attribute using the `size` attribute.
    /// After this operation, the size of the span will remain the same.
    ///
    /// # Arguments
    /// * `end`: The last iteration covered by the span
    pub fn set_end_and_shift(&mut self, end: Iteration)
        ensures
            final(self).spec_end() == end,
            final(self).spec_size() == old(self).spec_size(),
            final(self).spec_begin() == clamped_begin(end as int, old(self).spec_size() as int),
    {
        proof {
            use_type_invariant(&*self);
        }
        *self = Span::from_end_and_size(end, self.size);
    }

    /// Updates the end of the span and updates the `size` attribute using the `begin` attribute
    /// After this operation, the `begin` iteration of the span will remain the same.
    ///
    /// # Arguments
    /// * `end`: The last iteration covered by the span; it may not be less than `begin`
    pub fn set_end_and_resize(&mut self, end: Iteration)
        requires
            old(self).spec_begin() <= end,
            end - old(self).spec_begin() + 1 <= usize::MAX,
        ensures
            final(self).spec_end() == end,
            final(self).spec_begin() == old(self).spec_begin(),
            final(self).spec_size() == end - old(self).spec_begin() + 1,
    {
        *self = Span::new(self.begin, end);
    }

    /// Updates the span by offseting the `begin` and `end` attributes of the span
    ///
    /// The span cannot be scrolled before the iteration 0 or after the current iteration.
    /// This means that `begin` can never be less than 0, and `end` can never be greater than the current iteration.
    ///
    /// # Arguments
    /// * `current_iteration`: Indicates the rightmost limit of the span
    /// * `delta`: Indicates by how many iterations to shift the span.<br/>
    ///             A negative number shifts the span toward the iteration 0.<br/>
    ///             A positive number shifts the span toward the current iteration. <br/>
    pub fn scroll(&mut self, current_iteration: Iteration, delta: i64)
        ensures
            final(self).spec_size() == old(self).spec_size(),
            final(self).spec_end() == spec_scrolled_end(
                old(self).spec_end() as int,
                old(self).spec_size() as int,
                current_iteration as int,
                delta as int,
            ),
            final(self).spec_begin() == clamped_begin(
                final(self).spec_end() as int,
                final(self).spec_size() as int,
            ),
    {
        proof {
            use_type_invariant(&*self);
        }
        let moved: i128 = self.end as i128 + delta as i128;
        let projected_end: i128 = if moved < 0 {
            0
        } else {
            moved
        };
        let lower: i128 = self.size as i128 - 1;
        let at_least_lower: i128 = if projected_end > lower {
            projected_end
        } else {
            lower
        };
        let bounded_end: Iteration = if at_least_lower < current_iteration as i128 {
            at_least_lower as Iteration
        } else {
            current_iteration
        };
        self.set_end_and_shift(bounded_end);
    }

    /// Indicates if the span is fully scrolled to the right (toward the current iteration) or if it can be further
    /// scrolled to the right.
    ///
    /// # Arguments
    /// * `current_iteration` The current iteration of the program
    pub fn is_fully_scrolled_right(&self, current_iteration: Iteration) -> (b: bool)
        ensures
            b == (current_iteration == self.spec_end()),
    {
        current_iteration == self.end
    }

    /// Returns the first iteration covered by the span.
    /// This value can never be greater than `self.end()`
    pub fn begin(&self) -> (b: Iteration)
        ensures
            b == self.spec_begin(),
            b <= self.spec_end(),
    {
        proof {
            use_type_invariant(self);
        }
        self.begin
    }

    /// Returns the first iteration covered by the span, even if this iteration is negative.
    ///
    /// It is possible for a `Span` to start at a negative iteration, if `size` is greater than `end`.
    pub fn signed_begin(&self) -> (b: i128)
        ensures
            b == self.spec_end() - self.spec_size() + 1,
    {
        self.end as i128 - self.size as i128 + 1
    }

    /// Returns the last iteration covered by the span
    /// This value can never be less than `self.begin()`
    pub fn end(&self) -> (e: Iteration)
        ensures
            e == self.spec_end(),
            self.spec_begin() <= e,
    {
        proof {
            use_type_invariant(self);
        }
        self.end
    }

    /// Returns the amount of iterations covered by the span.<br/>
    /// Note that the `size` does not necessarily represent the difference between the `begin` and `end` of the span.
    /// That can be the case when we want to represent a span with a fixed `size` greater than the `end` of the span.
    pub fn size(&self) -> (s: Iteration)
        ensures
            s == self.spec_size(),
            s >= 1,
            self.spec_begin() == clamped_begin(self.spec_end() as int, s as int),
    {
        proof {
            use_type_invariant(self);
        }
        self.size
    }

    /// Returns true if `self` intersects with `other`
    ///
    /// # Arguments
    /// * `other`: A `Span` reference for which to test an intersection with `self`
    pub fn intersects(&self, other: &Span) -> (b: bool)
        ensures
            b == !(self.spec_end() < other.spec_begin() || self.spec_begin() > other.spec_end()),
    {
        !(self.end < other.begin || self.begin > other.end)
    }
}

/// Where `scroll` moves the end of a span: the end is shifted by `delta`, but never below 0,
/// never below `size - 1` (so that the span does not reach before iteration 0 while it could
/// cover `size` iterations) and never after `current`.
pub open spec fn spec_scrolled_end(end: int, size: int, current: int, delta: int) -> int {
    let projected = if end + delta < 0 {
        0
    } else {
        end + delta
    };
    let at_least = if projected > size - 1 {
        projected
    } else {
        size - 1
    };
    if at_least < current {
        at_least
    } else {
        current
    }
}

/// A scrolled span never ends after the current iteration, and never ends before iteration 0;
/// when the span can cover its size without reaching before iteration 0, it keeps doing so
pub proof fn law_scroll_stays_within_iterations(end: int, size: int, current: int, delta: int)
    requires
        size >= 1,
        current >= 0,
    ensures
        spec_scrolled_end(end, size, current, delta) <= current,
        spec_scrolled_end(end, size, current, delta) >= 0,
        current >= size - 1 ==> spec_scrolled_end(end, size, current, delta) >= size - 1,
{
}

} // verus!
