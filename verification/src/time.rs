//! Time tracking utilities
//!
//! Timestamps are counted in milliseconds from an origin chosen by the application (the
//! clock itself is read outside of this library). All events of a same iteration of the
//! main loop share the same timestamp.

use vstd::prelude::*;

verus! {

/// A length of time, in milliseconds
pub type Millis = u64;

/// An instant, or a length of time, in nanoseconds
pub type Nanos = u64;

/// A `Timestamp` represents a temporal pointer to an event
#[derive(Copy, Clone, PartialEq, Eq, Structural, PartialOrd, Ord, Debug)]
pub struct Timestamp {
    millis: u64,
}

impl Timestamp {
    /// The position of the timestamp on the time line, in milliseconds
    pub closed spec fn spec_millis(&self) -> nat {
        self.millis as nat
    }

    /// Two timestamps at the same position on the time line are the same timestamp
    pub proof fn lemma_same_millis(a: Timestamp, b: Timestamp)
        ensures
            (a.spec_millis() == b.spec_millis()) == (a == b),
    {
    }

    /// Builds the timestamp lying `millis` milliseconds after the origin
    pub fn from_millis(millis: u64) -> (t: Self)
        ensures
            t.spec_millis() == millis,
    {
        Timestamp { millis }
    }

    /// The number of milliseconds between the origin and `self`
    pub fn as_millis(&self) -> (m: u64)
        ensures
            m == self.spec_millis(),
    {
        self.millis
    }

    /// Calculates elapsed time between `self` and `earlier`.
    /// If `earlier` is later than `self`, the elapsed time is 0.
    pub fn duration_since(&self, earlier: &Timestamp) -> (d: Millis)
        ensures
            d == spec_elapsed(*earlier, *self),
    {
        if self.millis >= earlier.millis {
            self.millis - earlier.millis
        } else {
            0
        }
    }

    /// The timestamp `duration` after `self`
    pub fn add(&self, duration: Millis) -> (t: Timestamp)
        requires
            self.spec_millis() + duration <= u64::MAX,
        ensures
            t.spec_millis() == self.spec_millis() + duration,
    {
        Timestamp { millis: self.millis + duration }
    }

    /// The timestamp `duration` before `self`
    pub fn sub(&self, duration: Millis) -> (t: Timestamp)
        requires
            duration <= self.spec_millis(),
        ensures
            t.spec_millis() == self.spec_millis() - duration,
    {
        Timestamp { millis: self.millis - duration }
    }

    /// Is `self` strictly before `other`?
    pub fn is_before(&self, other: &Timestamp) -> (b: bool)
        ensures
            b == (self.spec_millis() < other.spec_millis()),
    {
        self.millis < other.millis
    }
}

/// The time elapsed from `earlier` to `later`, or 0 if `later` comes first
pub open spec fn spec_elapsed(earlier: Timestamp, later: Timestamp) -> nat {
    if later.spec_millis() >= earlier.spec_millis() {
        (later.spec_millis() - earlier.spec_millis()) as nat
    } else {
        0
    }
}

/// Represents a temporal region
///
/// A `Span` is defined by a `begin` and an `end` timestamp
/// The `begin` and `end` timestamps are inclusive.
#[derive(Copy, Clone, PartialEq, Eq, Structural, Debug)]
pub struct Span {
    begin: Timestamp,
    end: Timestamp,
}

impl Span {
    /// The first timestamp covered by the span
    pub closed spec fn spec_begin(&self) -> Timestamp {
        self.begin
    }

    /// The last timestamp covered by the span
    pub closed spec fn spec_end(&self) -> Timestamp {
        self.end
    }

    pub fn new(begin: Timestamp, end: Timestamp) -> (s: Self)
        ensures
            s.spec_begin() == begin,
            s.spec_end() == end,
    {
        Span { begin, end }
    }

    /// Creates a `Span` starting and ending at the given `Timestamp`
    ///
    /// # Arguments
    /// * `begin`: The left-bound timestamp of the span
    pub fn from_begin(begin: Timestamp) -> (s: Self)
        ensures
            s.spec_begin() == begin,
            s.spec_end() == begin,
    {
        Span { begin, end: begin }
    }

    /// Creates a `Span` that ends at `now` and covers the given duration
    pub fn from_duration(now: Timestamp, duration: Millis) -> (s: Self)
        requires
            duration <= now.spec_millis(),
        ensures
            s.spec_end() == now,
            s.spec_begin().spec_millis() == now.spec_millis() - duration,
    {
        Span { begin: now.sub(duration), end: now }
    }

    /// Updates the begining value of the span without updating its end
    /// After this operation, the `end` value of the span will remain the same.
    ///
    /// # Arguments
    /// * `begin`: The first timestamp covered by the span; it may not come after the end
    pub fn set_begin_and_resize(&mut self, begin: Timestamp)
        requires
            begin.spec_millis() <= old(self).spec_end().spec_millis(),
        ensures
            final(self).spec_begin() == begin,
            final(self).spec_end() == old(self).spec_end(),
    {
        self.begin = begin;
    }

    /// Updates the end of the span without updating the begining of the span
    /// After this operation, the `begin` value of the span will remain the same.
    ///
    /// # Arguments
    /// * `end`: The last timestamp covered by the span; it may not come before the begin
    pub fn set_end_and_resize(&mut self, end: Timestamp)
        requires
            old(self).spec_begin().spec_millis() <= end.spec_millis(),
        ensures
            final(self).spec_begin() == old(self).spec_begin(),
            final(self).spec_end() == end,
    {
        self.end = end;
    }

    /// Updates the end of the span and updates the `begin` attribute so that the span covers the same duration
    ///
    /// # Arguments
    /// * `end`: The new maximum timestamp covered by the span
    pub fn set_end_and_shift(&mut self, end: Timestamp)
        requires
            spec_elapsed(old(self).spec_begin(), old(self).spec_end()) <= end.spec_millis(),
        ensures
            final(self).spec_end() == end,
            final(self).spec_begin().spec_millis() == end.spec_millis() - spec_elapsed(
                old(self).spec_begin(),
                old(self).spec_end(),
            ),
    {
        let duration = self.end.duration_since(&self.begin);
        self.end = end;
        self.begin = end.sub(duration);
    }

    /// Returns the first timestamp covered by the span.
    pub fn begin(&self) -> (t: Timestamp)
        ensures
            t == self.spec_begin(),
    {
        self.begin
    }

    /// Returns the last timestamp covered by the span
    pub fn end(&self) -> (t: Timestamp)
        ensures
            t == self.spec_end(),
    {
        self.end
    }

    /// Returns the amount of time covered by the span
    pub fn duration(&self) -> (d: Millis)
        ensures
            d == spec_elapsed(self.spec_begin(), self.spec_end()),
    {
        self.end.duration_since(&self.begin)
    }

    /// Returns true if `self` intersects with `other`
    ///
    /// # Arguments
    /// * `other`: A `Span` reference for which to test an intersection with `self`
    pub fn intersects(&self, other: &Span) -> (b: bool)
        ensures
            b == !(self.spec_end().spec_millis() < other.spec_begin().spec_millis()
                || self.spec_begin().spec_millis() > other.spec_end().spec_millis()),
    {
        !(self.end.millis < other.begin.millis || self.begin.millis > other.end.millis)
    }

    /// Returns true if `self` contains the timestamp
    pub fn contains(&self, timestamp: Timestamp) -> (b: bool)
        ensures
            b == (self.spec_begin().spec_millis() <= timestamp.spec_millis()
                <= self.spec_end().spec_millis()),
    {
        self.begin.millis <= timestamp.millis && timestamp.millis <= self.end.millis
    }
}

} // verus!
