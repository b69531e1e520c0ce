//! Manages the configuration of the span of metrics to render

use vstd::prelude::*;

use crate::time::{spec_elapsed, Millis, Span, Timestamp};

verus! {

/// By how much the span moves on each scroll step, in milliseconds
pub const SCROLL_STEP: Millis = 1000;

/// Where a scroll asks the end of the span to go, capped so that the span covers neither a
/// time before the application started (`app_init`) nor a time after `now`
pub open spec fn spec_bounded_end(unbounded: nat, duration: nat, app_init: nat, now: nat) -> nat {
    let min_end = app_init + duration;
    let at_least = if unbounded >= min_end {
        unbounded
    } else {
        min_end
    };
    if at_least <= now {
        at_least
    } else {
        now
    }
}

/// The span cannot be scrolled before the application started, nor after the current time:
/// wherever a scroll asks its end to go, it ends between `app_init + duration` and `now`, when
/// the application has run for at least the duration of the span
pub proof fn law_scroll_is_bounded(unbounded: nat, duration: nat, app_init: nat, now: nat)
    requires
        app_init + duration <= now,
    ensures
        app_init + duration <= spec_bounded_end(unbounded, duration, app_init, now) <= now,
        app_init + duration <= unbounded <= now ==> spec_bounded_end(
            unbounded,
            duration,
            app_init,
            now,
        ) == unbounded,
{
}

/// `after` is `before` with the end of its span moved toward `target`, bounded as
/// [`spec_bounded_end`] says, without being resized; it follows the current time exactly when it
/// ends `now`
pub open spec fn spec_scrolled_toward(
    before: RenderingSpan,
    after: RenderingSpan,
    target: nat,
    now: Timestamp,
    app_init: Timestamp,
) -> bool {
    &&& after.spec_duration() == before.spec_duration()
    &&& after.spec_tolerance() == before.spec_tolerance()
    &&& after.spec_span().spec_end().spec_millis() == spec_bounded_end(
        target,
        before.spec_duration(),
        app_init.spec_millis(),
        now.spec_millis(),
    )
    &&& after.spec_follow() == (after.spec_span().spec_end() == now)
}

/// `after` is `before` moved so that it ends `now`, without being resized, and following the
/// current time
pub open spec fn spec_reset(before: RenderingSpan, after: RenderingSpan, now: Timestamp) -> bool {
    &&& after.spec_duration() == before.spec_duration()
    &&& after.spec_tolerance() == before.spec_tolerance()
    &&& after.spec_span().spec_end() == now
    &&& after.spec_follow()
}

/// The span of time whose metrics are rendered, which follows the current time until the user
/// scrolls it toward the past
pub struct RenderingSpan {
    span: Span,
    tolerance: Millis,
    follow: bool,
}

impl RenderingSpan {
    /// The span, before the tolerance is applied
    pub closed spec fn spec_span(&self) -> Span {
        self.span
    }

    /// How far the begin of the rendered span is moved to the past
    pub closed spec fn spec_tolerance(&self) -> nat {
        self.tolerance as nat
    }

    /// Does the span follow the current time when refreshed?
    pub closed spec fn spec_follow(&self) -> bool {
        self.follow
    }

    /// The amount of time covered by the span
    pub open spec fn spec_duration(&self) -> nat {
        spec_elapsed(self.spec_span().spec_begin(), self.spec_span().spec_end())
    }

    /// # Arguments
    /// - `duration`: Indicates the amount of time that the span covers
    /// - `tolerance`: Tracking time precisely to the millisecond is difficult.<br/>
    ///     The tolerance will loosen the constraints of the span, by shifting its begin to the past.
    /// - `now`: The current time; the span ends there
    pub fn new(duration: Millis, tolerance: Millis, now: Timestamp) -> (r: Self)
        requires
            duration <= now.spec_millis(),
        ensures
            r.spec_span().spec_end() == now,
            r.spec_duration() == duration,
            r.spec_tolerance() == tolerance,
            r.spec_follow(),
    {
        Self { span: Span::from_duration(now, duration), tolerance, follow: true }
    }

    /// Refreshes the rendering span so that it keeps being scrolled to the right, unless the
    /// user scrolled it toward the past
    pub fn refresh(&mut self, now: Timestamp)
        requires
            old(self).spec_duration() <= now.spec_millis(),
        ensures
            final(self).spec_duration() == old(self).spec_duration(),
            final(self).spec_tolerance() == old(self).spec_tolerance(),
            final(self).spec_follow() == old(self).spec_follow(),
            old(self).spec_follow() ==> final(self).spec_span().spec_end() == now,
            !old(self).spec_follow() ==> *final(self) == *old(self),
    {
        if self.follow {
            self.span.set_end_and_shift(now);
            self.set_follow_if_span_is_tracking_current_timestamp(now);
        }
    }

    /// Updates the span by offseting the `begin` and `end` attributes of the span toward the past
    ///
    /// The span cannot be scrolled before the first timestamp of the program
    pub fn scroll_left(&mut self, now: Timestamp, app_init: Timestamp)
        requires
            old(self).spec_span().spec_end().spec_millis() >= SCROLL_STEP,
            app_init.spec_millis() + old(self).spec_duration() <= u64::MAX,
            old(self).spec_duration() <= now.spec_millis(),
        ensures
            spec_scrolled_toward(
                *old(self),
                *final(self),
                (old(self).spec_span().spec_end().spec_millis() - SCROLL_STEP) as nat,
                now,
                app_init,
            ),
    {
        let end = self.span.end().sub(SCROLL_STEP);
        self.set_bounded_end_and_shift(end, now, app_init);
        self.set_follow_if_span_is_tracking_current_timestamp(now);
    }

    /// Updates the span by offseting the `begin` and `end` attributes of the span toward the future
    ///
    /// The span cannot be scrolled after the current timestamp.
    pub fn scroll_right(&mut self, now: Timestamp, app_init: Timestamp)
        requires
            old(self).spec_span().spec_end().spec_millis() + SCROLL_STEP <= u64::MAX,
            app_init.spec_millis() + old(self).spec_duration() <= u64::MAX,
            old(self).spec_duration() <= now.spec_millis(),
        ensures
            spec_scrolled_toward(
                *old(self),
                *final(self),
                (old(self).spec_span().spec_end().spec_millis() + SCROLL_STEP) as nat,
                now,
                app_init,
            ),
    {
        let end = self.span.end().add(SCROLL_STEP);
        self.set_bounded_end_and_shift(end, now, app_init);
        self.set_follow_if_span_is_tracking_current_timestamp(now);
    }

    /// Reset the span so that it tracks the latest metrics
    pub fn reset_scroll(&mut self, now: Timestamp)
        requires
            old(self).spec_duration() <= now.spec_millis(),
        ensures
            spec_reset(*old(self), *final(self), now),
    {
        self.span.set_end_and_shift(now);
        self.set_follow_if_span_is_tracking_current_timestamp(now);
    }

    fn set_follow_if_span_is_tracking_current_timestamp(&mut self, now: Timestamp)
        ensures
            final(self).spec_span() == old(self).spec_span(),
            final(self).spec_tolerance() == old(self).spec_tolerance(),
            final(self).spec_follow() == (old(self).spec_span().spec_end() == now),
    {
        proof {
            Timestamp::lemma_same_millis(self.span.spec_end(), now);
        }
        self.follow = self.span.end().as_millis() == now.as_millis();
    }

    /// Returns the actual `Span` representing the scope to render: the span, with its begin
    /// moved to the past by the tolerance
    pub fn to_span(&self) -> (s: Span)
        requires
            self.spec_tolerance() <= self.spec_span().spec_begin().spec_millis(),
        ensures
            s.spec_begin().spec_millis() == self.spec_span().spec_begin().spec_millis()
                - self.spec_tolerance(),
            s.spec_end() == self.spec_span().spec_end(),
    {
        Span::new(self.span.begin().sub(self.tolerance), self.span.end())
    }

    /// The end of the span
    pub fn end(&self) -> (t: Timestamp)
        ensures
            t == self.spec_span().spec_end(),
    {
        self.span.end()
    }

    /// The amount of time covered by the span
    pub fn duration(&self) -> (d: Millis)
        ensures
            d == self.spec_duration(),
    {
        self.span.duration()
    }

    /// How far the begin of the rendered span is moved to the past
    pub fn tolerance(&self) -> (t: Millis)
        ensures
            t == self.spec_tolerance(),
    {
        self.tolerance
    }

    /// Sets the end of the span and shift it (without resizing it)
    /// The end is capped so that the span cannot cover a time before the application started, or after the current time
    fn set_bounded_end_and_shift(&mut self, unbounded_end: Timestamp, now: Timestamp, app_init: Timestamp)
        requires
            app_init.spec_millis() + old(self).spec_duration() <= u64::MAX,
            old(self).spec_duration() <= now.spec_millis(),
        ensures
            final(self).spec_duration() == old(self).spec_duration(),
            final(self).spec_tolerance() == old(self).spec_tolerance(),
            final(self).spec_follow() == old(self).spec_follow(),
            final(self).spec_span().spec_end().spec_millis() == spec_bounded_end(
                unbounded_end.spec_millis(),
                old(self).spec_duration(),
                app_init.spec_millis(),
                now.spec_millis(),
            ),
    {
        let min_end = app_init.add(self.span.duration());
        let at_least = if unbounded_end.as_millis() >= min_end.as_millis() {
            unbounded_end
        } else {
            min_end
        };
        let bounded_end = if at_least.as_millis() <= now.as_millis() {
            at_least
        } else {
            now
        };
        self.span.set_end_and_shift(bounded_end);
    }
}

} // verus!
