//! Interprets user inputs

use vstd::prelude::*;

use crate::ctrl::collectors::{spec_next_index, spec_previous_index, Collectors};
use crate::ctrl::processes::ProcessSelector;
use crate::ctrl::span::{spec_reset, spec_scrolled_toward, RenderingSpan, SCROLL_STEP};
use crate::input::Input;
use crate::ordering::{spec_criteria, ProcessOrdering, SortCriteriaSelector, CRITERIA_COUNT};
use crate::process::ProcessMetadata;
use crate::time::{Millis, Span, Timestamp};

pub mod collectors;
pub mod processes;
pub mod span;

verus! {

/// Indicates the effect caused by a user input
#[derive(PartialEq, Eq, Structural, Debug, Copy, Clone)]
pub enum Effect {
    NoEffect,
    ProcessesSorted(ProcessOrdering),
}

/// The mode in which the application interprets the user inputs
#[derive(PartialEq, Eq, Structural, Debug, Copy, Clone)]
pub enum State {
    /// The user browses the processes and their metrics
    Spv,
    /// The user chooses how to sort the processes; the criterion is the one they look at
    SortingPrompt(ProcessOrdering),
}

/// Can the rendering span take this input without its timestamps overflowing?
pub open spec fn spec_span_accepts(
    span: RenderingSpan,
    input: Input,
    now: Timestamp,
    app_init: Timestamp,
) -> bool {
    match input {
        Input::G => span.spec_duration() <= now.spec_millis(),
        Input::AltLeft => {
            &&& span.spec_span().spec_end().spec_millis() >= SCROLL_STEP
            &&& app_init.spec_millis() + span.spec_duration() <= u64::MAX
            &&& span.spec_duration() <= now.spec_millis()
        },
        Input::AltRight => {
            &&& span.spec_span().spec_end().spec_millis() + SCROLL_STEP <= u64::MAX
            &&& app_init.spec_millis() + span.spec_duration() <= u64::MAX
            &&& span.spec_duration() <= now.spec_millis()
        },
        _ => true,
    }
}

/// Wraps all controls utilities within a single unit
pub struct Controls<C> {
    collectors: Collectors<C>,
    rendering_span: RenderingSpan,
    process_selector: ProcessSelector,
    sort_criteria_selector: SortCriteriaSelector,
    current_state: State,
}

/// What an input does while the user browses the processes: it moves one of the selections, or
/// the rendered span, or opens the sorting prompt on the applied criterion; the other inputs
/// change nothing
pub open spec fn spec_spv_input<C>(
    before: Controls<C>,
    after: Controls<C>,
    input: Input,
    now: Timestamp,
    app_init: Timestamp,
) -> bool {
    let collectors_kept = after.spec_collectors() == before.spec_collectors();
    let span_kept = after.spec_rendering_span() == before.spec_rendering_span();
    let selector_kept = after.spec_process_selector() == before.spec_process_selector();
    let sort_kept = after.spec_sort_criteria() == before.spec_sort_criteria();
    let state_kept = after.spec_state() == before.spec_state();
    let collector_moved = |index: int|
        after.spec_collectors().spec_collectors() == before.spec_collectors().spec_collectors()
            && after.spec_collectors().spec_selected() == index;
    let process_moved = |pid: Option<crate::process::Pid>|
        after.spec_process_selector().spec_processes()
            == before.spec_process_selector().spec_processes()
            && after.spec_process_selector().spec_selected_pid() == pid;
    let len = before.spec_collectors().spec_collectors().len() as int;
    let selected = before.spec_collectors().spec_selected() as int;
    let end = before.spec_rendering_span().spec_span().spec_end().spec_millis();
    match input {
        Input::Left => collector_moved(spec_previous_index(selected, len)) && span_kept
            && selector_kept && sort_kept && state_kept,
        Input::Right => collector_moved(spec_next_index(selected, len)) && span_kept
            && selector_kept && sort_kept && state_kept,
        Input::Up => process_moved(before.spec_process_selector().spec_pid_after_previous())
            && collectors_kept && span_kept && sort_kept && state_kept,
        Input::Down => process_moved(before.spec_process_selector().spec_pid_after_next())
            && collectors_kept && span_kept && sort_kept && state_kept,
        Input::G => spec_reset(before.spec_rendering_span(), after.spec_rendering_span(), now)
            && collectors_kept && selector_kept && sort_kept && state_kept,
        Input::AltLeft => spec_scrolled_toward(
            before.spec_rendering_span(),
            after.spec_rendering_span(),
            (end - SCROLL_STEP) as nat,
            now,
            app_init,
        ) && collectors_kept && selector_kept && sort_kept && state_kept,
        Input::AltRight => spec_scrolled_toward(
            before.spec_rendering_span(),
            after.spec_rendering_span(),
            (end + SCROLL_STEP) as nat,
            now,
            app_init,
        ) && collectors_kept && selector_kept && sort_kept && state_kept,
        Input::S => after.spec_state() == State::SortingPrompt(
            spec_criteria()[before.spec_sort_criteria().spec_applied() as int],
        ) && collectors_kept && span_kept && selector_kept && sort_kept,
        _ => collectors_kept && span_kept && selector_kept && sort_kept && state_kept,
    }
}

/// What an input does in the sorting prompt: it closes the prompt, moves the selected criterion,
/// or applies it; the other inputs are ignored. Only the applied criterion has an effect.
pub open spec fn spec_sorting_prompt_input<C>(
    before: Controls<C>,
    after: Controls<C>,
    input: Input,
    effect: Effect,
) -> bool {
    let others_kept = after.spec_collectors() == before.spec_collectors()
        && after.spec_rendering_span() == before.spec_rendering_span()
        && after.spec_process_selector() == before.spec_process_selector();
    let old_selected = before.spec_sort_criteria().spec_selected();
    let new_selected = after.spec_sort_criteria().spec_selected();
    let applied_kept = after.spec_sort_criteria().spec_applied()
        == before.spec_sort_criteria().spec_applied();
    let prompting_selected = after.spec_state() == State::SortingPrompt(
        spec_criteria()[new_selected as int],
    );
    &&& others_kept
    &&& match input {
        Input::S | Input::Escape => after.spec_state() == State::Spv && after.spec_sort_criteria()
            == before.spec_sort_criteria() && effect == Effect::NoEffect,
        Input::Down => new_selected == (if old_selected + 1 < CRITERIA_COUNT {
            old_selected + 1
        } else {
            old_selected
        }) && applied_kept && prompting_selected && effect == Effect::NoEffect,
        Input::Up => new_selected == (if old_selected > 0 {
            (old_selected - 1) as nat
        } else {
            0
        }) && applied_kept && prompting_selected && effect == Effect::NoEffect,
        Input::Submit => new_selected == old_selected && after.spec_sort_criteria().spec_applied()
            == old_selected && after.spec_state() == State::Spv && effect
            == Effect::ProcessesSorted(spec_criteria()[old_selected as int]),
        _ => after.spec_sort_criteria() == before.spec_sort_criteria() && after.spec_state()
            == before.spec_state() && effect == Effect::NoEffect,
    }
}

impl<C> Controls<C> {
    /// The collectors, and which one is selected
    pub closed spec fn spec_collectors(&self) -> Collectors<C> {
        self.collectors
    }

    /// The span of time whose metrics are rendered
    pub closed spec fn spec_rendering_span(&self) -> RenderingSpan {
        self.rendering_span
    }

    /// The displayed processes, and which one is selected
    pub closed spec fn spec_process_selector(&self) -> ProcessSelector {
        self.process_selector
    }

    /// The selected and the applied sorting criteria
    pub closed spec fn spec_sort_criteria(&self) -> SortCriteriaSelector {
        self.sort_criteria_selector
    }

    /// The mode in which the inputs are interpreted
    pub closed spec fn spec_state(&self) -> State {
        self.current_state
    }

    /// A collector is selected
    pub open spec fn wf(&self) -> bool {
        self.spec_collectors().wf()
    }

    /// The controls start in the processes view, with the first collector selected, a span
    /// that ends `now` and follows the current time, no process displayed, and the processes
    /// sorted by their current metric
    pub fn new(
        collectors: Vec<C>,
        initial_span_duration: Millis,
        tolerance: Millis,
        now: Timestamp,
    ) -> (c: Self)
        requires
            collectors@.len() > 0,
            initial_span_duration <= now.spec_millis(),
        ensures
            c.wf(),
            c.spec_collectors().spec_collectors() == collectors@,
            c.spec_collectors().spec_selected() == 0,
            c.spec_rendering_span().spec_span().spec_end() == now,
            c.spec_rendering_span().spec_duration() == initial_span_duration,
            c.spec_rendering_span().spec_tolerance() == tolerance,
            c.spec_rendering_span().spec_follow(),
            c.spec_process_selector().spec_processes().len() == 0,
            c.spec_process_selector().spec_selected_pid() is None,
            c.spec_sort_criteria().spec_selected() == 0,
            c.spec_sort_criteria().spec_applied() == 0,
            c.spec_state() == State::Spv,
    {
        Self {
            collectors: Collectors::new(collectors),
            rendering_span: RenderingSpan::new(initial_span_duration, tolerance, now),
            process_selector: ProcessSelector::new(),
            sort_criteria_selector: SortCriteriaSelector::new(),
            current_state: State::Spv,
        }
    }

    /// Interprets the user input to control the application.
    /// The input will have a different effect depending on the state of the application.
    ///
    /// Returns the effect caused by the input.
    pub fn interpret_input(&mut self, input: Input, now: Timestamp, app_init: Timestamp) -> (e:
        Effect)
        requires
            old(self).wf(),
            old(self).spec_state() == State::Spv ==> spec_span_accepts(
                old(self).spec_rendering_span(),
                input,
                now,
                app_init,
            ),
        ensures
            final(self).wf(),
            old(self).spec_state() == State::Spv ==> spec_spv_input(
                *old(self),
                *final(self),
                input,
                now,
                app_init,
            ) && e == Effect::NoEffect,
            old(self).spec_state() is SortingPrompt ==> spec_sorting_prompt_input(
                *old(self),
                *final(self),
                input,
                e,
            ),
    {
        match self.current_state {
            State::Spv => self.interpret_spv_input(input, now, app_init),
            State::SortingPrompt(_) => self.interpret_sorting_prompt_input(input),
        }
    }

    fn interpret_spv_input(&mut self, input: Input, now: Timestamp, app_init: Timestamp) -> (e:
        Effect)
        requires
            old(self).wf(),
            spec_span_accepts(old(self).spec_rendering_span(), input, now, app_init),
        ensures
            final(self).wf(),
            spec_spv_input(*old(self), *final(self), input, now, app_init),
            e == Effect::NoEffect,
    {
        match input {
            Input::Left => self.collectors.previous_collector(),
            Input::Right => self.collectors.next_collector(),
            Input::Up => self.process_selector.previous_process(),
            Input::Down => self.process_selector.next_process(),
            Input::G => self.rendering_span.reset_scroll(now),
            Input::AltLeft => self.rendering_span.scroll_left(now, app_init),
            Input::AltRight => self.rendering_span.scroll_right(now, app_init),
            Input::S => self.current_state = State::SortingPrompt(
                self.sort_criteria_selector.applied(),
            ),
            _ => {},
        }

        Effect::NoEffect
    }

    fn interpret_sorting_prompt_input(&mut self, input: Input) -> (e: Effect)
        requires
            old(self).spec_state() is SortingPrompt,
        ensures
            final(self).spec_collectors() == old(self).spec_collectors(),
            spec_sorting_prompt_input(*old(self), *final(self), input, e),
    {
        match input {
            Input::S | Input::Escape => self.current_state = State::Spv,
            Input::Down => {
                self.sort_criteria_selector.next();
                self.refresh_state();
            },
            Input::Up => {
                self.sort_criteria_selector.previous();
                self.refresh_state();
            },
            Input::Submit => {
                self.sort_criteria_selector.apply();
                self.current_state = State::Spv;
                return Effect::ProcessesSorted(self.sort_criteria_selector.applied());
            },
            _ => {},  // In this state, most user inputs are ignored
        }

        Effect::NoEffect
    }

    fn refresh_state(&mut self)
        requires
            old(self).spec_state() is SortingPrompt,
        ensures
            final(self).spec_collectors() == old(self).spec_collectors(),
            final(self).spec_rendering_span() == old(self).spec_rendering_span(),
            final(self).spec_process_selector() == old(self).spec_process_selector(),
            final(self).spec_sort_criteria() == old(self).spec_sort_criteria(),
            final(self).spec_state() == State::SortingPrompt(
                spec_criteria()[old(self).spec_sort_criteria().spec_selected() as int],
            ),
    {
        if let State::SortingPrompt(_) = self.current_state {
            self.current_state = State::SortingPrompt(self.sort_criteria_selector.selected());
        }
    }

    /// Lets the rendered span follow the current time, unless the user scrolled it toward the
    /// past
    pub fn refresh_span(&mut self, now: Timestamp)
        requires
            old(self).spec_rendering_span().spec_duration() <= now.spec_millis(),
        ensures
            final(self).spec_collectors() == old(self).spec_collectors(),
            final(self).spec_process_selector() == old(self).spec_process_selector(),
            final(self).spec_sort_criteria() == old(self).spec_sort_criteria(),
            final(self).spec_state() == old(self).spec_state(),
            final(self).spec_rendering_span().spec_duration()
                == old(self).spec_rendering_span().spec_duration(),
            final(self).spec_rendering_span().spec_tolerance()
                == old(self).spec_rendering_span().spec_tolerance(),
            final(self).spec_rendering_span().spec_follow()
                == old(self).spec_rendering_span().spec_follow(),
            old(self).spec_rendering_span().spec_follow()
                ==> final(self).spec_rendering_span().spec_span().spec_end() == now,
            !old(self).spec_rendering_span().spec_follow() ==> final(self).spec_rendering_span()
                == old(self).spec_rendering_span(),
    {
        self.rendering_span.refresh(now);
    }

    /// The span of time whose metrics are rendered
    pub fn to_span(&self) -> (s: Span)
        requires
            self.spec_rendering_span().spec_tolerance()
                <= self.spec_rendering_span().spec_span().spec_begin().spec_millis(),
        ensures
            s.spec_begin().spec_millis() == self.spec_rendering_span().spec_span().spec_begin().spec_millis()
                - self.spec_rendering_span().spec_tolerance(),
            s.spec_end() == self.spec_rendering_span().spec_span().spec_end(),
    {
        self.rendering_span.to_span()
    }

    /// Replaces the displayed processes; the selected process is kept
    pub fn set_processes(&mut self, processes: &[ProcessMetadata])
        ensures
            final(self).spec_collectors() == old(self).spec_collectors(),
            final(self).spec_rendering_span() == old(self).spec_rendering_span(),
            final(self).spec_sort_criteria() == old(self).spec_sort_criteria(),
            final(self).spec_state() == old(self).spec_state(),
            final(self).spec_process_selector().spec_processes() == processes@,
            final(self).spec_process_selector().spec_selected_pid()
                == old(self).spec_process_selector().spec_selected_pid(),
    {
        self.process_selector.set_processes(processes);
    }

    /// The displayed processes, and which one is selected
    pub fn process_selector(&self) -> (s: &ProcessSelector)
        ensures
            *s == self.spec_process_selector(),
    {
        &self.process_selector
    }

    /// The collectors, in the order of their tabs
    pub fn collectors(&self) -> (s: &[C])
        ensures
            s@ == self.spec_collectors().spec_collectors(),
    {
        self.collectors.as_slice()
    }

    /// The collectors, which the caller may update in place; which one is selected is kept
    pub fn collectors_as_mut_slice(&mut self) -> (s: &mut [C])
        ensures
            s@ == old(self).spec_collectors().spec_collectors(),
            final(self).spec_collectors().spec_collectors() == final(s)@,
            final(self).spec_collectors().spec_selected()
                == old(self).spec_collectors().spec_selected(),
            final(self).spec_rendering_span() == old(self).spec_rendering_span(),
            final(self).spec_process_selector() == old(self).spec_process_selector(),
            final(self).spec_sort_criteria() == old(self).spec_sort_criteria(),
            final(self).spec_state() == old(self).spec_state(),
    {
        self.collectors.as_mut_slice()
    }

    /// The collector whose metrics are displayed
    pub fn current_collector(&self) -> (c: &C)
        requires
            self.wf(),
        ensures
            *c == self.spec_collectors().spec_collectors()[self.spec_collectors().spec_selected() as int],
    {
        self.collectors.current()
    }

    /// The position of the collector whose metrics are displayed
    pub fn current_collector_index(&self) -> (i: usize)
        requires
            self.wf(),
        ensures
            i == self.spec_collectors().spec_selected(),
    {
        self.collectors.selected_index()
    }

    /// Whether `input` can be interpreted at `now` without the rendered span overflowing the
    /// range of timestamps: the condition that `interpret_input` asks for
    pub fn accepts_input(&self, input: Input, now: Timestamp, app_init: Timestamp) -> (b: bool)
        ensures
            b == (self.spec_state() == State::Spv ==> spec_span_accepts(
                self.spec_rendering_span(),
                input,
                now,
                app_init,
            )),
    {
        if self.current_state != State::Spv {
            return true;
        }
        let duration = self.rendering_span.duration();
        let end = self.rendering_span.end().as_millis();
        let fits_after_init = app_init.as_millis() <= u64::MAX - duration;
        let fits_before_now = duration <= now.as_millis();
        match input {
            Input::G => fits_before_now,
            Input::AltLeft => end >= SCROLL_STEP && fits_after_init && fits_before_now,
            Input::AltRight => end <= u64::MAX - SCROLL_STEP && fits_after_init && fits_before_now,
            _ => true,
        }
    }

    /// The mode in which the inputs are interpreted
    pub fn state(&self) -> (s: State)
        ensures
            s == self.spec_state(),
    {
        self.current_state
    }

    /// The criterion with which the processes are sorted
    pub fn process_ordering_criteria(&self) -> (c: ProcessOrdering)
        ensures
            c == spec_criteria()[self.spec_sort_criteria().spec_applied() as int],
    {
        self.sort_criteria_selector.applied()
    }
}

/// Opening the sorting prompt, then leaving it without submitting, leaves the controls as they
/// were: the same collectors, span, processes, selections and criteria, back in the processes
/// view
pub proof fn law_prompt_left_without_submit_changes_nothing<C>(
    before: Controls<C>,
    prompting: Controls<C>,
    after: Controls<C>,
    now: Timestamp,
    app_init: Timestamp,
    effect: Effect,
)
    requires
        before.spec_state() == State::Spv,
        spec_spv_input(before, prompting, Input::S, now, app_init),
        spec_sorting_prompt_input(prompting, after, Input::Escape, effect),
    ensures
        after.spec_collectors() == before.spec_collectors(),
        after.spec_rendering_span() == before.spec_rendering_span(),
        after.spec_process_selector() == before.spec_process_selector(),
        after.spec_sort_criteria() == before.spec_sort_criteria(),
        after.spec_state() == before.spec_state(),
        effect == Effect::NoEffect,
{
}

/// Submitting the sorting prompt sorts the processes by the criterion the user looked at, and
/// that criterion is the one the prompt opens on next time
pub proof fn law_submitted_criterion_is_applied<C>(
    prompting: Controls<C>,
    submitted: Controls<C>,
    reopened: Controls<C>,
    now: Timestamp,
    app_init: Timestamp,
    effect: Effect,
)
    requires
        prompting.spec_state() == State::SortingPrompt(
            spec_criteria()[prompting.spec_sort_criteria().spec_selected() as int],
        ),
        spec_sorting_prompt_input(prompting, submitted, Input::Submit, effect),
        spec_spv_input(submitted, reopened, Input::S, now, app_init),
    ensures
        effect == Effect::ProcessesSorted(
            spec_criteria()[prompting.spec_sort_criteria().spec_selected() as int],
        ),
        reopened.spec_state() == prompting.spec_state(),
{
}

/// Scrolling right moves the rendered span one step toward the current time, never past it: a
/// span that ends within the time the application ran ends one step later, or at `now` if that
/// step would pass it, keeps its duration, and follows the current time exactly when it ends
/// `now`. In particular a span that ends before `now` moves toward `now`.
pub proof fn law_scroll_right_moves_toward_now<C>(
    before: Controls<C>,
    after: Controls<C>,
    now: Timestamp,
    app_init: Timestamp,
)
    requires
        spec_spv_input(before, after, Input::AltRight, now, app_init),
        app_init.spec_millis() + before.spec_rendering_span().spec_duration()
            <= before.spec_rendering_span().spec_span().spec_end().spec_millis() <= now.spec_millis(),
    ensures
        ({
            let end = before.spec_rendering_span().spec_span().spec_end().spec_millis();
            let new_end = after.spec_rendering_span().spec_span().spec_end().spec_millis();
            &&& end + SCROLL_STEP <= now.spec_millis() ==> new_end == end + SCROLL_STEP
            &&& end + SCROLL_STEP > now.spec_millis() ==> new_end == now.spec_millis()
            &&& end < now.spec_millis() ==> end < new_end
            &&& new_end <= now.spec_millis()
            &&& after.spec_rendering_span().spec_duration() == before.spec_rendering_span().spec_duration()
            &&& after.spec_rendering_span().spec_follow() == (new_end == now.spec_millis())
            &&& after.spec_process_selector() == before.spec_process_selector()
            &&& after.spec_collectors() == before.spec_collectors()
        }),
{
    let ghost a = after.spec_rendering_span().spec_span().spec_end();
    Timestamp::lemma_same_millis(a, now);
}

/// Scrolling left moves the rendered span one step toward the past, never before the start of
/// the application: it ends one step earlier, or as early as the application start allows,
/// keeps its duration, and no longer follows the current time unless it still ends `now`
pub proof fn law_scroll_left_moves_toward_the_past<C>(
    before: Controls<C>,
    after: Controls<C>,
    now: Timestamp,
    app_init: Timestamp,
)
    requires
        spec_spv_input(before, after, Input::AltLeft, now, app_init),
        app_init.spec_millis() + before.spec_rendering_span().spec_duration()
            <= before.spec_rendering_span().spec_span().spec_end().spec_millis() <= now.spec_millis(),
        before.spec_rendering_span().spec_span().spec_end().spec_millis() >= SCROLL_STEP,
    ensures
        ({
            let end = before.spec_rendering_span().spec_span().spec_end().spec_millis();
            let new_end = after.spec_rendering_span().spec_span().spec_end().spec_millis();
            let earliest = app_init.spec_millis() + before.spec_rendering_span().spec_duration();
            &&& end - SCROLL_STEP >= earliest ==> new_end == end - SCROLL_STEP
            &&& end - SCROLL_STEP < earliest ==> new_end == earliest
            &&& end > earliest ==> new_end < end
            &&& after.spec_rendering_span().spec_duration() == before.spec_rendering_span().spec_duration()
            &&& after.spec_rendering_span().spec_follow() == (new_end == now.spec_millis())
        }),
{
    let ghost a = after.spec_rendering_span().spec_span().spec_end();
    Timestamp::lemma_same_millis(a, now);
}

/// Scrolling left then right brings back a span that ended at the current time: it ends `now`
/// again and follows the current time, with its duration unchanged, when the application ran
/// long enough for the span to go one step back
pub proof fn law_scroll_left_then_right_returns_to_now<C>(
    start: Controls<C>,
    scrolled_left: Controls<C>,
    scrolled_back: Controls<C>,
    now: Timestamp,
    app_init: Timestamp,
)
    requires
        start.spec_rendering_span().spec_span().spec_end() == now,
        app_init.spec_millis() + start.spec_rendering_span().spec_duration() + SCROLL_STEP
            <= now.spec_millis(),
        spec_spv_input(start, scrolled_left, Input::AltLeft, now, app_init),
        spec_spv_input(scrolled_left, scrolled_back, Input::AltRight, now, app_init),
    ensures
        scrolled_left.spec_rendering_span().spec_span().spec_end().spec_millis() == now.spec_millis()
            - SCROLL_STEP,
        !scrolled_left.spec_rendering_span().spec_follow(),
        scrolled_back.spec_rendering_span().spec_span().spec_end() == now,
        scrolled_back.spec_rendering_span().spec_follow(),
        scrolled_back.spec_rendering_span().spec_duration() == start.spec_rendering_span().spec_duration(),
{
    law_scroll_left_moves_toward_the_past(start, scrolled_left, now, app_init);
    law_scroll_right_moves_toward_now(scrolled_left, scrolled_back, now, app_init);
    Timestamp::lemma_same_millis(scrolled_back.spec_rendering_span().spec_span().spec_end(), now);
}

/// Resetting the scroll brings the rendered span back to the current time: it ends `now`,
/// follows the current time again, and keeps its duration, wherever it was scrolled to
pub proof fn law_reset_returns_to_now<C>(before: Controls<C>, after: Controls<C>, now: Timestamp, app_init: Timestamp)
    requires
        spec_spv_input(before, after, Input::G, now, app_init),
    ensures
        after.spec_rendering_span().spec_span().spec_end() == now,
        after.spec_rendering_span().spec_follow(),
        after.spec_rendering_span().spec_duration() == before.spec_rendering_span().spec_duration(),
        after.spec_process_selector() == before.spec_process_selector(),
        after.spec_collectors() == before.spec_collectors(),
{
}

} // verus!
