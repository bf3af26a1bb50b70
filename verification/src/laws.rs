use vstd::prelude::*;

use crate::model::{ActivityIntervalView, EndReason, FocusSampleView};
use crate::sessionizer::{is_idle, last_input_ms, opened_by, step, SessionStateView};

verus! {

/// Feeding `samples` one after another, from `state`: the state after the
/// last one and the intervals closed on the way, in the order they closed.
pub open spec fn run(state: SessionStateView, samples: Seq<FocusSampleView>) -> (
    SessionStateView,
    Seq<ActivityIntervalView>,
)
    decreases samples.len(),
{
    if samples.len() == 0 {
        (state, Seq::empty())
    } else {
        let (before, closed) = run(state, samples.drop_last());
        let (c, after) = step(before, samples.last());
        (
            after,
            match c {
                Some(i) => closed.push(i),
                None => closed,
            },
        )
    }
}

/// The samples' clock readings never go back.
pub open spec fn clock_never_goes_back(samples: Seq<FocusSampleView>) -> bool {
    forall|i: int, j: int|
        0 <= i <= j < samples.len() ==> #[trigger] samples[i].mono_ms <= #[trigger] samples[j].mono_ms
}

/// Each interval ends no earlier than it starts, and each one ends no later
/// than the next one starts.
pub open spec fn ordered_and_disjoint(intervals: Seq<ActivityIntervalView>) -> bool {
    &&& forall|i: int|
        0 <= i < intervals.len() ==> #[trigger] intervals[i].start_mono_ms
            <= intervals[i].end_mono_ms
    &&& forall|i: int|
        0 <= i < intervals.len() - 1 ==> #[trigger] intervals[i].end_mono_ms <= intervals[i
            + 1].start_mono_ms
}

/// Every interval lies between the instants `first` and `last`.
pub open spec fn within(intervals: Seq<ActivityIntervalView>, first: u64, last: u64) -> bool {
    forall|i: int|
        0 <= i < intervals.len() ==> first <= #[trigger] intervals[i].start_mono_ms
            && intervals[i].end_mono_ms <= last
}

/// While the session's app and title stay the same and the user is active,
/// a sample closes nothing and leaves the session as it is.
pub proof fn same_focus_closes_nothing(state: SessionStateView, sample: FocusSampleView)
    requires
        state matches SessionStateView::Open { app, title, .. } && app == sample.app && title
            == sample.title,
        !is_idle(sample),
    ensures
        step(state, sample) == (None::<ActivityIntervalView>, state),
{
}

/// An active sample on another app or title closes the open session at the
/// sample's instant, for a change of focus, and opens the sample's own.
pub proof fn focus_change_closes_at_sample_time(
    state: SessionStateView,
    sample: FocusSampleView,
)
    requires
        state matches SessionStateView::Open { app, title, .. } && (app != sample.app || title
            != sample.title),
        !is_idle(sample),
    ensures
        ({
            let (closed, next) = step(state, sample);
            &&& closed matches Some(i)
            &&& i.end_mono_ms == sample.mono_ms
            &&& i.end_reason == EndReason::FocusChange
            &&& next == opened_by(sample)
        }),
{
}

/// An idle sample closes the open session retroactively, at the last input
/// (`mono_ms - idle_ms`), never before the session started and never after
/// the sample; this holds whether or not the focus changed too.
pub proof fn idle_closes_at_last_input(state: SessionStateView, sample: FocusSampleView)
    requires
        state is Open,
        is_idle(sample),
    ensures
        ({
            let (closed, next) = step(state, sample);
            &&& closed matches Some(i)
            &&& i.end_reason == EndReason::Idle
            &&& i.end_mono_ms == last_input_ms(sample, state->start_mono_ms)
            &&& i.start_mono_ms <= i.end_mono_ms
            &&& (state->start_mono_ms <= sample.mono_ms ==> i.end_mono_ms <= sample.mono_ms)
            &&& (sample.idle_ms <= sample.mono_ms && state->start_mono_ms <= sample.mono_ms
                - sample.idle_ms ==> i.end_mono_ms == sample.mono_ms - sample.idle_ms)
            &&& next == SessionStateView::Idle
        }),
{
}

/// No session is open after an idle sample, and none is closed unless one
/// was open.
pub proof fn no_session_while_idle(state: SessionStateView, sample: FocusSampleView)
    requires
        is_idle(sample),
    ensures
        ({
            let (closed, next) = step(state, sample);
            &&& !(next is Open)
            &&& (closed is Some <==> state is Open)
        }),
{
}

/// After an active sample a session is open on the sample's app and title;
/// it started at the sample unless the same session simply goes on.
pub proof fn active_sample_is_in_session(state: SessionStateView, sample: FocusSampleView)
    requires
        !is_idle(sample),
    ensures
        ({
            let (closed, next) = step(state, sample);
            &&& next matches SessionStateView::Open { app, title, start_mono_ms }
            &&& app == sample.app
            &&& title == sample.title
            &&& (start_mono_ms == sample.mono_ms || (closed is None && next == state))
        }),
{
}

/// Only an open session is ever closed, and the interval is that session:
/// its app, its title and its start.
pub proof fn closed_interval_is_the_open_session(state: SessionStateView, sample: FocusSampleView)
    ensures
        ({
            let (closed, next) = step(state, sample);
            closed matches Some(i) ==> state matches SessionStateView::Open {
                app,
                title,
                start_mono_ms,
            } && i.app == app && i.title == title && i.start_mono_ms == start_mono_ms
        }),
{
}

/// A sample taken after 300000 ms or more without input means the user is
/// away. An open session is then closed for `Idle` at the last input,
/// `mono_ms - idle_ms`, or at the session's start where the last input lies
/// before it (or where the idle time exceeds the clock reading); so the
/// interval never ends after the last input unless that input came before the
/// session began, and the time away is never counted. After such a sample no
/// session is open: an open one becomes `Idle`, and `Empty` or `Idle` stay as
/// they are, closing nothing.
pub proof fn away_sample_closes_at_last_input(state: SessionStateView, sample: FocusSampleView)
    requires
        sample.idle_ms >= 300000,
    ensures
        ({
            let (closed, next) = step(state, sample);
            match state {
                SessionStateView::Open { app, title, start_mono_ms } => {
                    &&& next == SessionStateView::Idle
                    &&& closed matches Some(i)
                    &&& i.app == app
                    &&& i.title == title
                    &&& i.start_mono_ms == start_mono_ms
                    &&& i.end_reason == EndReason::Idle
                    &&& start_mono_ms <= i.end_mono_ms
                    &&& (sample.idle_ms <= sample.mono_ms && start_mono_ms <= sample.mono_ms
                        - sample.idle_ms ==> i.end_mono_ms == sample.mono_ms - sample.idle_ms)
                    &&& (sample.idle_ms <= sample.mono_ms && sample.mono_ms - sample.idle_ms
                        < start_mono_ms ==> i.end_mono_ms == start_mono_ms)
                    &&& (sample.idle_ms > sample.mono_ms ==> i.end_mono_ms == start_mono_ms)
                },
                _ => {
                    &&& closed is None
                    &&& next == state
                },
            }
        }),
{
}

/// A sample taken less than 300000 ms after the last input means the user is
/// at work on the sample's app and title. A session open on that same app and
/// title goes on untouched and nothing closes. A session open on another app
/// or title is closed at the sample's instant for `FocusChange`, and a new one
/// opens on the sample's window at that instant. With no session open
/// (`Empty` or `Idle`), nothing closes and a session opens on the sample's
/// window at the sample's instant.
pub proof fn active_sample_opens_or_keeps_a_session(
    state: SessionStateView,
    sample: FocusSampleView,
)
    requires
        sample.idle_ms < 300000,
    ensures
        ({
            let (closed, next) = step(state, sample);
            let fresh = SessionStateView::Open {
                app: sample.app,
                title: sample.title,
                start_mono_ms: sample.mono_ms,
            };
            match state {
                SessionStateView::Open { app, title, start_mono_ms } => {
                    if app == sample.app && title == sample.title {
                        &&& closed is None
                        &&& next == state
                    } else {
                        &&& next == fresh
                        &&& closed matches Some(i)
                        &&& i.app == app
                        &&& i.title == title
                        &&& i.start_mono_ms == start_mono_ms
                        &&& i.end_mono_ms == sample.mono_ms
                        &&& i.end_reason == EndReason::FocusChange
                    }
                },
                _ => {
                    &&& closed is None
                    &&& next == fresh
                },
            }
        }),
{
}

/// From a fresh sessionizer, on samples whose clock never goes back, the
/// closed intervals never overlap and never run backwards: each ends no
/// earlier than it starts and no later than the next one starts, all lie
/// within the span of the samples, and a session still open started after
/// the last closed interval ended.
pub proof fn timeline_is_ordered(samples: Seq<FocusSampleView>)
    requires
        clock_never_goes_back(samples),
    ensures
        ({
            let (state, intervals) = run(SessionStateView::Empty, samples);
            &&& ordered_and_disjoint(intervals)
            &&& samples.len() > 0 ==> within(intervals, samples[0].mono_ms, samples.last().mono_ms)
            &&& state matches SessionStateView::Open { start_mono_ms, .. } ==> {
                &&& samples.len() > 0
                &&& samples[0].mono_ms <= start_mono_ms <= samples.last().mono_ms
                &&& intervals.len() > 0 ==> intervals.last().end_mono_ms <= start_mono_ms
            }
            &&& state is Empty ==> intervals.len() == 0
        }),
    decreases samples.len(),
{
    if samples.len() > 0 {
        let prefix = samples.drop_last();
        assert(clock_never_goes_back(prefix));
        timeline_is_ordered(prefix);
        let s = samples.last();
        let n = samples.len() - 1;
        assert(samples[n] == s);
        assert(samples[0].mono_ms <= s.mono_ms);
        if prefix.len() > 0 {
            assert(prefix[0] == samples[0]);
            assert(prefix.last() == samples[n - 1]);
            assert(samples[n - 1].mono_ms <= s.mono_ms);
        }
        let (before, closed) = run(SessionStateView::Empty, prefix);
        let (c, after) = step(before, s);
        let out = run(SessionStateView::Empty, samples).1;
        if let Some(i) = c {
            assert(out == closed.push(i));
            assert forall|k: int| 0 <= k < out.len() - 1 implies #[trigger] out[k].end_mono_ms
                <= out[k + 1].start_mono_ms by {
                if k < closed.len() - 1 {
                    assert(out[k] == closed[k] && out[k + 1] == closed[k + 1]);
                } else {
                    assert(out[k] == closed.last());
                }
            }
            assert forall|k: int| 0 <= k < out.len() implies samples[0].mono_ms
                <= #[trigger] out[k].start_mono_ms && out[k].end_mono_ms <= s.mono_ms by {
                if k < closed.len() {
                    assert(out[k] == closed[k]);
                }
            }
        } else {
            assert(out == closed);
            if prefix.len() == 0 {
                assert(closed.len() == 0);
            } else if closed.len() > 0 {
                assert(closed.last() == closed[closed.len() - 1]);
                assert(prefix[0].mono_ms <= closed[closed.len() - 1].start_mono_ms);
                assert(closed.last().end_mono_ms <= s.mono_ms);
            }
        }
    }
}

/// The time that `intervals` cover, end minus start, summed.
pub open spec fn total_ms(intervals: Seq<ActivityIntervalView>) -> int
    decreases intervals.len(),
{
    if intervals.len() == 0 {
        0
    } else {
        total_ms(intervals.drop_last()) + intervals.last().end_mono_ms
            - intervals.last().start_mono_ms
    }
}

/// Ordered, non-overlapping intervals that start at or after `first` cover
/// no more time than from `first` to the end of the last one.
proof fn ordered_total_bounded(intervals: Seq<ActivityIntervalView>, first: u64)
    requires
        ordered_and_disjoint(intervals),
        intervals.len() > 0,
        first <= intervals[0].start_mono_ms,
    ensures
        total_ms(intervals) <= intervals.last().end_mono_ms - first,
    decreases intervals.len(),
{
    let n = intervals.len() - 1;
    assert(intervals[n].start_mono_ms <= intervals[n].end_mono_ms);
    assert(intervals.last() == intervals[n]);
    if n == 0 {
        assert(total_ms(intervals.drop_last()) == 0);
    } else {
        let prefix = intervals.drop_last();
        assert forall|i: int| 0 <= i < prefix.len() - 1 implies #[trigger] prefix[i].end_mono_ms
            <= prefix[i + 1].start_mono_ms by {
            assert(prefix[i] == intervals[i] && prefix[i + 1] == intervals[i + 1]);
        }
        assert forall|i: int| 0 <= i < prefix.len() implies #[trigger] prefix[i].start_mono_ms
            <= prefix[i].end_mono_ms by {
            assert(prefix[i] == intervals[i]);
        }
        assert(prefix[0] == intervals[0]);
        ordered_total_bounded(prefix, first);
        assert(prefix.last() == intervals[n - 1]);
        assert(intervals[n - 1].end_mono_ms <= intervals[n].start_mono_ms);
    }
}

/// From a fresh sessionizer, on samples whose clock never goes back, the
/// closed intervals add up to no more than the time the samples span: no
/// stretch of time is counted twice.
pub proof fn closed_time_within_span(samples: Seq<FocusSampleView>)
    requires
        clock_never_goes_back(samples),
        samples.len() > 0,
    ensures
        total_ms(run(SessionStateView::Empty, samples).1) <= samples.last().mono_ms
            - samples[0].mono_ms,
{
    timeline_is_ordered(samples);
    let intervals = run(SessionStateView::Empty, samples).1;
    if intervals.len() > 0 {
        assert(samples[0].mono_ms <= intervals[0].start_mono_ms);
        ordered_total_bounded(intervals, samples[0].mono_ms);
        let n = intervals.len() - 1;
        assert(samples[0].mono_ms <= intervals[n].start_mono_ms);
        assert(samples.last().mono_ms == samples[samples.len() - 1].mono_ms);
        assert(samples[0].mono_ms <= samples[samples.len() - 1].mono_ms);
    } else {
        assert(samples[0].mono_ms <= samples[samples.len() - 1].mono_ms);
    }
}

} // verus!
