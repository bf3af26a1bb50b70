use vstd::prelude::*;

use crate::model::{
    interval_option_view, same_title, title_view, ActivityInterval, ActivityIntervalView,
    EndReason, FocusSample, FocusSampleView,
};

verus! {

/// An idle time at or above this many milliseconds ends the work on the
/// focused window.
pub const IDLE_THRESHOLD_MS: u64 = 300000;

/// What the sessionizer knows between two samples.
#[derive(Debug, PartialEq)]
pub enum SessionState {
    /// No sample has opened a session yet.
    Empty,
    /// The user is working on `app` / `title` since `start_mono_ms`.
    Open { app: String, title: Option<String>, start_mono_ms: u64 },
    /// The last session was closed for inactivity and the user is still away.
    Idle,
}

/// The state as mathematical values.
pub enum SessionStateView {
    Empty,
    Open { app: Seq<char>, title: Option<Seq<char>>, start_mono_ms: u64 },
    Idle,
}

impl View for SessionState {
    type V = SessionStateView;

    open spec fn view(&self) -> SessionStateView {
        match self {
            SessionState::Empty => SessionStateView::Empty,
            SessionState::Open { app, title, start_mono_ms } => SessionStateView::Open {
                app: app@,
                title: title_view(*title),
                start_mono_ms: *start_mono_ms,
            },
            SessionState::Idle => SessionStateView::Idle,
        }
    }
}

/// Turns a stream of focus samples into closed activity intervals.
#[derive(Debug)]
pub struct Sessionizer {
    pub state: SessionState,
}

impl View for Sessionizer {
    type V = SessionStateView;

    open spec fn view(&self) -> SessionStateView {
        self.state@
    }
}

/// Whether the user counts as away at the time of `sample`.
pub open spec fn is_idle(sample: FocusSampleView) -> bool {
    sample.idle_ms >= IDLE_THRESHOLD_MS
}

/// The session that `sample` opens: its window, from its instant on.
pub open spec fn opened_by(sample: FocusSampleView) -> SessionStateView {
    SessionStateView::Open { app: sample.app, title: sample.title, start_mono_ms: sample.mono_ms }
}

/// The instant of the last input before `sample`, never before `start`:
/// `mono_ms - idle_ms`, taken as 0 where the idle time exceeds the clock,
/// and raised to `start` where it falls before it.
pub open spec fn last_input_ms(sample: FocusSampleView, start: u64) -> u64 {
    let back: int = if sample.idle_ms <= sample.mono_ms {
        sample.mono_ms - sample.idle_ms
    } else {
        0
    };
    if back >= start {
        back as u64
    } else {
        start
    }
}

/// One step of the sessionizer: from the state before a sample and the sample,
/// the interval it closes, if any, and the state after it.
///
/// - Away (`idle_ms >= IDLE_THRESHOLD_MS`): an open session is closed at the
///   last input, for `Idle`, and the state becomes `Idle`; otherwise the state
///   stays as it is (`Empty` or `Idle`).
/// - Active, with an open session on another app or title: it is closed at
///   the sample's instant, for `FocusChange`, and the sample opens a new one.
/// - Active, with an open session on the same app and title: nothing changes.
/// - Active, with no open session: the sample opens one.
pub open spec fn step(state: SessionStateView, sample: FocusSampleView) -> (
    Option<ActivityIntervalView>,
    SessionStateView,
) {
    match state {
        SessionStateView::Open { app, title, start_mono_ms } => {
            if is_idle(sample) {
                (
                    Some(
                        ActivityIntervalView {
                            app,
                            title,
                            start_mono_ms,
                            end_mono_ms: last_input_ms(sample, start_mono_ms),
                            end_reason: EndReason::Idle,
                        },
                    ),
                    SessionStateView::Idle,
                )
            } else if app != sample.app || title != sample.title {
                (
                    Some(
                        ActivityIntervalView {
                            app,
                            title,
                            start_mono_ms,
                            end_mono_ms: sample.mono_ms,
                            end_reason: EndReason::FocusChange,
                        },
                    ),
                    opened_by(sample),
                )
            } else {
                (None, state)
            }
        },
        _ => {
            if is_idle(sample) {
                (None, state)
            } else {
                (None, opened_by(sample))
            }
        },
    }
}

impl Default for SessionState {
    /// No session yet.
    fn default() -> (s: Self)
        ensures
            s@ == SessionStateView::Empty,
    {
        SessionState::Empty
    }
}

impl Default for Sessionizer {
    /// A sessionizer that has seen no sample.
    fn default() -> (s: Self)
        ensures
            s@ == SessionStateView::Empty,
    {
        Sessionizer { state: SessionState::Empty }
    }
}

impl Sessionizer {
    /// A sessionizer that has seen no sample.
    pub fn new() -> (s: Self)
        ensures
            s@ == SessionStateView::Empty,
    {
        Self::default()
    }

    /// Feeds one sample; returns the interval that it closes, if any.
    pub fn observe(&mut self, sample: FocusSample) -> (closed: Option<ActivityInterval>)
        ensures
            (interval_option_view(closed), final(self)@) == step(old(self)@, sample@),
    {
        let mut state = SessionState::Empty;
        std::mem::swap(&mut state, &mut self.state);
        let idle = sample.idle_ms >= IDLE_THRESHOLD_MS;
        let (closed, next_state) = match state {
            SessionState::Open { app, title, start_mono_ms } => {
                if idle {
                    let back = sample.mono_ms.saturating_sub(sample.idle_ms);
                    let end_mono_ms = if back >= start_mono_ms {
                        back
                    } else {
                        start_mono_ms
                    };
                    (
                        Some(
                            ActivityInterval {
                                app,
                                title,
                                start_mono_ms,
                                end_mono_ms,
                                end_reason: EndReason::Idle,
                            },
                        ),
                        SessionState::Idle,
                    )
                } else if !(app == sample.app) || !same_title(&title, &sample.title) {
                    (
                        Some(
                            ActivityInterval {
                                app,
                                title,
                                start_mono_ms,
                                end_mono_ms: sample.mono_ms,
                                end_reason: EndReason::FocusChange,
                            },
                        ),
                        SessionState::Open {
                            app: sample.app,
                            title: sample.title,
                            start_mono_ms: sample.mono_ms,
                        },
                    )
                } else {
                    (None, SessionState::Open { app, title, start_mono_ms })
                }
            },
            SessionState::Empty => {
                if idle {
                    (None, SessionState::Empty)
                } else {
                    (
                        None,
                        SessionState::Open {
                            app: sample.app,
                            title: sample.title,
                            start_mono_ms: sample.mono_ms,
                        },
                    )
                }
            },
            SessionState::Idle => {
                if idle {
                    (None, SessionState::Idle)
                } else {
                    (
                        None,
                        SessionState::Open {
                            app: sample.app,
                            title: sample.title,
                            start_mono_ms: sample.mono_ms,
                        },
                    )
                }
            },
        };
        self.state = next_state;
        closed
    }
}

} // verus!
