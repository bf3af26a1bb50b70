use vstd::prelude::*;

verus! {

/// One observation of the machine: which window had the focus, and for how
/// long no input had been seen, both taken at the instant `mono_ms` of a
/// monotonic clock.
#[derive(Debug, Clone, PartialEq)]
pub struct FocusSample {
    /// Monotonic clock reading, in milliseconds; it only grows.
    pub mono_ms: u64,
    /// Name of the focused application.
    pub app: String,
    /// Title of the focused window or tab, where there is one.
    pub title: Option<String>,
    /// Milliseconds since the last keyboard, mouse or trackpad input.
    pub idle_ms: u64,
}

/// Why an activity interval was closed.
#[derive(Debug, Clone, Copy, PartialEq, Eq, Structural)]
pub enum EndReason {
    /// The user stopped giving input for the idle threshold or longer.
    Idle,
    /// Another application or window title took the focus.
    FocusChange,
}

/// A closed stretch of time spent on one application and one window title.
#[derive(Debug, PartialEq)]
pub struct ActivityInterval {
    pub app: String,
    pub title: Option<String>,
    pub start_mono_ms: u64,
    pub end_mono_ms: u64,
    pub end_reason: EndReason,
}

/// The contents of an optional title.
pub open spec fn title_view(title: Option<String>) -> Option<Seq<char>> {
    match title {
        Some(t) => Some(t@),
        None => None,
    }
}

/// A sample as mathematical values.
pub struct FocusSampleView {
    pub mono_ms: u64,
    pub app: Seq<char>,
    pub title: Option<Seq<char>>,
    pub idle_ms: u64,
}

/// An interval as mathematical values.
pub struct ActivityIntervalView {
    pub app: Seq<char>,
    pub title: Option<Seq<char>>,
    pub start_mono_ms: u64,
    pub end_mono_ms: u64,
    pub end_reason: EndReason,
}

impl View for FocusSample {
    type V = FocusSampleView;

    open spec fn view(&self) -> FocusSampleView {
        FocusSampleView {
            mono_ms: self.mono_ms,
            app: self.app@,
            title: title_view(self.title),
            idle_ms: self.idle_ms,
        }
    }
}

impl View for ActivityInterval {
    type V = ActivityIntervalView;

    open spec fn view(&self) -> ActivityIntervalView {
        ActivityIntervalView {
            app: self.app@,
            title: title_view(self.title),
            start_mono_ms: self.start_mono_ms,
            end_mono_ms: self.end_mono_ms,
            end_reason: self.end_reason,
        }
    }
}

/// An optional interval as mathematical values.
pub open spec fn interval_option_view(i: Option<ActivityInterval>) -> Option<ActivityIntervalView> {
    match i {
        Some(x) => Some(x@),
        None => None,
    }
}

/// Whether two optional titles hold the same text.
pub(crate) fn same_title(a: &Option<String>, b: &Option<String>) -> (r: bool)
    ensures
        r == (title_view(*a) == title_view(*b)),
{
    match (a, b) {
        (Some(x), Some(y)) => *x == *y,
        (None, None) => true,
        _ => false,
    }
}

} // verus!
