use vstd::prelude::*;

use std::time::{Duration, Instant};

verus! {

/// `std::time::Instant`, carried through opaquely.
#[verifier::external_type_specification]
#[verifier::external_body]
pub struct ExInstant(std::time::Instant);

/// Calls `std::time::Instant::now`. Nothing is stated of the result: it is a
/// reading of the machine's monotonic clock.
#[verifier::external_body]
fn instant_now() -> Instant {
    Instant::now()
}

/// Calls `std::time::Instant::elapsed`. Nothing is stated of the result: it
/// depends on the clock at the time of the call.
#[verifier::external_body]
fn elapsed_since(start: &Instant) -> Duration {
    start.elapsed()
}

/// Calls `std::time::Duration::as_millis`, the whole milliseconds in `d`.
/// Nothing is stated of the result: `Duration` is opaque here, so there is
/// nothing to state it over.
#[verifier::external_body]
fn whole_millis(d: &Duration) -> u128 {
    d.as_millis()
}

/// A count of milliseconds cut down to `u64`: itself where it fits, and
/// `u64::MAX` where it does not.
pub open spec fn saturated_ms(ms: u128) -> u64 {
    if ms <= u64::MAX {
        ms as u64
    } else {
        u64::MAX
    }
}

/// Converts a count of milliseconds to `u64`, saturating at `u64::MAX`.
pub fn saturating_ms(ms: u128) -> (r: u64)
    ensures
        r == saturated_ms(ms),
{
    match u64::try_from(ms) {
        Ok(v) => v,
        Err(_) => u64::MAX,
    }
}

/// The macOS side of sampling: a monotonic clock started with the monitor.
/// Reading the idle time and the frontmost application needs the system's
/// frameworks and is done by the program around this library.
pub struct MacOsMonitor {
    start: Instant,
}

/// The frontmost application: its localized name and its bundle identifier.
#[derive(Debug, Clone, PartialEq)]
pub struct MacOsAppInfo {
    pub name: String,
    pub bundle_id: String,
}

impl MacOsMonitor {
    /// A monitor whose clock starts now.
    pub fn new() -> Self {
        MacOsMonitor { start: instant_now() }
    }

    /// Milliseconds since the monitor was made, saturating at `u64::MAX`.
    /// What the clock reads is not stated; the conversion is
    /// [`saturating_ms`].
    pub fn mono_ms(&self) -> u64 {
        let elapsed = elapsed_since(&self.start);
        saturating_ms(whole_millis(&elapsed))
    }
}

impl MacOsAppInfo {
    /// The application's description, where the system gave both its name
    /// and its bundle identifier; `None` where either is missing.
    pub fn from_parts(name: Option<String>, bundle_id: Option<String>) -> (info: Option<Self>)
        ensures
            info is Some <==> name is Some && bundle_id is Some,
            info matches Some(i) ==> i.name == name->0 && i.bundle_id == bundle_id->0,
    {
        match (name, bundle_id) {
            (Some(name), Some(bundle_id)) => Some(MacOsAppInfo { name, bundle_id }),
            _ => None,
        }
    }
}

} // verus!
