//! A stopwatch for the steps of a router test.

use vstd::prelude::*;
use std::time::{Duration, Instant};
use crate::decimal::{decimal_text, push_decimal};

verus! {

#[verifier::external_type_specification]
#[verifier::external_body]
pub struct ExInstant(Instant);

/// Calls `std::time::Instant::now`. The time read is not stated.
#[verifier::external_body]
fn instant_now() -> (now: Instant) {
    Instant::now()
}

/// Calls `std::time::Instant::duration_since` (`later - earlier`, zero when
/// `earlier` is the later one). The duration is not stated: instants are
/// readings of the clock.
#[verifier::external_body]
fn duration_between(later: Instant, earlier: Instant) -> (elapsed: Duration) {
    later.duration_since(earlier)
}

/// Calls `std::time::Duration::as_millis`. Nothing is stated of the result:
/// the duration is a reading of the clock that nothing here can hold.
#[verifier::external_body]
fn duration_millis(elapsed: &Duration) -> (millis: u128) {
    elapsed.as_millis()
}

/// The text of a duration of `millis` milliseconds, such as `250ms`.
pub open spec fn millis_text_spec(millis: nat) -> Seq<char> {
    decimal_text(millis) + "ms"@
}

/// The text of a duration of `millis` milliseconds, such as `250ms`.
pub fn millis_text(millis: u128) -> (r: String)
    ensures
        r@ == millis_text_spec(millis as nat),
{
    let mut text = String::new();
    push_decimal(&mut text, millis);
    text.append("ms");
    text
}

/// A stopwatch started when it was made.
pub struct Timer {
    began_at: Instant,
}

impl Timer {
    /// Starts a stopwatch now.
    pub fn new() -> Timer {
        Timer { began_at: instant_now() }
    }

    /// Stops the stopwatch: the time since it started.
    pub fn stop(self) -> Duration {
        let ended_at = instant_now();
        duration_between(ended_at, self.began_at)
    }

    /// Stops the stopwatch: the whole milliseconds since it started, as text
    /// such as `250ms`.
    pub fn ms(self) -> (r: String)
        ensures
            exists|millis: u128| r@ == millis_text_spec(millis as nat),
    {
        let interval = self.stop();
        let millis = duration_millis(&interval);
        millis_text(millis)
    }
}

} // verus!
