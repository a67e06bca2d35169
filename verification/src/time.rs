//! Points in time, counted in whole seconds since the Unix epoch.
//!
//! The governance rules only ever shift an [`Instant`] by whole minutes and
//! compare two of them. The shift is `scrypto`'s `Instant::add_minutes`.

use vstd::prelude::*;

verus! {

/// Whether a number of seconds fits the 64-bit signed counter.
pub open spec fn fits_seconds(seconds: int) -> bool {
    i64::MIN <= seconds <= i64::MAX
}

/// Whether an instant `seconds` after the epoch can be moved by `minutes`
/// without leaving the counter's range, neither in the distance nor in the sum.
pub open spec fn shift_defined(seconds: int, minutes: int) -> bool {
    fits_seconds(minutes * 60) && fits_seconds(seconds + minutes * 60)
}

/// The instant `minutes` after `seconds`, as a number of seconds.
pub open spec fn shifted(seconds: int, minutes: int) -> int {
    seconds + minutes * 60
}

/// A Unix timestamp with a resolution of one second.
#[derive(Clone, Copy, Debug, PartialEq, Eq, Structural)]
pub struct Instant {
    pub seconds_since_unix_epoch: i64,
}

impl View for Instant {
    type V = int;

    /// Seconds since the Unix epoch.
    open spec fn view(&self) -> int {
        self.seconds_since_unix_epoch as int
    }
}

impl Instant {
    /// The instant the given number of seconds after the Unix epoch.
    pub fn new(seconds_since_unix_epoch: i64) -> (r: Instant)
        ensures
            r@ == seconds_since_unix_epoch,
    {
        Instant { seconds_since_unix_epoch }
    }

    /// This instant moved by a number of minutes (backwards if negative), or
    /// `None` where the result would leave the counter's range.
    pub fn add_minutes(self, minutes_to_add: i64) -> (r: Option<Instant>)
        ensures
            r is Some <==> shift_defined(self@, minutes_to_add as int),
            r matches Some(t) ==> t@ == shifted(self@, minutes_to_add as int),
    {
        scrypto_add_minutes(self, minutes_to_add)
    }

    /// Whether this instant is `other` or later.
    pub fn is_at_or_after(self, other: Instant) -> (r: bool)
        ensures
            r == (self@ >= other@),
    {
        self.seconds_since_unix_epoch >= other.seconds_since_unix_epoch
    }

    /// Whether this instant is strictly later than `other`.
    pub fn is_after(self, other: Instant) -> (r: bool)
        ensures
            r == (self@ > other@),
    {
        self.seconds_since_unix_epoch > other.seconds_since_unix_epoch
    }
}

/// `scrypto`'s `Instant::add_minutes`. The contract claims that it multiplies
/// the minutes by sixty and adds the seconds, both with overflow checks on
/// 64-bit signed integers, and returns `None` where either check fails.
#[verifier::external_body]
fn scrypto_add_minutes(t: Instant, minutes_to_add: i64) -> (r: Option<Instant>)
    ensures
        r is Some <==> shift_defined(t@, minutes_to_add as int),
        r matches Some(moved) ==> moved@ == shifted(t@, minutes_to_add as int),
{
    match scrypto::time::Instant::new(t.seconds_since_unix_epoch).add_minutes(minutes_to_add) {
        Some(moved) => Some(Instant { seconds_since_unix_epoch: moved.seconds_since_unix_epoch }),
        None => None,
    }
}

} // verus!
