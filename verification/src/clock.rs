//! Points in time on the clock of a client.
use tokio::time::Instant;
use vstd::prelude::*;

verus! {

/// The number of nanoseconds in a second.
pub const NANOS_PER_SEC: u128 = 1_000_000_000;

/// The largest number of nanoseconds that a [`std::time::Duration`] can hold.
pub const MAX_NANOS: u128 = 18_446_744_073_709_551_615_999_999_999;

/// A point in time, counted from the moment at which the client was made.
#[derive(Clone, Copy, Debug, PartialEq, Eq)]
pub struct Moment {
    /// The nanoseconds that lie between the two.
    pub nanos: u128,
}

impl Moment {
    /// The moment that lies a number of seconds later.
    pub open spec fn plus_secs(self, secs: u32) -> Moment {
        Moment { nanos: (self.nanos + secs * NANOS_PER_SEC) as u128 }
    }

    /// Returns the moment that lies `secs` seconds after this one.
    pub fn later(self, secs: u32) -> (moment: Moment)
        requires
            self.nanos + secs * NANOS_PER_SEC <= u128::MAX,
        ensures
            moment == self.plus_secs(secs),
            moment.nanos == self.nanos + secs * NANOS_PER_SEC,
    {
        Moment { nanos: self.nanos + (secs as u128) * NANOS_PER_SEC }
    }
}

/// The opaque type [`tokio::time::Instant`].
#[verifier::external_type_specification]
#[verifier::external_body]
pub struct ExInstant(Instant);

/// [`tokio::time::Instant::now`] reads the clock. Nothing is claimed of what
/// it returns, which depends on when it is called.
pub assume_specification[ Instant::now ]() -> Instant
;

/// Calls [`tokio::time::Instant::elapsed`] and turns the duration into a
/// number of nanoseconds.
///
/// How much time has passed depends on when this is called. What holds of
/// every duration is that its seconds fit into 64 bits.
#[verifier::external_body]
pub(crate) fn elapsed(origin: &Instant) -> (now: Moment)
    ensures
        now.nanos <= MAX_NANOS,
{
    Moment { nanos: origin.elapsed().as_nanos() }
}

/// Whether a moment is one that the clock of a client may show: one that
/// [`elapsed`] returns for the instant from which the client counts.
pub closed spec fn shows(origin: Instant, now: Moment) -> bool {
    call_ensures(elapsed, (&origin,), now)
}

/// What the clock shows is what [`elapsed`] returns, to the nanosecond.
pub(crate) proof fn shown_moment_has_elapsed(origin: Instant, now: Moment)
    ensures
        shows(origin, now) == call_ensures(elapsed, (&origin,), now),
        shows(origin, now) ==> now.nanos <= 18_446_744_073_709_551_615_999_999_999,
{
}

/// Returns what a clock shows.
fn look_at<C: Fn(&Instant) -> Moment>(clock: C, origin: &Instant) -> (now: Moment)
    requires
        call_requires(clock, (origin,)),
    ensures
        call_ensures(clock, (origin,), now),
{
    clock(origin)
}

/// Returns the present moment.
pub(crate) fn present(origin: &Instant) -> (now: Moment)
    ensures
        call_ensures(elapsed, (origin,), now),
        shows(*origin, now),
        now.nanos <= MAX_NANOS,
{
    look_at(elapsed, origin)
}

} // verus!
