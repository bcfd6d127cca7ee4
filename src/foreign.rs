//! Types of other crates that values of this crate carry.

use vstd::prelude::*;

verus! {

/// `void::Void`, the type without values: the error type of a computation
/// that cannot fail.
#[verifier::external_type_specification]
#[verifier::external_body]
pub struct ExVoid(void::Void);

/// `log::Level`, the severity with which a swallowed error is reported.
#[verifier::external_type_specification]
#[verifier::external_body]
pub struct ExLevel(log::Level);

} // verus!

verus! {

/// `std::time::Instant`, a point in time on the monotonic clock.
#[verifier::external_type_specification]
#[verifier::external_body]
pub struct ExInstant(std::time::Instant);

/// `tokio::timer::Delay`, the timer entry behind `Delay`.
#[verifier::external_type_specification]
#[verifier::external_body]
pub struct ExTimerDelay(tokio::timer::Delay);

/// `tokio::timer::Error`, the error of a timer that is shut down or full.
#[verifier::external_type_specification]
#[verifier::external_body]
pub struct ExTimerError(tokio::timer::Error);

/// Relies on `Instant::now`: it reads the clock, so nothing is promised of the
/// instant.
pub assume_specification[ std::time::Instant::now ]() -> std::time::Instant;

/// Relies on `Instant::checked_add`: `None` where the sum cannot be
/// represented, which depends on the platform's clock.
pub assume_specification[ std::time::Instant::checked_add ](
    i: &std::time::Instant,
    d: std::time::Duration,
) -> Option<std::time::Instant>;

/// Relies on `tokio::timer::Delay::new`: it makes a timer entry for a
/// deadline.
pub assume_specification[ tokio::timer::Delay::new ](deadline: std::time::Instant) -> tokio::timer::Delay;

/// Relies on `tokio::timer::Delay::reset`: it moves the deadline of an entry.
pub assume_specification[ tokio::timer::Delay::reset ](
    d: &mut tokio::timer::Delay,
    deadline: std::time::Instant,
);

} // verus!
