//! A resettable deadline that cannot fail.

use vstd::prelude::*;
use std::time::{Duration, Instant};
use void::Void;
use crate::poll::{Future, PollResult};

verus! {

/// Relies on `futures::Future::poll` for `tokio::timer::Delay`: `Ok(true)` once
/// the deadline has passed, `Ok(false)` before (the current task is then woken
/// at the deadline), and the timer's error where no timer runs, it is shut
/// down or full, or the deadline lies beyond its range (about 2^36 ms ahead).
/// Like every poll it must run inside a `futures` task: outside one, a pending
/// entry panics when it registers the task to wake.
#[verifier::external_body]
fn poll_timer(d: &mut tokio::timer::Delay) -> (r: Result<bool, tokio::timer::Error>) {
    match futures::Future::poll(d) {
        Ok(futures::Async::Ready(())) => Ok(true),
        Ok(futures::Async::NotReady) => Ok(false),
        Err(e) => Err(e),
    }
}

/// The instant `duration` from now, or `None` where the clock cannot
/// represent it.
pub fn deadline_after(duration: Duration) -> Option<Instant> {
    Instant::now().checked_add(duration)
}

/// A future that resolves to `()` once its deadline has passed, and never
/// before. Its deadline can be moved without making a new timer entry. It
/// cannot fail: a deadline that the timer cannot wait for (no timer runs, it
/// is shut down or full, or the deadline lies beyond its range) is treated as
/// never reached, as is one beyond what the clock can represent (`None`, as
/// `deadline_after` gives it).
pub struct Deadline {
    inner: Option<(Instant, tokio::timer::Delay)>,
}

impl Deadline {
    /// The instant the deadline was last set to; `None` for one that is never
    /// reached.
    pub closed spec fn target(&self) -> Option<Instant> {
        match self.inner {
            Some((at, _)) => Some(at),
            None => None,
        }
    }

    /// The deadline is never reached.
    pub open spec fn is_never(&self) -> bool {
        self.target() is None
    }

    pub fn new(at: Instant) -> (r: Deadline)
        ensures
            r.target() == Some(at),
    {
        Deadline { inner: Some((at, tokio::timer::Delay::new(at))) }
    }

    /// A deadline at `target`, or one never reached where that is `None`.
    pub fn from_target(target: Option<Instant>) -> (r: Deadline)
        ensures
            r.target() == target,
    {
        match target {
            Some(at) => Deadline::new(at),
            None => Deadline { inner: None },
        }
    }

    /// Moves the deadline to `at`.
    pub fn reset(&mut self, at: Instant)
        ensures
            final(self).target() == Some(at),
    {
        match &mut self.inner {
            Some((t, d)) => {
                *t = at;
                d.reset(at);
            },
            None => {
                self.inner = Some((at, tokio::timer::Delay::new(at)));
            },
        }
    }

    /// Moves the deadline to `target`, or makes it never reached where that is
    /// `None`.
    pub fn set_target(&mut self, target: Option<Instant>)
        ensures
            final(self).target() == target,
    {
        match target {
            Some(at) => self.reset(at),
            None => {
                self.inner = None;
            },
        }
    }
}

impl Future for Deadline {
    type Item = ();

    type Error = Void;

    /// `Ready(())` once the deadline has passed, `Pending` before, and
    /// `Pending` where the timer cannot wait for it.
    fn poll(&mut self) -> (r: PollResult<(), Void>)
        ensures
            !(r is Failed),
            old(self).is_never() ==> r is Pending,
            final(self).target() == old(self).target(),
    {
        match &mut self.inner {
            Some((_, d)) => match poll_timer(d) {
                Ok(true) => PollResult::Ready(()),
                Ok(false) => PollResult::Pending,
                Err(_) => PollResult::Pending,
            },
            None => PollResult::Pending,
        }
    }
}

} // verus!
