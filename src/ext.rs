//! Extension traits that build the combinators of this crate by method call.

use vstd::prelude::*;
use std::time::{Duration, Instant};
use log::Level;
use crate::finally::Finally;
use crate::first_ok::FirstOk;
use crate::first_ok2::FirstOk2;
use crate::infallible::Infallible;
use crate::log_error::{LogError, LogErrors};
use crate::next_or_else::NextOrElse;
use crate::poll::{Future, Stream};
use crate::until::Until;
use crate::while_driving::WhileDriving;
use crate::with_timeout::{WithReadinessTimeout, WithTimeout};

verus! {

/// Combinators for every future.
pub trait FutureExt: Future + Sized {
    /// Runs this future until `condition` resolves; see `Until`.
    fn until<C>(self, condition: C) -> (r: Until<Self, C>)
        ensures
            r.orig() == self && r.condition() == condition && !r.stopped(),
    {
        Until::new(self, condition)
    }

    /// Gives a future that cannot fail the error type `E`; see `Infallible`.
    fn infallible<E>(self) -> (r: Infallible<Self, E>)
        ensures
            r.inner() == self,
    {
        Infallible::new(self)
    }

    /// Reports a failure to `log` and resolves to `()` instead; see `LogError`.
    fn log_error<L>(self, level: Level, description: &'static str, log: L) -> (r: LogError<Self, L>)
        ensures
            r.future() == self,
    {
        LogError::new(self, level, description, log)
    }

    /// Drops `on_drop` once this future finishes; see `Finally`.
    fn finally<D>(self, on_drop: D) -> (r: Finally<Self, D>)
        ensures
            r.future() == Some(self) && r.guard() == Some(on_drop),
    {
        Finally::new(self, on_drop)
    }

    /// Runs this future for `duration`, its value in `Some`; see `WithTimeout`.
    fn with_timeout(self, duration: Duration) -> (r: WithTimeout<Self>)
        ensures
            r.inner() == self,
    {
        WithTimeout::new(self, duration)
    }

    /// Runs this future until `instant`, its value in `Some`; see
    /// `WithTimeout`.
    fn with_timeout_at(self, instant: Instant) -> (r: WithTimeout<Self>)
        ensures
            r.inner() == self,
    {
        WithTimeout::new_at(self, instant)
    }

    /// Races this future against `other` for the first success; see
    /// `FirstOk2`.
    fn first_ok2<F: Future<Item = Self::Item>>(self, other: F) -> (r: FirstOk2<Self, F>)
        ensures
            r.phase() is BothRunning,
            r.holds_live() == (self.is_live() && other.is_live()),
    {
        FirstOk2::new(self, other)
    }

    /// Resolves this future while driving `other`; see `WhileDriving`.
    fn while_driving<F: Future>(self, other: F) -> (r: WhileDriving<Self, F>)
        ensures
            r.phase() is Driving,
            r.holds_live() == (self.is_live() && other.is_live()),
    {
        WhileDriving::new(self, other)
    }
}

impl<T: Future> FutureExt for T {

}

/// Combinators for every stream.
pub trait StreamExt: Stream + Sized {
    /// Runs this stream until `condition` resolves; see `Until`.
    fn until<C>(self, condition: C) -> (r: Until<Self, C>)
        ensures
            r.orig() == self && r.condition() == condition && !r.stopped(),
    {
        Until::new(self, condition)
    }

    /// Resolves to the first item, or to all errors if none comes; see
    /// `FirstOk`.
    fn first_ok(self) -> (r: FirstOk<Self>)
        ensures
            r.stream() == self && r.errors() == Seq::<Self::Error>::empty(),
    {
        FirstOk::new(self)
    }

    /// Reports each error to `log` and yields none; see `LogErrors`.
    fn log_errors<L>(self, level: Level, description: &'static str, log: L) -> (r: LogErrors<Self, L>)
        ensures
            r.stream() == self,
    {
        LogErrors::new(self, level, description, log)
    }

    /// Gives a stream that cannot fail the error type `E`; see `Infallible`.
    fn infallible<E>(self) -> (r: Infallible<Self, E>)
        ensures
            r.inner() == self,
    {
        Infallible::new(self)
    }

    /// Resolves to the next item and the rest of the stream, or to the error
    /// that `f` makes if the stream ends; see `NextOrElse`.
    fn next_or_else<F>(self, f: F) -> (r: NextOrElse<Self, F>)
        ensures
            r.stream() == Some(self) && r.on_end() == Some(f),
    {
        NextOrElse::new(self, f)
    }

    /// Drops `on_drop` once this stream ends; see `Finally`.
    fn finally<D>(self, on_drop: D) -> (r: Finally<Self, D>)
        ensures
            r.future() == Some(self) && r.guard() == Some(on_drop),
    {
        Finally::new(self, on_drop)
    }

    /// Runs this stream for `duration`; see `WithTimeout`.
    fn with_timeout(self, duration: Duration) -> (r: WithTimeout<Self>)
        ensures
            r.inner() == self,
    {
        WithTimeout::new(self, duration)
    }

    /// Runs this stream until `instant`; see `WithTimeout`.
    fn with_timeout_at(self, instant: Instant) -> (r: WithTimeout<Self>)
        ensures
            r.inner() == self,
    {
        WithTimeout::new_at(self, instant)
    }

    /// Ends this stream once it has been idle for `duration`; see
    /// `WithReadinessTimeout`.
    fn with_readiness_timeout(self, duration: Duration) -> (r: WithReadinessTimeout<Self>)
        ensures
            r.stream() == self,
    {
        WithReadinessTimeout::new(self, duration)
    }
}

impl<T: Stream> StreamExt for T {

}

} // verus!
