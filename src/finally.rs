//! Releases a guard when a future or stream finishes.

use vstd::prelude::*;
use crate::poll::{ends, Future, PollResult, Stream};

verus! {

struct Guarded<F, D> {
    future: F,
    guard: D,
}

/// Wraps a future or stream together with a guard `D`, and drops the guard as
/// soon as the wrapped computation finishes (a stream finishes when it ends or
/// fails), or with the `Finally` if that is dropped first. So a guard that
/// runs a callback when dropped runs it exactly once. Answers pass through
/// unchanged.
pub struct Finally<F, D> {
    inner: Option<Guarded<F, D>>,
}

impl<F, D> Finally<F, D> {
    /// The guard, while it is still held.
    pub closed spec fn guard(&self) -> Option<D> {
        match self.inner {
            Some(g) => Some(g.guard),
            None => None,
        }
    }

    /// The wrapped future or stream, while it has not finished.
    pub closed spec fn future(&self) -> Option<F> {
        match self.inner {
            Some(g) => Some(g.future),
            None => None,
        }
    }

    pub fn new(future: F, on_drop: D) -> (r: Finally<F, D>)
        ensures
            r.future() == Some(future),
            r.guard() == Some(on_drop),
    {
        Finally { inner: Some(Guarded { future, guard: on_drop }) }
    }
}

impl<F, D> Finally<F, D> {
    /// Takes the wrapped future's answer and passes it on unchanged; a
    /// finished future is dropped together with the guard, a pending one is
    /// kept with it.
    pub fn on_answer<T, E>(&mut self, r: PollResult<T, E>) -> (out: PollResult<T, E>)
        requires
            old(self).future() is Some,
        ensures
            out == r,
            r is Pending ==> *final(self) == *old(self),
            !(r is Pending) ==> final(self).guard() is None && final(self).future() is None,
    {
        if let PollResult::Pending = &r {
        } else {
            self.inner = None;
        }
        r
    }

    /// Takes the wrapped stream's answer and passes it on unchanged. An error
    /// or the end finishes the stream: it is dropped together with the guard.
    /// Otherwise both are kept.
    pub fn on_stream_answer<T, E>(&mut self, r: PollResult<Option<T>, E>) -> (out: PollResult<
        Option<T>,
        E,
    >)
        requires
            old(self).future() is Some,
        ensures
            out == r,
            !(ends(r) || r is Failed) ==> *final(self) == *old(self),
            ends(r) || r is Failed ==> final(self).guard() is None && final(self).future() is None,
    {
        match &r {
            PollResult::Ready(None) | PollResult::Failed(_) => {
                self.inner = None;
            },
            _ => {},
        }
        r
    }
}

impl<F: Future, D> Future for Finally<F, D> {
    type Item = F::Item;

    type Error = F::Error;

    open spec fn is_live(&self) -> bool {
        match self.future() {
            Some(f) => f.is_live(),
            None => false,
        }
    }

    /// Polls the wrapped future and hands its answer to `on_answer`.
    fn poll(&mut self) -> (r: PollResult<F::Item, F::Error>)
        ensures
            r is Pending ==> final(self).guard() == old(self).guard(),
            !(r is Pending) ==> final(self).guard() is None && final(self).future() is None,
    {
        let r = match &mut self.inner {
            Some(g) => g.future.poll(),
            None => vstd::pervasive::unreached(),
        };
        self.on_answer(r)
    }
}

impl<S: Stream, D> Stream for Finally<S, D> {
    type Item = S::Item;

    type Error = S::Error;

    open spec fn is_open(&self) -> bool {
        match self.future() {
            Some(s) => s.is_open(),
            None => false,
        }
    }

    /// An error finishes a `Finally`, whatever the wrapped stream would do.
    open spec fn continues_after_error(&self) -> bool {
        false
    }

    /// Polls the wrapped stream and hands its answer to `on_stream_answer`.
    fn poll_next(&mut self) -> (r: PollResult<Option<S::Item>, S::Error>)
        ensures
            !(ends(r) || r is Failed) ==> final(self).guard() == old(self).guard(),
            ends(r) || r is Failed ==> final(self).guard() is None && final(self).future()
                is None,
    {
        let r = match &mut self.inner {
            Some(g) => g.future.poll_next(),
            None => vstd::pervasive::unreached(),
        };
        self.on_stream_answer(r)
    }
}

} // verus!
