//! Gives a computation that cannot fail whatever error type a caller needs.

use vstd::prelude::*;
use std::marker::PhantomData;
use void::Void;
use crate::poll::{Future, PollResult, Stream};

verus! {

/// Relies on `void::unreachable`: `Void` has no values, so this is never
/// called.
#[verifier::external_body]
fn absurd<E>(v: Void) -> E {
    void::unreachable(v)
}

/// `r` is what the wrapped answer `ri` becomes: pending stays pending and a
/// value passes through. (A wrapped failure cannot occur: `Void` has no values.)
pub open spec fn relabels<T, E>(ri: PollResult<T, Void>, r: PollResult<T, E>) -> bool {
    match ri {
        PollResult::Pending => r is Pending,
        PollResult::Ready(x) => r == PollResult::<T, E>::Ready(x),
        PollResult::Failed(_) => r is Failed,
    }
}

/// Gives the answer of a computation that cannot fail the error type `E`:
/// pending stays pending and a value passes through.
pub fn relabel<T, E>(ri: PollResult<T, Void>) -> (r: PollResult<T, E>)
    ensures
        relabels(ri, r),
{
    match ri {
        PollResult::Ready(x) => PollResult::Ready(x),
        PollResult::Pending => PollResult::Pending,
        PollResult::Failed(v) => PollResult::Failed(absurd(v)),
    }
}

/// Wraps a future or stream whose error type is `Void` and gives it the error
/// type `E`. Values, pending answers and the end of a stream pass through.
pub struct Infallible<F, E> {
    inner: F,
    _ph: PhantomData<E>,
}

impl<F, E> Infallible<F, E> {
    /// The wrapped future or stream.
    pub closed spec fn inner(&self) -> F {
        self.inner
    }

    pub fn new(inner: F) -> (r: Infallible<F, E>)
        ensures
            r.inner() == inner,
    {
        Infallible { inner, _ph: PhantomData }
    }
}

impl<F: Future<Error = Void>, E> Future for Infallible<F, E> {
    type Item = F::Item;

    type Error = E;

    open spec fn is_live(&self) -> bool {
        self.inner().is_live()
    }

    /// Polls the wrapped future and hands its answer to `relabel`.
    fn poll(&mut self) -> PollResult<F::Item, E> {
        let ri = self.inner.poll();
        relabel(ri)
    }
}

impl<F: Stream<Error = Void>, E> Stream for Infallible<F, E> {
    type Item = F::Item;

    type Error = E;

    open spec fn is_open(&self) -> bool {
        self.inner().is_open()
    }

    open spec fn continues_after_error(&self) -> bool {
        self.inner().continues_after_error()
    }

    /// Polls the wrapped stream and hands its answer to `relabel`.
    fn poll_next(&mut self) -> PollResult<Option<F::Item>, E> {
        let ri = self.inner.poll_next();
        relabel(ri)
    }
}

} // verus!
