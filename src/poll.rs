//! The poll contract that every future and stream of this crate follows.
//!
//! A future is advanced by `poll`, which answers `Pending` (not finished; the
//! implementation arranges to be woken), `Ready` (finished with a value) or
//! `Failed` (finished with an error). Once a future has finished it must not be
//! polled again: `is_live` says whether it may still be polled, and `poll`
//! requires it.
//!
//! A stream is advanced by `poll_next`. It yields items (`Ready(Some(..))`),
//! errors (`Failed(..)`), and ends with `Ready(None)`, after which it must not
//! be polled again. Whether an error ends it too is the stream's own choice,
//! which `continues_after_error` states.

use vstd::prelude::*;

verus! {

/// The outcome of one poll.
pub enum PollResult<T, E> {
    /// Not finished yet; the caller is woken when it is worth polling again.
    Pending,
    /// Finished with a value.
    Ready(T),
    /// Finished with an error.
    Failed(E),
}

/// A computation that produces one value or one error.
pub trait Future {
    type Item;

    type Error;

    /// The future has not finished: it may be polled.
    open spec fn is_live(&self) -> bool {
        true
    }

    /// Advances the future. A future that answers `Pending` may be polled again.
    fn poll(&mut self) -> (r: PollResult<Self::Item, Self::Error>)
        requires
            old(self).is_live(),
        ensures
            r is Pending ==> final(self).is_live(),
    ;
}

/// A computation that produces a sequence of items and errors.
pub trait Stream {
    type Item;

    type Error;

    /// The stream has not ended: it may be polled.
    open spec fn is_open(&self) -> bool {
        true
    }

    /// An error does not end the stream: after yielding one it may still be
    /// polled.
    open spec fn continues_after_error(&self) -> bool {
        true
    }

    /// Advances the stream. A stream that answers `Pending` or an item may be
    /// polled again; so may one that yields an error, if it continues after
    /// errors. Whether it does stays the same until it ends.
    fn poll_next(&mut self) -> (r: PollResult<Option<Self::Item>, Self::Error>)
        requires
            old(self).is_open(),
        ensures
            r is Pending || (r is Ready && r->Ready_0 is Some) ==> final(self).is_open(),
            r is Failed && old(self).continues_after_error() ==> final(self).is_open(),
            !ends(r) ==> final(self).continues_after_error() == old(self).continues_after_error(),
    ;
}

/// `r` is the end of a stream.
pub open spec fn ends<T, E>(r: PollResult<Option<T>, E>) -> bool {
    r is Ready && r->Ready_0 is None
}

} // verus!
