//! Takes one item from a stream and hands the stream back.

use vstd::prelude::*;
use crate::poll::{Future, PollResult, Stream};

verus! {

struct Inner<S, F> {
    stream: S,
    f: F,
}

/// Resolves to the next item of a stream together with the stream itself, so
/// that the caller can go on taking items. An error of the stream is passed
/// on; if the stream ends instead, the error that `f` makes is returned.
pub struct NextOrElse<S, F> {
    inner: Option<Inner<S, F>>,
}

impl<S, F> NextOrElse<S, F> {
    /// The stream, while no item has been taken.
    pub closed spec fn stream(&self) -> Option<S> {
        match self.inner {
            Some(i) => Some(i.stream),
            None => None,
        }
    }

    /// The function that makes the error for a stream that ends.
    pub closed spec fn on_end(&self) -> Option<F> {
        match self.inner {
            Some(i) => Some(i.f),
            None => None,
        }
    }

    pub fn new(stream: S, f: F) -> (r: NextOrElse<S, F>)
        ensures
            r.stream() == Some(stream),
            r.on_end() == Some(f),
    {
        NextOrElse { inner: Some(Inner { stream, f }) }
    }
}

impl<S: Stream, F: FnOnce() -> S::Error> Future for NextOrElse<S, F> {
    type Item = (S::Item, S);

    type Error = S::Error;

    open spec fn is_live(&self) -> bool {
        match (self.stream(), self.on_end()) {
            (Some(s), Some(f)) => s.is_open() && call_requires(f, ()),
            _ => false,
        }
    }

    /// Polls the stream once and hands its answer to `on_answer`.
    fn poll(&mut self) -> (r: PollResult<(S::Item, S), S::Error>)
        ensures
            r is Pending ==> final(self).on_end() == old(self).on_end(),
            !(r is Pending) ==> final(self).stream() is None,
            r matches PollResult::Ready((_, s)) ==> s.is_open(),
            exists|rs: PollResult<Option<S::Item>, S::Error>, s: S| #[trigger]
                next_or_else_answer(rs, old(self).on_end()->0, s, r),
    {
        let rs = match &mut self.inner {
            Some(i) => i.stream.poll_next(),
            None => vstd::pervasive::unreached(),
        };
        let ghost g = rs;
        let ghost s = self.stream()->0;
        let r = self.on_answer(rs);
        assert(next_or_else_answer(g, old(self).on_end()->0, s, r));
        r
    }
}

impl<S: Stream, F: FnOnce() -> S::Error> NextOrElse<S, F> {
    /// Takes the stream's answer: an item comes back with this very stream, an
    /// error is passed on, the end becomes the error that `f` makes, and
    /// while the stream is pending everything is kept.
    pub fn on_answer(&mut self, rs: PollResult<Option<S::Item>, S::Error>) -> (r: PollResult<
        (S::Item, S),
        S::Error,
    >)
        requires
            old(self).stream() is Some,
            old(self).on_end() matches Some(f) && call_requires(f, ()),
        ensures
            next_or_else_answer(rs, old(self).on_end()->0, old(self).stream()->0, r),
            r is Pending ==> *final(self) == *old(self),
            !(r is Pending) ==> final(self).stream() is None,
    {
        let mut inner = None;
        std::mem::swap(&mut self.inner, &mut inner);
        match inner {
            Some(i) => {
                let Inner { stream, f } = i;
                match rs {
                    PollResult::Failed(e) => PollResult::Failed(e),
                    PollResult::Pending => {
                        self.inner = Some(Inner { stream, f });
                        PollResult::Pending
                    },
                    PollResult::Ready(None) => PollResult::Failed(f()),
                    PollResult::Ready(Some(x)) => PollResult::Ready((x, stream)),
                }
            },
            None => vstd::pervasive::unreached(),
        }
    }
}

/// `r` is what a `NextOrElse` answers when its stream `s` answered `rs` and
/// `f` makes the error for an ended stream.
pub open spec fn next_or_else_answer<T, E, S, F: FnOnce() -> E>(
    rs: PollResult<Option<T>, E>,
    f: F,
    s: S,
    r: PollResult<(T, S), E>,
) -> bool {
    match rs {
        PollResult::Pending => r is Pending,
        PollResult::Failed(e) => r == PollResult::<(T, S), E>::Failed(e),
        PollResult::Ready(None) => r is Failed && call_ensures(f, (), r->Failed_0),
        PollResult::Ready(Some(x)) => r == PollResult::<(T, S), E>::Ready((x, s)),
    }
}

} // verus!
