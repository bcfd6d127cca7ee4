//! Runs a future or stream until a deadline passes.

use vstd::prelude::*;
use std::time::{Duration, Instant};
use void::Void;
use crate::delay::{deadline_after, Deadline};
use crate::poll::{ends, Future, PollResult, Stream};
use crate::until::{in_some, lift_some};

verus! {

/// `r` is what one poll answers when the deadline answered `rd`: `expired`
/// once the deadline has passed, otherwise `wrapped`, the answer of the
/// wrapped computation as the combinator passes it on.
pub open spec fn timed_answer<R>(rd: PollResult<(), Void>, r: R, expired: R, wrapped: R) -> bool {
    match rd {
        PollResult::Ready(_) => r == expired,
        _ => r == wrapped,
    }
}

/// Takes the deadline's answer: once it has passed, the answer is the
/// expiry (`Ready(None)`: `None` for a future, the end for a stream);
/// before, `None`: the wrapped computation is to be polled.
pub fn on_deadline<I, E>(rd: PollResult<(), Void>) -> (r: Option<PollResult<Option<I>, E>>)
    ensures
        rd is Ready ==> r == Some(PollResult::<Option<I>, E>::Ready(None)),
        !(rd is Ready) ==> r is None,
{
    match rd {
        PollResult::Ready(()) => Some(PollResult::Ready(None)),
        _ => None,
    }
}

/// Runs a future or stream until a deadline. The deadline is checked first on
/// every turn; once it has passed, a future resolves to `None` and a stream
/// ends, and the wrapped computation is left alone. Until then a future's value
/// comes in `Some` and a stream's answers pass through.
pub struct WithTimeout<F> {
    inner: F,
    delay: Deadline,
}

impl<F> WithTimeout<F> {
    /// The wrapped future or stream.
    pub closed spec fn inner(&self) -> F {
        self.inner
    }

    /// The deadline.
    pub closed spec fn deadline(&self) -> Option<Instant> {
        self.delay.target()
    }

    /// Runs `inner` for `duration` from now (for ever, where the clock cannot
    /// represent that instant).
    pub fn new(inner: F, duration: Duration) -> (r: WithTimeout<F>)
        ensures
            r.inner() == inner,
    {
        WithTimeout { inner, delay: Deadline::from_target(deadline_after(duration)) }
    }

    /// Runs `inner` until `instant`.
    pub fn new_at(inner: F, instant: Instant) -> (r: WithTimeout<F>)
        ensures
            r.inner() == inner,
            r.deadline() == Some(instant),
    {
        WithTimeout { inner, delay: Deadline::new(instant) }
    }

    /// Unpacks the wrapped future or stream.
    pub fn into_inner(self) -> (r: F)
        ensures
            r == self.inner(),
    {
        self.inner
    }
}

impl<F: Future> Future for WithTimeout<F> {
    type Item = Option<F::Item>;

    type Error = F::Error;

    open spec fn is_live(&self) -> bool {
        self.inner().is_live()
    }

    /// Polls the deadline and hands its answer to `on_deadline`; unless that
    /// decides, polls the wrapped future and puts its value in `Some`
    /// (`lift_some`).
    fn poll(&mut self) -> (r: PollResult<Option<F::Item>, F::Error>)
        ensures
            exists|rd: PollResult<(), Void>, ri: PollResult<F::Item, F::Error>|
                #[trigger] timed_answer(rd, r, PollResult::Ready(None), in_some(ri)) && (rd is Ready
                    ==> final(self).inner() == old(self).inner()),
            final(self).deadline() == old(self).deadline(),
    {
        let rd = self.delay.poll();
        let ghost gd = rd;
        match on_deadline(rd) {
            Some(r) => {
                assert(timed_answer(gd, r, PollResult::Ready(None), in_some(PollResult::<F::Item, F::Error>::Pending)));
                return r;
            },
            None => {},
        }
        let ri = self.inner.poll();
        let ghost gi = ri;
        let r = lift_some(ri);
        assert(timed_answer(gd, r, PollResult::Ready(None), in_some(gi)));
        r
    }
}

impl<S: Stream> Stream for WithTimeout<S> {
    type Item = S::Item;

    type Error = S::Error;

    open spec fn is_open(&self) -> bool {
        self.inner().is_open()
    }

    open spec fn continues_after_error(&self) -> bool {
        self.inner().continues_after_error()
    }

    /// Polls the deadline and hands its answer to `on_deadline`; unless that
    /// decides, polls the wrapped stream and passes its answer on.
    fn poll_next(&mut self) -> (r: PollResult<Option<S::Item>, S::Error>)
        ensures
            exists|rd: PollResult<(), Void>, ri: PollResult<Option<S::Item>, S::Error>|
                #[trigger] timed_answer(rd, r, PollResult::Ready(None), ri) && (rd is Ready
                    ==> final(self).inner() == old(self).inner()),
            final(self).deadline() == old(self).deadline(),
    {
        let rd = self.delay.poll();
        let ghost gd = rd;
        match on_deadline(rd) {
            Some(r) => {
                assert(timed_answer(gd, r, PollResult::Ready(None), PollResult::<Option<S::Item>, S::Error>::Pending));
                return r;
            },
            None => {},
        }
        let r = self.inner.poll_next();
        assert(timed_answer(gd, r, PollResult::Ready(None), r));
        r
    }
}

/// What a `WithReadinessTimeout` answers when the stream answered `rs` and
/// the deadline, polled only while the stream is pending, answered `rd`.
pub open spec fn readiness_answer<T, E>(rs: PollResult<Option<T>, E>, rd: PollResult<(), Void>) -> PollResult<
    Option<T>,
    E,
> {
    match rs {
        PollResult::Pending => if rd is Ready {
            PollResult::Ready(None)
        } else {
            PollResult::Pending
        },
        _ => rs,
    }
}

/// Runs a stream until it has been idle for a while: the deadline is moved to
/// `duration` from now each time the stream yields an item, and the stream
/// ends once the deadline passes while it is pending. (An end for lack of
/// activity looks the same as the stream's own end.)
pub struct WithReadinessTimeout<S> {
    stream: S,
    duration: Duration,
    delay: Deadline,
}

impl<S> WithReadinessTimeout<S> {
    /// The wrapped stream.
    pub closed spec fn stream(&self) -> S {
        self.stream
    }

    /// The deadline.
    pub closed spec fn deadline(&self) -> Option<Instant> {
        self.delay.target()
    }

    pub fn new(stream: S, duration: Duration) -> (r: WithReadinessTimeout<S>)
        ensures
            r.stream() == stream,
    {
        WithReadinessTimeout { stream, duration, delay: Deadline::from_target(deadline_after(duration)) }
    }

    /// Takes the stream's answer. An item moves the deadline to `next` and,
    /// like an error or the end, is the answer; while the stream is pending,
    /// `None`: the deadline is to be polled.
    pub fn on_stream_answer<T, E>(&mut self, rs: PollResult<Option<T>, E>, next: Option<Instant>) -> (r:
        Option<PollResult<Option<T>, E>>)
        ensures
            final(self).stream() == old(self).stream(),
            rs is Pending ==> r is None && final(self).deadline() == old(self).deadline(),
            !(rs is Pending) ==> r == Some(rs),
            rs matches PollResult::Ready(Some(_)) ==> final(self).deadline() == next,
            !(rs matches PollResult::Ready(Some(_))) ==> final(self).deadline() == old(
                self,
            ).deadline(),
    {
        match rs {
            PollResult::Pending => None,
            PollResult::Ready(Some(item)) => {
                self.delay.set_target(next);
                Some(PollResult::Ready(Some(item)))
            },
            rs => Some(rs),
        }
    }

    /// Takes the deadline's answer while the stream is pending: once the
    /// deadline has passed the stream ends, before it is pending.
    pub fn on_deadline_answer<T, E>(rd: PollResult<(), Void>) -> (r: PollResult<Option<T>, E>)
        ensures
            r == readiness_answer(PollResult::<Option<T>, E>::Pending, rd),
    {
        match rd {
            PollResult::Ready(()) => PollResult::Ready(None),
            _ => PollResult::Pending,
        }
    }
}

impl<S: Stream> Stream for WithReadinessTimeout<S> {
    type Item = S::Item;

    type Error = S::Error;

    open spec fn is_open(&self) -> bool {
        self.stream().is_open()
    }

    open spec fn continues_after_error(&self) -> bool {
        self.stream().continues_after_error()
    }

    /// Polls the stream and hands its answer, with the instant `duration` from
    /// now, to `on_stream_answer`; while the stream is pending, polls the
    /// deadline and hands its answer to `on_deadline_answer`.
    fn poll_next(&mut self) -> (r: PollResult<Option<S::Item>, S::Error>)
        ensures
            !(r is Ready && r->Ready_0 is Some) ==> final(self).deadline() == old(self).deadline(),
    {
        let rs = self.stream.poll_next();
        let ghost gs = rs;
        let next = deadline_after(self.duration);
        match self.on_stream_answer(rs, next) {
            Some(r) => {
                assert(r == readiness_answer(gs, PollResult::<(), Void>::Pending));
                return r;
            },
            None => {},
        }
        let rd = self.delay.poll();
        let ghost gd = rd;
        let r = Self::on_deadline_answer(rd);
        assert(r == readiness_answer(gs, gd));
        r
    }
}

} // verus!
