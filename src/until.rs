//! Runs a future or stream until a condition is met.

use vstd::prelude::*;
use vstd::std_specs::convert::FromSpec;
use crate::poll::{ends, Future, PollResult, Stream};

verus! {

/// Runs a future or stream until `condition` resolves. The condition is polled
/// first on every turn; once it has resolved the result is `None` (for a
/// future) or the end of the stream, and the wrapped computation is never
/// polled again.
pub struct Until<T, C> {
    orig: T,
    condition: C,
    stopped: bool,
}

/// What a failure of the condition becomes: its conversion into the error
/// type of the wrapped computation. (An `Until` may be polled only where that
/// conversion follows its specification, `obeys_from_spec`.)
pub open spec fn converted<E, CE>(x: E, e: CE) -> bool
    where
        E: From<CE>,
{
    x == <E as FromSpec<CE>>::from_spec(e)
}

/// Turns a poll of a wrapped future into the answer of an `Until` or a
/// `WithTimeout`: its value put in `Some`.
pub fn lift_some<T, E>(ro: PollResult<T, E>) -> (r: PollResult<Option<T>, E>)
    ensures
        r == in_some(ro),
{
    match ro {
        PollResult::Ready(x) => PollResult::Ready(Some(x)),
        PollResult::Pending => PollResult::Pending,
        PollResult::Failed(e) => PollResult::Failed(e),
    }
}

/// A poll of a wrapped future, its value put in `Some`.
pub open spec fn in_some<T, E>(ro: PollResult<T, E>) -> PollResult<Option<T>, E> {
    match ro {
        PollResult::Ready(x) => PollResult::Ready(Some(x)),
        PollResult::Pending => PollResult::Pending,
        PollResult::Failed(e) => PollResult::Failed(e),
    }
}

/// `r` is what one poll of an `Until` over a future answers when the condition
/// answered `rc` and the wrapped future, if it was polled, answered `ro`.
pub open spec fn until_answer<T, E, CE>(
    rc: PollResult<(), CE>,
    ro: PollResult<T, E>,
    r: PollResult<Option<T>, E>,
) -> bool
    where
        E: From<CE>,
{
    match rc {
        PollResult::Ready(_) => r == PollResult::<Option<T>, E>::Ready(None),
        PollResult::Failed(e) => r is Failed && converted(r->Failed_0, e),
        PollResult::Pending => r == in_some(ro),
    }
}

/// `r` is what one poll of an `Until` over a stream answers when the condition
/// answered `rc` and the wrapped stream, if it was polled, answered `ro`.
pub open spec fn until_stream_answer<T, E, CE>(
    rc: PollResult<(), CE>,
    ro: PollResult<Option<T>, E>,
    r: PollResult<Option<T>, E>,
) -> bool
    where
        E: From<CE>,
{
    match rc {
        PollResult::Ready(_) => ends(r),
        PollResult::Failed(e) => r is Failed && converted(r->Failed_0, e),
        PollResult::Pending => r == ro,
    }
}

impl<T, C> Until<T, C> {
    /// The wrapped future or stream.
    pub closed spec fn orig(&self) -> T {
        self.orig
    }

    /// The condition.
    pub closed spec fn condition(&self) -> C {
        self.condition
    }

    /// The condition has finished, so the wrapped computation is done with.
    pub closed spec fn stopped(&self) -> bool {
        self.stopped
    }

    pub fn new(orig: T, condition: C) -> (r: Until<T, C>)
        ensures
            r.orig() == orig,
            r.condition() == condition,
            !r.stopped(),
    {
        Until { orig, condition, stopped: false }
    }

    /// Takes the condition's answer. If it resolved, the answer is the
    /// cancellation (`Ready(None)`: `None` for a future, the end for a
    /// stream); if it failed, its error converted; both stop the `Until`.
    /// While it is pending, `None`: the wrapped computation is to be polled.
    /// The wrapped computation is left alone either way.
    pub fn on_condition<I, E, CE>(&mut self, rc: PollResult<(), CE>) -> (r: Option<PollResult<Option<I>, E>>)
        where
            E: From<CE>,
        requires
            <E as FromSpec<CE>>::obeys_from_spec(),
        ensures
            final(self).orig() == old(self).orig(),
            final(self).condition() == old(self).condition(),
            match rc {
                PollResult::Ready(_) => r == Some(PollResult::<Option<I>, E>::Ready(None)) && final(self).stopped(),
                PollResult::Failed(e) => r matches Some(PollResult::Failed(x)) && converted(x, e) && final(self).stopped(),
                PollResult::Pending => r is None && final(self).stopped() == old(self).stopped(),
            },
    {
        match rc {
            PollResult::Ready(()) => {
                self.stopped = true;
                Some(PollResult::Ready(None))
            },
            PollResult::Failed(e) => {
                self.stopped = true;
                Some(PollResult::Failed(E::from(e)))
            },
            PollResult::Pending => None,
        }
    }

    /// Takes the answer of a wrapped future: its value comes in `Some`, and a
    /// finished future stops the `Until`.
    pub fn on_answer<I, E>(&mut self, ro: PollResult<I, E>) -> (r: PollResult<Option<I>, E>)
        ensures
            r == in_some(ro),
            final(self).stopped() == (old(self).stopped() || !(ro is Pending)),
            final(self).orig() == old(self).orig(),
            final(self).condition() == old(self).condition(),
    {
        match &ro {
            PollResult::Pending => {},
            _ => {
                self.stopped = true;
            },
        }
        lift_some(ro)
    }

    /// Takes the answer of a wrapped stream and passes it on; its end stops
    /// the `Until`.
    pub fn on_stream_answer<I, E>(&mut self, ro: PollResult<Option<I>, E>) -> (r: PollResult<Option<I>, E>)
        ensures
            r == ro,
            final(self).stopped() == (old(self).stopped() || ends(ro)),
            final(self).orig() == old(self).orig(),
            final(self).condition() == old(self).condition(),
    {
        if let PollResult::Ready(None) = &ro {
            self.stopped = true;
        }
        ro
    }
}

impl<T, C> Future for Until<T, C> where
    T: Future,
    C: Future<Item = ()>,
    T::Error: From<C::Error>,
 {
    type Item = Option<T::Item>;

    type Error = T::Error;

    open spec fn is_live(&self) -> bool {
        &&& !self.stopped()
        &&& self.orig().is_live()
        &&& self.condition().is_live()
        &&& <T::Error as FromSpec<C::Error>>::obeys_from_spec()
    }

    /// Polls the condition and hands its answer to `on_condition`; unless that
    /// decides, polls the wrapped future and hands its answer to `on_answer`.
    fn poll(&mut self) -> (r: PollResult<Option<T::Item>, T::Error>)
        ensures
            exists|rc: PollResult<(), C::Error>, ro: PollResult<T::Item, T::Error>|
                #[trigger] until_answer(rc, ro, r) && (!(rc is Pending) ==> final(self).orig()
                    == old(self).orig()),
            final(self).stopped() == !(r is Pending),
    {
        let rc = self.condition.poll();
        let ghost gc = rc;
        match self.on_condition(rc) {
            Some(r) => {
                assert(until_answer(gc, PollResult::<T::Item, T::Error>::Pending, r));
                return r;
            },
            None => {},
        }
        let ro = self.orig.poll();
        let ghost go = ro;
        let r = self.on_answer(ro);
        assert(until_answer(gc, go, r));
        r
    }
}

impl<T, C> Stream for Until<T, C> where
    T: Stream,
    C: Future<Item = ()>,
    T::Error: From<C::Error>,
 {
    type Item = T::Item;

    type Error = T::Error;

    open spec fn is_open(&self) -> bool {
        !self.stopped() ==> {
            &&& self.orig().is_open()
            &&& self.condition().is_live()
            &&& <T::Error as FromSpec<C::Error>>::obeys_from_spec()
        }
    }

    open spec fn continues_after_error(&self) -> bool {
        self.orig().continues_after_error()
    }

    /// Once stopped, ends again without polling anything. Otherwise polls the
    /// condition and hands its answer to `on_condition`; unless that decides,
    /// polls the wrapped stream and hands its answer to `on_stream_answer`.
    fn poll_next(&mut self) -> (r: PollResult<Option<T::Item>, T::Error>)
        ensures
            old(self).stopped() ==> ends(r) && *final(self) == *old(self),
            !old(self).stopped() ==> exists|
                rc: PollResult<(), C::Error>,
                ro: PollResult<Option<T::Item>, T::Error>,
            |
                #[trigger] until_stream_answer(rc, ro, r) && (!(rc is Pending)
                    ==> final(self).orig() == old(self).orig() && final(self).stopped()),
    {
        if self.stopped {
            return PollResult::Ready(None);
        }
        let rc = self.condition.poll();
        let ghost gc = rc;
        match self.on_condition(rc) {
            Some(r) => {
                assert(until_stream_answer(gc, PollResult::<Option<T::Item>, T::Error>::Pending, r));
                return r;
            },
            None => {},
        }
        let ro = self.orig.poll_next();
        let ghost go = ro;
        let r = self.on_stream_answer(ro);
        assert(until_stream_answer(gc, go, r));
        r
    }
}

} // verus!

verus! {

/// Once the condition resolves, the answer is the cancellation (`None` for a
/// future, the end for a stream), whatever the wrapped computation would
/// have answered: it is not consulted.
pub proof fn lemma_until_cancels<T, E, CE>(
    ro: PollResult<T, E>,
    rs: PollResult<Option<T>, E>,
    r: PollResult<Option<T>, E>,
)
    where
        E: From<CE>,
    ensures
        until_answer(PollResult::<(), CE>::Ready(()), ro, r) <==> r == PollResult::<Option<T>, E>::Ready(None),
        until_stream_answer(PollResult::<(), CE>::Ready(()), rs, r) <==> ends(r),
{
}

} // verus!
