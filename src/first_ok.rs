//! Turns a stream of attempts into a future of the first success.

use vstd::prelude::*;
use crate::poll::{Future, PollResult, Stream};

verus! {

/// What one poll of a `FirstOk` does when `acc` are the errors gathered
/// before it, the stream yields the errors `fresh` and then answers `last`
/// (an item, the end, or `Pending`). The result, with the errors as a
/// sequence, and the errors gathered afterwards are returned.
pub open spec fn first_ok_turn<T, E>(acc: Seq<E>, fresh: Seq<E>, last: PollResult<Option<T>, E>) -> (
    PollResult<T, Seq<E>>,
    Seq<E>,
) {
    match last {
        PollResult::Ready(Some(v)) => (PollResult::Ready(v), Seq::empty()),
        PollResult::Ready(None) => (PollResult::Failed(acc + fresh), Seq::empty()),
        PollResult::Pending => (PollResult::Pending, acc + fresh),
        PollResult::Failed(e) => (PollResult::Pending, acc + fresh.push(e)),
    }
}

/// The result of a `FirstOk` poll with the error vector seen as a sequence.
pub open spec fn first_ok_view<T, E>(r: PollResult<T, Vec<E>>) -> PollResult<T, Seq<E>> {
    match r {
        PollResult::Pending => PollResult::Pending,
        PollResult::Ready(v) => PollResult::Ready(v),
        PollResult::Failed(es) => PollResult::Failed(es@),
    }
}

/// Takes items from a stream of attempts, where each error is a failed
/// attempt and each item a successful one. Resolves to the first item; if the
/// stream ends first, fails with all the errors it yielded, in order.
pub struct FirstOk<S: Stream> {
    stream: S,
    errors: Vec<S::Error>,
}

impl<S: Stream> FirstOk<S> {
    /// The failed attempts gathered so far.
    pub closed spec fn errors(&self) -> Seq<S::Error> {
        self.errors@
    }

    /// The stream of attempts.
    pub closed spec fn stream(&self) -> S {
        self.stream
    }

    pub fn new(stream: S) -> (r: FirstOk<S>)
        ensures
            r.stream() == stream,
            r.errors() == Seq::<S::Error>::empty(),
    {
        FirstOk { stream, errors: Vec::new() }
    }
}

impl<S: Stream> Future for FirstOk<S> {
    type Item = S::Item;

    type Error = Vec<S::Error>;

    open spec fn is_live(&self) -> bool {
        self.stream().is_open() && self.stream().continues_after_error()
    }

    /// Polls the stream until it yields an item, ends, or is pending, as
    /// `first_ok_turn` says.
    fn poll(&mut self) -> (r: PollResult<S::Item, Vec<S::Error>>)
        ensures
            exists|fresh: Seq<S::Error>, last: PollResult<Option<S::Item>, S::Error>|
                !(last is Failed) && #[trigger] first_ok_turn(old(self).errors(), fresh, last) == (
                    first_ok_view(r),
                    final(self).errors(),
                ),
    {
        let ghost acc = self.errors@;
        let ghost mut fresh = Seq::<S::Error>::empty();
        loop
            invariant
                self.stream.is_open(),
                self.stream.continues_after_error(),
                acc == old(self).errors(),
                self.errors@ == acc + fresh,
            decreases usize::MAX - self.errors@.len(),
        {
            let ra = self.stream.poll_next();
            let ghost last = ra;
            match self.on_answer(ra) {
                Some(r) => {
                    assert(first_ok_turn(acc, fresh, last) == (first_ok_view(r), self.errors@));
                    return r;
                },
                None => {
                    // A vector's length fits in `usize`: this bounds the loop.
                    let _gathered = self.errors.len();
                    proof {
                        fresh = fresh.push(last->Failed_0);
                        assert(self.errors@ =~= acc + fresh);
                    }
                },
            }
        }
    }
}

impl<S: Stream> FirstOk<S> {
    /// Takes one answer of the stream. An error is gathered and the stream is
    /// to be polled again (`None`); anything else decides the result, as
    /// `first_ok_turn` says: an item is the result and the errors are dropped,
    /// the end fails with every error gathered, in order, and `Pending` keeps
    /// them.
    pub fn on_answer(&mut self, a: PollResult<Option<S::Item>, S::Error>) -> (r: Option<
        PollResult<S::Item, Vec<S::Error>>,
    >)
        ensures
            final(self).stream() == old(self).stream(),
            match a {
                PollResult::Failed(e) => r is None && final(self).errors() == old(self).errors().push(e),
                _ => r matches Some(x) && (first_ok_view(x), final(self).errors()) == first_ok_turn(
                    old(self).errors(),
                    Seq::empty(),
                    a,
                ),
            },
    {
        match a {
            PollResult::Ready(Some(v)) => {
                self.errors.clear();
                Some(PollResult::Ready(v))
            },
            PollResult::Ready(None) => {
                let mut errors = Vec::new();
                std::mem::swap(&mut self.errors, &mut errors);
                assert(errors@ =~= old(self).errors@ + Seq::<S::Error>::empty());
                Some(PollResult::Failed(errors))
            },
            PollResult::Pending => {
                assert(self.errors@ + Seq::<S::Error>::empty() =~= self.errors@);
                Some(PollResult::Pending)
            },
            PollResult::Failed(e) => {
                self.errors.push(e);
                None
            },
        }
    }
}

} // verus!

verus! {

/// The errors a `FirstOk` has gathered after polls that each saw the stream
/// yield the errors of one entry of `turns` and then answer `Pending`.
pub open spec fn gathered_after<T, E>(turns: Seq<Seq<E>>) -> Seq<E>
    decreases turns.len(),
{
    if turns.len() == 0 {
        Seq::empty()
    } else {
        first_ok_turn::<T, E>(
            gathered_after::<T, E>(turns.drop_last()),
            turns.last(),
            PollResult::Pending,
        ).1
    }
}

/// Over any run of polls, a `FirstOk` keeps every failed attempt in order. If
/// an attempt then succeeds, the result is its value and the failures are
/// dropped; if the stream ends instead, the result is the complete ordered
/// list of failures.
pub proof fn lemma_first_ok_outcome<T, E>(turns: Seq<Seq<E>>, fresh: Seq<E>, v: T)
    ensures
        gathered_after::<T, E>(turns) == turns.flatten(),
        first_ok_turn(gathered_after::<T, E>(turns), fresh, PollResult::<Option<T>, E>::Ready(Some(v)))
            == (PollResult::<T, Seq<E>>::Ready(v), Seq::<E>::empty()),
        first_ok_turn(gathered_after::<T, E>(turns), fresh, PollResult::<Option<T>, E>::Ready(None))
            == (PollResult::<T, Seq<E>>::Failed(turns.flatten() + fresh), Seq::<E>::empty()),
    decreases turns.len(),
{
    if turns.len() > 0 {
        lemma_first_ok_outcome::<T, E>(turns.drop_last(), fresh, v);
        turns.drop_last().lemma_flatten_push(turns.last());
        assert(turns.drop_last().push(turns.last()) =~= turns);
    } else {
        assert(turns.flatten() =~= Seq::<E>::empty());
    }
}

} // verus!
