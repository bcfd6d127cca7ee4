//! Swallows the errors of a future or stream after reporting them.

use vstd::prelude::*;
use log::Level;
use void::Void;
use crate::poll::{Future, PollResult, Stream};

verus! {

/// Where the errors that `LogError` and `LogErrors` swallow are reported,
/// with the level and the description that the combinator was made with.
pub trait ErrorLog<E> {
    fn log(&self, level: Level, description: &'static str, error: E);
}

/// `r` is what a wrapped answer `ri` becomes when its failure is swallowed:
/// a failure becomes `then`, anything else passes through.
pub open spec fn swallowed<T, E>(ri: PollResult<T, E>, then: PollResult<T, Void>) -> PollResult<T, Void> {
    match ri {
        PollResult::Pending => PollResult::Pending,
        PollResult::Ready(x) => PollResult::Ready(x),
        PollResult::Failed(_) => then,
    }
}

/// The reports made so far, `reported`, after an answer `ri`: a failure adds
/// one, with the level and the description.
pub open spec fn reported_after<T, E>(
    reported: Seq<(Level, &'static str, E)>,
    level: Level,
    description: &'static str,
    ri: PollResult<T, E>,
) -> Seq<(Level, &'static str, E)> {
    match ri {
        PollResult::Failed(e) => reported.push((level, description, e)),
        _ => reported,
    }
}

/// The reports that the answers `answers` make, in order: one for each
/// failure.
pub open spec fn reports_of<T, E>(
    level: Level,
    description: &'static str,
    answers: Seq<PollResult<T, E>>,
) -> Seq<(Level, &'static str, E)>
    decreases answers.len(),
{
    if answers.len() == 0 {
        Seq::empty()
    } else {
        reported_after(
            reports_of(level, description, answers.drop_last()),
            level,
            description,
            answers.last(),
        )
    }
}

/// Wraps a future of `()` that may fail. A failure is reported to the log and
/// the wrapper resolves to `()` instead: it cannot fail.
pub struct LogError<F: Future, L> {
    future: F,
    level: Level,
    description: &'static str,
    log: L,
    reported: Ghost<Seq<(Level, &'static str, F::Error)>>,
}

impl<F: Future, L> LogError<F, L> {
    /// The wrapped future.
    pub closed spec fn future(&self) -> F {
        self.future
    }

    /// The level that failures are reported with.
    pub closed spec fn level(&self) -> Level {
        self.level
    }

    /// The description that failures are reported with.
    pub closed spec fn description(&self) -> &'static str {
        self.description
    }

    /// The reports handed to the log so far, in order.
    pub closed spec fn reported(&self) -> Seq<(Level, &'static str, F::Error)> {
        self.reported@
    }

    pub fn new(future: F, level: Level, description: &'static str, log: L) -> (r: LogError<F, L>)
        ensures
            r.future() == future,
            r.level() == level,
            r.description() == description,
            r.reported() == Seq::<(Level, &'static str, F::Error)>::empty(),
    {
        LogError { future, level, description, log, reported: Ghost(Seq::empty()) }
    }
}

impl<F: Future<Item = ()>, L: ErrorLog<F::Error>> LogError<F, L> {
    /// Takes the wrapped future's answer: a failure is handed to the log, with
    /// the level and the description, and becomes `Ready(())`; anything else
    /// passes through and nothing is reported.
    pub fn on_answer(&mut self, ri: PollResult<(), F::Error>) -> (r: PollResult<(), Void>)
        ensures
            r == swallowed(ri, PollResult::<(), Void>::Ready(())),
            final(self).reported() == reported_after(
                old(self).reported(),
                old(self).level(),
                old(self).description(),
                ri,
            ),
            final(self).future() == old(self).future(),
            final(self).level() == old(self).level(),
            final(self).description() == old(self).description(),
    {
        match ri {
            PollResult::Ready(()) => PollResult::Ready(()),
            PollResult::Pending => PollResult::Pending,
            PollResult::Failed(e) => {
                let ghost ge = e;
                self.log.log(self.level, self.description, e);
                self.reported = Ghost(self.reported@.push((self.level, self.description, ge)));
                PollResult::Ready(())
            },
        }
    }
}

impl<F: Future<Item = ()>, L: ErrorLog<F::Error>> Future for LogError<F, L> {
    type Item = ();

    type Error = Void;

    open spec fn is_live(&self) -> bool {
        self.future().is_live()
    }

    /// Polls the wrapped future and hands its answer to `on_answer`.
    fn poll(&mut self) -> (r: PollResult<(), Void>)
        ensures
            exists|ri: PollResult<(), F::Error>|
                r == #[trigger] swallowed(ri, PollResult::<(), Void>::Ready(()))
                    && final(self).reported() == reported_after(
                    old(self).reported(),
                    old(self).level(),
                    old(self).description(),
                    ri,
                ),
    {
        let ri = self.future.poll();
        let ghost g = ri;
        let r = self.on_answer(ri);
        assert(r == swallowed(g, PollResult::<(), Void>::Ready(())));
        r
    }
}

/// Wraps a stream that may yield errors. Each error is reported to the log
/// and the stream is polled again: the wrapper yields no errors. (After
/// `u64::MAX + 1` errors in a row within one poll it answers `Pending`.)
pub struct LogErrors<S: Stream, L> {
    stream: S,
    level: Level,
    description: &'static str,
    log: L,
    reported: Ghost<Seq<(Level, &'static str, S::Error)>>,
    seen: Ghost<Seq<PollResult<Option<S::Item>, S::Error>>>,
}

impl<S: Stream, L> LogErrors<S, L> {
    /// The wrapped stream.
    pub closed spec fn stream(&self) -> S {
        self.stream
    }

    /// The level that errors are reported with.
    pub closed spec fn level(&self) -> Level {
        self.level
    }

    /// The description that errors are reported with.
    pub closed spec fn description(&self) -> &'static str {
        self.description
    }

    /// The reports handed to the log so far, in order.
    pub closed spec fn reported(&self) -> Seq<(Level, &'static str, S::Error)> {
        self.reported@
    }

    /// The answers of the wrapped stream so far, in order.
    pub closed spec fn seen(&self) -> Seq<PollResult<Option<S::Item>, S::Error>> {
        self.seen@
    }

    pub fn new(stream: S, level: Level, description: &'static str, log: L) -> (r: LogErrors<S, L>)
        ensures
            r.stream() == stream,
            r.level() == level,
            r.description() == description,
            r.reported() == Seq::<(Level, &'static str, S::Error)>::empty(),
            r.seen() == Seq::<PollResult<Option<S::Item>, S::Error>>::empty(),
    {
        LogErrors {
            stream,
            level,
            description,
            log,
            reported: Ghost(Seq::empty()),
            seen: Ghost(Seq::empty()),
        }
    }
}

impl<S: Stream, L: ErrorLog<S::Error>> LogErrors<S, L> {
    /// Takes one answer of the wrapped stream: an error is handed to the log,
    /// with the level and the description, and the stream is to be polled
    /// again (`None`); anything else is the answer and nothing is reported.
    pub fn on_answer(&mut self, ri: PollResult<Option<S::Item>, S::Error>) -> (r: Option<
        PollResult<Option<S::Item>, Void>,
    >)
        ensures
            ri is Failed ==> r is None,
            !(ri is Failed) ==> r == Some(swallowed(ri, PollResult::<Option<S::Item>, Void>::Pending)),
            final(self).reported() == reported_after(
                old(self).reported(),
                old(self).level(),
                old(self).description(),
                ri,
            ),
            final(self).seen() == old(self).seen().push(ri),
            final(self).stream() == old(self).stream(),
            final(self).level() == old(self).level(),
            final(self).description() == old(self).description(),
    {
        let ghost g = ri;
        self.seen = Ghost(self.seen@.push(g));
        match ri {
            PollResult::Ready(x) => Some(PollResult::Ready(x)),
            PollResult::Pending => Some(PollResult::Pending),
            PollResult::Failed(e) => {
                let ghost ge = e;
                self.log.log(self.level, self.description, e);
                self.reported = Ghost(self.reported@.push((self.level, self.description, ge)));
                None
            },
        }
    }
}

impl<S: Stream, L: ErrorLog<S::Error>> Stream for LogErrors<S, L> {
    type Item = S::Item;

    type Error = Void;

    open spec fn is_open(&self) -> bool {
        self.stream().is_open() && self.stream().continues_after_error()
    }

    /// Polls the wrapped stream and hands each answer to `on_answer` until one
    /// is not an error. The answers of this poll are errors, each reported,
    /// then one that is not, which is the answer; or, after `u64::MAX + 1`
    /// errors, the answer is `Pending`.
    fn poll_next(&mut self) -> (r: PollResult<Option<S::Item>, Void>)
        ensures
            ({
                let start = old(self).seen().len() as int;
                let fresh = final(self).seen().skip(start);
                &&& final(self).seen().len() > start
                &&& final(self).seen().take(start) == old(self).seen()
                &&& forall|i: int| 0 <= i < fresh.len() - 1 ==> #[trigger] fresh[i] is Failed
                &&& !(fresh.last() is Failed) ==> r == swallowed(
                    fresh.last(),
                    PollResult::<Option<S::Item>, Void>::Pending,
                )
                &&& fresh.last() is Failed ==> r is Pending && fresh.len() > u64::MAX
                &&& final(self).reported() == old(self).reported() + reports_of(
                    old(self).level(),
                    old(self).description(),
                    fresh,
                )
            }),
    {
        let ghost start_seen = self.seen@;
        let ghost start_rep = self.reported@;
        let ghost mut fresh = Seq::<PollResult<Option<S::Item>, S::Error>>::empty();
        let mut budget: u64 = u64::MAX;
        loop
            invariant
                self.stream.is_open(),
                self.stream.continues_after_error(),
                start_seen == old(self).seen(),
                start_rep == old(self).reported(),
                self.level == old(self).level(),
                self.description == old(self).description(),
                self.seen@ == start_seen + fresh,
                self.reported@ == start_rep + reports_of(self.level, self.description, fresh),
                forall|i: int| 0 <= i < fresh.len() ==> #[trigger] fresh[i] is Failed,
                fresh.len() == u64::MAX - budget,
            decreases budget,
        {
            let ri = self.stream.poll_next();
            let ghost g = ri;
            let step = self.on_answer(ri);
            proof {
                let next = fresh.push(g);
                assert(next.drop_last() =~= fresh);
                assert(self.reported@ =~= start_rep + reports_of(self.level, self.description, next));
                fresh = next;
                assert(self.seen@ =~= start_seen + fresh);
                assert(self.seen@.skip(start_seen.len() as int) =~= fresh);
                assert(self.seen@.take(start_seen.len() as int) =~= start_seen);
            }
            match step {
                Some(r) => {
                    return r;
                },
                None => {},
            }
            if budget == 0 {
                return PollResult::Pending;
            }
            budget = budget - 1;
        }
    }
}

} // verus!
