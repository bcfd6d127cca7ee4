//! Races two futures with the same item type and yields the first success.

use vstd::prelude::*;
use crate::poll::{Future, PollResult};
use crate::poll::PollResult::{Failed, Pending, Ready};
use crate::first_ok2::FirstOk2Phase::{BothRunning, Finished, RunningA, RunningB};

verus! {

enum FirstOk2Inner<A: Future, B: Future> {
    BothRunning(A, B),
    RunningA(A, B::Error),
    RunningB(A::Error, B),
    Finished,
}

/// Where a `FirstOk2` stands between polls: which futures still run, and the
/// error of the one that already failed.
pub enum FirstOk2Phase<EA, EB> {
    BothRunning,
    RunningA(EB),
    RunningB(EA),
    Finished,
}

/// What one poll of a `FirstOk2` does from `phase`, given what `A` returned
/// (`ra`) and what `B` returned (`rb`); an argument is ignored when that future
/// is not polled in the phase. `A` is polled first, and `B` only when `A` did
/// not succeed. The result and the next phase are returned.
pub open spec fn first_ok2_turn<T, EA, EB>(
    phase: FirstOk2Phase<EA, EB>,
    ra: PollResult<T, EA>,
    rb: PollResult<T, EB>,
) -> (PollResult<T, (EA, EB)>, FirstOk2Phase<EA, EB>) {
    match phase {
        FirstOk2Phase::BothRunning => match ra {
            PollResult::Ready(x) => (PollResult::Ready(x), FirstOk2Phase::Finished),
            PollResult::Pending => match rb {
                PollResult::Ready(x) => (PollResult::Ready(x), FirstOk2Phase::Finished),
                PollResult::Pending => (PollResult::Pending, FirstOk2Phase::BothRunning),
                PollResult::Failed(eb) => (PollResult::Pending, FirstOk2Phase::RunningA(eb)),
            },
            PollResult::Failed(ea) => match rb {
                PollResult::Ready(x) => (PollResult::Ready(x), FirstOk2Phase::Finished),
                PollResult::Pending => (PollResult::Pending, FirstOk2Phase::RunningB(ea)),
                PollResult::Failed(eb) => (PollResult::Failed((ea, eb)), FirstOk2Phase::Finished),
            },
        },
        FirstOk2Phase::RunningA(eb) => match ra {
            PollResult::Ready(x) => (PollResult::Ready(x), FirstOk2Phase::Finished),
            PollResult::Pending => (PollResult::Pending, FirstOk2Phase::RunningA(eb)),
            PollResult::Failed(ea) => (PollResult::Failed((ea, eb)), FirstOk2Phase::Finished),
        },
        FirstOk2Phase::RunningB(ea) => match rb {
            PollResult::Ready(x) => (PollResult::Ready(x), FirstOk2Phase::Finished),
            PollResult::Pending => (PollResult::Pending, FirstOk2Phase::RunningB(ea)),
            PollResult::Failed(eb) => (PollResult::Failed((ea, eb)), FirstOk2Phase::Finished),
        },
        FirstOk2Phase::Finished => (PollResult::Pending, FirstOk2Phase::Finished),
    }
}

/// What a `FirstOk2` does in `phase` with `A`'s answer `ra`: a result, or
/// `None` when `B` is to be polled next, and the next phase.
pub open spec fn first_ok2_a_step<T, EA, EB>(phase: FirstOk2Phase<EA, EB>, ra: PollResult<T, EA>) -> (
    Option<PollResult<T, (EA, EB)>>,
    FirstOk2Phase<EA, EB>,
) {
    match phase {
        RunningA(eb) => match ra {
            Ready(x) => (Some(Ready(x)), Finished),
            Pending => (Some(Pending), RunningA(eb)),
            Failed(ea) => (Some(Failed((ea, eb))), Finished),
        },
        _ => match ra {
            Ready(x) => (Some(Ready(x)), Finished),
            Pending => (None, phase),
            Failed(ea) => (None, RunningB(ea)),
        },
    }
}

/// What a `FirstOk2` does in `phase` with `B`'s answer `rb`: the result and
/// the next phase.
pub open spec fn first_ok2_b_step<T, EA, EB>(phase: FirstOk2Phase<EA, EB>, rb: PollResult<T, EB>) -> (
    PollResult<T, (EA, EB)>,
    FirstOk2Phase<EA, EB>,
) {
    match phase {
        RunningB(ea) => match rb {
            Ready(x) => (Ready(x), Finished),
            Pending => (Pending, RunningB(ea)),
            Failed(eb) => (Failed((ea, eb)), Finished),
        },
        _ => match rb {
            Ready(x) => (Ready(x), Finished),
            Pending => (Pending, phase),
            Failed(eb) => (Pending, RunningA(eb)),
        },
    }
}

/// Runs two futures side by side and resolves to the value of the first to
/// succeed. If both fail it fails with both errors, `A`'s first.
pub struct FirstOk2<A: Future, B: Future> {
    inner: FirstOk2Inner<A, B>,
}

impl<A: Future, B: Future> FirstOk2<A, B> {
    /// Where this combinator stands.
    pub closed spec fn phase(&self) -> FirstOk2Phase<A::Error, B::Error> {
        match self.inner {
            FirstOk2Inner::BothRunning(..) => BothRunning,
            FirstOk2Inner::RunningA(_, eb) => RunningA(eb),
            FirstOk2Inner::RunningB(ea, _) => RunningB(ea),
            FirstOk2Inner::Finished => Finished,
        }
    }

    /// `A`, while it runs.
    pub closed spec fn future_a(&self) -> Option<A> {
        match self.inner {
            FirstOk2Inner::BothRunning(a, _) => Some(a),
            FirstOk2Inner::RunningA(a, _) => Some(a),
            _ => None,
        }
    }

    /// `B`, while it runs.
    pub closed spec fn future_b(&self) -> Option<B> {
        match self.inner {
            FirstOk2Inner::BothRunning(_, b) => Some(b),
            FirstOk2Inner::RunningB(_, b) => Some(b),
            _ => None,
        }
    }

    /// The combinator has not finished, and the futures it runs may be polled.
    pub open spec fn holds_live(&self) -> bool {
        &&& !(self.phase() is Finished)
        &&& (self.future_a() matches Some(a) ==> a.is_live())
        &&& (self.future_b() matches Some(b) ==> b.is_live())
    }

    pub fn new(a: A, b: B) -> (r: FirstOk2<A, B>)
        ensures
            r.phase() is BothRunning,
            r.future_a() == Some(a),
            r.future_b() == Some(b),
    {
        FirstOk2 { inner: FirstOk2Inner::BothRunning(a, b) }
    }

    /// Takes `A`'s answer: decides the result, or leaves it to `B` (`None`),
    /// as `first_ok2_a_step` says. A future that keeps running is kept as it
    /// is.
    pub fn on_answer_a(&mut self, ra: PollResult<A::Item, A::Error>) -> (r: Option<
        PollResult<A::Item, (A::Error, B::Error)>,
    >)
        requires
            old(self).phase() is BothRunning || old(self).phase() is RunningA,
        ensures
            (r, final(self).phase()) == first_ok2_a_step(old(self).phase(), ra),
            final(self).phase() is BothRunning || final(self).phase() is RunningA
                ==> final(self).future_a() == old(self).future_a(),
            final(self).phase() is BothRunning || final(self).phase() is RunningB
                ==> final(self).future_b() == old(self).future_b(),
    {
        let mut inner = FirstOk2Inner::Finished;
        std::mem::swap(&mut self.inner, &mut inner);
        match inner {
            FirstOk2Inner::BothRunning(a, b) => match ra {
                Ready(x) => Some(Ready(x)),
                Pending => {
                    self.inner = FirstOk2Inner::BothRunning(a, b);
                    None
                },
                Failed(ea) => {
                    self.inner = FirstOk2Inner::RunningB(ea, b);
                    None
                },
            },
            FirstOk2Inner::RunningA(a, eb) => match ra {
                Ready(x) => Some(Ready(x)),
                Pending => {
                    self.inner = FirstOk2Inner::RunningA(a, eb);
                    Some(Pending)
                },
                Failed(ea) => Some(Failed((ea, eb))),
            },
            _ => vstd::pervasive::unreached(),
        }
    }

    /// Takes `B`'s answer and decides the result, as `first_ok2_b_step` says.
    /// A future that keeps running is kept as it is.
    pub fn on_answer_b(&mut self, rb: PollResult<A::Item, B::Error>) -> (r: PollResult<
        A::Item,
        (A::Error, B::Error),
    >)
        requires
            old(self).phase() is BothRunning || old(self).phase() is RunningB,
        ensures
            (r, final(self).phase()) == first_ok2_b_step(old(self).phase(), rb),
            final(self).phase() is BothRunning || final(self).phase() is RunningA
                ==> final(self).future_a() == old(self).future_a(),
            final(self).phase() is BothRunning || final(self).phase() is RunningB
                ==> final(self).future_b() == old(self).future_b(),
    {
        let mut inner = FirstOk2Inner::Finished;
        std::mem::swap(&mut self.inner, &mut inner);
        match inner {
            FirstOk2Inner::BothRunning(a, b) => match rb {
                Ready(x) => Ready(x),
                Pending => {
                    self.inner = FirstOk2Inner::BothRunning(a, b);
                    Pending
                },
                Failed(eb) => {
                    self.inner = FirstOk2Inner::RunningA(a, eb);
                    Pending
                },
            },
            FirstOk2Inner::RunningB(ea, b) => match rb {
                Ready(x) => Ready(x),
                Pending => {
                    self.inner = FirstOk2Inner::RunningB(ea, b);
                    Pending
                },
                Failed(eb) => Failed((ea, eb)),
            },
            _ => vstd::pervasive::unreached(),
        }
    }

    /// Polls `A` where it stands.
    fn poll_a(&mut self) -> (r: PollResult<A::Item, A::Error>)
        requires
            old(self).future_a() matches Some(a) && a.is_live(),
        ensures
            final(self).phase() == old(self).phase(),
            final(self).future_a() is Some,
            r is Pending ==> final(self).future_a()->0.is_live(),
            final(self).future_b() == old(self).future_b(),
    {
        match &mut self.inner {
            FirstOk2Inner::BothRunning(a, _) => a.poll(),
            FirstOk2Inner::RunningA(a, _) => a.poll(),
            _ => vstd::pervasive::unreached(),
        }
    }

    /// Polls `B` where it stands.
    fn poll_b(&mut self) -> (r: PollResult<B::Item, B::Error>)
        requires
            old(self).future_b() matches Some(b) && b.is_live(),
        ensures
            final(self).phase() == old(self).phase(),
            final(self).future_b() is Some,
            r is Pending ==> final(self).future_b()->0.is_live(),
            final(self).future_a() == old(self).future_a(),
    {
        match &mut self.inner {
            FirstOk2Inner::BothRunning(_, b) => b.poll(),
            FirstOk2Inner::RunningB(_, b) => b.poll(),
            _ => vstd::pervasive::unreached(),
        }
    }
}

impl<A: Future, B: Future<Item = A::Item>> Future for FirstOk2<A, B> {
    type Item = A::Item;

    type Error = (A::Error, B::Error);

    open spec fn is_live(&self) -> bool {
        self.holds_live()
    }

    /// Polls `A` and hands its answer to `on_answer_a`; unless that decides,
    /// polls `B` and hands its answer to `on_answer_b`. Over both, this is
    /// what `first_ok2_turn` says.
    fn poll(&mut self) -> (r: PollResult<A::Item, (A::Error, B::Error)>)
        ensures
            exists|ra: PollResult<A::Item, A::Error>, rb: PollResult<A::Item, B::Error>|
                first_ok2_turn(old(self).phase(), ra, rb) == (r, final(self).phase()),
            r is Pending <==> !(final(self).phase() is Finished),
    {
        let ghost phase = self.phase();
        let ghost ga = PollResult::<A::Item, A::Error>::Pending;
        let ghost gb = PollResult::<A::Item, B::Error>::Pending;
        let b_only = match &self.inner {
            FirstOk2Inner::RunningB(..) => true,
            _ => false,
        };
        if !b_only {
            let ra = self.poll_a();
            proof {
                ga = ra;
            }
            match self.on_answer_a(ra) {
                Some(r) => {
                    assert(first_ok2_turn(phase, ga, gb) == (r, self.phase()));
                    return r;
                },
                None => {},
            }
        }
        let rb = self.poll_b();
        proof {
            gb = rb;
        }
        let r = self.on_answer_b(rb);
        assert(first_ok2_turn(phase, ga, gb) == (r, self.phase()));
        r
    }
}

} // verus!

verus! {

/// If `A` fails and `B` then succeeds, the result is `B`'s value and `A`'s
/// error is dropped. If both fail, the result is `(A's error, B's error)`,
/// whichever failed first, including when both fail in the same poll.
pub proof fn lemma_first_ok2_outcome<T, EA, EB>(
    ea: EA,
    eb: EB,
    x: T,
    ra: PollResult<T, EA>,
    rb: PollResult<T, EB>,
)
    ensures
        ({
            let turn = |phase, ra, rb| first_ok2_turn::<T, EA, EB>(phase, ra, rb);
            let pending = PollResult::<T, (EA, EB)>::Pending;
            let ready = PollResult::<T, (EA, EB)>::Ready(x);
            let failed = PollResult::<T, (EA, EB)>::Failed((ea, eb));
            // `A` fails, then `B` succeeds, in a later poll or in the same one
            &&& turn(BothRunning, Failed(ea), Pending) == (pending, RunningB::<EA, EB>(ea))
            &&& turn(RunningB(ea), ra, Ready(x)) == (ready, Finished::<EA, EB>)
            &&& turn(BothRunning, Failed(ea), Ready(x)) == (ready, Finished::<EA, EB>)
            // both fail: `A` first, `B` first, or in the same poll
            &&& turn(RunningB(ea), ra, Failed(eb)) == (failed, Finished::<EA, EB>)
            &&& turn(BothRunning, Pending, Failed(eb)) == (pending, RunningA::<EA, EB>(eb))
            &&& turn(RunningA(eb), Failed(ea), rb) == (failed, Finished::<EA, EB>)
            &&& turn(BothRunning, Failed(ea), Failed(eb)) == (failed, Finished::<EA, EB>)
        }),
{
}

/// One poll of a `FirstOk2` is `A`'s step, then `B`'s step where `A`'s leaves
/// the result open (and only `B`'s step once `A` has failed).
pub proof fn lemma_first_ok2_turn_is_steps<T, EA, EB>(
    phase: FirstOk2Phase<EA, EB>,
    ra: PollResult<T, EA>,
    rb: PollResult<T, EB>,
)
    requires
        !(phase is Finished),
    ensures
        first_ok2_turn(phase, ra, rb) == if phase is RunningB {
            first_ok2_b_step(phase, rb)
        } else {
            match first_ok2_a_step(phase, ra) {
                (Some(r), next) => (r, next),
                (None, next) => first_ok2_b_step(next, rb),
            }
        },
{
}

} // verus!
