//! Resolves one future while driving another in the background.

use vstd::prelude::*;
use crate::poll::{Future, PollResult};

verus! {

enum WhileDrivingInner<A, B: Future> {
    Driving(A, B),
    Drove(A, Result<B::Item, B::Error>),
    Finished,
}

/// Where a `WhileDriving` stands between polls: still driving `B`, or holding
/// the outcome `B` already reached.
pub enum WhileDrivingPhase<TB, EB> {
    Driving,
    Drove(Result<TB, EB>),
    Finished,
}

/// Where a `Finish` stands: `B` still runs, or its outcome is held.
pub enum FinishPhase<TB, EB> {
    Running,
    Ran(Result<TB, EB>),
    Finished,
}

/// The poll result that an outcome of `B` becomes.
pub open spec fn outcome_result<TB, EB>(res: Result<TB, EB>) -> PollResult<TB, EB> {
    match res {
        Ok(x) => PollResult::Ready(x),
        Err(e) => PollResult::Failed(e),
    }
}

/// What one poll of a `WhileDriving` does from `phase`, given what `A`
/// returned (`ra`) and what `B` returned (`rb`). `A` is polled first; `B` is
/// polled only while it is still being driven and `A` is pending. When `A`
/// finishes, its value or error comes out together with the phase of the
/// `Finish` that hands over `B`. The result and the next phase are returned.
pub open spec fn while_driving_turn<TA, EA, TB, EB>(
    phase: WhileDrivingPhase<TB, EB>,
    ra: PollResult<TA, EA>,
    rb: PollResult<TB, EB>,
) -> (
    PollResult<(TA, FinishPhase<TB, EB>), (EA, FinishPhase<TB, EB>)>,
    WhileDrivingPhase<TB, EB>,
) {
    match phase {
        WhileDrivingPhase::Driving => match ra {
            PollResult::Ready(x) => (
                PollResult::Ready((x, FinishPhase::Running)),
                WhileDrivingPhase::Finished,
            ),
            PollResult::Failed(e) => (
                PollResult::Failed((e, FinishPhase::Running)),
                WhileDrivingPhase::Finished,
            ),
            PollResult::Pending => match rb {
                PollResult::Pending => (PollResult::Pending, WhileDrivingPhase::Driving),
                PollResult::Ready(y) => (PollResult::Pending, WhileDrivingPhase::Drove(Ok(y))),
                PollResult::Failed(e) => (PollResult::Pending, WhileDrivingPhase::Drove(Err(e))),
            },
        },
        WhileDrivingPhase::Drove(res) => match ra {
            PollResult::Ready(x) => (
                PollResult::Ready((x, FinishPhase::Ran(res))),
                WhileDrivingPhase::Finished,
            ),
            PollResult::Failed(e) => (
                PollResult::Failed((e, FinishPhase::Ran(res))),
                WhileDrivingPhase::Finished,
            ),
            PollResult::Pending => (PollResult::Pending, WhileDrivingPhase::Drove(res)),
        },
        WhileDrivingPhase::Finished => (PollResult::Pending, WhileDrivingPhase::Finished),
    }
}

/// What one poll of a `Finish` does from `phase`, given what `B` returned
/// (`rb`, ignored when `B` already finished).
pub open spec fn finish_turn<TB, EB>(phase: FinishPhase<TB, EB>, rb: PollResult<TB, EB>) -> (
    PollResult<TB, EB>,
    FinishPhase<TB, EB>,
) {
    match phase {
        FinishPhase::Running => match rb {
            PollResult::Pending => (PollResult::Pending, FinishPhase::Running),
            r => (r, FinishPhase::Finished),
        },
        FinishPhase::Ran(res) => (outcome_result(res), FinishPhase::Finished),
        FinishPhase::Finished => (PollResult::Pending, FinishPhase::Finished),
    }
}

/// What a `WhileDriving` does in `phase` with `A`'s answer `ra`: a result
/// (with the phase of the `Finish` in it), or `None` when `B` is to be polled
/// next, and the next phase.
pub open spec fn while_driving_a_step<TA, EA, TB, EB>(
    phase: WhileDrivingPhase<TB, EB>,
    ra: PollResult<TA, EA>,
) -> (
    Option<PollResult<(TA, FinishPhase<TB, EB>), (EA, FinishPhase<TB, EB>)>>,
    WhileDrivingPhase<TB, EB>,
) {
    let handed = match phase {
        WhileDrivingPhase::Drove(res) => FinishPhase::Ran(res),
        _ => FinishPhase::Running,
    };
    match ra {
        PollResult::Ready(x) => (Some(PollResult::Ready((x, handed))), WhileDrivingPhase::Finished),
        PollResult::Failed(e) => (Some(PollResult::Failed((e, handed))), WhileDrivingPhase::Finished),
        PollResult::Pending => match phase {
            WhileDrivingPhase::Drove(_) => (Some(PollResult::Pending), phase),
            _ => (None, phase),
        },
    }
}

/// The phase a `WhileDriving` that drives `B` moves to with `B`'s answer `rb`
/// (the result of that poll is `Pending`).
pub open spec fn while_driving_b_step<TB, EB>(rb: PollResult<TB, EB>) -> WhileDrivingPhase<TB, EB> {
    match rb {
        PollResult::Pending => WhileDrivingPhase::Driving,
        PollResult::Ready(y) => WhileDrivingPhase::Drove(Ok(y)),
        PollResult::Failed(e) => WhileDrivingPhase::Drove(Err(e)),
    }
}

/// Resolves `A` while polling `B` whenever `A` is polled. `A`'s value or
/// error comes out together with a `Finish`, which hands over `B` or the
/// outcome `B` already reached.
pub struct WhileDriving<A, B: Future> {
    inner: WhileDrivingInner<A, B>,
}

impl<A: Future, B: Future> WhileDriving<A, B> {
    /// Where this combinator stands.
    pub closed spec fn phase(&self) -> WhileDrivingPhase<B::Item, B::Error> {
        match self.inner {
            WhileDrivingInner::Driving(..) => WhileDrivingPhase::Driving,
            WhileDrivingInner::Drove(_, res) => WhileDrivingPhase::Drove(res),
            WhileDrivingInner::Finished => WhileDrivingPhase::Finished,
        }
    }

    /// `A`, while it runs.
    pub closed spec fn future_a(&self) -> Option<A> {
        match self.inner {
            WhileDrivingInner::Driving(a, _) => Some(a),
            WhileDrivingInner::Drove(a, _) => Some(a),
            WhileDrivingInner::Finished => None,
        }
    }

    /// `B`, while it is being driven.
    pub closed spec fn driven(&self) -> Option<B> {
        match self.inner {
            WhileDrivingInner::Driving(_, b) => Some(b),
            _ => None,
        }
    }

    /// The combinator has not finished, and the futures it runs may be polled.
    pub open spec fn holds_live(&self) -> bool {
        &&& !(self.phase() is Finished)
        &&& (self.future_a() matches Some(a) ==> a.is_live())
        &&& (self.driven() matches Some(b) ==> b.is_live())
    }

    pub fn new(a: A, b: B) -> (r: WhileDriving<A, B>)
        ensures
            r.phase() is Driving,
            r.future_a() == Some(a),
            r.driven() == Some(b),
    {
        WhileDriving { inner: WhileDrivingInner::Driving(a, b) }
    }

    /// Takes `A`'s answer: decides the result, or leaves the turn to `B`
    /// (`None`), as `while_driving_a_step` says. A `Finish` that comes out
    /// holds the very `B` that was driven; a future that keeps running is
    /// kept as it is.
    pub fn on_answer_a(&mut self, ra: PollResult<A::Item, A::Error>) -> (r: Option<
        PollResult<(A::Item, Finish<B>), (A::Error, Finish<B>)>,
    >)
        requires
            !(old(self).phase() is Finished),
        ensures
            (match r {
                Some(r) => Some(while_driving_view(r)),
                None => None,
            }, final(self).phase()) == while_driving_a_step(old(self).phase(), ra),
            r matches Some(x) ==> finish_of(x) matches Some(f) ==> f.driven() == old(self).driven(),
            !(final(self).phase() is Finished) ==> final(self).future_a() == old(self).future_a(),
            final(self).phase() is Driving ==> final(self).driven() == old(self).driven(),
    {
        let mut inner = WhileDrivingInner::Finished;
        std::mem::swap(&mut self.inner, &mut inner);
        match inner {
            WhileDrivingInner::Driving(a, b) => match ra {
                PollResult::Ready(x) => {
                    let finish = Finish { state: FinishState::Inner(FinishInner::Running(b)) };
                    Some(PollResult::Ready((x, finish)))
                },
                PollResult::Failed(e) => {
                    let finish = Finish { state: FinishState::Inner(FinishInner::Running(b)) };
                    Some(PollResult::Failed((e, finish)))
                },
                PollResult::Pending => {
                    self.inner = WhileDrivingInner::Driving(a, b);
                    None
                },
            },
            WhileDrivingInner::Drove(a, res) => match ra {
                PollResult::Ready(x) => {
                    let finish = Finish { state: FinishState::Inner(FinishInner::Ran(res)) };
                    Some(PollResult::Ready((x, finish)))
                },
                PollResult::Failed(e) => {
                    let finish = Finish { state: FinishState::Inner(FinishInner::Ran(res)) };
                    Some(PollResult::Failed((e, finish)))
                },
                PollResult::Pending => {
                    self.inner = WhileDrivingInner::Drove(a, res);
                    Some(PollResult::Pending)
                },
            },
            WhileDrivingInner::Finished => vstd::pervasive::unreached(),
        }
    }

    /// Takes the answer of the driven `B`: its outcome, once it has one, is
    /// kept, as `while_driving_b_step` says. `A` is kept as it is.
    pub fn on_answer_b(&mut self, rb: PollResult<B::Item, B::Error>)
        requires
            old(self).phase() is Driving,
        ensures
            final(self).phase() == while_driving_b_step(rb),
            final(self).future_a() == old(self).future_a(),
            final(self).phase() is Driving ==> final(self).driven() == old(self).driven(),
            !(final(self).phase() is Driving) ==> final(self).driven() is None,
    {
        let mut inner = WhileDrivingInner::Finished;
        std::mem::swap(&mut self.inner, &mut inner);
        match inner {
            WhileDrivingInner::Driving(a, b) => match rb {
                PollResult::Pending => {
                    self.inner = WhileDrivingInner::Driving(a, b);
                },
                PollResult::Ready(y) => {
                    self.inner = WhileDrivingInner::Drove(a, Ok(y));
                },
                PollResult::Failed(e) => {
                    self.inner = WhileDrivingInner::Drove(a, Err(e));
                },
            },
            _ => vstd::pervasive::unreached(),
        }
    }

    /// Polls `A` where it stands.
    fn poll_a(&mut self) -> (r: PollResult<A::Item, A::Error>)
        requires
            old(self).future_a() matches Some(a) && a.is_live(),
        ensures
            final(self).phase() == old(self).phase(),
            final(self).future_a() is Some,
            r is Pending ==> final(self).future_a()->0.is_live(),
            final(self).driven() == old(self).driven(),
    {
        match &mut self.inner {
            WhileDrivingInner::Driving(a, _) => a.poll(),
            WhileDrivingInner::Drove(a, _) => a.poll(),
            WhileDrivingInner::Finished => vstd::pervasive::unreached(),
        }
    }

    /// Polls the driven `B` where it stands.
    fn poll_b(&mut self) -> (r: PollResult<B::Item, B::Error>)
        requires
            old(self).driven() matches Some(b) && b.is_live(),
        ensures
            final(self).phase() == old(self).phase(),
            final(self).driven() is Some,
            r is Pending ==> final(self).driven()->0.is_live(),
            final(self).future_a() == old(self).future_a(),
    {
        match &mut self.inner {
            WhileDrivingInner::Driving(_, b) => b.poll(),
            _ => vstd::pervasive::unreached(),
        }
    }
}

/// The `Finish` in a terminal result.
pub open spec fn finish_of<TA, EA, B: Future>(r: PollResult<(TA, Finish<B>), (EA, Finish<B>)>) -> Option<
    Finish<B>,
> {
    match r {
        PollResult::Pending => None,
        PollResult::Ready((_, f)) => Some(f),
        PollResult::Failed((_, f)) => Some(f),
    }
}

/// `r` with each `Finish` in it replaced by its phase.
pub open spec fn while_driving_view<TA, EA, B: Future>(
    r: PollResult<(TA, Finish<B>), (EA, Finish<B>)>,
) -> PollResult<(TA, FinishPhase<B::Item, B::Error>), (EA, FinishPhase<B::Item, B::Error>)> {
    match r {
        PollResult::Pending => PollResult::Pending,
        PollResult::Ready((x, f)) => PollResult::Ready((x, f.phase())),
        PollResult::Failed((e, f)) => PollResult::Failed((e, f.phase())),
    }
}

/// Every `Finish` in `r` may be polled.
pub open spec fn while_driving_live<TA, EA, B: Future>(
    r: PollResult<(TA, Finish<B>), (EA, Finish<B>)>,
) -> bool {
    finish_of(r) matches Some(f) ==> f.holds_live()
}

impl<A: Future, B: Future> Future for WhileDriving<A, B> {
    type Item = (A::Item, Finish<B>);

    type Error = (A::Error, Finish<B>);

    open spec fn is_live(&self) -> bool {
        self.holds_live()
    }

    /// Polls `A` and hands its answer to `on_answer_a`; unless that decides,
    /// polls `B` and hands its answer to `on_answer_b`, and answers `Pending`.
    /// Over both, this is what `while_driving_turn` says.
    fn poll(&mut self) -> (r: PollResult<(A::Item, Finish<B>), (A::Error, Finish<B>)>)
        ensures
            exists|ra: PollResult<A::Item, A::Error>, rb: PollResult<B::Item, B::Error>|
                while_driving_turn(old(self).phase(), ra, rb) == (
                    while_driving_view(r),
                    final(self).phase(),
                ),
            while_driving_live(r),
            r is Pending <==> !(final(self).phase() is Finished),
    {
        let ghost phase = self.phase();
        let ghost gb = PollResult::<B::Item, B::Error>::Pending;
        let ra = self.poll_a();
        let ghost ga = ra;
        match self.on_answer_a(ra) {
            Some(r) => {
                assert(while_driving_turn(phase, ga, gb) == (while_driving_view(r), self.phase()));
                return r;
            },
            None => {},
        }
        let rb = self.poll_b();
        proof {
            gb = rb;
        }
        self.on_answer_b(rb);
        let r = PollResult::Pending;
        assert(while_driving_turn(phase, ga, gb) == (while_driving_view(r), self.phase()));
        r
    }
}

/// Hands over the future that a `WhileDriving` drove: either it still runs,
/// or the outcome it reached is held.
pub enum FinishInner<B: Future> {
    Running(B),
    Ran(Result<B::Item, B::Error>),
}

enum FinishState<B: Future> {
    Inner(FinishInner<B>),
    Finished,
}

/// The future that a `WhileDriving` drove. It resolves as that future would
/// have, or can be unpacked with `into_inner`.
pub struct Finish<B: Future> {
    state: FinishState<B>,
}

impl<B: Future> Finish<B> {
    /// Where this `Finish` stands.
    pub closed spec fn phase(&self) -> FinishPhase<B::Item, B::Error> {
        match self.state {
            FinishState::Inner(FinishInner::Running(_)) => FinishPhase::Running,
            FinishState::Inner(FinishInner::Ran(res)) => FinishPhase::Ran(res),
            FinishState::Finished => FinishPhase::Finished,
        }
    }

    /// The driven future, while it still runs.
    pub closed spec fn driven(&self) -> Option<B> {
        match self.state {
            FinishState::Inner(FinishInner::Running(b)) => Some(b),
            _ => None,
        }
    }

    /// It has not finished, and the future it holds, if any, may be polled.
    pub open spec fn holds_live(&self) -> bool {
        &&& !(self.phase() is Finished)
        &&& (self.driven() matches Some(b) ==> b.is_live())
    }

    /// Unpacks the driven future, or the outcome it already reached.
    pub fn into_inner(self) -> (r: FinishInner<B>)
        requires
            !(self.phase() is Finished),
        ensures
            self.phase() is Running ==> r == FinishInner::<B>::Running(self.driven()->0),
            self.phase() is Ran ==> r == FinishInner::<B>::Ran(self.phase()->Ran_0),
    {
        match self.state {
            FinishState::Inner(inner) => inner,
            FinishState::Finished => vstd::pervasive::unreached(),
        }
    }

    /// Takes the answer of the driven future and passes it on, as
    /// `finish_turn` says for a running `Finish`; a pending future is kept as
    /// it is.
    pub fn on_answer(&mut self, rb: PollResult<B::Item, B::Error>) -> (r: PollResult<B::Item, B::Error>)
        requires
            old(self).phase() is Running,
        ensures
            (r, final(self).phase()) == finish_turn(old(self).phase(), rb),
            rb is Pending ==> *final(self) == *old(self),
            !(rb is Pending) ==> final(self).driven() is None,
    {
        match rb {
            PollResult::Pending => PollResult::Pending,
            r => {
                self.state = FinishState::Finished;
                r
            },
        }
    }
}

impl<B: Future> Future for Finish<B> {
    type Item = B::Item;

    type Error = B::Error;

    open spec fn is_live(&self) -> bool {
        self.holds_live()
    }

    /// Hands out the held outcome without polling anything, or polls the
    /// driven future and hands its answer to `on_answer`.
    fn poll(&mut self) -> (r: PollResult<B::Item, B::Error>)
        ensures
            exists|rb: PollResult<B::Item, B::Error>|
                finish_turn(old(self).phase(), rb) == (r, final(self).phase()),
            r is Pending <==> !(final(self).phase() is Finished),
            r is Pending ==> final(self).driven() is Some,
    {
        let ghost phase = self.phase();
        let rb = match &mut self.state {
            FinishState::Inner(FinishInner::Running(b)) => b.poll(),
            _ => {
                let mut state = FinishState::Finished;
                std::mem::swap(&mut self.state, &mut state);
                let r = match state {
                    FinishState::Inner(FinishInner::Ran(Ok(x))) => PollResult::Ready(x),
                    FinishState::Inner(FinishInner::Ran(Err(e))) => PollResult::Failed(e),
                    _ => vstd::pervasive::unreached(),
                };
                assert(finish_turn(phase, PollResult::<B::Item, B::Error>::Pending) == (r, self.phase()));
                return r;
            },
        };
        let ghost gb = rb;
        let r = self.on_answer(rb);
        assert(finish_turn(phase, gb) == (r, self.phase()));
        r
    }
}

} // verus!

verus! {

/// When `B` finishes before `A`, its outcome is kept, unchanged, for as long
/// as `A` stays pending (`B` is not polled again), and comes out in the
/// `Finish` once `A` resolves or fails. That `Finish` then yields `B`'s
/// outcome without polling `B`: whatever `B` would answer does not matter.
pub proof fn lemma_while_driving_keeps_outcome<TA, EA, TB, EB>(
    res: Result<TB, EB>,
    x: TA,
    e: EA,
    rb: PollResult<TB, EB>,
    rb2: PollResult<TB, EB>,
)
    ensures
        ({
            let turn = |phase, ra, rb| while_driving_turn::<TA, EA, TB, EB>(phase, ra, rb);
            let pending = PollResult::<(TA, FinishPhase<TB, EB>), (EA, FinishPhase<TB, EB>)>::Pending;
            let ready = PollResult::<_, (EA, FinishPhase<TB, EB>)>::Ready((x, FinishPhase::Ran(res)));
            let failed = PollResult::<(TA, FinishPhase<TB, EB>), _>::Failed((e, FinishPhase::Ran(res)));
            let kept = WhileDrivingPhase::Drove(res);
            let done = WhileDrivingPhase::<TB, EB>::Finished;
            &&& turn(WhileDrivingPhase::Driving, PollResult::Pending, outcome_result(res)) == (pending, kept)
            &&& turn(kept, PollResult::Pending, rb) == (pending, kept)
            &&& turn(kept, PollResult::Ready(x), rb) == (ready, done)
            &&& turn(kept, PollResult::Failed(e), rb) == (failed, done)
            &&& finish_turn(FinishPhase::Ran(res), rb) == finish_turn(FinishPhase::Ran(res), rb2)
            &&& finish_turn(FinishPhase::Ran(res), rb) == (outcome_result(res), FinishPhase::<TB, EB>::Finished)
        }),
{
}

/// One poll of a `WhileDriving` is `A`'s step, then, where that leaves the
/// result open, `B`'s step and the answer `Pending`.
pub proof fn lemma_while_driving_turn_is_steps<TA, EA, TB, EB>(
    phase: WhileDrivingPhase<TB, EB>,
    ra: PollResult<TA, EA>,
    rb: PollResult<TB, EB>,
)
    requires
        !(phase is Finished),
    ensures
        while_driving_turn(phase, ra, rb) == match while_driving_a_step(phase, ra) {
            (Some(r), next) => (r, next),
            (None, _) => (PollResult::Pending, while_driving_b_step(rb)),
        },
{
}

} // verus!
