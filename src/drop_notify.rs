//! The shared cell behind a drop notification: one side reports that it was
//! dropped, the other waits for that report.
//!
//! Both sides may live on different threads, so whoever holds the two sides
//! keeps the cell behind a lock; every operation here is a few field writes,
//! short enough to hold that lock for.

use vstd::prelude::*;

verus! {

/// The state shared by a notifier and its notice: whether the notifier has
/// been dropped, and the waker of a notice that waits for it.
pub struct DropCell<W> {
    dropped: bool,
    waiter: Option<W>,
}

/// What an observation of a cell in state `(dropped, waiter)` returns with a
/// waker `w`, and the state it leaves: a dropped cell answers `true` and is
/// left alone; otherwise `w` is registered and the answer is `false`.
pub open spec fn observe_spec<W>(dropped: bool, waiter: Option<W>, w: W) -> (bool, (bool, Option<W>)) {
    if dropped {
        (true, (dropped, waiter))
    } else {
        (false, (false, Some(w)))
    }
}

/// What marking a cell in state `(dropped, waiter)` as dropped returns (the
/// waker to wake), and the state it leaves.
pub open spec fn mark_spec<W>(dropped: bool, waiter: Option<W>) -> (Option<W>, (bool, Option<W>)) {
    (waiter, (true, None))
}

impl<W> DropCell<W> {
    /// The notifier has been dropped.
    pub closed spec fn dropped(&self) -> bool {
        self.dropped
    }

    /// The waker of the notice that waits, if any.
    pub closed spec fn waiter(&self) -> Option<W> {
        self.waiter
    }

    /// A cell of a notifier that is alive, with nobody waiting.
    pub fn new() -> (r: DropCell<W>)
        ensures
            !r.dropped(),
            r.waiter() is None,
    {
        DropCell { dropped: false, waiter: None }
    }

    /// What a notice does when polled: `true` if the notifier was dropped;
    /// otherwise it registers `waker`, to be woken by the drop, and answers
    /// `false`.
    pub fn observe(&mut self, waker: W) -> (r: bool)
        ensures
            (r, (final(self).dropped(), final(self).waiter())) == observe_spec(
                old(self).dropped(),
                old(self).waiter(),
                waker,
            ),
    {
        if self.dropped {
            true
        } else {
            self.waiter = Some(waker);
            false
        }
    }

    /// What a notifier does when dropped: it marks the cell and hands out the
    /// waker of a waiting notice, which the caller wakes.
    pub fn mark_dropped(&mut self) -> (r: Option<W>)
        ensures
            (r, (final(self).dropped(), final(self).waiter())) == mark_spec(
                old(self).dropped(),
                old(self).waiter(),
            ),
    {
        self.dropped = true;
        let mut waiter = None;
        std::mem::swap(&mut waiter, &mut self.waiter);
        waiter
    }
}

/// A notice resolves exactly when its notifier has been dropped. A fresh cell,
/// however often it is observed, answers `false`; once marked, every later
/// observation answers `true`, whether or not any came before the drop, and the
/// mark is never undone.
pub proof fn lemma_notice_resolves_iff_dropped<W>(waiters: Seq<W>, k: int, w: W)
    requires
        0 <= k <= waiters.len(),
    ensures
        ({
            let before = observe_all(false, None, waiters.take(k));
            &&& !before.0
            &&& !before.1.0
            &&& {
                let marked = mark_spec(before.1.0, before.1.1).1;
                let after = observe_all(marked.0, marked.1, waiters.skip(k));
                &&& after.1.0
                &&& observe_spec(after.1.0, after.1.1, w).0
            }
        }),
{
    lemma_unmarked_stays(waiters.take(k));
    let before = observe_all(false, None, waiters.take(k));
    let marked = mark_spec(before.1.0, before.1.1).1;
    lemma_marked_stays(marked.1, waiters.skip(k));
}

/// Observing a cell with each waker of `ws` in turn: whether any observation
/// answered `true`, and the state left.
pub open spec fn observe_all<W>(dropped: bool, waiter: Option<W>, ws: Seq<W>) -> (bool, (bool, Option<W>))
    decreases ws.len(),
{
    if ws.len() == 0 {
        (false, (dropped, waiter))
    } else {
        let first = observe_spec(dropped, waiter, ws[0]);
        let rest = observe_all(first.1.0, first.1.1, ws.skip(1));
        (first.0 || rest.0, rest.1)
    }
}

proof fn lemma_unmarked_stays<W>(ws: Seq<W>)
    ensures
        !observe_all(false, None::<W>, ws).0,
        !observe_all(false, None::<W>, ws).1.0,
    decreases ws.len(),
{
    if ws.len() > 0 {
        lemma_unmarked_waiter_stays(Some(ws[0]), ws.skip(1));
    }
}

proof fn lemma_unmarked_waiter_stays<W>(waiter: Option<W>, ws: Seq<W>)
    ensures
        !observe_all(false, waiter, ws).0,
        !observe_all(false, waiter, ws).1.0,
    decreases ws.len(),
{
    if ws.len() > 0 {
        lemma_unmarked_waiter_stays(Some(ws[0]), ws.skip(1));
    }
}

proof fn lemma_marked_stays<W>(waiter: Option<W>, ws: Seq<W>)
    ensures
        observe_all(true, waiter, ws).1.0,
        ws.len() > 0 ==> observe_all(true, waiter, ws).0,
    decreases ws.len(),
{
    if ws.len() > 0 {
        lemma_marked_stays(waiter, ws.skip(1));
    }
}

} // verus!
