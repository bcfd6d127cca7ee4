use std::cell::Cell;
use std::rc::Rc;
use std::time::Duration;

use future_utils::{
    deadline_after, Deadline, DropCell, ErrorLog, Finally, FinishInner, FirstOk, FirstOk2, Future, FutureExt,
    relabel, Infallible, LogError, LogErrors, NextOrElse, PollResult, Stream, StreamExt, Until,
    WhileDriving, WithReadinessTimeout, WithTimeout,
};
use void::Void;

/// A future or stream that gives the answers of a script, then `Pending`,
/// and counts how often it was polled.
struct Scripted<T, E> {
    script: Vec<PollResult<T, E>>,
    polls: Rc<Cell<usize>>,
}

fn scripted<T, E>(script: Vec<PollResult<T, E>>) -> (Scripted<T, E>, Rc<Cell<usize>>) {
    let polls = Rc::new(Cell::new(0));
    (Scripted { script, polls: polls.clone() }, polls)
}

impl<T, E> Scripted<T, E> {
    fn next(&mut self) -> PollResult<T, E> {
        self.polls.set(self.polls.get() + 1);
        if self.script.is_empty() {
            PollResult::Pending
        } else {
            self.script.remove(0)
        }
    }
}

impl<T, E> Future for Scripted<T, E> {
    type Item = T;
    type Error = E;

    fn poll(&mut self) -> PollResult<T, E> {
        self.next()
    }
}

struct ScriptedStream<T, E>(Scripted<Option<T>, E>);

fn scripted_stream<T, E>(
    script: Vec<PollResult<Option<T>, E>>,
) -> (ScriptedStream<T, E>, Rc<Cell<usize>>) {
    let (s, polls) = scripted(script);
    (ScriptedStream(s), polls)
}

impl<T, E> Stream for ScriptedStream<T, E> {
    type Item = T;
    type Error = E;

    fn poll_next(&mut self) -> PollResult<Option<T>, E> {
        self.0.next()
    }
}

#[derive(Debug, PartialEq)]
enum Ans<T, E> {
    Pending,
    Ready(T),
    Failed(E),
}

fn ans<T, E>(r: PollResult<T, E>) -> Ans<T, E> {
    match r {
        PollResult::Pending => Ans::Pending,
        PollResult::Ready(x) => Ans::Ready(x),
        PollResult::Failed(e) => Ans::Failed(e),
    }
}

// FirstOk

#[test]
fn first_ok_success_discards_failures() {
    let (s, _) = scripted_stream::<u32, &str>(vec![
        PollResult::Failed("e1"),
        PollResult::Failed("e2"),
        PollResult::Ready(Some(5)),
    ]);
    let mut f = FirstOk::new(s);
    assert_eq!(ans(f.poll()), Ans::Ready(5));
}

#[test]
fn first_ok_end_returns_all_failures_in_order() {
    let (s, _) = scripted_stream::<u32, &str>(vec![
        PollResult::Failed("e1"),
        PollResult::Pending,
        PollResult::Failed("e2"),
        PollResult::Failed("e3"),
        PollResult::Ready(None),
    ]);
    let mut f = s.first_ok();
    assert_eq!(ans(f.poll()), Ans::Pending);
    assert_eq!(ans(f.poll()), Ans::Failed(vec!["e1", "e2", "e3"]));
}

#[test]
fn first_ok_empty_stream_fails_with_no_errors() {
    let (s, _) = scripted_stream::<u32, &str>(vec![PollResult::Ready(None)]);
    let mut f = FirstOk::new(s);
    assert_eq!(ans(f.poll()), Ans::Failed(Vec::<&str>::new()));
}

// FirstOk2

#[test]
fn first_ok2_b_succeeds_after_a_fails() {
    let (a, _) = scripted::<u32, &str>(vec![PollResult::Failed("a")]);
    let (b, _) = scripted::<u32, &str>(vec![PollResult::Pending, PollResult::Ready(7)]);
    let mut f = FirstOk2::new(a, b);
    assert_eq!(ans(f.poll()), Ans::Pending);
    assert_eq!(ans(f.poll()), Ans::Ready(7));
}

#[test]
fn first_ok2_a_wins_without_polling_b() {
    let (a, _) = scripted::<u32, &str>(vec![PollResult::Ready(1)]);
    let (b, b_polls) = scripted::<u32, &str>(vec![PollResult::Ready(2)]);
    let mut f = a.first_ok2(b);
    assert_eq!(ans(f.poll()), Ans::Ready(1));
    assert_eq!(b_polls.get(), 0);
}

#[test]
fn first_ok2_both_fail_a_first() {
    let (a, _) = scripted::<u32, &str>(vec![PollResult::Failed("ea")]);
    let (b, _) = scripted::<u32, u8>(vec![PollResult::Pending, PollResult::Failed(9)]);
    let mut f = FirstOk2::new(a, b);
    assert_eq!(ans(f.poll()), Ans::Pending);
    assert_eq!(ans(f.poll()), Ans::Failed(("ea", 9)));
}

#[test]
fn first_ok2_both_fail_b_first() {
    let (a, _) = scripted::<u32, &str>(vec![PollResult::Pending, PollResult::Failed("ea")]);
    let (b, _) = scripted::<u32, u8>(vec![PollResult::Failed(9)]);
    let mut f = FirstOk2::new(a, b);
    assert_eq!(ans(f.poll()), Ans::Pending);
    assert_eq!(ans(f.poll()), Ans::Failed(("ea", 9)));
}

#[test]
fn first_ok2_both_fail_in_one_poll() {
    let (a, _) = scripted::<u32, &str>(vec![PollResult::Failed("ea")]);
    let (b, _) = scripted::<u32, u8>(vec![PollResult::Failed(9)]);
    let mut f = FirstOk2::new(a, b);
    assert_eq!(ans(f.poll()), Ans::Failed(("ea", 9)));
}

// WhileDriving and Finish

#[test]
fn while_driving_keeps_b_result_without_polling_b_again() {
    let (a, _) = scripted::<u32, &str>(vec![PollResult::Pending, PollResult::Pending, PollResult::Ready(1)]);
    let (b, b_polls) = scripted::<&str, u8>(vec![PollResult::Ready("b done")]);
    let mut w = a.while_driving(b);
    assert!(matches!(w.poll(), PollResult::Pending));
    assert_eq!(b_polls.get(), 1);
    assert!(matches!(w.poll(), PollResult::Pending));
    match w.poll() {
        PollResult::Ready((x, mut finish)) => {
            assert_eq!(x, 1);
            assert_eq!(ans(finish.poll()), Ans::Ready("b done"));
        }
        _ => panic!("expected A's value"),
    }
    assert_eq!(b_polls.get(), 1);
}

#[test]
fn while_driving_a_failure_still_hands_over_b() {
    let (a, _) = scripted::<u32, &str>(vec![PollResult::Failed("ea")]);
    let (b, b_polls) = scripted::<&str, u8>(vec![PollResult::Ready("late")]);
    let mut w = WhileDriving::new(a, b);
    match w.poll() {
        PollResult::Failed((e, finish)) => {
            assert_eq!(e, "ea");
            assert_eq!(b_polls.get(), 0);
            match finish.into_inner() {
                FinishInner::Running(mut b) => assert_eq!(ans(b.poll()), Ans::Ready("late")),
                FinishInner::Ran(_) => panic!("B had not run"),
            }
        }
        _ => panic!("expected A's error"),
    }
}

#[test]
fn while_driving_finish_into_inner_gives_b_error() {
    let (a, _) = scripted::<u32, &str>(vec![PollResult::Pending, PollResult::Ready(3)]);
    let (b, _) = scripted::<&str, u8>(vec![PollResult::Failed(4)]);
    let mut w = WhileDriving::new(a, b);
    assert!(matches!(w.poll(), PollResult::Pending));
    match w.poll() {
        PollResult::Ready((3, finish)) => match finish.into_inner() {
            FinishInner::Ran(Err(4)) => {}
            _ => panic!("expected B's error"),
        },
        _ => panic!("expected A's value"),
    }
}

#[test]
fn while_driving_finish_keeps_polling_b() {
    let (a, _) = scripted::<u32, &str>(vec![PollResult::Ready(3)]);
    let (b, b_polls) = scripted::<&str, u8>(vec![PollResult::Pending, PollResult::Failed(8)]);
    let mut w = WhileDriving::new(a, b);
    match w.poll() {
        PollResult::Ready((_, mut finish)) => {
            assert_eq!(ans(finish.poll()), Ans::Pending);
            assert_eq!(ans(finish.poll()), Ans::Failed(8));
            assert_eq!(b_polls.get(), 2);
        }
        _ => panic!("expected A's value"),
    }
}

// Until

#[derive(Debug, PartialEq)]
struct Wide(u32);

impl From<u8> for Wide {
    fn from(e: u8) -> Wide {
        Wide(e as u32 + 1000)
    }
}

#[test]
fn until_condition_first_cancels_without_polling_inner() {
    let (inner, inner_polls) = scripted::<u32, Wide>(vec![PollResult::Ready(1)]);
    let (cond, _) = scripted::<(), u8>(vec![PollResult::Ready(())]);
    let mut u = inner.until(cond);
    assert_eq!(ans(u.poll()), Ans::Ready(None));
    assert_eq!(inner_polls.get(), 0);
}

#[test]
fn until_inner_value_comes_in_some() {
    let (inner, _) = scripted::<u32, Wide>(vec![PollResult::Pending, PollResult::Ready(7)]);
    let (cond, cond_polls) = scripted::<(), u8>(vec![]);
    let mut u = Until::new(inner, cond);
    assert_eq!(ans(u.poll()), Ans::Pending);
    assert_eq!(ans(u.poll()), Ans::Ready(Some(7)));
    assert_eq!(cond_polls.get(), 2);
}

#[test]
fn until_condition_error_is_converted() {
    let (inner, _) = scripted::<u32, Wide>(vec![]);
    let (cond, _) = scripted::<(), u8>(vec![PollResult::Failed(5)]);
    let mut u = Until::new(inner, cond);
    assert_eq!(ans(u.poll()), Ans::Failed(Wide(1005)));
}

#[test]
fn until_stream_ends_and_stays_ended() {
    let (inner, inner_polls) = scripted_stream::<u32, Wide>(vec![
        PollResult::Ready(Some(1)),
        PollResult::Ready(Some(2)),
    ]);
    let (cond, cond_polls) = scripted::<(), u8>(vec![PollResult::Pending, PollResult::Ready(())]);
    let mut u = inner.until(cond);
    assert_eq!(ans(u.poll_next()), Ans::Ready(Some(1)));
    assert_eq!(ans(u.poll_next()), Ans::Ready(None));
    assert_eq!(ans(u.poll_next()), Ans::Ready(None));
    assert_eq!(inner_polls.get(), 1);
    assert_eq!(cond_polls.get(), 2);
}

// Infallible

#[test]
fn infallible_passes_values_through() {
    let (inner, _) = scripted::<u32, Void>(vec![PollResult::Pending, PollResult::Ready(4)]);
    let mut f: Infallible<_, String> = inner.infallible();
    assert_eq!(ans(f.poll()), Ans::Pending);
    assert_eq!(ans(f.poll()), Ans::Ready(4));
}

#[test]
fn infallible_stream_passes_items_and_end_through() {
    let (inner, _) = scripted_stream::<u32, Void>(vec![PollResult::Ready(Some(4)), PollResult::Ready(None)]);
    let mut s: Infallible<_, String> = Infallible::new(inner);
    assert_eq!(ans(s.poll_next()), Ans::Ready(Some(4)));
    assert_eq!(ans(s.poll_next()), Ans::Ready(None));
}

// LogError and LogErrors

struct Recorder(Rc<std::cell::RefCell<Vec<(log::Level, String)>>>);

impl ErrorLog<&'static str> for Recorder {
    fn log(&self, level: log::Level, description: &'static str, error: &'static str) {
        self.0.borrow_mut().push((level, format!("{}: {}", description, error)));
    }
}

#[test]
fn log_error_swallows_failure_after_reporting_it() {
    let lines = Rc::new(std::cell::RefCell::new(Vec::new()));
    let (inner, _) = scripted::<(), &'static str>(vec![PollResult::Pending, PollResult::Failed("boom")]);
    let mut f = inner.log_error(log::Level::Warn, "sending", Recorder(lines.clone()));
    assert!(matches!(f.poll(), PollResult::Pending));
    assert!(matches!(f.poll(), PollResult::Ready(())));
    assert_eq!(*lines.borrow(), vec![(log::Level::Warn, "sending: boom".to_string())]);
}

#[test]
fn log_error_success_logs_nothing() {
    let lines = Rc::new(std::cell::RefCell::new(Vec::new()));
    let (inner, _) = scripted::<(), &'static str>(vec![PollResult::Ready(())]);
    let mut f = LogError::new(inner, log::Level::Error, "x", Recorder(lines.clone()));
    assert!(matches!(f.poll(), PollResult::Ready(())));
    assert!(lines.borrow().is_empty());
}

#[test]
fn log_errors_skips_errors_after_logging_them() {
    let lines = Rc::new(std::cell::RefCell::new(Vec::new()));
    let (inner, _) = scripted_stream::<u32, &'static str>(vec![
        PollResult::Ready(Some(1)),
        PollResult::Failed("bad"),
        PollResult::Ready(Some(2)),
        PollResult::Ready(None),
    ]);
    let mut s = LogErrors::new(inner, log::Level::Info, "reading", Recorder(lines.clone()));
    assert!(matches!(s.poll_next(), PollResult::Ready(Some(1))));
    assert!(matches!(s.poll_next(), PollResult::Ready(Some(2))));
    assert!(matches!(s.poll_next(), PollResult::Ready(None)));
    assert_eq!(*lines.borrow(), vec![(log::Level::Info, "reading: bad".to_string())]);
}

#[test]
fn log_errors_via_stream_ext() {
    let lines = Rc::new(std::cell::RefCell::new(Vec::new()));
    let (inner, _) = scripted_stream::<u32, &'static str>(vec![PollResult::Failed("e")]);
    let mut s = inner.log_errors(log::Level::Debug, "d", Recorder(lines.clone()));
    assert!(matches!(s.poll_next(), PollResult::Pending));
    assert_eq!(lines.borrow().len(), 1);
}

// NextOrElse

#[test]
fn next_or_else_returns_item_and_stream() {
    let (inner, _) = scripted_stream::<u32, String>(vec![
        PollResult::Pending,
        PollResult::Ready(Some(1)),
        PollResult::Ready(Some(2)),
    ]);
    let mut f = NextOrElse::new(inner, || "ended".to_string());
    assert!(matches!(f.poll(), PollResult::Pending));
    match f.poll() {
        PollResult::Ready((1, mut rest)) => {
            assert_eq!(ans(rest.poll_next()), Ans::Ready(Some(2)));
        }
        _ => panic!("expected the first item"),
    }
}

#[test]
fn next_or_else_end_calls_the_function() {
    let (inner, _) = scripted_stream::<u32, String>(vec![PollResult::Ready(None)]);
    let mut f = inner.next_or_else(|| "ended".to_string());
    match f.poll() {
        PollResult::Failed(e) => assert_eq!(e, "ended"),
        _ => panic!("expected the made error"),
    }
}

#[test]
fn next_or_else_passes_stream_error() {
    let (inner, _) = scripted_stream::<u32, String>(vec![PollResult::Failed("bad".to_string())]);
    let mut f = NextOrElse::new(inner, || "ended".to_string());
    match f.poll() {
        PollResult::Failed(e) => assert_eq!(e, "bad"),
        _ => panic!("expected the stream's error"),
    }
}

// Finally

struct Flag(Rc<Cell<usize>>);

impl Drop for Flag {
    fn drop(&mut self) {
        self.0.set(self.0.get() + 1);
    }
}

#[test]
fn finally_drops_guard_when_future_finishes() {
    let count = Rc::new(Cell::new(0));
    let (inner, _) = scripted::<u32, ()>(vec![PollResult::Pending, PollResult::Ready(3)]);
    let mut f = inner.finally(Flag(count.clone()));
    assert_eq!(ans(f.poll()), Ans::Pending);
    assert_eq!(count.get(), 0);
    assert_eq!(ans(f.poll()), Ans::Ready(3));
    assert_eq!(count.get(), 1);
    drop(f);
    assert_eq!(count.get(), 1);
}

#[test]
fn finally_drops_guard_when_dropped_early() {
    let count = Rc::new(Cell::new(0));
    let (inner, _) = scripted::<u32, ()>(vec![PollResult::Pending]);
    let mut f = Finally::new(inner, Flag(count.clone()));
    assert_eq!(ans(f.poll()), Ans::Pending);
    drop(f);
    assert_eq!(count.get(), 1);
}

#[test]
fn finally_stream_keeps_guard_through_items_until_end() {
    let count = Rc::new(Cell::new(0));
    let (inner, _) = scripted_stream::<u32, u8>(vec![
        PollResult::Ready(Some(1)),
        PollResult::Pending,
        PollResult::Ready(Some(2)),
        PollResult::Ready(None),
    ]);
    let mut s = inner.finally(Flag(count.clone()));
    assert_eq!(ans(s.poll_next()), Ans::Ready(Some(1)));
    assert_eq!(ans(s.poll_next()), Ans::Pending);
    assert_eq!(ans(s.poll_next()), Ans::Ready(Some(2)));
    assert_eq!(count.get(), 0);
    assert_eq!(ans(s.poll_next()), Ans::Ready(None));
    assert_eq!(count.get(), 1);
}

// DropCell

#[test]
fn drop_cell_resolves_only_after_drop() {
    let mut cell: DropCell<u32> = DropCell::new();
    assert!(!cell.observe(1));
    assert!(!cell.observe(2));
    assert_eq!(cell.mark_dropped(), Some(2));
    assert!(cell.observe(3));
}

#[test]
fn drop_cell_dropped_before_any_poll() {
    let mut cell: DropCell<u32> = DropCell::new();
    assert_eq!(cell.mark_dropped(), None);
    assert!(cell.observe(1));
}

// Deadlines

#[test]
fn deadline_beyond_the_clock_never_fires() {
    let mut d = Deadline::from_target(deadline_after(Duration::from_secs(u64::MAX)));
    assert!(deadline_after(Duration::from_secs(u64::MAX)).is_none());
    assert!(matches!(d.poll(), PollResult::Pending));
    assert!(matches!(d.poll(), PollResult::Pending));
}

#[test]
fn with_timeout_without_a_reachable_deadline_passes_value_in_some() {
    let (inner, _) = scripted::<u32, u8>(vec![PollResult::Pending, PollResult::Ready(6)]);
    let mut f = inner.with_timeout(Duration::from_secs(u64::MAX));
    assert_eq!(ans(f.poll()), Ans::Pending);
    assert_eq!(ans(f.poll()), Ans::Ready(Some(6)));
}

#[test]
fn with_timeout_into_inner_returns_wrapped() {
    let (inner, polls) = scripted::<u32, u8>(vec![PollResult::Ready(6)]);
    let f = WithTimeout::new(inner, Duration::from_secs(u64::MAX));
    let mut inner = f.into_inner();
    assert_eq!(ans(inner.poll()), Ans::Ready(6));
    assert_eq!(polls.get(), 1);
}

#[test]
fn with_readiness_timeout_passes_stream_through_while_active() {
    let (inner, _) = scripted_stream::<u32, u8>(vec![
        PollResult::Ready(Some(1)),
        PollResult::Failed(2),
        PollResult::Ready(None),
    ]);
    let mut s = WithReadinessTimeout::new(inner, Duration::from_secs(u64::MAX));
    assert_eq!(ans(s.poll_next()), Ans::Ready(Some(1)));
    assert_eq!(ans(s.poll_next()), Ans::Failed(2));
    assert_eq!(ans(s.poll_next()), Ans::Ready(None));
}

// Step functions, fed answers directly

#[test]
fn first_ok_on_answer_gathers_then_decides() {
    let (s, _) = scripted_stream::<u32, &str>(vec![]);
    let mut f = FirstOk::new(s);
    assert!(f.on_answer(PollResult::Failed("a")).is_none());
    assert!(f.on_answer(PollResult::Failed("b")).is_none());
    assert!(matches!(f.on_answer(PollResult::Pending), Some(PollResult::Pending)));
    match f.on_answer(PollResult::Ready(None)) {
        Some(PollResult::Failed(es)) => assert_eq!(es, vec!["a", "b"]),
        _ => panic!("expected every error"),
    }
}

#[test]
fn first_ok_on_answer_success_drops_errors() {
    let (s, _) = scripted_stream::<u32, &str>(vec![]);
    let mut f = FirstOk::new(s);
    assert!(f.on_answer(PollResult::Failed("a")).is_none());
    assert!(matches!(f.on_answer(PollResult::Ready(Some(7))), Some(PollResult::Ready(7))));
}

#[test]
fn first_ok2_steps_keep_error_order() {
    let (a, _) = scripted::<u32, &str>(vec![]);
    let (b, _) = scripted::<u32, u8>(vec![]);
    let mut f = FirstOk2::new(a, b);
    assert!(f.on_answer_a(PollResult::Pending).is_none());
    assert_eq!(ans(f.on_answer_b(PollResult::Failed(3))), Ans::Pending);
    match f.on_answer_a(PollResult::Failed("ea")) {
        Some(r) => assert_eq!(ans(r), Ans::Failed(("ea", 3))),
        None => panic!("A's failure should decide"),
    }
}

#[test]
fn first_ok2_step_a_success_decides() {
    let (a, _) = scripted::<u32, &str>(vec![]);
    let (b, _) = scripted::<u32, u8>(vec![]);
    let mut f = FirstOk2::new(a, b);
    match f.on_answer_a(PollResult::Ready(4)) {
        Some(r) => assert_eq!(ans(r), Ans::Ready(4)),
        None => panic!("A's success should decide"),
    }
}

#[test]
fn while_driving_steps_keep_b_outcome() {
    let (a, _) = scripted::<u32, &str>(vec![]);
    let (b, _) = scripted::<&str, u8>(vec![]);
    let mut w = WhileDriving::new(a, b);
    assert!(w.on_answer_a(PollResult::Pending).is_none());
    w.on_answer_b(PollResult::Ready("done"));
    assert!(matches!(w.on_answer_a(PollResult::Pending), Some(PollResult::Pending)));
    match w.on_answer_a(PollResult::Failed("ea")) {
        Some(PollResult::Failed((e, finish))) => {
            assert_eq!(e, "ea");
            assert!(matches!(finish.into_inner(), FinishInner::Ran(Ok("done"))));
        }
        _ => panic!("expected A's error"),
    }
}

#[test]
fn until_on_condition_cancels_and_converts() {
    let (inner, _) = scripted::<u32, Wide>(vec![]);
    let (cond, _) = scripted::<(), u8>(vec![]);
    let mut u = Until::new(inner, cond);
    assert!(u.on_condition::<u32, Wide, u8>(PollResult::Pending).is_none());
    assert_eq!(ans(u.on_answer::<u32, Wide>(PollResult::Pending)), Ans::Pending);
    match u.on_condition::<u32, Wide, u8>(PollResult::Failed(2)) {
        Some(r) => assert_eq!(ans(r), Ans::Failed(Wide(1002))),
        None => panic!("a failed condition should decide"),
    }
    let (inner, _) = scripted::<u32, Wide>(vec![]);
    let (cond, _) = scripted::<(), u8>(vec![]);
    let mut u = Until::new(inner, cond);
    match u.on_condition::<u32, Wide, u8>(PollResult::Ready(())) {
        Some(r) => assert_eq!(ans(r), Ans::Ready(None)),
        None => panic!("a resolved condition should decide"),
    }
}

#[test]
fn next_or_else_on_answer_hands_back_the_stream() {
    let (inner, polls) = scripted_stream::<u32, String>(vec![PollResult::Ready(Some(9))]);
    let mut f = NextOrElse::new(inner, || "ended".to_string());
    match f.on_answer(PollResult::Ready(Some(1))) {
        PollResult::Ready((1, mut rest)) => {
            assert_eq!(ans(rest.poll_next()), Ans::Ready(Some(9)));
            assert_eq!(polls.get(), 1);
        }
        _ => panic!("expected the item"),
    }
}

#[test]
fn with_readiness_timeout_item_moves_the_deadline() {
    let (inner, _) = scripted_stream::<u32, u8>(vec![]);
    let mut s = WithReadinessTimeout::new(inner, Duration::from_secs(1));
    assert!(s.on_stream_answer::<u32, u8>(PollResult::Pending, None).is_none());
    assert!(matches!(
        s.on_stream_answer::<u32, u8>(PollResult::Ready(Some(5)), None),
        Some(PollResult::Ready(Some(5)))
    ));
    // The deadline was moved to "never": the stream no longer times out.
    assert_eq!(ans(s.poll_next()), Ans::Pending);
    assert_eq!(
        ans(WithReadinessTimeout::<ScriptedStream<u32, u8>>::on_deadline_answer::<u32, u8>(PollResult::Ready(()))),
        Ans::Ready(None)
    );
}

#[test]
fn log_error_on_answer_reports_failure() {
    let lines = Rc::new(std::cell::RefCell::new(Vec::new()));
    let (inner, _) = scripted::<(), &'static str>(vec![]);
    let mut f = LogError::new(inner, log::Level::Warn, "w", Recorder(lines.clone()));
    assert!(matches!(f.on_answer(PollResult::Failed("x")), PollResult::Ready(())));
    assert_eq!(*lines.borrow(), vec![(log::Level::Warn, "w: x".to_string())]);
}

#[test]
fn finally_on_answer_passes_through() {
    let count = Rc::new(Cell::new(0));
    let (inner, _) = scripted::<u32, u8>(vec![]);
    let mut f = Finally::new(inner, Flag(count.clone()));
    assert_eq!(ans(f.on_answer::<u32, u8>(PollResult::Pending)), Ans::Pending);
    assert_eq!(count.get(), 0);
    assert_eq!(ans(f.on_answer::<u32, u8>(PollResult::Failed(3))), Ans::Failed(3));
    assert_eq!(count.get(), 1);
}

#[test]
fn infallible_relabel_passes_values() {
    assert_eq!(ans(relabel::<u32, String>(PollResult::Ready(3))), Ans::Ready(3));
    assert_eq!(ans(relabel::<u32, String>(PollResult::Pending)), Ans::Pending);
}

#[test]
fn finally_stream_error_finishes_and_drops_guard() {
    let count = Rc::new(Cell::new(0));
    let (inner, polls) = scripted_stream::<u32, u8>(vec![
        PollResult::Ready(Some(2)),
        PollResult::Failed(1),
        PollResult::Ready(Some(3)),
    ]);
    let mut s = inner.finally(Flag(count.clone()));
    assert_eq!(ans(s.poll_next()), Ans::Ready(Some(2)));
    assert_eq!(count.get(), 0);
    assert_eq!(ans(s.poll_next()), Ans::Failed(1));
    assert_eq!(count.get(), 1);
    assert_eq!(polls.get(), 2);
}

#[test]
fn log_errors_reports_every_error_then_answers() {
    let lines = Rc::new(std::cell::RefCell::new(Vec::new()));
    let (inner, polls) = scripted_stream::<u32, &'static str>(vec![
        PollResult::Failed("e1"),
        PollResult::Failed("e2"),
        PollResult::Pending,
        PollResult::Ready(Some(4)),
    ]);
    let mut s = LogErrors::new(inner, log::Level::Error, "d", Recorder(lines.clone()));
    assert!(matches!(s.poll_next(), PollResult::Pending));
    assert_eq!(polls.get(), 3);
    assert_eq!(
        *lines.borrow(),
        vec![(log::Level::Error, "d: e1".to_string()), (log::Level::Error, "d: e2".to_string())]
    );
    assert!(matches!(s.poll_next(), PollResult::Ready(Some(4))));
}
