//! Combinators for poll-driven futures and streams, a drop notification cell,
//! and an unbuffered length-prefixed message framer.
//!
//! Every future and stream here follows the poll contract of `poll`: a
//! computation is advanced by polling, answers `Pending` until it finishes, and
//! is never polled again once it has. Each combinator's poll is specified by a
//! spec function that says what it answers for every answer of the
//! computations it wraps.

mod delay;
mod drop_notify;
mod ext;
mod finally;
mod first_ok;
mod first_ok2;
mod foreign;
mod framed_unbuffered;
mod infallible;
mod log_error;
mod next_or_else;
mod poll;
mod until;
mod while_driving;
mod with_timeout;

pub use delay::{deadline_after, Deadline};
pub use drop_notify::{
    lemma_notice_resolves_iff_dropped, mark_spec, observe_all, observe_spec, DropCell,
};
pub use ext::{FutureExt, StreamExt};
pub use finally::Finally;
pub use first_ok::{first_ok_turn, first_ok_view, gathered_after, lemma_first_ok_outcome, FirstOk};
pub use first_ok2::{
    first_ok2_a_step, first_ok2_b_step, first_ok2_turn, lemma_first_ok2_outcome,
    lemma_first_ok2_turn_is_steps, FirstOk2,
    FirstOk2Phase,
};
pub use framed_unbuffered::{
    all_fit, be_u32, fits_windows, frame, frames, is_partial_frame, is_whole_frame,
    lemma_frame_round_trip, lemma_frames_read_back, read_run, read_step, read_window_for,
    size_prefix, FramedUnbuffered, ReadStep, StartSend, WriteStep,
};
pub use infallible::{relabel, relabels, Infallible};
pub use log_error::{reported_after, reports_of, swallowed, ErrorLog, LogError, LogErrors};
pub use next_or_else::{next_or_else_answer, NextOrElse};
pub use poll::{ends, Future, PollResult, Stream};
pub use until::{
    converted, in_some, lemma_until_cancels, lift_some, until_answer, until_stream_answer, Until,
};
pub use while_driving::{
    finish_of, finish_turn, lemma_while_driving_keeps_outcome,
    lemma_while_driving_turn_is_steps, outcome_result, while_driving_a_step,
    while_driving_b_step, while_driving_live,
    while_driving_turn, while_driving_view, Finish, FinishInner, FinishPhase, WhileDriving,
    WhileDrivingPhase,
};
pub use with_timeout::{on_deadline, readiness_answer, timed_answer, WithReadinessTimeout, WithTimeout};
