//! What holds across several calls.
use std::fmt::Display;

use futures::channel::oneshot;
use vstd::future::FutureAdditionalSpecFns;
use vstd::prelude::*;

use crate::channel::Progress;
use crate::driver::{
    deliver, during_step, finish_step, is_final_result, is_interruption, task_dropped, Received,
};
use crate::error::{ErrorKind, SdkError};

verus! {

/// Polls of steps in progress, one after the other: poll `i` finds `states[i]`, is told
/// `operations[i]`, answers `answers[i]` and leaves `states[i + 1]`, with states as in
/// [`crate::driver::during_step`].
pub open spec fn is_run<S, E: Display, T>(
    states: Seq<Option<Received<S, E>>>,
    operations: Seq<Progress<Result<T, SdkError>>>,
    answers: Seq<Progress<Result<T, SdkError>>>,
) -> bool {
    &&& states.len() == operations.len() + 1
    &&& answers.len() == operations.len()
    &&& forall|i: int|
        0 <= i < operations.len() ==> #[trigger] during_step(
            states[i],
            operations[i],
            states[i + 1],
            answers[i],
        )
}

/// Poll `i` of a run was not cut short: it answered what the step itself answered.
pub open spec fn undisturbed<T>(
    operations: Seq<Progress<Result<T, SdkError>>>,
    answers: Seq<Progress<Result<T, SdkError>>>,
    i: int,
) -> bool {
    operations[i] is Pending ==> answers[i] is Pending
}

/// Work that is ready wins over a driver that ended, even if the driver's result is
/// already waiting: the answer is the work's own result, and the session finishes
/// afterwards exactly as it would have finished before.
pub proof fn ready_work_wins<S, E: Display + Into<SdkError>, T>(
    before: Option<Received<S, E>>,
    result: Result<T, SdkError>,
    after: Option<Received<S, E>>,
    answer: Progress<Result<T, SdkError>>,
)
    requires
        during_step(before, Progress::Ready(result), after, answer),
    ensures
        answer == Progress::Ready(result),
        forall|last: Option<Received<S, E>>, end: Progress<Result<S, SdkError>>| #[trigger]
            finish_step(after, last, end) <==> finish_step(before, last, end),
{
}

/// A session that ended fails the step in progress, whichever it is: a pending step
/// that gets an answer gets an error, never a success, and the error's text begins
/// with "session".
pub proof fn dead_session_fails_pending_work<S, E: Display, T>(
    before: Option<Received<S, E>>,
    after: Option<Received<S, E>>,
    answer: Progress<Result<T, SdkError>>,
)
    requires
        during_step(before, Progress::Pending, after, answer),
        answer is Ready,
    ensures
        after is None,
        answer matches Progress::Ready(Err(error)) && "session"@.is_prefix_of(error@.message),
{
    reveal_strlit("session");
    reveal_strlit("session driver task dropped");
    reveal_strlit("session closed before operation completed");
    reveal_strlit("session driver: ");
    let message = answer->Ready_0->Err_0@.message;
    assert("session"@ =~= message.subrange(0, 7));
}

/// Only the loss of the driver's task fails a step with an internal error; a driver
/// that ended, cleanly or not, fails it with a protocol error.
pub proof fn internal_means_dropped<S, E: Display>(received: Received<S, E>, error: SdkError)
    requires
        is_interruption(received, error),
    ensures
        error@.kind == ErrorKind::Internal <==> received is Err,
        error@.kind == ErrorKind::Protocol <==> received is Ok,
{
}

/// A session that was found dead stays dead: every later pending step fails at once
/// with the loss of the driver's task, and so does the end of the session. The run
/// leaves the session dead, so this goes on for steps with results of another type.
pub proof fn dead_session_stays_dead<S, E: Display + Into<SdkError>, T>(
    states: Seq<Option<Received<S, E>>>,
    operations: Seq<Progress<Result<T, SdkError>>>,
    answers: Seq<Progress<Result<T, SdkError>>>,
    last: Option<Received<S, E>>,
    end: Progress<Result<S, SdkError>>,
)
    requires
        is_run(states, operations, answers),
        states[0] is None,
        finish_step(states.last(), last, end),
    ensures
        forall|i: int|
            0 <= i < operations.len() && operations[i] is Pending ==> (
            #[trigger] answers[i] matches Progress::Ready(Err(error)) && error@
                == task_dropped()),
        states.last() is None,
        last is None,
        end matches Progress::Ready(Err(error)) && error@ == task_dropped(),
{
    assert forall|i: int| 0 <= i < states.len() implies #[trigger] states[i] is None by {
        lemma_none_stays(states, operations, answers, i);
    }
    assert forall|i: int| 0 <= i < operations.len() && operations[i] is Pending implies (
    #[trigger] answers[i] matches Progress::Ready(Err(error)) && error@
        == task_dropped()) by {
        assert(during_step(states[i], operations[i], states[i + 1], answers[i]));
        assert(states[i] is None);
    }
}

proof fn lemma_none_stays<S, E: Display, T>(
    states: Seq<Option<Received<S, E>>>,
    operations: Seq<Progress<Result<T, SdkError>>>,
    answers: Seq<Progress<Result<T, SdkError>>>,
    i: int,
)
    requires
        is_run(states, operations, answers),
        states[0] is None,
        0 <= i < states.len(),
    ensures
        states[i] is None,
    decreases i,
{
    if i > 0 {
        lemma_none_stays(states, operations, answers, i - 1);
        assert(during_step(
            states[i - 1],
            operations[i - 1],
            states[i - 1 + 1],
            answers[i - 1],
        ));
    }
}

/// Steps that were not cut short, however many there were and however often they had
/// to wait, keep the driver's result for the end of the session.
pub proof fn undisturbed_work_preserves_the_result<S, E: Display, T>(
    states: Seq<Option<Received<S, E>>>,
    operations: Seq<Progress<Result<T, SdkError>>>,
    answers: Seq<Progress<Result<T, SdkError>>>,
)
    requires
        is_run(states, operations, answers),
        forall|i: int| 0 <= i < operations.len() ==> #[trigger] undisturbed(operations, answers, i),
    ensures
        states.last() == states[0],
{
    lemma_state_kept(states, operations, answers, states.len() - 1);
}

proof fn lemma_state_kept<S, E: Display, T>(
    states: Seq<Option<Received<S, E>>>,
    operations: Seq<Progress<Result<T, SdkError>>>,
    answers: Seq<Progress<Result<T, SdkError>>>,
    i: int,
)
    requires
        is_run(states, operations, answers),
        forall|i: int| 0 <= i < operations.len() ==> #[trigger] undisturbed(operations, answers, i),
        0 <= i < states.len(),
    ensures
        states[i] == states[0],
    decreases i,
{
    if i > 0 {
        lemma_state_kept(states, operations, answers, i - 1);
        assert(undisturbed(operations, answers, i - 1));
        assert(during_step(
            states[i - 1],
            operations[i - 1],
            states[i - 1 + 1],
            answers[i - 1],
        ));
    }
}

/// What the driver's task delivered is what the session finishes with, and what a
/// step in progress fails with if it is cut short instead.
pub proof fn delivered_result_arrives<S, E: Display + Into<SdkError>, T>(
    sender: oneshot::Sender<Result<S, E>>,
    receiver: oneshot::Receiver<Result<S, E>>,
    result: Result<S, E>,
    after: Option<Received<S, E>>,
    end: Progress<Result<S, SdkError>>,
    answer: Progress<Result<T, SdkError>>,
)
    requires
        call_ensures(oneshot::channel::<Result<S, E>>, (), (sender, receiver)),
        call_ensures(deliver::<S, E>, (sender, result), Ok(())),
    ensures
        finish_step(Some(receiver@), after, end) ==> (end matches Progress::Ready(
            finished,
        ) ==> is_final_result(Ok(result), finished)),
        during_step(Some(receiver@), Progress::Pending, after, answer) ==> (
        answer matches Progress::Ready(failed) ==> failed matches Err(error) && is_interruption::<S, E>(
            Ok(result),
            error,
        )),
{
}

} // verus!
