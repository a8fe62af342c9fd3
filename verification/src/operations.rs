//! What each operation does, from its arguments to its result, and what a chain of
//! operations does from end to end.
//!
//! The statements here are about the calls themselves and name nothing but what a
//! caller can see: the fields of the results, the texts, and the outside calls that
//! were made on the way. `call_ensures(f, arguments, result)` is what a caller knows
//! once `f` returned `result` for `arguments`.
use std::fmt::Display;
use std::task::Context;

use futures::channel::oneshot;
use vstd::future::FutureAdditionalSpecFns;
use vstd::prelude::*;
use vstd::string::to_string_from_display_ensures;

use crate::channel::{poll_receiver, polled_is_a_poll, Progress};
use crate::driver::{
    conclude, deliver, driver_failed, failure_notice, finish_step, interrupt, is_interruption,
    notice, DriverTask, Level, Notice, Received,
};
use crate::error::{ErrorKind, SdkError};

verus! {

/// An error of the SDK has the kind that its constructor is named after and the text
/// that it was made with, and gives that text back. Its view shows both as they are.
pub proof fn errors_keep_kind_and_text(message: String, error: SdkError, text: String)
    ensures
        call_ensures(SdkError::internal, (message,), error) ==> error.kind == ErrorKind::Internal
            && error.message@ == message@,
        call_ensures(SdkError::protocol, (message,), error) ==> error.kind == ErrorKind::Protocol
            && error.message@ == message@,
        call_ensures(SdkError::to_string, (&error,), text) ==> text@ == error.message@,
        error@.kind == error.kind,
        error@.message == error.message@,
{
}

/// A driver's failure is a protocol error that quotes its text.
pub proof fn driver_failure_quotes_the_text(text: &str, error: SdkError)
    requires
        call_ensures(driver_failed, (text,), error),
    ensures
        error.kind == ErrorKind::Protocol,
        error.message@ == "session driver: "@ + text@,
{
}

/// A step in progress that is interrupted because the driver's task was lost fails
/// with an internal error that says so.
pub proof fn lost_task_interrupts<S, E: Display>(canceled: oneshot::Canceled, error: SdkError)
    requires
        call_ensures(interrupt::<S, E>, (Err(canceled),), error),
    ensures
        error.kind == ErrorKind::Internal,
        error.message@ == "session driver task dropped"@,
{
}

/// A step in progress that is interrupted because the session was closed fails with a
/// protocol error that says so, whatever the transport.
pub proof fn closed_session_interrupts<S, E: Display>(transport: S, error: SdkError)
    requires
        call_ensures(interrupt::<S, E>, (Ok(Ok(transport)),), error),
    ensures
        error.kind == ErrorKind::Protocol,
        error.message@ == "session closed before operation completed"@,
{
}

/// A step in progress that is interrupted because the driver failed fails with a
/// protocol error that quotes what the driver's error displayed as.
pub proof fn failed_driver_interrupts<S, E: Display>(cause: E, error: SdkError)
    requires
        call_ensures(interrupt::<S, E>, (Ok(Err(cause)),), error),
    ensures
        error.kind == ErrorKind::Protocol,
        exists|text: String| #[trigger]
            to_string_from_display_ensures::<E>(&cause, text) && error.message@
                == "session driver: "@ + text@,
{
}

/// The kind that a caller reads tells a session that ended from a lost task: it is
/// [`ErrorKind::Protocol`] exactly when the driver reported how it ended.
pub proof fn kind_tells_ended_from_lost<S, E: Display>(received: Received<S, E>, error: SdkError)
    ensures
        is_interruption(received, error) || call_ensures(interrupt::<S, E>, (received,), error)
            ==> {
            &&& error.kind == ErrorKind::Protocol <==> received is Ok
            &&& error.kind == ErrorKind::Internal <==> received is Err
        },
{
}

/// A driver that ended cleanly hands its transport back at the end of the session: the
/// very same transport, of whatever type.
pub proof fn clean_end_hands_the_transport_back<S, E: Into<SdkError>>(
    transport: S,
    result: Result<S, SdkError>,
    after: Option<Received<S, E>>,
)
    requires
        call_ensures(conclude::<S, E>, (Ok(Ok(transport)),), result) || finish_step(
            Some(Ok::<Result<S, E>, oneshot::Canceled>(Ok(transport))),
            after,
            Progress::Ready(result),
        ),
    ensures
        result == Ok::<S, SdkError>(transport),
{
}

/// A driver that failed passes its own error on at the end of the session: the error
/// is what the conversion of the driver's error returned, and nothing else.
pub proof fn failed_end_passes_the_error_on<S, E: Into<SdkError>>(
    cause: E,
    result: Result<S, SdkError>,
    after: Option<Received<S, E>>,
)
    requires
        call_ensures(conclude::<S, E>, (Ok(Err(cause)),), result) || finish_step(
            Some(Ok::<Result<S, E>, oneshot::Canceled>(Err(cause))),
            after,
            Progress::Ready(result),
        ),
    ensures
        result matches Err(error) && call_ensures(<E as Into<SdkError>>::into, (cause,), error),
{
}

/// A driver whose task was lost ends the session with an internal error that says so.
pub proof fn lost_task_fails_the_end<S, E: Into<SdkError>>(
    canceled: oneshot::Canceled,
    result: Result<S, SdkError>,
    after: Option<Received<S, E>>,
)
    requires
        call_ensures(conclude::<S, E>, (Err(canceled),), result) || finish_step(
            Some(Err::<Result<S, E>, oneshot::Canceled>(canceled)),
            after,
            Progress::Ready(result),
        ),
    ensures
        result matches Err(error) && error.kind == ErrorKind::Internal && error.message@
            == "session driver task dropped"@,
{
}

/// A supervisor made for a receiver waits at that receiver.
pub proof fn supervisor_waits_at_its_receiver<S, E>(
    receiver: oneshot::Receiver<Result<S, E>>,
    task: DriverTask<S, E>,
)
    requires
        call_ensures(DriverTask::<S, E>::new, (receiver,), task),
    ensures
        task.receiver == Some(receiver),
{
}

/// The two ends that a session is opened with come from one and the same call of the
/// channel's constructor.
pub proof fn ends_belong_together<S, E>(
    sender: oneshot::Sender<Result<S, E>>,
    task: DriverTask<S, E>,
)
    requires
        call_ensures(DriverTask::<S, E>::open, (), (sender, task)),
    ensures
        task.receiver matches Some(receiver) && call_ensures(
            oneshot::channel::<Result<S, E>>,
            (),
            (sender, receiver),
        ),
{
}

/// A delivery sends this result with this sender, and returns what the sending
/// returned: nothing, or the very same result.
pub proof fn delivery_is_a_send<S, E>(
    sender: oneshot::Sender<Result<S, E>>,
    result: Result<S, E>,
    sent: Result<(), Result<S, E>>,
)
    requires
        call_ensures(deliver::<S, E>, (sender, result), sent),
    ensures
        call_ensures(oneshot::Sender::<Result<S, E>>::send, (sender, result), sent),
        sent is Err ==> sent->Err_0 == result,
{
}

/// Work that is ready gets its own result, whatever became of the driver, and the
/// supervisor is left exactly as it was.
pub proof fn ready_work_gets_its_result<S, E: Display, T>(result: Result<T, SdkError>)
    ensures
        forall|
            task: &mut DriverTask<S, E>,
            cx: &mut Context<'_>,
            answer: Progress<Result<T, SdkError>>,
        | #[trigger]
            call_ensures(
                DriverTask::<S, E>::poll_during::<T>,
                (task, Progress::Ready(result), cx),
                answer,
            ) ==> answer == Progress::Ready(result) && *final(task) == *task,
{
}

/// Once the driver's end has been received, a pending step and the end of the session
/// fail at once with an internal error, and so they go on.
pub proof fn nothing_waits_on_a_dead_session<S, E: Display + Into<SdkError>, T>()
    ensures
        forall|
            task: &mut DriverTask<S, E>,
            cx: &mut Context<'_>,
            answer: Progress<Result<T, SdkError>>,
        |
            task.receiver is None && #[trigger] call_ensures(
                DriverTask::<S, E>::poll_during::<T>,
                (task, Progress::Pending, cx),
                answer,
            ) ==> {
                &&& (*final(task)).receiver is None
                &&& answer matches Progress::Ready(Err(error)) && error.kind == ErrorKind::Internal
                    && error.message@ == "session driver task dropped"@
            },
        forall|
            task: &mut DriverTask<S, E>,
            cx: &mut Context<'_>,
            answer: Progress<Result<S, SdkError>>,
        |
            task.receiver is None && #[trigger] call_ensures(
                DriverTask::<S, E>::poll_finish,
                (task, cx),
                answer,
            ) ==> {
                &&& (*final(task)).receiver is None
                &&& answer matches Progress::Ready(Err(error)) && error.kind == ErrorKind::Internal
                    && error.message@ == "session driver task dropped"@
            },
{
}

/// A pending step goes on waiting only if the channel itself, polled at the
/// supervisor's receiver and for the step's context, has nothing yet. If the channel
/// has something, it is taken and the step fails, whatever the outcome's type.
pub(crate) proof fn waiting_work_has_polled_the_channel<S, E: Display, T>()
    ensures
        forall|
            task: &mut DriverTask<S, E>,
            cx: &mut Context<'_>,
            answer: Progress<Result<T, SdkError>>,
        |
            task.receiver is Some && #[trigger] call_ensures(
                DriverTask::<S, E>::poll_during::<T>,
                (task, Progress::Pending, cx),
                answer,
            ) ==> exists|
                receiver: &mut oneshot::Receiver<Result<S, E>>,
                context: &mut Context<'_>,
                progress: Progress<Received<S, E>>,
            |
                {
                    &&& task.receiver == Some(*receiver)
                    &&& *context == *cx
                    &&& #[trigger] call_ensures(
                        poll_receiver::<Result<S, E>>,
                        (receiver, context),
                        progress,
                    )
                    &&& progress is Pending ==> answer is Pending
                    &&& progress is Ready ==> (answer matches Progress::Ready(failed) && failed is Err)
                },
{
    assert forall|
        task: &mut DriverTask<S, E>,
        cx: &mut Context<'_>,
        answer: Progress<Result<T, SdkError>>,
    |
        task.receiver is Some && #[trigger] call_ensures(
            DriverTask::<S, E>::poll_during::<T>,
            (task, Progress::Pending, cx),
            answer,
        ) implies exists|
        receiver: &mut oneshot::Receiver<Result<S, E>>,
        context: &mut Context<'_>,
        progress: Progress<Received<S, E>>,
    |
        {
            &&& task.receiver == Some(*receiver)
            &&& *context == *cx
            &&& #[trigger] call_ensures(
                poll_receiver::<Result<S, E>>,
                (receiver, context),
                progress,
            )
            &&& progress is Pending ==> answer is Pending
            &&& progress is Ready ==> (answer matches Progress::Ready(failed) && failed is Err)
        } by {
        let receiver = task.receiver->0;
        let progress: Progress<Received<S, E>> = if answer is Ready {
            Progress::Ready(receiver@)
        } else {
            Progress::Pending
        };
        polled_is_a_poll(receiver, *cx, progress);
    }
}

/// The end of the session is waited for only if the channel itself, polled at the
/// supervisor's receiver and for the caller's context, has nothing yet.
pub(crate) proof fn waiting_end_has_polled_the_channel<S, E: Into<SdkError>>()
    ensures
        forall|
            task: &mut DriverTask<S, E>,
            cx: &mut Context<'_>,
            answer: Progress<Result<S, SdkError>>,
        |
            task.receiver is Some && #[trigger] call_ensures(
                DriverTask::<S, E>::poll_finish,
                (task, cx),
                answer,
            ) ==> exists|
                receiver: &mut oneshot::Receiver<Result<S, E>>,
                context: &mut Context<'_>,
                progress: Progress<Received<S, E>>,
            |
                {
                    &&& task.receiver == Some(*receiver)
                    &&& *context == *cx
                    &&& #[trigger] call_ensures(
                        poll_receiver::<Result<S, E>>,
                        (receiver, context),
                        progress,
                    )
                    &&& progress is Pending <==> answer is Pending
                },
{
    assert forall|
        task: &mut DriverTask<S, E>,
        cx: &mut Context<'_>,
        answer: Progress<Result<S, SdkError>>,
    |
        task.receiver is Some && #[trigger] call_ensures(
            DriverTask::<S, E>::poll_finish,
            (task, cx),
            answer,
        ) implies exists|
        receiver: &mut oneshot::Receiver<Result<S, E>>,
        context: &mut Context<'_>,
        progress: Progress<Received<S, E>>,
    |
        {
            &&& task.receiver == Some(*receiver)
            &&& *context == *cx
            &&& #[trigger] call_ensures(
                poll_receiver::<Result<S, E>>,
                (receiver, context),
                progress,
            )
            &&& progress is Pending <==> answer is Pending
        } by {
        let receiver = task.receiver->0;
        let progress: Progress<Received<S, E>> = if answer is Ready {
            Progress::Ready(receiver@)
        } else {
            Progress::Pending
        };
        polled_is_a_poll(receiver, *cx, progress);
    }
}

/// A poll that waits takes nothing: the supervisor still waits at a receiver that
/// resolves to what it would have resolved to before.
pub proof fn waiting_takes_nothing<S, E: Display + Into<SdkError>, T>()
    ensures
        forall|task: &mut DriverTask<S, E>, cx: &mut Context<'_>| #[trigger]
            call_ensures(
                DriverTask::<S, E>::poll_during::<T>,
                (task, Progress::Pending, cx),
                Progress::Pending,
            ) ==> {
                &&& task.receiver matches Some(before)
                &&& (*final(task)).receiver matches Some(after)
                &&& after@ == before@
            },
        forall|task: &mut DriverTask<S, E>, cx: &mut Context<'_>| #[trigger]
            call_ensures(DriverTask::<S, E>::poll_finish, (task, cx), Progress::Pending) ==> {
                &&& task.receiver matches Some(before)
                &&& (*final(task)).receiver matches Some(after)
                &&& after@ == before@
            },
{
}

/// A pending step is never answered with a success. Interrupted, it fails with what
/// the receiver resolved to: the loss of the task, the close of the session, or the
/// driver's failure in its own words. The supervisor has then received it.
pub proof fn interrupted_work_tells_why<S, E: Display, T>()
    ensures
        forall|task: &mut DriverTask<S, E>, cx: &mut Context<'_>, result: Result<T, SdkError>|
            #![trigger call_ensures(
                DriverTask::<S, E>::poll_during::<T>,
                (task, Progress::Pending, cx),
                Progress::Ready(result),
            )]
            call_ensures(
                DriverTask::<S, E>::poll_during::<T>,
                (task, Progress::Pending, cx),
                Progress::Ready(result),
            ) ==> {
                &&& (*final(task)).receiver is None
                &&& result matches Err(error)
                &&& task.receiver matches Some(receiver) ==> match receiver@ {
                    Err(_) => error.kind == ErrorKind::Internal && error.message@
                        == "session driver task dropped"@,
                    Ok(Ok(_)) => error.kind == ErrorKind::Protocol && error.message@
                        == "session closed before operation completed"@,
                    Ok(Err(cause)) => error.kind == ErrorKind::Protocol && exists|text: String|
                        #[trigger]
                        to_string_from_display_ensures::<E>(&cause, text) && error.message@
                            == "session driver: "@ + text@,
                }
            },
{
}

/// The end of the session answers with what the receiver resolved to: the transport,
/// the driver's error as its conversion returned it, or the loss of the task. The
/// supervisor has then received it.
pub proof fn end_tells_how_the_driver_ended<S, E: Into<SdkError>>()
    ensures
        forall|task: &mut DriverTask<S, E>, cx: &mut Context<'_>, result: Result<S, SdkError>|
            #![trigger call_ensures(
                DriverTask::<S, E>::poll_finish,
                (task, cx),
                Progress::Ready(result),
            )]
            call_ensures(DriverTask::<S, E>::poll_finish, (task, cx), Progress::Ready(result))
                ==> {
                &&& (*final(task)).receiver is None
                &&& task.receiver matches Some(receiver) ==> match receiver@ {
                    Err(_) => result matches Err(error) && error.kind == ErrorKind::Internal
                        && error.message@ == "session driver task dropped"@,
                    Ok(Ok(transport)) => result == Ok::<S, SdkError>(transport),
                    Ok(Err(cause)) => result matches Err(error) && call_ensures(
                        <E as Into<SdkError>>::into,
                        (cause,),
                        error,
                    ),
                }
            },
{
}

/// From end to end: on a session that was opened and whose driver then delivered how
/// it ended, the end of the session gives the delivered transport back, or the
/// delivered error, converted. This holds of the supervisor as it was opened and, as
/// [`waiting_takes_nothing`] says, however often it was polled in vain since.
pub proof fn delivered_end_comes_back<S, E: Into<SdkError>>(
    sender: oneshot::Sender<Result<S, E>>,
    opened: DriverTask<S, E>,
    delivered: Result<S, E>,
)
    requires
        call_ensures(DriverTask::<S, E>::open, (), (sender, opened)),
        call_ensures(deliver::<S, E>, (sender, delivered), Ok(())),
    ensures
        forall|task: &mut DriverTask<S, E>, cx: &mut Context<'_>, result: Result<S, SdkError>|
            #![trigger call_ensures(
                DriverTask::<S, E>::poll_finish,
                (task, cx),
                Progress::Ready(result),
            )]
            task.receiver is Some && task.receiver->0@ == opened.receiver->0@ && call_ensures(
                DriverTask::<S, E>::poll_finish,
                (task, cx),
                Progress::Ready(result),
            ) ==> match delivered {
                Ok(transport) => result == Ok::<S, SdkError>(transport),
                Err(cause) => result matches Err(error) && call_ensures(
                    <E as Into<SdkError>>::into,
                    (cause,),
                    error,
                ),
            },
{
    assert(opened.receiver->0@ == Ok::<Result<S, E>, oneshot::Canceled>(delivered));
}

/// From end to end: on a session that was opened and whose driver then delivered how
/// it ended, a pending step that is interrupted fails with a protocol error that tells
/// the close of the session, or the delivered error in its own words, however often
/// it was polled in vain before.
pub proof fn delivered_end_interrupts<S, E: Display, T>(
    sender: oneshot::Sender<Result<S, E>>,
    opened: DriverTask<S, E>,
    delivered: Result<S, E>,
)
    requires
        call_ensures(DriverTask::<S, E>::open, (), (sender, opened)),
        call_ensures(deliver::<S, E>, (sender, delivered), Ok(())),
    ensures
        forall|task: &mut DriverTask<S, E>, cx: &mut Context<'_>, result: Result<T, SdkError>|
            #![trigger call_ensures(
                DriverTask::<S, E>::poll_during::<T>,
                (task, Progress::Pending, cx),
                Progress::Ready(result),
            )]
            task.receiver is Some && task.receiver->0@ == opened.receiver->0@ && call_ensures(
                DriverTask::<S, E>::poll_during::<T>,
                (task, Progress::Pending, cx),
                Progress::Ready(result),
            ) ==> {
                &&& result matches Err(error)
                &&& error.kind == ErrorKind::Protocol
                &&& match delivered {
                    Ok(_) => error.message@ == "session closed before operation completed"@,
                    Err(cause) => exists|text: String| #[trigger]
                        to_string_from_display_ensures::<E>(&cause, text) && error.message@
                            == "session driver: "@ + text@,
                }
            },
{
    assert(opened.receiver->0@ == Ok::<Result<S, E>, oneshot::Canceled>(delivered));
}

/// A driver that closed the session is logged as a warning, one that failed as an error
/// that quotes what its error displayed as.
pub proof fn notices_tell_how_the_driver_ended<S, E: Display>(
    transport: S,
    cause: E,
    text: &str,
    logged: Notice,
)
    ensures
        call_ensures(notice::<S, E>, (&Ok(transport),), logged) ==> logged.level == Level::Warn
            && logged.message@ == "session driver completed (mux closed)"@,
        call_ensures(notice::<S, E>, (&Err(cause),), logged) ==> logged.level == Level::Error
            && exists|shown: String| #[trigger]
            to_string_from_display_ensures::<E>(&cause, shown) && logged.message@
                == "session driver error: "@ + shown@,
        call_ensures(failure_notice, (text,), logged) ==> logged.level == Level::Error
            && logged.message@ == "session driver error: "@ + text@,
{
}

} // verus!
