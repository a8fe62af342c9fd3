//! The supervisor's side of a session driver that runs in the background.
use std::fmt::Display;
use std::task::Context;

use futures::channel::oneshot;
use vstd::future::FutureAdditionalSpecFns;
use vstd::prelude::*;

use crate::channel::{connected, poll, polled, Progress};
use crate::error::{displays, ErrorKind, ErrorView, SdkError};

verus! {

/// What came through the channel: how the driver ended, or nothing because the task
/// that ran it went away without saying. A driver ends with the transport that it
/// drove, handed back after the session was closed, or with an error.
pub type Received<S, E> = Result<Result<S, E>, oneshot::Canceled>;

/// The error of a task that went away without a result.
pub open spec fn task_dropped() -> ErrorView {
    ErrorView { kind: ErrorKind::Internal, message: "session driver task dropped"@ }
}

/// The error of a step that was still in progress when the session was closed.
pub open spec fn session_closed() -> ErrorView {
    ErrorView {
        kind: ErrorKind::Protocol,
        message: "session closed before operation completed"@,
    }
}

/// The error of a step that was still in progress when the driver failed with an
/// error that displays as `text`.
pub open spec fn driver_failure(text: Seq<char>) -> ErrorView {
    ErrorView { kind: ErrorKind::Protocol, message: "session driver: "@ + text }
}

/// `error` is what a step in progress fails with when `received` ends the session.
pub open spec fn is_interruption<S, E: Display>(received: Received<S, E>, error: SdkError) -> bool {
    match received {
        Err(_) => error@ == task_dropped(),
        Ok(Ok(_)) => error@ == session_closed(),
        Ok(Err(cause)) => exists|text: Seq<char>| #[trigger]
            displays(cause, text) && error@ == driver_failure(text),
    }
}

/// `answer` is the final result of a session whose driver left `received` behind:
/// the transport, the driver's own error as its conversion into the SDK's turns it
/// out, or the loss of the task. What a conversion turns out can only be learned from
/// making it.
pub open spec fn is_final_result<S, E: Into<SdkError>>(
    received: Received<S, E>,
    answer: Result<S, SdkError>,
) -> bool {
    match received {
        Err(_) => answer matches Err(error) && error@ == task_dropped(),
        Ok(Ok(transport)) => answer == Ok::<S, SdkError>(transport),
        Ok(Err(cause)) => answer matches Err(error) && call_ensures(
            <E as Into<SdkError>>::into,
            (cause,),
            error,
        ),
    }
}

/// One poll of a step in progress.
///
/// `before` and `after` are what the supervisor still has to receive, `None` once it
/// has received it. A step that is ready wins and receives nothing. A pending step
/// goes on while nothing is received, and fails once something is or was.
pub open spec fn during_step<S, E: Display, T>(
    before: Option<Received<S, E>>,
    operation: Progress<Result<T, SdkError>>,
    after: Option<Received<S, E>>,
    answer: Progress<Result<T, SdkError>>,
) -> bool {
    match operation {
        Progress::Ready(_) => after == before && answer == operation,
        Progress::Pending => match before {
            None => {
                &&& after is None
                &&& answer matches Progress::Ready(Err(error)) && error@ == task_dropped()
            },
            Some(received) => {
                ||| answer is Pending && after == before
                ||| after is None && (answer matches Progress::Ready(Err(error))
                    && is_interruption(received, error))
            },
        },
    }
}

/// One poll for the final result, with `before` and `after` as in [`during_step`].
pub open spec fn finish_step<S, E: Into<SdkError>>(
    before: Option<Received<S, E>>,
    after: Option<Received<S, E>>,
    answer: Progress<Result<S, SdkError>>,
) -> bool {
    match before {
        None => {
            &&& after is None
            &&& answer matches Progress::Ready(Err(error)) && error@ == task_dropped()
        },
        Some(received) => {
            ||| answer is Pending && after == before
            ||| after is None && (answer matches Progress::Ready(result) && is_final_result(
                received,
                result,
            ))
        },
    }
}

/// The error of a task that went away without a result.
fn dropped() -> (error: SdkError)
    ensures
        error@ == task_dropped(),
{
    SdkError::internal("session driver task dropped".to_owned())
}

/// The error for a step in progress when the driver failed with an error that
/// displays as `text`.
pub fn driver_failed(text: &str) -> (error: SdkError)
    ensures
        error@ == driver_failure(text@),
{
    let mut message = "session driver: ".to_owned();
    message.append(text);
    SdkError::protocol(message)
}

/// The error for a step in progress when `received` ends the session. A transport
/// that was handed back is dropped, and closed with that.
pub fn interrupt<S, E: Display>(received: Received<S, E>) -> (error: SdkError)
    ensures
        is_interruption(received, error),
{
    match received {
        Err(_) => dropped(),
        Ok(Ok(_)) => SdkError::protocol("session closed before operation completed".to_owned()),
        Ok(Err(cause)) => {
            let text = cause.to_string();
            assert(displays(cause, text@));
            driver_failed(text.as_str())
        },
    }
}

/// The final result of a session whose driver left `received` behind.
pub fn conclude<S, E: Into<SdkError>>(received: Received<S, E>) -> (result: Result<S, SdkError>)
    ensures
        is_final_result(received, result),
{
    match received {
        Err(_) => Err(dropped()),
        Ok(Ok(transport)) => Ok(transport),
        Ok(Err(cause)) => Err(cause.into()),
    }
}

/// The receiving end of a driver that runs in the background.
#[verifier::reject_recursive_types(S)]
#[verifier::reject_recursive_types(E)]
pub struct DriverTask<S, E> {
    /// Where the driver's result arrives; `None` once it has been received. The
    /// channel carries one result only, so to a later poll the task is simply gone.
    pub receiver: Option<oneshot::Receiver<Result<S, E>>>,
}

impl<S, E> DriverTask<S, E> {
    /// Supervises the driver whose result arrives at `receiver`.
    pub fn new(receiver: oneshot::Receiver<Result<S, E>>) -> (task: Self)
        ensures
            task.receiver == Some(receiver),
    {
        DriverTask { receiver: Some(receiver) }
    }

    /// Makes the channel for a driver that is about to start: the end that the
    /// driver's task reports to, and the supervisor's.
    pub fn open() -> (ends: (oneshot::Sender<Result<S, E>>, Self))
        ensures
            ends.1.receiver matches Some(receiver) && connected(ends.0, receiver) && call_ensures(
                oneshot::channel::<Result<S, E>>,
                (),
                (ends.0, receiver),
            ),
    {
        let (sender, receiver) = oneshot::channel();
        (sender, DriverTask::new(receiver))
    }

    /// Polls a step in progress, where `operation` is what the step itself answered
    /// to this poll.
    ///
    /// A dead session cannot finish a step that is still pending.
    pub fn poll_during<T>(
        &mut self,
        operation: Progress<Result<T, SdkError>>,
        cx: &mut Context<'_>,
    ) -> (answer: Progress<Result<T, SdkError>>) where E: Display
        ensures
            during_step(
                match old(self).receiver {
                    Some(receiver) => Some(receiver@),
                    None => None,
                },
                operation,
                match final(self).receiver {
                    Some(receiver) => Some(receiver@),
                    None => None,
                },
                answer,
            ),
            operation is Ready ==> *final(self) == *old(self),
            operation is Pending ==> (old(self).receiver matches Some(receiver) ==> polled(
                receiver,
                *old(cx),
                if answer is Ready {
                    Progress::Ready(receiver@)
                } else {
                    Progress::Pending
                },
            )),
    {
        match operation {
            Progress::Ready(result) => Progress::Ready(result),
            Progress::Pending => match self.receive(cx) {
                None => Progress::Ready(Err(dropped())),
                Some(Progress::Ready(received)) => Progress::Ready(Err(interrupt(received))),
                Some(Progress::Pending) => Progress::Pending,
            },
        }
    }

    /// Polls for the final result of the session.
    pub fn poll_finish(&mut self, cx: &mut Context<'_>) -> (answer: Progress<
        Result<S, SdkError>,
    >) where E: Into<SdkError>
        ensures
            finish_step(
                match old(self).receiver {
                    Some(receiver) => Some(receiver@),
                    None => None,
                },
                match final(self).receiver {
                    Some(receiver) => Some(receiver@),
                    None => None,
                },
                answer,
            ),
            old(self).receiver matches Some(receiver) ==> polled(
                receiver,
                *old(cx),
                if answer is Ready {
                    Progress::Ready(receiver@)
                } else {
                    Progress::Pending
                },
            ),
    {
        match self.receive(cx) {
            None => Progress::Ready(Err(dropped())),
            Some(Progress::Ready(received)) => Progress::Ready(conclude(received)),
            Some(Progress::Pending) => Progress::Pending,
        }
    }

    /// Polls the receiver and lets go of it when it is ready; `None` if that was
    /// done before.
    fn receive(&mut self, cx: &mut Context<'_>) -> (progress: Option<Progress<Received<S, E>>>)
        ensures
            match old(self).receiver {
                None => progress is None && final(self).receiver is None,
                Some(receiver) => {
                    &&& progress matches Some(answer)
                    &&& polled(receiver, *old(cx), answer)
                    &&& match answer {
                        Progress::Ready(received) => final(self).receiver is None && received
                            == receiver@,
                        Progress::Pending => final(self).receiver matches Some(after) && after@
                            == receiver@,
                    }
                },
            },
    {
        let progress = match &mut self.receiver {
            None => {
                return None;
            },
            Some(receiver) => poll(receiver, cx),
        };
        if let Progress::Ready(_) = &progress {
            self.receiver = None;
        }
        Some(progress)
    }
}

/// How loudly a driver's end is logged.
#[derive(Debug, Clone, Copy, PartialEq, Eq, Structural)]
pub enum Level {
    Warn,
    Error,
}

/// What is logged when a driver ends.
#[derive(Debug)]
pub struct Notice {
    pub level: Level,
    pub message: String,
}

/// The notice of a driver that failed with an error that displays as `text`.
pub fn failure_notice(text: &str) -> (notice: Notice)
    ensures
        notice.level == Level::Error,
        notice.message@ == "session driver error: "@ + text@,
{
    let mut message = "session driver error: ".to_owned();
    message.append(text);
    Notice { level: Level::Error, message }
}

/// The notice of a driver that ended with `result`.
pub fn notice<S, E: Display>(result: &Result<S, E>) -> (notice: Notice)
    ensures
        match *result {
            Ok(_) => notice.level == Level::Warn && notice.message@
                == "session driver completed (mux closed)"@,
            Err(cause) => notice.level == Level::Error && exists|text: Seq<char>| #[trigger]
                displays(cause, text) && notice.message@ == "session driver error: "@ + text,
        },
{
    match result {
        Ok(_) => Notice {
            level: Level::Warn,
            message: "session driver completed (mux closed)".to_owned(),
        },
        Err(cause) => {
            let text = cause.to_string();
            assert(displays(*cause, text@));
            failure_notice(text.as_str())
        },
    }
}

/// Reports how the driver ended to its supervisor. If the supervisor is gone, the
/// result comes back.
pub fn deliver<S, E>(sender: oneshot::Sender<Result<S, E>>, result: Result<S, E>) -> (sent:
    Result<(), Result<S, E>>)
    ensures
        call_ensures(oneshot::Sender::<Result<S, E>>::send, (sender, result), sent),
        sent matches Err(back) ==> back == result,
        sent is Ok ==> forall|receiver: oneshot::Receiver<Result<S, E>>| #[trigger]
            call_ensures(oneshot::channel::<Result<S, E>>, (), (sender, receiver)) ==> receiver@ is Ok
                && receiver@->Ok_0 == result,
{
    sender.send(result)
}

} // verus!
