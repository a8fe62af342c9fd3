use std::fmt::{Display, Formatter};
use std::future::{poll_fn, Future};
use std::pin::Pin;
use std::sync::atomic::{AtomicUsize, Ordering};
use std::sync::Arc;
use std::task::{Context, Poll, Wake, Waker};

use futures::channel::oneshot;
use futures::executor::block_on;
use futures::io::Cursor;
use sdk_core::channel::Progress;
use sdk_core::driver::{
    conclude, deliver, driver_failed, failure_notice, interrupt, notice, DriverTask, Level,
    Received,
};
use sdk_core::error::{ErrorKind, SdkError};

type Socket = Cursor<Vec<u8>>;

fn socket() -> Socket {
    Cursor::new(Vec::<u8>::new())
}

/// A socket that can be told from others.
fn marked() -> Socket {
    Cursor::new(vec![7, 8, 9])
}

/// The error of a driver whose transport failed.
#[derive(Debug)]
struct Failure(std::io::Error);

impl Display for Failure {
    fn fmt(&self, f: &mut Formatter<'_>) -> std::fmt::Result {
        self.0.fmt(f)
    }
}

impl From<std::io::Error> for Failure {
    fn from(error: std::io::Error) -> Self {
        Failure(error)
    }
}

impl From<Failure> for SdkError {
    fn from(failure: Failure) -> Self {
        SdkError::protocol(format!("transport: {failure}"))
    }
}

fn failure(text: &str) -> Failure {
    std::io::Error::other(text.to_string()).into()
}

fn from_poll<T>(poll: Poll<T>) -> Progress<T> {
    match poll {
        Poll::Ready(output) => Progress::Ready(output),
        Poll::Pending => Progress::Pending,
    }
}

fn into_poll<T>(progress: Progress<T>) -> Poll<T> {
    match progress {
        Progress::Ready(output) => Poll::Ready(output),
        Progress::Pending => Poll::Pending,
    }
}

fn during<T>(
    task: &mut DriverTask<Socket, Failure>,
    operation: impl Future<Output = Result<T, SdkError>> + Unpin,
) -> Result<T, SdkError> {
    let mut operation = operation;
    block_on(poll_fn(|cx| {
        let progress = from_poll(Pin::new(&mut operation).poll(cx));
        into_poll(task.poll_during(progress, cx))
    }))
}

fn finish(task: DriverTask<Socket, Failure>) -> Result<Socket, SdkError> {
    let mut task = task;
    block_on(poll_fn(|cx| into_poll(task.poll_finish(cx))))
}

fn pending() -> std::future::Pending<Result<(), SdkError>> {
    std::future::pending()
}

/// Counts how often it is woken.
struct Count(AtomicUsize);

impl Wake for Count {
    fn wake(self: Arc<Self>) {
        self.0.fetch_add(1, Ordering::SeqCst);
    }
}

fn counter() -> (Arc<Count>, Waker) {
    let count = Arc::new(Count(AtomicUsize::new(0)));
    (count.clone(), Waker::from(count))
}

#[test]
fn dead_driver_interrupts_pending_work() {
    for result in [
        Ok(socket()),
        Err(std::io::Error::other("disconnected").into()),
    ] {
        let (sender, receiver) = oneshot::channel();
        sender.send(result).ok().unwrap();
        let error = during(&mut DriverTask::new(receiver), pending()).unwrap_err();
        assert!(error.to_string().contains("session"));
    }
}

#[test]
fn completed_work_preserves_a_clean_driver_result_for_finish() {
    let (sender, receiver) = oneshot::channel();
    let mut driver = DriverTask::new(receiver);
    // Even if completion is already queued, ready protocol work wins.
    sender.send(Ok(socket())).ok().unwrap();
    assert_eq!(
        during(&mut driver, std::future::ready(Ok(42))).unwrap(),
        42
    );
    finish(driver).unwrap();
}

#[test]
fn interruptions_carry_kind_and_text() {
    let closed = interrupt::<Socket, Failure>(Ok(Ok(marked())));
    assert_eq!(closed.kind, ErrorKind::Protocol);
    assert_eq!(closed.message, "session closed before operation completed");

    let failed = interrupt::<Socket, Failure>(Ok(Err(failure("broken pipe"))));
    assert_eq!(failed.kind, ErrorKind::Protocol);
    assert_eq!(failed.message, "session driver: broken pipe");

    let dropped = interrupt::<Socket, Failure>(Err(oneshot::Canceled));
    assert_eq!(dropped.kind, ErrorKind::Internal);
    assert_eq!(dropped.message, "session driver task dropped");
}

#[test]
fn conclusions_carry_the_transport_or_the_reason() {
    assert_eq!(conclude::<Socket, Failure>(Ok(Ok(marked()))).unwrap().into_inner(), [7, 8, 9]);

    let failed = conclude::<Socket, Failure>(Ok(Err(failure("broken pipe")))).unwrap_err();
    assert_eq!(failed.kind, ErrorKind::Protocol);
    assert_eq!(failed.message, "transport: broken pipe");

    let dropped = conclude::<Socket, Failure>(Err(oneshot::Canceled)).unwrap_err();
    assert_eq!(dropped.kind, ErrorKind::Internal);
    assert_eq!(dropped.message, "session driver task dropped");
}

#[test]
fn dropped_task_interrupts_pending_work() {
    let (sender, mut task) = DriverTask::<Socket, Failure>::open();
    drop(sender);
    let error = during(&mut task, pending()).unwrap_err();
    assert_eq!(error.kind, ErrorKind::Internal);
    assert_eq!(error.to_string(), "session driver task dropped");
}

#[test]
fn dropped_task_fails_finish() {
    let (sender, task) = DriverTask::<Socket, Failure>::open();
    drop(sender);
    let error = finish(task).unwrap_err();
    assert_eq!(error.kind, ErrorKind::Internal);
    assert_eq!(error.to_string(), "session driver task dropped");
}

#[test]
fn delivered_transport_is_what_finish_returns() {
    let (sender, task) = DriverTask::<Socket, Failure>::open();
    deliver(sender, Ok(marked())).unwrap();
    assert_eq!(finish(task).unwrap().into_inner(), [7, 8, 9]);
}

#[test]
fn delivered_error_is_what_finish_returns() {
    let (sender, task) = DriverTask::<Socket, Failure>::open();
    deliver(sender, Err(failure("disconnected"))).unwrap();
    let error = finish(task).unwrap_err();
    assert_eq!(error.kind, ErrorKind::Protocol);
    assert_eq!(error.to_string(), "transport: disconnected");
}

#[test]
fn delivered_error_interrupts_pending_work() {
    let (sender, mut task) = DriverTask::<Socket, Failure>::open();
    deliver(sender, Err(failure("disconnected"))).unwrap();
    let error = during(&mut task, pending()).unwrap_err();
    assert_eq!(error.kind, ErrorKind::Protocol);
    assert_eq!(error.to_string(), "session driver: disconnected");
}

#[test]
fn result_comes_back_when_the_supervisor_is_gone() {
    let (sender, task) = DriverTask::<Socket, Failure>::open();
    drop(task);
    assert_eq!(deliver(sender, Ok(marked())).unwrap_err().unwrap().into_inner(), [7, 8, 9]);
}

#[test]
fn failed_work_keeps_its_own_error_and_the_driver_result() {
    let (sender, mut task) = DriverTask::<Socket, Failure>::open();
    deliver(sender, Ok(marked())).unwrap();
    let own = SdkError::protocol("bad response".to_string());
    let error = during(&mut task, std::future::ready(Err::<(), SdkError>(own))).unwrap_err();
    assert_eq!(error.kind, ErrorKind::Protocol);
    assert_eq!(error.message, "bad response");
    assert_eq!(finish(task).unwrap().into_inner(), [7, 8, 9]);
}

#[test]
fn dead_session_stays_dead() {
    let (sender, mut task) = DriverTask::<Socket, Failure>::open();
    deliver(sender, Ok(marked())).unwrap();
    let first = during(&mut task, pending()).unwrap_err();
    assert_eq!(first.message, "session closed before operation completed");
    for _ in 0..2 {
        let error = during(&mut task, pending()).unwrap_err();
        assert_eq!(error.kind, ErrorKind::Internal);
        assert_eq!(error.message, "session driver task dropped");
    }
    // Work that is ready still gets its result.
    assert_eq!(during(&mut task, std::future::ready(Ok(1))).unwrap(), 1);
    assert_eq!(
        finish(task).unwrap_err().message,
        "session driver task dropped"
    );
}

/// A supervisor that has received the driver's result answers further polls as the
/// channel itself does.
#[test]
fn used_up_supervisor_agrees_with_a_used_up_channel() {
    let (_, waker) = counter();
    let mut cx = Context::from_waker(&waker);

    let (sender, mut receiver) = oneshot::channel::<Result<Socket, Failure>>();
    sender.send(Ok(marked())).ok().unwrap();
    let mut task = DriverTask::<Socket, Failure>::open();
    deliver(task.0, Ok(marked())).unwrap();

    let mut answers: Vec<(String, String)> = Vec::new();
    for _ in 0..3 {
        let received: Received<Socket, Failure> = match Pin::new(&mut receiver).poll(&mut cx) {
            Poll::Ready(received) => received,
            Poll::Pending => panic!("the channel kept waiting"),
        };
        let answer = match task.1.poll_during::<()>(Progress::Pending, &mut cx) {
            Progress::Ready(answer) => answer,
            Progress::Pending => panic!("the supervisor kept waiting"),
        };
        answers.push((
            interrupt(received).message,
            answer.unwrap_err().message,
        ));
    }
    for (channel, supervisor) in answers {
        assert_eq!(channel, supervisor);
    }
}

#[test]
fn waiting_work_goes_on_until_the_driver_ends() {
    let (count, waker) = counter();
    let mut cx = Context::from_waker(&waker);
    let (sender, mut task) = DriverTask::<Socket, Failure>::open();

    for _ in 0..3 {
        assert!(matches!(
            task.poll_during::<()>(Progress::Pending, &mut cx),
            Progress::Pending
        ));
    }
    assert!(matches!(task.poll_finish(&mut cx), Progress::Pending));
    assert_eq!(count.0.load(Ordering::SeqCst), 0);

    // The end of the driver wakes whoever waits.
    deliver(sender, Err(failure("late"))).unwrap();
    assert_eq!(count.0.load(Ordering::SeqCst), 1);
    match task.poll_during::<()>(Progress::Pending, &mut cx) {
        Progress::Ready(answer) => {
            assert_eq!(answer.unwrap_err().message, "session driver: late")
        }
        Progress::Pending => panic!("the step kept waiting after the session ended"),
    }
}

#[test]
fn waiting_and_finished_work_preserve_the_result() {
    let (_, waker) = counter();
    let mut cx = Context::from_waker(&waker);
    let (sender, mut task) = DriverTask::<Socket, Failure>::open();

    assert!(matches!(
        task.poll_during::<u8>(Progress::Pending, &mut cx),
        Progress::Pending
    ));
    assert!(matches!(
        task.poll_during(Progress::Ready(Ok(1)), &mut cx),
        Progress::Ready(Ok(1))
    ));
    assert!(matches!(
        task.poll_during::<u8>(Progress::Pending, &mut cx),
        Progress::Pending
    ));
    deliver(sender, Ok(marked())).unwrap();
    assert!(matches!(
        task.poll_during(Progress::Ready(Ok(2)), &mut cx),
        Progress::Ready(Ok(2))
    ));
    assert_eq!(finish(task).unwrap().into_inner(), [7, 8, 9]);
}

#[test]
fn notices_tell_a_closed_session_from_a_failed_one() {
    let closed = notice::<Socket, Failure>(&Ok(marked()));
    assert_eq!(closed.level, Level::Warn);
    assert_eq!(closed.message, "session driver completed (mux closed)");

    let failed = notice::<Socket, Failure>(&Err(failure("broken pipe")));
    assert_eq!(failed.level, Level::Error);
    assert_eq!(failed.message, "session driver error: broken pipe");
}

#[test]
fn errors_carry_their_kind_and_text() {
    let internal = SdkError::internal("lost".to_string());
    assert_eq!(internal.kind, ErrorKind::Internal);
    assert_eq!(internal.to_string(), "lost");

    let protocol = SdkError::protocol("ended".to_string());
    assert_eq!(protocol.kind, ErrorKind::Protocol);
    assert_eq!(protocol.to_string(), "ended");
}

#[test]
fn driver_errors_are_told_by_their_text() {
    let failed = driver_failed("no route");
    assert_eq!(failed.kind, ErrorKind::Protocol);
    assert_eq!(failed.message, "session driver: no route");

    let logged = failure_notice("no route");
    assert_eq!(logged.level, Level::Error);
    assert_eq!(logged.message, "session driver error: no route");
}

/// Steps with results of different types, after the session was found dead.
#[test]
fn dead_session_stays_dead_across_kinds_of_steps() {
    let (sender, mut task) = DriverTask::<Socket, Failure>::open();
    deliver(sender, Err(failure("cut"))).unwrap();
    let setup = during(&mut task, pending()).unwrap_err();
    assert_eq!(setup.message, "session driver: cut");
    let request = during(&mut task, std::future::pending::<Result<u16, SdkError>>()).unwrap_err();
    assert_eq!(request.message, "session driver task dropped");
    let reveal = during(&mut task, std::future::pending::<Result<String, SdkError>>()).unwrap_err();
    assert_eq!(reveal.message, "session driver task dropped");
}
