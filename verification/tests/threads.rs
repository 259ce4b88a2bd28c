use lolcap::error::RecorderError;
use lolcap::threads::{ThreadAction, ThreadEvent, ThreadSweep};

#[derive(Clone, Copy, PartialEq, Debug)]
enum Status {
    Running(u32),
    Ended,
    Panicked,
}

/// Drives a whole pass, and returns the threads that are left and its message.
fn check(reported: Option<&str>, threads: &[Status], recording: bool) -> (Vec<Status>, Option<String>) {
    let mut left = threads.to_vec();
    let mut sweep = ThreadSweep::new(left.len());
    let mut event = ThreadEvent::Begin(reported.map(|s| s.to_string()));
    loop {
        event = match sweep.check_thread_errors(event, recording) {
            ThreadAction::Poll(i) => ThreadEvent::Polled(!matches!(left[i], Status::Running(_))),
            ThreadAction::Join(i) => match left.remove(i) {
                Status::Panicked => ThreadEvent::Joined(Err("Any { .. }".to_string())),
                _ => ThreadEvent::Joined(Ok(())),
            },
            ThreadAction::Finished(Ok(())) => return (left, None),
            ThreadAction::Finished(Err(e)) => return (left, Some(e.message())),
        };
    }
}

#[test]
fn no_threads_and_no_recording() {
    assert_eq!(check(None, &[], false), (vec![], None));
}

#[test]
fn a_recording_needs_a_thread() {
    let message = Some("All recording threads terminated unexpectedly".to_string());
    assert_eq!(check(None, &[], true), (vec![], message.clone()));
    assert_eq!(check(None, &[Status::Ended, Status::Ended], true), (vec![], message));
    assert_eq!(check(None, &[Status::Ended, Status::Ended], false), (vec![], None));
}

#[test]
fn finished_threads_are_dropped() {
    let threads = [Status::Ended, Status::Running(1), Status::Ended, Status::Running(2), Status::Ended];
    let left = vec![Status::Running(1), Status::Running(2)];
    assert_eq!(check(None, &threads, true), (left.clone(), None));
    assert_eq!(check(None, &threads, false), (left, None));
}

#[test]
fn a_reported_error_comes_first() {
    let threads = [Status::Panicked, Status::Running(1)];
    let message = Some("Recording thread error: no window".to_string());
    assert_eq!(check(Some("no window"), &threads, true), (threads.to_vec(), message));
}

#[test]
fn the_first_panic_ends_the_pass() {
    let threads = [
        Status::Ended,
        Status::Running(1),
        Status::Panicked,
        Status::Ended,
        Status::Panicked,
        Status::Running(2),
    ];
    let left = vec![Status::Running(1), Status::Ended, Status::Panicked, Status::Running(2)];
    let message = Some("Recording thread panicked: Any { .. }".to_string());
    assert_eq!(check(None, &threads, true), (left, message));
}

#[test]
fn messages_of_failures() {
    assert_eq!(RecorderError::Thread("x".to_string()).message(), "Recording thread error: x");
    assert_eq!(RecorderError::Panicked("y".to_string()).message(), "Recording thread panicked: y");
    assert_eq!(RecorderError::NoThreads.message(), "All recording threads terminated unexpectedly");
    assert_eq!(
        RecorderError::NoWindowSize.message(),
        "Failed to get valid window size after 10 retries"
    );
}
