use lolcap::recorder::{GameRecorder, StartAction, StartStep, StopAction, StopStep};

fn recorder(names: &[&str]) -> GameRecorder {
    let entries: Vec<Option<String>> = names.iter().map(|n| Some(n.to_string())).collect();
    GameRecorder::new("Game", "./recordings", &entries, 9)
}

/// Names an action of a stop, and gives the step that it leads to.
fn stop_step(action: StopAction) -> (String, Option<StopStep>) {
    match action {
        StopAction::UnhookKeyboard(h) => (format!("keyboard {}", h), Some(StopStep::KeyboardUnhooked)),
        StopAction::UnhookMouse(h) => (format!("mouse {}", h), Some(StopStep::MouseUnhooked)),
        StopAction::WriteRows(b) => (format!("write {}", b.batch.num_rows()), Some(StopStep::RowsWritten)),
        StopAction::FlushRows => ("flush".to_string(), Some(StopStep::RowsFlushed)),
        StopAction::CloseWriter => ("close".to_string(), Some(StopStep::WriterClosed)),
        StopAction::Finished => ("finished".to_string(), None),
    }
}

fn stop(r: &mut GameRecorder) -> Vec<String> {
    let mut log = Vec::new();
    let mut done = StopStep::Begin;
    loop {
        let (name, next) = stop_step(r.stop_recording(done));
        log.push(name);
        match next {
            Some(step) => done = step,
            None => return log,
        }
    }
}

fn start(r: &mut GameRecorder, now: u128, keyboard: usize, mouse: usize) -> Vec<String> {
    let mut log = Vec::new();
    let mut done = StartStep::Begin;
    loop {
        done = match r.start_recording(done) {
            StartAction::DropFinishedThreads => {
                log.push("drop".to_string());
                StartStep::Stopping(StopStep::Begin)
            }
            StartAction::Stop(action) => {
                let (name, next) = stop_step(action);
                log.push(name);
                StartStep::Stopping(next.unwrap())
            }
            StartAction::CreateFile(path) => {
                log.push(format!("create {}", path));
                StartStep::FileCreated
            }
            StartAction::OpenWriter => {
                log.push("open".to_string());
                StartStep::WriterOpened(now)
            }
            StartAction::HookKeyboard => {
                log.push("hook keyboard".to_string());
                StartStep::KeyboardHooked(keyboard)
            }
            StartAction::HookMouse => {
                log.push("hook mouse".to_string());
                StartStep::MouseHooked(mouse)
            }
            StartAction::StartCapture => {
                log.push("capture".to_string());
                StartStep::CaptureStarted
            }
            StartAction::Finished => return log,
        };
    }
}

#[test]
fn a_new_recorder_is_at_rest() {
    let r = recorder(&[]);
    assert_eq!(r.state.window_title, "Game");
    assert_eq!(r.state.output_directory, "./recordings");
    assert_eq!(r.state.session_id, 0);
    assert_eq!(r.state.last_window_change, 9);
    assert!(!r.state.is_recording && !r.state.capture_ready);
    assert_eq!((r.keyboard_hook, r.mouse_hook), (None, None));
    assert_eq!(r.log.start_time, None);
    assert!(!r.log.writer_open);
    assert_eq!(r.log.buffer.len(), 0);
}

#[test]
fn a_new_recorder_follows_what_is_on_disk() {
    assert_eq!(recorder(&["4_inputs.parquet", "4.mp4", "2_inputs.parquet"]).state.session_id, 5);
    assert_eq!(recorder(&["9.mp4"]).state.session_id, 0);
}

#[test]
fn stopping_at_rest_does_nothing() {
    let mut r = recorder(&[]);
    assert_eq!(stop(&mut r), vec!["finished"]);
}

#[test]
fn a_first_start() {
    let mut r = recorder(&["6_inputs.parquet"]);
    let log = start(&mut r, 100, 11, 22);
    assert_eq!(
        log,
        vec![
            "drop",
            "create ./recordings/7_inputs.parquet",
            "open",
            "hook keyboard",
            "hook mouse",
            "capture",
        ]
    );
    assert!(r.state.is_recording);
    assert_eq!((r.keyboard_hook, r.mouse_hook), (Some(11), Some(22)));
    assert_eq!(r.log.start_time, Some(100));
    assert!(r.log.writer_open);
}

#[test]
fn a_stop_writes_what_waits() {
    let mut r = recorder(&[]);
    start(&mut r, 0, 11, 22);
    for i in 0..3 {
        assert!(r.log.keyboard_hook_proc(0, 1000, i, 0).is_none());
    }
    assert_eq!(
        stop(&mut r),
        vec!["keyboard 11", "mouse 22", "write 3", "flush", "close", "finished"]
    );
    assert!(!r.state.is_recording);
    assert_eq!((r.keyboard_hook, r.mouse_hook), (None, None));
    assert_eq!(r.log.start_time, None);
    assert!(!r.log.writer_open);
    assert_eq!(r.log.buffer.len(), 0);
    assert_eq!(stop(&mut r), vec!["finished"]);
}

#[test]
fn a_stop_without_rows_only_closes() {
    let mut r = recorder(&[]);
    start(&mut r, 0, 1, 2);
    assert_eq!(stop(&mut r), vec!["keyboard 1", "mouse 2", "close", "finished"]);
}

#[test]
fn a_start_stops_the_recording_before() {
    let mut r = recorder(&[]);
    start(&mut r, 0, 1, 2);
    let _ = r.log.mouse_hook_proc(0, 5000, 0, 3, 4, 0);
    r.state.session_id = 1;
    assert_eq!(
        start(&mut r, 50, 3, 4),
        vec![
            "drop",
            "keyboard 1",
            "mouse 2",
            "write 1",
            "flush",
            "close",
            "create ./recordings/1_inputs.parquet",
            "open",
            "hook keyboard",
            "hook mouse",
            "capture",
        ]
    );
    assert_eq!(r.log.start_time, Some(50));
    assert_eq!(r.log.buffer.len(), 0);
}

#[test]
fn a_stop_that_fails_keeps_its_rows() {
    let mut r = recorder(&[]);
    start(&mut r, 0, 1, 2);
    let _ = r.log.mouse_hook_proc(0, 5000, 0, 3, 4, 0);
    assert!(matches!(r.stop_recording(StopStep::Begin), StopAction::UnhookKeyboard(1)));
    assert!(!r.state.is_recording);
    assert_eq!((r.keyboard_hook, r.mouse_hook), (None, Some(2)));
    assert_eq!(r.log.buffer.len(), 1);
    assert!(matches!(r.stop_recording(StopStep::MouseUnhooked), StopAction::WriteRows(_)));
    assert!(matches!(r.stop_recording(StopStep::RowsFlushed), StopAction::CloseWriter));
    assert!(!r.log.writer_open);
    assert_eq!(r.log.buffer.len(), 1);
    assert_eq!(r.log.start_time, Some(0));
}

#[test]
fn a_start_records_before_the_hooks_are_there() {
    let mut r = recorder(&[]);
    assert!(matches!(r.start_recording(StartStep::WriterOpened(8)), StartAction::HookKeyboard));
    assert!(r.state.is_recording);
    assert_eq!(r.keyboard_hook, None);
    assert_eq!(r.log.start_time, Some(8));
}

#[test]
fn every_event_of_a_recording_is_written() {
    let mut r = recorder(&[]);
    start(&mut r, 0, 1, 2);
    let mut written = 0;
    for i in 0..2500u32 {
        if let Some(batch) = r.log.mouse_hook_proc(0, 1000, i, 0, 0, 0) {
            written += batch.batch.num_rows();
        }
    }
    assert_eq!(written, 2000);
    assert_eq!(stop(&mut r)[2], "write 500");
}

#[test]
fn a_start_that_fails_keeps_what_was_done() {
    let mut r = recorder(&[]);
    start(&mut r, 0, 1, 2);
    stop(&mut r);
    assert!(matches!(r.start_recording(StartStep::Begin), StartAction::DropFinishedThreads));
    let step = StartStep::Stopping(StopStep::Begin);
    assert!(matches!(r.start_recording(step), StartAction::CreateFile(_)));
    assert!(!r.state.is_recording && !r.log.writer_open);
    assert!(matches!(r.start_recording(StartStep::FileCreated), StartAction::OpenWriter));
    assert!(!r.state.is_recording && !r.log.writer_open);
    assert_eq!((r.log.start_time, r.keyboard_hook), (None, None));
    assert!(matches!(r.start_recording(StartStep::WriterOpened(5)), StartAction::HookKeyboard));
    assert!(r.state.is_recording && r.log.writer_open);
    assert_eq!((r.keyboard_hook, r.mouse_hook), (None, None));
    assert!(matches!(r.start_recording(StartStep::KeyboardHooked(7)), StartAction::HookMouse));
    assert!(r.state.is_recording);
    assert_eq!((r.keyboard_hook, r.mouse_hook), (Some(7), None));
}
