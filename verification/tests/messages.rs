use lolcap::focus::FocusChange;
use lolcap::messages::{
    message_for, run, window_proc, LoopAction, LoopEvent, WindowAction, WM_DESTROY, WM_USER,
};

fn on(message: u32, wparam: usize) -> LoopAction {
    run(LoopEvent::Message { message, wparam })
}

#[test]
fn messages_are_those_of_the_system() {
    assert_eq!(WM_USER, 0x0400);
    assert_eq!(WM_DESTROY, 0x0002);
}

#[test]
fn messages_of_the_recorder() {
    assert_eq!(on(1024, 1), LoopAction::Start);
    assert_eq!(on(1024, 0), LoopAction::Stop);
    assert_eq!(on(1024, 2), LoopAction::CheckThreads);
    assert_eq!(on(1024, usize::MAX), LoopAction::CheckThreads);
}

#[test]
fn other_messages_are_dispatched() {
    assert_eq!(on(0, 1), LoopAction::Dispatch);
    assert_eq!(on(1025, 0), LoopAction::Dispatch);
    assert_eq!(on(2, 0), LoopAction::Dispatch);
}

#[test]
fn the_loop_checks_threads_after_each_message() {
    assert_eq!(run(LoopEvent::Begin), LoopAction::GetMessage);
    assert_eq!(run(LoopEvent::Handled), LoopAction::CheckThreads);
    assert_eq!(run(LoopEvent::Checked), LoopAction::GetMessage);
    assert_eq!(run(LoopEvent::Quit), LoopAction::Return);
}

#[test]
fn a_destroyed_window_ends_the_loop() {
    assert_eq!(window_proc(2), WindowAction::Quit);
    assert_eq!(window_proc(3), WindowAction::Default);
    assert_eq!(window_proc(1024), WindowAction::Default);
}

#[test]
fn what_is_posted_arrives() {
    assert_eq!(message_for(FocusChange::Start).map(|p| on(WM_USER, p)), Some(LoopAction::Start));
    assert_eq!(message_for(FocusChange::Stop).map(|p| on(WM_USER, p)), Some(LoopAction::Stop));
    for change in [
        FocusChange::OtherEvent,
        FocusChange::Untitled,
        FocusChange::TaskSwitcher,
        FocusChange::Debounced,
    ] {
        assert_eq!(message_for(change), None);
    }
}
