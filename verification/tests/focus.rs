use lolcap::focus::{
    get_window_title, is_task_switcher, title_buffer_len, FocusChange, DEBOUNCE,
    EVENT_SYSTEM_FOREGROUND, WINEVENT_FLAGS,
};
use lolcap::session::RecorderState;

const MS: u128 = 1_000_000;

fn title(s: &str) -> Option<String> {
    Some(s.to_string())
}

fn state() -> RecorderState {
    RecorderState::new("Game", "d", 4, 1000 * MS)
}

#[test]
fn constants_of_the_watcher() {
    assert_eq!(WINEVENT_FLAGS, 2);
    assert_eq!(EVENT_SYSTEM_FOREGROUND, 3);
    assert_eq!(DEBOUNCE, 500 * MS);
}

#[test]
fn title_buffers_have_room_for_a_terminator() {
    assert_eq!(title_buffer_len(0), None);
    assert_eq!(title_buffer_len(1), Some(2));
    assert_eq!(title_buffer_len(29), Some(30));
    assert_eq!(title_buffer_len(i32::MAX), Some(1 << 31));
}

#[test]
fn titles_are_decoded_up_to_what_was_copied() {
    let mut buffer: Vec<u16> = "Gäme 𝄞".encode_utf16().collect();
    let n = buffer.len() as i32;
    buffer.push(0);
    assert_eq!(get_window_title(&buffer, n), title("Gäme 𝄞"));
    assert_eq!(get_window_title(&buffer, n - 1), title("Gäme \u{FFFD}"));
    assert_eq!(get_window_title(&buffer, 4), title("Gäme"));
    assert_eq!(get_window_title(&buffer, 0), None);
    assert_eq!(get_window_title(&vec![0xDC00, 65], 2), title("\u{FFFD}A"));
}

#[test]
fn other_events_are_ignored() {
    let mut s = state();
    assert_eq!(s.win_event_proc(2, &title("Game"), 9000 * MS), FocusChange::OtherEvent);
    assert_eq!((s.session_id, s.last_window_change), (4, 1000 * MS));
}

#[test]
fn windows_without_a_title_are_ignored() {
    let mut s = state();
    assert_eq!(s.win_event_proc(3, &None, 9000 * MS), FocusChange::Untitled);
    assert_eq!((s.session_id, s.last_window_change), (4, 1000 * MS));
}

#[test]
fn task_switcher_is_ignored() {
    let mut s = state();
    assert_eq!(s.win_event_proc(3, &title("Task Switching"), 9000 * MS), FocusChange::TaskSwitcher);
    assert_eq!((s.session_id, s.last_window_change), (4, 1000 * MS));
    assert_eq!(s.win_event_proc(3, &title("task switching"), 9000 * MS), FocusChange::Stop);
}

#[test]
fn target_starts_a_new_session() {
    let mut s = state();
    assert_eq!(s.win_event_proc(3, &title("Game"), 1500 * MS), FocusChange::Start);
    assert_eq!((s.session_id, s.last_window_change), (5, 1500 * MS));
    assert!(!s.is_recording);
}

#[test]
fn target_is_debounced() {
    let mut s = state();
    assert_eq!(s.win_event_proc(3, &title("Game"), 1500 * MS - 1), FocusChange::Debounced);
    assert_eq!((s.session_id, s.last_window_change), (4, 1500 * MS - 1));
    assert_eq!(s.win_event_proc(3, &title("Game"), 1900 * MS), FocusChange::Debounced);
    assert_eq!(s.win_event_proc(3, &title("Game"), 2400 * MS), FocusChange::Start);
    assert_eq!(s.session_id, 5);
}

#[test]
fn a_clock_that_stands_still_debounces() {
    let mut s = state();
    assert_eq!(s.win_event_proc(3, &title("Game"), 0), FocusChange::Debounced);
    assert_eq!(s.last_window_change, 0);
}

#[test]
fn other_windows_stop_at_once() {
    let mut s = state();
    assert_eq!(s.win_event_proc(3, &title("Mail"), 1000 * MS), FocusChange::Stop);
    assert_eq!(s.win_event_proc(3, &title("Mail"), 1001 * MS), FocusChange::Stop);
    assert_eq!((s.session_id, s.last_window_change), (4, 1001 * MS));
    assert_eq!(s.win_event_proc(3, &title("Game"), 1100 * MS), FocusChange::Debounced);
}

#[test]
fn sessions_begin_anew_after_the_last() {
    let mut s = state();
    s.session_id = usize::MAX;
    assert_eq!(s.win_event_proc(3, &title("Game"), 9000 * MS), FocusChange::Start);
    assert_eq!(s.session_id, 0);
}

#[test]
fn each_start_counts_once() {
    let mut s = state();
    let mut now = 2000 * MS;
    for i in 0..20 {
        let name = if i % 2 == 0 { "Game" } else { "Mail" };
        s.win_event_proc(3, &title(name), now);
        now += 600 * MS;
    }
    assert_eq!(s.session_id, 14);
}

#[test]
fn capture_needs_the_target_in_front() {
    let s = state();
    assert!(s.may_capture(&title("Game")));
    assert!(!s.may_capture(&title("Mail")));
    assert!(s.may_capture(&None));
}

#[test]
fn the_task_switcher_is_known_by_its_title() {
    assert!(is_task_switcher(&"Task Switching".to_string()));
    assert!(!is_task_switcher(&"Task Switching ".to_string()));
    assert!(!is_task_switcher(&String::new()));
}

#[test]
fn rapid_switching_only_stops() {
    let mut s = state();
    let mut now = 5000 * MS;
    for i in 0..50 {
        let name = if i % 2 == 0 { "Mail" } else { "Game" };
        let expected = if i % 2 == 0 { FocusChange::Stop } else { FocusChange::Debounced };
        assert_eq!(s.win_event_proc(3, &title(name), now), expected);
        now += 499 * MS;
    }
    assert_eq!(s.session_id, 4);
}
