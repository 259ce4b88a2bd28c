use lolcap::capture::{
    capture_settings, encoder_settings, CaptureHandler, FrameAction, PixelFormat, Rect,
    SearchAction, SearchEvent, SearchStep, WindowSearch, RETRY_DELAY_MS,
};
use lolcap::session::RecorderState;

fn rect(left: i32, top: i32, right: i32, bottom: i32) -> Rect {
    Rect { left, top, right, bottom }
}

#[test]
fn sizes_of_windows() {
    assert_eq!(rect(10, 20, 1930, 1100).size(), (1920, 1080));
    assert_eq!(rect(-5, -6, -5, -5).size(), (0, 1));
    assert_eq!(rect(3, 0, 1, 5).size(), (4294967294, 5));
    assert_eq!(rect(0, 0, i32::MIN, i32::MAX).size(), (1 << 31, i32::MAX as u32));
}

#[test]
fn sizes_that_do_not_fit() {
    assert!(rect(0, 0, i32::MAX, i32::MIN).fits());
    assert!(!rect(-1, 0, i32::MAX, 0).fits());
    assert!(!rect(1, 0, i32::MIN, 0).fits());
    assert!(!rect(0, i32::MIN, 0, 0).fits());
    assert!(rect(0, i32::MIN, 0, -1).fits());
}

#[test]
fn a_usable_window_is_captured() {
    let mut search = WindowSearch::new();
    let step = search.attempt(Some(rect(0, 0, 800, 600)));
    assert_eq!(step, SearchStep::Capture { width: 800, height: 600 });
    assert_eq!(search.retry_count, 0);
}

#[test]
fn small_windows_are_not_usable() {
    let mut search = WindowSearch::new();
    assert_eq!(search.attempt(Some(rect(0, 0, 1, 600))), SearchStep::Retry);
    assert_eq!(search.attempt(Some(rect(0, 0, 800, 1))), SearchStep::Retry);
    assert_eq!(search.attempt(Some(rect(0, 0, 0, 0))), SearchStep::Retry);
    assert_eq!(search.attempt(Some(rect(0, 0, 2, 2))), SearchStep::Capture { width: 2, height: 2 });
    assert_eq!(search.retry_count, 3);
}

#[test]
fn inverted_edges_count_as_usable() {
    let mut search = WindowSearch::new();
    let step = search.attempt(Some(rect(1, 0, 0, 5)));
    assert_eq!(step, SearchStep::Capture { width: u32::MAX, height: 5 });
}

#[test]
fn the_search_is_given_up_after_ten_retries() {
    let mut search = WindowSearch::new();
    for _ in 0..10 {
        assert_eq!(search.attempt(None), SearchStep::Retry);
    }
    assert_eq!(search.attempt(None), SearchStep::GiveUp);
    assert_eq!(search.retry_count, 11);
    assert_eq!(RETRY_DELAY_MS, 100);
}

#[test]
fn the_last_retry_may_succeed() {
    let mut search = WindowSearch::new();
    for _ in 0..10 {
        assert_eq!(search.attempt(None), SearchStep::Retry);
    }
    let step = search.attempt(Some(rect(0, 0, 5, 6)));
    assert_eq!(step, SearchStep::Capture { width: 5, height: 6 });
}

#[test]
fn videos_are_encoded_without_sound() {
    let state = RecorderState::new("Game", "./recordings", 17, 0);
    let settings = encoder_settings(rect(0, 0, 640, 480), &state);
    assert_eq!((settings.width, settings.height), (640, 480));
    assert_eq!(settings.frame_rate, 24);
    assert_eq!(settings.bitrate, 16384);
    assert!(settings.audio_disabled);
    assert_eq!(settings.path, "./recordings/17.mp4");
}

#[test]
fn frames_are_sent_while_recording() {
    let mut handler = CaptureHandler::new();
    assert_eq!(handler.on_frame_arrived(true), FrameAction::Send);
    assert_eq!(handler.on_frame_arrived(true), FrameAction::Send);
    assert_eq!(handler.on_frame_arrived(false), FrameAction::FinishAndStop);
    assert_eq!(handler.on_frame_arrived(false), FrameAction::Stop);
    assert_eq!(handler.on_frame_arrived(true), FrameAction::Skip);
    assert!(!handler.on_closed());
}

#[test]
fn closing_finishes_the_encoder_once() {
    let mut handler = CaptureHandler::new();
    assert!(handler.on_closed());
    assert!(!handler.on_closed());
    assert_eq!(handler.on_frame_arrived(false), FrameAction::Stop);
}

#[test]
fn the_capture_thread_needs_the_target_in_front() {
    let state = RecorderState::new("Game", "d", 0, 0);
    let mut search = WindowSearch::new();
    let other = SearchEvent::Begin(Some("Mail".to_string()));
    assert!(matches!(search.capture_thread(&state, other), SearchAction::Leave));
    let target = SearchEvent::Begin(Some("Game".to_string()));
    assert!(matches!(search.capture_thread(&state, target), SearchAction::Look));
    let untitled = SearchEvent::Begin(None);
    assert!(matches!(search.capture_thread(&state, untitled), SearchAction::Look));
    assert_eq!(search.retry_count, 0);
}

#[test]
fn the_capture_thread_waits_between_attempts() {
    let state = RecorderState::new("Game", "d", 0, 0);
    let mut search = WindowSearch::new();
    for i in 1..=10 {
        let action = search.capture_thread(&state, SearchEvent::Looked(None));
        assert!(matches!(action, SearchAction::Wait(100)));
        assert!(matches!(search.capture_thread(&state, SearchEvent::Waited), SearchAction::Look));
        assert_eq!(search.retry_count, i);
    }
    match search.capture_thread(&state, SearchEvent::Looked(None)) {
        SearchAction::Fail(error) => {
            assert_eq!(error.message(), "Failed to get valid window size after 10 retries")
        }
        _ => panic!("the search goes on"),
    }
}

#[test]
fn the_capture_thread_captures_what_it_found() {
    let state = RecorderState::new("Game", "d", 0, 0);
    let mut search = WindowSearch::new();
    let event = SearchEvent::Looked(Some(rect(0, 0, 30, 20)));
    assert!(matches!(search.capture_thread(&state, event), SearchAction::Capture(30, 20)));
}

#[test]
fn an_unused_encoder_is_not_finished() {
    let mut handler = CaptureHandler::new();
    assert!(handler.encoder_open && !handler.frame_sent);
    assert_eq!(handler.on_frame_arrived(false), FrameAction::Stop);
    assert!(!handler.encoder_open && !handler.frame_sent);
    assert_eq!(handler.on_frame_arrived(true), FrameAction::Skip);
    assert!(!handler.frame_sent);
    assert!(!handler.on_closed());
}

#[test]
fn one_frame_is_enough_to_finish() {
    let mut handler = CaptureHandler::new();
    assert_eq!(handler.on_frame_arrived(true), FrameAction::Send);
    assert!(handler.encoder_open && handler.frame_sent);
    assert_eq!(handler.on_frame_arrived(false), FrameAction::FinishAndStop);
    assert!(!handler.encoder_open && handler.frame_sent);
}

#[test]
fn windows_are_captured_with_the_cursor() {
    let state = RecorderState::new("Game", "d", 0, 0);
    let settings = capture_settings(&state);
    assert_eq!(settings.window_title, "Game");
    assert!(settings.with_cursor);
    assert!(!settings.with_border);
    assert_eq!(settings.format, PixelFormat::Bgra8);
}
