use lolcap::session::{highest_session, parse_session, starting_session, RecorderState};

fn entries(names: &[&str]) -> Vec<Option<String>> {
    names.iter().map(|n| Some(n.to_string())).collect()
}

fn state(directory: &str, session: usize) -> RecorderState {
    RecorderState::new("Game", directory, session, 5)
}

#[test]
fn new_state_is_idle() {
    let s = RecorderState::new("Game", "./recordings", 3, 77);
    assert_eq!(s.window_title, "Game");
    assert_eq!(s.output_directory, "./recordings");
    assert_eq!(s.session_id, 3);
    assert_eq!(s.last_window_change, 77);
    assert!(!s.is_recording);
    assert!(!s.capture_ready);
}

#[test]
fn output_path_names_directory_and_session() {
    assert_eq!(state("./recordings", 0).get_output_path(), "./recordings/0.mp4");
    assert_eq!(state("./recordings", 120).get_output_path(), "./recordings/120.mp4");
    assert_eq!(state("", 7).get_output_path(), "/7.mp4");
}

#[test]
fn input_path_is_beside_the_video() {
    assert_eq!(state("./recordings", 12).get_input_path(), "./recordings/12_inputs.parquet");
}

#[test]
fn input_path_replaces_in_the_directory_too() {
    assert_eq!(state("a.mp4/b", 1).get_input_path(), "a_inputs.parquet/b/1_inputs.parquet");
}

#[test]
fn session_of_a_file_name() {
    assert_eq!(parse_session("12_inputs.parquet"), Some(12));
    assert_eq!(parse_session("12"), Some(12));
    assert_eq!(parse_session("+3_x"), Some(3));
    assert_eq!(parse_session("12.mp4"), None);
    assert_eq!(parse_session("_12"), None);
    assert_eq!(parse_session("notes.txt"), None);
    assert_eq!(parse_session(""), None);
    assert_eq!(parse_session("99999999999999999999999_inputs.parquet"), None);
}

#[test]
fn file_name_gives_back_its_session() {
    for n in [0, 9, 10, 4711, usize::MAX] {
        let path = state("d", n).get_input_path();
        let name = path.rsplit('/').next().unwrap();
        assert_eq!(parse_session(name), Some(n));
    }
}

#[test]
fn highest_session_on_disk() {
    assert_eq!(highest_session(&entries(&[])), None);
    assert_eq!(highest_session(&entries(&["a", "3.mp4"])), None);
    assert_eq!(highest_session(&entries(&["3_inputs.parquet", "10_inputs.parquet", "9.mp4"])), Some(10));
    let mut unreadable = entries(&["5_inputs.parquet"]);
    unreadable.push(None);
    unreadable.insert(0, None);
    assert_eq!(highest_session(&unreadable), Some(5));
}

#[test]
fn starting_session_follows_the_highest() {
    assert_eq!(starting_session(None), 0);
    assert_eq!(starting_session(Some(0)), 1);
    assert_eq!(starting_session(Some(41)), 42);
    assert_eq!(starting_session(Some(usize::MAX - 1)), usize::MAX);
}

#[test]
fn different_sessions_have_different_files() {
    assert_ne!(state("d", 1).get_output_path(), state("d", 11).get_output_path());
    assert_ne!(state("d.mp4", 1).get_input_path(), state("d.mp4", 10).get_input_path());
}
