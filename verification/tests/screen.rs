use tidal_tui::rtidalapi::Track;
use tidal_tui::screen::{command_for_key, find_track, row_is_drawn, Command, Key};

#[test]
fn keys_give_their_commands() {
    assert_eq!(command_for_key(Key::Char('Q'), true), Some(Command::Quit));
    assert_eq!(command_for_key(Key::Up, true), Some(Command::PreviousRow));
    assert_eq!(command_for_key(Key::Down, true), Some(Command::NextRow));
    assert_eq!(command_for_key(Key::Char('t'), true), Some(Command::GoToTop));
    assert_eq!(command_for_key(Key::Char('b'), true), Some(Command::GoToBottom));
    assert_eq!(command_for_key(Key::Char('c'), true), Some(Command::GoToCurrentlyPlaying));
    assert_eq!(command_for_key(Key::Char('P'), true), Some(Command::PlayAll));
    assert_eq!(command_for_key(Key::Char('S'), true), Some(Command::ShuffleAll));
    assert_eq!(command_for_key(Key::Char('-'), true), Some(Command::VolumeDown));
    assert_eq!(command_for_key(Key::Char('='), true), Some(Command::VolumeUp));
    assert_eq!(command_for_key(Key::Char(' '), true), Some(Command::TogglePlayPause));
    assert_eq!(command_for_key(Key::Char('['), true), Some(Command::PreviousTrack));
    assert_eq!(command_for_key(Key::Char(']'), true), Some(Command::NextTrack));
}

#[test]
fn other_keys_give_no_command() {
    assert_eq!(command_for_key(Key::Char('q'), true), None);
    assert_eq!(command_for_key(Key::Char('p'), true), None);
    assert_eq!(command_for_key(Key::Char('s'), true), None);
    assert_eq!(command_for_key(Key::Char('T'), true), None);
    assert_eq!(command_for_key(Key::Char('+'), true), None);
    assert_eq!(command_for_key(Key::Other, true), None);
}

#[test]
fn only_a_pressed_key_gives_a_command() {
    assert_eq!(command_for_key(Key::Char('Q'), false), None);
    assert_eq!(command_for_key(Key::Up, false), None);
    assert_eq!(command_for_key(Key::Char(' '), false), None);
}

#[test]
fn rows_near_the_selected_row_are_drawn() {
    // 20 rows on the screen: the window reaches 30 rows to either side.
    assert!(row_is_drawn(100, 100, 20));
    assert!(row_is_drawn(70, 100, 20));
    assert!(row_is_drawn(130, 100, 20));
    assert!(!row_is_drawn(69, 100, 20));
    assert!(!row_is_drawn(131, 100, 20));
}

#[test]
fn the_window_of_rows_stops_at_the_ends() {
    assert!(row_is_drawn(0, 5, 0));
    assert!(row_is_drawn(15, 5, 0));
    assert!(!row_is_drawn(16, 5, 0));
    assert!(row_is_drawn(usize::MAX, usize::MAX - 3, 0));
    assert!(row_is_drawn(usize::MAX - 13, usize::MAX - 3, 0));
    assert!(!row_is_drawn(usize::MAX - 14, usize::MAX - 3, 0));
    assert!(row_is_drawn(65_545, 0, u16::MAX));
    assert!(!row_is_drawn(65_546, 0, u16::MAX));
}

fn tracks(ids: &[&str]) -> Vec<Track> {
    ids.iter().map(|id| Track::new(String::from(*id)).unwrap()).collect()
}

#[test]
fn find_track_gives_the_first_row_with_the_id() {
    let list = tracks(&["10", "20", "30", "20"]);
    assert_eq!(find_track(&list, &String::from("10")), Some(0));
    assert_eq!(find_track(&list, &String::from("20")), Some(1));
    assert_eq!(find_track(&list, &String::from("30")), Some(2));
}

#[test]
fn find_track_gives_nothing_for_an_unknown_id() {
    let list = tracks(&["10", "20", "30"]);
    assert_eq!(find_track(&list, &String::from("40")), None);
    assert_eq!(find_track(&list, &String::from("1")), None);
    assert_eq!(find_track(&list, &String::from("")), None);
    assert_eq!(find_track(&tracks(&[]), &String::from("10")), None);
}
