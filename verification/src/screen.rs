//! The rules of the screen: which key gives which command, which rows of the
//! table of tracks are worth filling in, and where a track stands in it.

use crate::rtidalapi::track::Track;
use vstd::prelude::*;

verus! {

/// The rows that are filled in beyond those that fit on the screen, on
/// either side of the selected row.
pub const ROW_MARGIN: usize = 10;

/// A key of the keyboard, as far as the screen tells keys apart.
#[derive(Clone, Copy, Debug, PartialEq, Eq, Structural)]
pub enum Key {
    Char(char),
    Up,
    Down,
    Other,
}

/// What the user can ask of the program.
#[derive(Clone, Copy, Debug, PartialEq, Eq, Structural)]
pub enum Command {
    Quit,
    PreviousRow,
    NextRow,
    GoToTop,
    GoToBottom,
    GoToCurrentlyPlaying,
    PlayAll,
    ShuffleAll,
    VolumeDown,
    VolumeUp,
    TogglePlayPause,
    PreviousTrack,
    NextTrack,
}

/// The command that a key gives when it is pressed; releasing or holding a
/// key gives none.
pub open spec fn spec_command_for_key(key: Key, pressed: bool) -> Option<Command> {
    if !pressed {
        None
    } else {
        match key {
            Key::Up => Some(Command::PreviousRow),
            Key::Down => Some(Command::NextRow),
            Key::Char(c) => if c == 'Q' {
                Some(Command::Quit)
            } else if c == 't' {
                Some(Command::GoToTop)
            } else if c == 'b' {
                Some(Command::GoToBottom)
            } else if c == 'c' {
                Some(Command::GoToCurrentlyPlaying)
            } else if c == 'P' {
                Some(Command::PlayAll)
            } else if c == 'S' {
                Some(Command::ShuffleAll)
            } else if c == '-' {
                Some(Command::VolumeDown)
            } else if c == '=' {
                Some(Command::VolumeUp)
            } else if c == ' ' {
                Some(Command::TogglePlayPause)
            } else if c == '[' {
                Some(Command::PreviousTrack)
            } else if c == ']' {
                Some(Command::NextTrack)
            } else {
                None
            },
            Key::Other => None,
        }
    }
}

/// Returns the command that a key gives.
pub fn command_for_key(key: Key, pressed: bool) -> (r: Option<Command>)
    ensures
        r == spec_command_for_key(key, pressed),
{
    if !pressed {
        return None;
    }
    match key {
        Key::Up => Some(Command::PreviousRow),
        Key::Down => Some(Command::NextRow),
        Key::Char(c) => if c == 'Q' {
            Some(Command::Quit)
        } else if c == 't' {
            Some(Command::GoToTop)
        } else if c == 'b' {
            Some(Command::GoToBottom)
        } else if c == 'c' {
            Some(Command::GoToCurrentlyPlaying)
        } else if c == 'P' {
            Some(Command::PlayAll)
        } else if c == 'S' {
            Some(Command::ShuffleAll)
        } else if c == '-' {
            Some(Command::VolumeDown)
        } else if c == '=' {
            Some(Command::VolumeUp)
        } else if c == ' ' {
            Some(Command::TogglePlayPause)
        } else if c == '[' {
            Some(Command::PreviousTrack)
        } else if c == ']' {
            Some(Command::NextTrack)
        } else {
            None
        },
        Key::Other => None,
    }
}

/// Whether the row `index` lies near enough to the selected row to be filled
/// in: no further from it than the rows on the screen and the margin.
pub open spec fn spec_row_is_drawn(index: usize, selected: usize, visible_rows: u16) -> bool {
    selected - (visible_rows + ROW_MARGIN) <= index <= selected + (visible_rows + ROW_MARGIN)
}

/// Returns whether the row `index` is to be filled in.
pub fn row_is_drawn(index: usize, selected: usize, visible_rows: u16) -> (r: bool)
    ensures
        r == spec_row_is_drawn(index, selected, visible_rows),
{
    let window: usize = visible_rows as usize + ROW_MARGIN;
    index >= selected.saturating_sub(window) && index <= selected.saturating_add(window)
}

/// Whether the track at `index` is the first of `tracks` with the id `id`.
pub open spec fn is_first_with_id(tracks: Seq<Track>, id: Seq<char>, index: int) -> bool {
    &&& 0 <= index < tracks.len()
    &&& tracks[index]@.id@ == id
    &&& forall|j: int| 0 <= j < index ==> (#[trigger] tracks[j])@.id@ != id
}

/// Returns the row of the first track with the given id, if there is one.
pub fn find_track(tracks: &Vec<Track>, id: &String) -> (r: Option<usize>)
    ensures
        match r {
            Some(index) => is_first_with_id(tracks@, id@, index as int),
            None => forall|j: int| 0 <= j < tracks.len() ==> (#[trigger] tracks[j])@.id@ != id@,
        },
{
    let mut index: usize = 0;
    while index < tracks.len()
        invariant
            index <= tracks.len(),
            forall|j: int| 0 <= j < index ==> (#[trigger] tracks[j])@.id@ != id@,
        decreases tracks.len() - index,
    {
        if *tracks[index].id() == *id {
            return Some(index);
        }
        index += 1;
    }
    None
}

} // verus!
