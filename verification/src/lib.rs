//! Core of a terminal player for streamed music: the play queue and its
//! transport, the per-track cache of looked-up metadata, and the small rules
//! of the screen around them. Nothing here performs input or output; every
//! operation says what it asks of the audio sink, of the now-playing display
//! and of the lookup service, and the program around the library carries it
//! out.

use crate::text::{decimal, push_decimal};
use crate::time::TimeSpan;
use vstd::prelude::*;
use vstd::string::*;

pub mod pattern;
pub mod player;
pub mod rtidalapi;
pub mod screen;
pub mod text;
pub mod time;

verus! {

/// What the player tells the screen.
#[derive(Clone, Copy, Debug, PartialEq, Eq, Structural)]
pub enum AppEvent {
    /// The state that the screen shows has changed: draw it again.
    ReRender,
}

/// The two digits that write a number below one hundred.
pub open spec fn two_digits(n: nat) -> Seq<char> {
    if n < 10 {
        seq!['0'] + decimal(n)
    } else {
        decimal(n)
    }
}

/// A span of time as the screen shows it: the minutes, a colon, and the
/// seconds in two digits, of the span to the nearest second.
pub open spec fn spec_format_duration(duration: TimeSpan) -> Seq<char> {
    let total = duration.spec_whole_seconds() as nat;
    decimal(total / 60) + seq![':'] + two_digits(total % 60)
}

/// Formats a span of time for displaying.
pub fn format_duration(duration: TimeSpan) -> (r: String)
    ensures
        r@ == spec_format_duration(duration),
{
    let total = duration.whole_seconds();
    let seconds = total % 60;
    let mut out = String::new();
    push_decimal(&mut out, total / 60);
    proof {
        reveal_strlit(":");
        reveal_strlit("0");
    }
    out.append(":");
    if seconds < 10 {
        out.append("0");
    }
    push_decimal(&mut out, seconds);
    assert(out@ =~= spec_format_duration(duration));
    out
}

} // verus!
