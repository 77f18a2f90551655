//! Spans of time: a position in a track, the length of a track or an album.

use crate::pattern::{capture_groups, captures_view, regex_captures};
use crate::text::{parse_decimal, parse_u64};
use vstd::prelude::*;

verus! {

/// Nanoseconds in a second.
pub const NANOS_PER_SEC: u32 = 1_000_000_000;

/// Nanoseconds in half a second.
pub const HALF_SEC: u32 = 500_000_000;

/// A span of time in whole seconds and the nanoseconds beyond them.
#[derive(Clone, Copy, Debug, PartialEq, Eq, Structural)]
pub struct TimeSpan {
    pub secs: u64,
    pub nanos: u32,
}

impl View for TimeSpan {
    type V = nat;

    /// The span in nanoseconds.
    open spec fn view(&self) -> nat {
        (self.secs * NANOS_PER_SEC + self.nanos) as nat
    }
}

impl TimeSpan {
    /// Whether the nanoseconds stay below one second.
    pub open spec fn well_formed(self) -> bool {
        self.nanos < NANOS_PER_SEC
    }

    /// The empty span.
    pub open spec fn spec_zero() -> TimeSpan {
        TimeSpan { secs: 0, nanos: 0 }
    }

    /// The span of `secs` seconds.
    pub open spec fn spec_from_secs(secs: u64) -> TimeSpan {
        TimeSpan { secs, nanos: 0 }
    }

    /// The span to the nearest second, half a second counting upwards, and no
    /// greater than `u64::MAX`.
    pub open spec fn spec_whole_seconds(self) -> u64 {
        if self.nanos >= HALF_SEC && self.secs < u64::MAX {
            (self.secs + 1) as u64
        } else {
            self.secs
        }
    }

    /// Returns the span of `secs` seconds and `nanos` nanoseconds, where the
    /// nanoseconds stay below one second, and nothing where they do not.
    pub fn new(secs: u64, nanos: u32) -> (r: Option<TimeSpan>)
        ensures
            r == if nanos < NANOS_PER_SEC {
                Some(TimeSpan { secs, nanos })
            } else {
                None
            },
            r matches Some(span) ==> span.well_formed(),
    {
        if nanos < NANOS_PER_SEC {
            Some(TimeSpan { secs, nanos })
        } else {
            None
        }
    }

    /// Returns the empty span.
    #[verifier::when_used_as_spec(spec_zero)]
    pub fn zero() -> (r: TimeSpan)
        ensures
            r == TimeSpan::spec_zero(),
            r.well_formed(),
    {
        TimeSpan { secs: 0, nanos: 0 }
    }

    /// Returns the span of `secs` seconds.
    #[verifier::when_used_as_spec(spec_from_secs)]
    pub fn from_secs(secs: u64) -> (r: TimeSpan)
        ensures
            r == TimeSpan::spec_from_secs(secs),
            r.well_formed(),
    {
        TimeSpan { secs, nanos: 0 }
    }

    /// Whether the span is empty.
    pub fn is_zero(&self) -> (r: bool)
        ensures
            r == (*self == TimeSpan::spec_zero()),
    {
        self.secs == 0 && self.nanos == 0
    }

    /// Returns the span to the nearest second.
    #[verifier::when_used_as_spec(spec_whole_seconds)]
    pub fn whole_seconds(self) -> (r: u64)
        ensures
            r == self.spec_whole_seconds(),
    {
        if self.nanos >= HALF_SEC && self.secs < u64::MAX {
            self.secs + 1
        } else {
            self.secs
        }
    }
}

/// Of a well-formed span, the whole seconds are its nanoseconds divided by a
/// second and rounded to the nearest, half a second upwards, where that fits.
pub proof fn law_whole_seconds_round(t: TimeSpan)
    requires
        t.well_formed(),
        t.secs < u64::MAX,
    ensures
        t.spec_whole_seconds() == (t@ + HALF_SEC) / (NANOS_PER_SEC as int),
{
    let s = t.secs as int;
    let n = t.nanos as int;
    if n >= 500_000_000 {
        assert((s * 1_000_000_000 + n + 500_000_000) / 1_000_000_000 == s + 1) by (nonlinear_arith)
            requires
                500_000_000 <= n < 1_000_000_000,
        ;
    } else {
        assert((s * 1_000_000_000 + n + 500_000_000) / 1_000_000_000 == s) by (nonlinear_arith)
            requires
                0 <= n < 500_000_000,
                s >= 0,
        ;
    }
}

/// Two well-formed spans of the same number of nanoseconds are the same span.
pub proof fn law_view_injective(a: TimeSpan, b: TimeSpan)
    requires
        a.well_formed(),
        b.well_formed(),
        a@ == b@,
    ensures
        a == b,
{
    let x = a.secs as int;
    let y = b.secs as int;
    let m = a.nanos as int;
    let n = b.nanos as int;
    assert(x == y) by (nonlinear_arith)
        requires
            x * 1_000_000_000 + m == y * 1_000_000_000 + n,
            0 <= m < 1_000_000_000,
            0 <= n < 1_000_000_000,
    ;
}

/// The grammar of the lengths that the service reports: `PT`, then any of
/// hours, minutes and seconds, each a number and its letter.
pub const DURATION_PATTERN: &'static str =
    r"^PT((?<hours>\d+)H)*((?<mins>\d+)M)*((?<secs>\d+)S)*$";

/// The capture group of `DURATION_PATTERN` that holds the hours.
pub const HOURS_GROUP: usize = 2;

/// The capture group of `DURATION_PATTERN` that holds the minutes.
pub const MINS_GROUP: usize = 4;

/// The capture group of `DURATION_PATTERN` that holds the seconds.
pub const SECS_GROUP: usize = 6;

/// The number in capture group `index`: 0 where there is no such group, where
/// the group took no part in the match, and where its text writes no number
/// that fits in 64 bits.
pub open spec fn component(groups: Seq<Option<Seq<char>>>, index: int) -> nat {
    if 0 <= index < groups.len() {
        match groups[index] {
            Some(text) => match parse_decimal(text) {
                Some(n) => n as nat,
                None => 0,
            },
            None => 0,
        }
    } else {
        0
    }
}

/// The seconds that the three components of a matched length come to.
pub open spec fn total_seconds(groups: Seq<Option<Seq<char>>>) -> nat {
    component(groups, HOURS_GROUP as int) * 3600 + component(groups, MINS_GROUP as int) * 60
        + component(groups, SECS_GROUP as int)
}

/// The span of a matched length: its seconds, or `u64::MAX` seconds where
/// they do not fit.
pub open spec fn duration_of_groups(groups: Seq<Option<Seq<char>>>) -> TimeSpan {
    let total = total_seconds(groups);
    if total <= u64::MAX {
        TimeSpan { secs: total as u64, nanos: 0 }
    } else {
        TimeSpan { secs: u64::MAX, nanos: 0 }
    }
}

/// What a match of `DURATION_PATTERN` against a text makes of the text: the
/// matcher's message where the pattern did not compile, the empty span where
/// the text does not match, else the span of the matched length.
pub open spec fn duration_of_captures(
    captures: Result<Option<Seq<Option<Seq<char>>>>, Seq<char>>,
) -> Result<TimeSpan, Seq<char>> {
    match captures {
        Err(message) => Err(message),
        Ok(None) => Ok(TimeSpan::spec_zero()),
        Ok(Some(groups)) => Ok(duration_of_groups(groups)),
    }
}

/// The length that `text` writes.
pub open spec fn spec_parse_duration(text: Seq<char>) -> Result<TimeSpan, Seq<char>> {
    duration_of_captures(regex_captures(DURATION_PATTERN@, text))
}

/// A length or the message of a failure, the message as characters.
pub open spec fn duration_view(r: Result<TimeSpan, String>) -> Result<TimeSpan, Seq<char>> {
    match r {
        Ok(span) => Ok(span),
        Err(message) => Err(message@),
    }
}

/// The number in capture group `index`.
fn component_of(groups: &Vec<Option<String>>, index: usize) -> (r: u64)
    ensures
        r == component(groups.deep_view(), index as int),
{
    if index < groups.len() {
        match &groups[index] {
            Some(text) => {
                assert(groups.deep_view()[index as int] == Some(text@));
                match parse_u64(text.as_str()) {
                    Some(n) => n,
                    None => 0,
                }
            },
            None => {
                assert(groups.deep_view()[index as int] == None::<Seq<char>>);
                0
            },
        }
    } else {
        0
    }
}

/// The span of a length whose capture groups are `groups`.
pub fn duration_from_groups(groups: &Vec<Option<String>>) -> (r: TimeSpan)
    ensures
        r == duration_of_groups(groups.deep_view()),
{
    let hours = component_of(groups, HOURS_GROUP);
    let mins = component_of(groups, MINS_GROUP);
    let secs = component_of(groups, SECS_GROUP);
    let total: u128 = hours as u128 * 3600 + mins as u128 * 60 + secs as u128;
    if total <= u64::MAX as u128 {
        TimeSpan { secs: total as u64, nanos: 0 }
    } else {
        TimeSpan { secs: u64::MAX, nanos: 0 }
    }
}

/// What a match against `DURATION_PATTERN` makes of a text.
pub fn duration_from_captures(captures: Result<Option<Vec<Option<String>>>, String>) -> (r: Result<
    TimeSpan,
    String,
>)
    ensures
        duration_view(r) == duration_of_captures(captures_view(captures)),
{
    match captures {
        Err(message) => Err(message),
        Ok(None) => Ok(TimeSpan::zero()),
        Ok(Some(groups)) => Ok(duration_from_groups(&groups)),
    }
}

/// Reads a length such as `PT1H2M3S`. A text that is no such length is the
/// empty span; a component that is absent, or whose number does not fit in 64
/// bits, counts as 0.
pub fn parse_duration(text: &str) -> (r: Result<TimeSpan, String>)
    ensures
        duration_view(r) == spec_parse_duration(text@),
{
    duration_from_captures(capture_groups(DURATION_PATTERN, text))
}

} // verus!
