use tidal_tui::format_duration;
use tidal_tui::time::{
    duration_from_captures, duration_from_groups, parse_duration, TimeSpan, DURATION_PATTERN,
};

fn groups(hours: Option<&str>, mins: Option<&str>, secs: Option<&str>) -> Vec<Option<String>> {
    vec![
        Some(String::from("whole")),
        hours.map(|h| format!("{}H", h)),
        hours.map(String::from),
        mins.map(|m| format!("{}M", m)),
        mins.map(String::from),
        secs.map(|s| format!("{}S", s)),
        secs.map(String::from),
    ]
}

#[test]
fn time_span_new_wants_nanos_below_a_second() {
    assert_eq!(TimeSpan::new(3, 0), Some(TimeSpan { secs: 3, nanos: 0 }));
    assert_eq!(TimeSpan::new(3, 999_999_999), Some(TimeSpan { secs: 3, nanos: 999_999_999 }));
    assert_eq!(TimeSpan::new(3, 1_000_000_000), None);
    assert_eq!(TimeSpan::new(0, u32::MAX), None);
}

#[test]
fn time_span_zero_and_from_secs() {
    assert_eq!(TimeSpan::zero(), TimeSpan { secs: 0, nanos: 0 });
    assert_eq!(TimeSpan::from_secs(90), TimeSpan { secs: 90, nanos: 0 });
    assert!(TimeSpan::zero().is_zero());
    assert!(TimeSpan::from_secs(0).is_zero());
    assert!(!TimeSpan::from_secs(1).is_zero());
    assert!(!TimeSpan { secs: 0, nanos: 1 }.is_zero());
}

#[test]
fn whole_seconds_rounds_half_up() {
    assert_eq!(TimeSpan { secs: 1, nanos: 0 }.whole_seconds(), 1);
    assert_eq!(TimeSpan { secs: 1, nanos: 499_999_999 }.whole_seconds(), 1);
    assert_eq!(TimeSpan { secs: 1, nanos: 500_000_000 }.whole_seconds(), 2);
    assert_eq!(TimeSpan { secs: 1, nanos: 999_999_999 }.whole_seconds(), 2);
    assert_eq!(TimeSpan { secs: 0, nanos: 500_000_000 }.whole_seconds(), 1);
}

#[test]
fn whole_seconds_stops_at_the_largest_number() {
    assert_eq!(TimeSpan { secs: u64::MAX, nanos: 999_999_999 }.whole_seconds(), u64::MAX);
    assert_eq!(TimeSpan { secs: u64::MAX - 1, nanos: 999_999_999 }.whole_seconds(), u64::MAX);
}

#[test]
fn whole_seconds_agrees_with_rounded_float_seconds() {
    for (secs, nanos) in [(0u64, 0u32), (0, 499_999_999), (0, 500_000_000), (59, 500_000_000), (61, 250_000_000), (3599, 999_999_999)] {
        let d = std::time::Duration::new(secs, nanos);
        assert_eq!(TimeSpan { secs, nanos }.whole_seconds(), d.as_secs_f64().round() as u64);
    }
}

#[test]
fn duration_from_groups_adds_the_components() {
    assert_eq!(duration_from_groups(&groups(Some("1"), Some("2"), Some("3"))), TimeSpan::from_secs(3723));
    assert_eq!(duration_from_groups(&groups(None, Some("3"), Some("20"))), TimeSpan::from_secs(200));
    assert_eq!(duration_from_groups(&groups(Some("2"), None, None)), TimeSpan::from_secs(7200));
    assert_eq!(duration_from_groups(&groups(None, None, Some("45"))), TimeSpan::from_secs(45));
    assert_eq!(duration_from_groups(&groups(None, None, None)), TimeSpan::zero());
}

#[test]
fn duration_from_groups_counts_an_unreadable_component_as_zero() {
    assert_eq!(duration_from_groups(&groups(Some("x"), Some("2"), Some("3"))), TimeSpan::from_secs(123));
    assert_eq!(duration_from_groups(&groups(Some("1"), Some("٣"), Some("3"))), TimeSpan::from_secs(3603));
    assert_eq!(
        duration_from_groups(&groups(Some("1"), Some("2"), Some("99999999999999999999"))),
        TimeSpan::from_secs(3720)
    );
}

#[test]
fn duration_from_groups_reads_only_the_groups_that_are_there() {
    assert_eq!(duration_from_groups(&vec![]), TimeSpan::zero());
    assert_eq!(duration_from_groups(&vec![Some(String::from("9")); 2]), TimeSpan::zero());
    assert_eq!(duration_from_groups(&vec![Some(String::from("9")); 3]), TimeSpan::from_secs(9 * 3600));
    assert_eq!(duration_from_groups(&vec![Some(String::from("9")); 5]), TimeSpan::from_secs(9 * 3600 + 9 * 60));
    assert_eq!(
        duration_from_groups(&vec![Some(String::from("9")); 7]),
        TimeSpan::from_secs(9 * 3600 + 9 * 60 + 9)
    );
}

#[test]
fn duration_from_groups_stops_at_the_largest_number() {
    assert_eq!(
        duration_from_groups(&groups(Some("5124095576030431"), None, None)),
        TimeSpan::from_secs(18_446_744_073_709_551_600)
    );
    assert_eq!(
        duration_from_groups(&groups(Some("5124095576030431"), None, Some("15"))),
        TimeSpan::from_secs(u64::MAX)
    );
    assert_eq!(
        duration_from_groups(&groups(Some("5124095576030431"), None, Some("16"))),
        TimeSpan::from_secs(u64::MAX)
    );
    assert_eq!(
        duration_from_groups(&groups(Some("18446744073709551615"), Some("18446744073709551615"), Some("18446744073709551615"))),
        TimeSpan::from_secs(u64::MAX)
    );
}

#[test]
fn duration_from_captures_passes_the_outcome_of_the_match_on() {
    assert_eq!(duration_from_captures(Err(String::from("bad pattern"))), Err(String::from("bad pattern")));
    assert_eq!(duration_from_captures(Ok(None)), Ok(TimeSpan::zero()));
    assert_eq!(
        duration_from_captures(Ok(Some(groups(None, Some("1"), Some("1"))))),
        Ok(TimeSpan::from_secs(61))
    );
}

#[test]
fn parse_duration_reads_lengths() {
    assert_eq!(parse_duration("PT3M20S"), Ok(TimeSpan::from_secs(200)));
    assert_eq!(parse_duration("PT1H2M3S"), Ok(TimeSpan::from_secs(3723)));
    assert_eq!(parse_duration("PT45S"), Ok(TimeSpan::from_secs(45)));
    assert_eq!(parse_duration("PT2H"), Ok(TimeSpan::from_secs(7200)));
    assert_eq!(parse_duration("PT1H30S"), Ok(TimeSpan::from_secs(3630)));
    assert_eq!(parse_duration("PT0S"), Ok(TimeSpan::zero()));
}

#[test]
fn parse_duration_gives_the_empty_span_for_what_is_no_length() {
    assert_eq!(parse_duration(""), Ok(TimeSpan::zero()));
    assert_eq!(parse_duration("PT"), Ok(TimeSpan::zero()));
    assert_eq!(parse_duration("3M20S"), Ok(TimeSpan::zero()));
    assert_eq!(parse_duration("PT3M20S "), Ok(TimeSpan::zero()));
    assert_eq!(parse_duration("PT20S3M"), Ok(TimeSpan::zero()));
    assert_eq!(parse_duration("PT3.5S"), Ok(TimeSpan::zero()));
    assert_eq!(parse_duration("P1DT3M"), Ok(TimeSpan::zero()));
}

#[test]
fn parse_duration_takes_the_last_of_a_repeated_component() {
    assert_eq!(parse_duration("PT1H2H"), Ok(TimeSpan::from_secs(7200)));
    assert_eq!(parse_duration("PT5M7M9S"), Ok(TimeSpan::from_secs(429)));
}

#[test]
fn parse_duration_counts_a_number_too_large_as_zero() {
    assert_eq!(parse_duration("PT1M99999999999999999999S"), Ok(TimeSpan::from_secs(60)));
    assert_eq!(parse_duration("PT5124095576030432H"), Ok(TimeSpan::from_secs(u64::MAX)));
}

#[test]
fn duration_pattern_names_its_components() {
    assert!(DURATION_PATTERN.contains("(?<hours>"));
    assert!(DURATION_PATTERN.contains("(?<mins>"));
    assert!(DURATION_PATTERN.contains("(?<secs>"));
}

#[test]
fn format_duration_shows_minutes_and_seconds() {
    assert_eq!(format_duration(TimeSpan::zero()), "0:00");
    assert_eq!(format_duration(TimeSpan::from_secs(5)), "0:05");
    assert_eq!(format_duration(TimeSpan::from_secs(59)), "0:59");
    assert_eq!(format_duration(TimeSpan::from_secs(60)), "1:00");
    assert_eq!(format_duration(TimeSpan::from_secs(200)), "3:20");
    assert_eq!(format_duration(TimeSpan::from_secs(3723)), "62:03");
}

#[test]
fn format_duration_rounds_to_the_nearest_second() {
    assert_eq!(format_duration(TimeSpan { secs: 59, nanos: 499_999_999 }), "0:59");
    assert_eq!(format_duration(TimeSpan { secs: 59, nanos: 500_000_000 }), "1:00");
    assert_eq!(format_duration(TimeSpan { secs: 9, nanos: 900_000_000 }), "0:10");
    assert_eq!(format_duration(TimeSpan { secs: u64::MAX, nanos: 0 }), "307445734561825860:15");
}
