use podcast_core::player::{seconds_to_hms, time_position};

#[test]
fn seconds_are_split_into_hours_minutes_and_seconds() {
    assert_eq!(seconds_to_hms(0), "00:00:00");
    assert_eq!(seconds_to_hms(59), "00:00:59");
    assert_eq!(seconds_to_hms(60), "00:01:00");
    assert_eq!(seconds_to_hms(3599), "00:59:59");
    assert_eq!(seconds_to_hms(3600), "01:00:00");
    assert_eq!(seconds_to_hms(3661), "01:01:01");
    assert_eq!(seconds_to_hms(86399), "23:59:59");
    assert_eq!(seconds_to_hms(45296), "12:34:56");
}

#[test]
fn hours_take_as_many_digits_as_they_need() {
    assert_eq!(seconds_to_hms(360000), "100:00:00");
    assert_eq!(seconds_to_hms(i64::MAX), "2562047788015215:30:07");
}

#[test]
fn a_negative_position_counts_from_the_top_of_the_range() {
    assert_eq!(seconds_to_hms(-1), "5124095576030431:00:15");
    assert_eq!(seconds_to_hms(i64::MIN), "2562047788015215:30:08");
}

#[test]
fn a_position_and_a_duration_make_a_label() {
    assert_eq!(time_position(75, 3600), "[00:01:15/01:00:00]");
    assert_eq!(time_position(0, 0), "[00:00:00/00:00:00]");
}
