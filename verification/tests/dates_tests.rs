use ratatoist::dates::{
    civil_from_days, days_between, days_from_civil, epoch_to_date, floor_div, floor_mod,
    format_comment_time, format_due, format_short_date, offset_days_str, parse_date,
    today_str, weekday_name, DueTone, MAX_CLOCK_SECS,
};

const NOW: u64 = 1_736_328_600;

#[test]
fn day_numbers_of_known_dates() {
    assert_eq!(days_from_civil(1970, 1, 1), 0);
    assert_eq!(days_from_civil(1969, 12, 31), -1);
    assert_eq!(days_from_civil(2000, 3, 1), 11_017);
    assert_eq!(days_from_civil(2025, 1, 8), 20_096);
    assert_eq!(days_from_civil(2024, 2, 29), 19_782);
    assert_eq!(days_from_civil(0, 3, 1), -719_468);
}

#[test]
fn civil_dates_of_known_day_numbers() {
    assert_eq!(civil_from_days(0), (1970, 1, 1));
    assert_eq!(civil_from_days(-1), (1969, 12, 31));
    assert_eq!(civil_from_days(11_017), (2000, 3, 1));
    assert_eq!(civil_from_days(19_782), (2024, 2, 29));
    assert_eq!(civil_from_days(19_783), (2024, 3, 1));
    assert_eq!(civil_from_days(-719_468), (0, 3, 1));
}

#[test]
fn day_numbers_and_dates_round_trip() {
    let mut z: i64 = -800_000;
    while z < 800_000 {
        let (y, m, d) = civil_from_days(z);
        assert_eq!(days_from_civil(y, m, d), z);
        z += 373;
    }
}

#[test]
fn floored_division_rounds_down() {
    assert_eq!(floor_div(7, 2), 3);
    assert_eq!(floor_div(-7, 2), -4);
    assert_eq!(floor_div(-8, 2), -4);
    assert_eq!(floor_div(i64::MIN, 7), i64::MIN.div_euclid(7));
    assert_eq!(floor_mod(-7, 2), 1);
    assert_eq!(floor_mod(-1, 400), 399);
    assert_eq!(floor_mod(i64::MIN, 7), i64::MIN.rem_euclid(7));
    assert_eq!(floor_mod(9, 4), 1);
}

#[test]
fn epoch_seconds_become_dates() {
    assert_eq!(epoch_to_date(0), "1970-01-01");
    assert_eq!(epoch_to_date(86_399), "1970-01-01");
    assert_eq!(epoch_to_date(86_400), "1970-01-02");
    assert_eq!(epoch_to_date(-1), "1970-01-01");
    assert_eq!(epoch_to_date(-86_400), "1969-12-31");
    assert_eq!(epoch_to_date(951_782_400), "2000-02-29");
    assert_eq!(today_str(NOW), "2025-01-08");
    assert_eq!(today_str(MAX_CLOCK_SECS), "9999-12-31");
    assert_eq!(offset_days_str(NOW, 1), "2025-01-09");
    assert_eq!(offset_days_str(NOW, -1), "2025-01-07");
    assert_eq!(offset_days_str(NOW, -8), "2024-12-31");
}

#[test]
fn dates_are_shifted_by_any_number_of_days() {
    assert_eq!(offset_days_str(0, 0), today_str(0));
    assert_eq!(offset_days_str(0, 1), "1970-01-02");
    assert_eq!(offset_days_str(951_868_800, -1), "2000-02-29");
    assert_eq!(offset_days_str(NOW, 0), today_str(NOW));
    assert_eq!(offset_days_str(0, 2_932_896), "9999-12-31");
    assert_eq!(offset_days_str(MAX_CLOCK_SECS, -2_932_896), "1970-01-01");
    assert_eq!(offset_days_str(0, 3_000_000), "10183-09-21");
    assert_eq!(offset_days_str(NOW, -20_000), "1970-04-07");
}

#[test]
fn dates_are_parsed_like_std_numbers() {
    assert_eq!(parse_date("2025-01-08"), Some((2025, 1, 8)));
    assert_eq!(parse_date("2025-1-8"), Some((2025, 1, 8)));
    assert_eq!(parse_date("+2025-+01-08"), Some((2025, 1, 8)));
    assert_eq!(parse_date("0000-00-00"), Some((0, 0, 0)));
    assert_eq!(parse_date("2025-13-99"), Some((2025, 13, 99)));
    assert_eq!(parse_date("2025-01"), None);
    assert_eq!(parse_date("2025-01-08-1"), None);
    assert_eq!(parse_date("-2025-01-08"), None);
    assert_eq!(parse_date("2025--08"), None);
    assert_eq!(parse_date("2025-0a-08"), None);
    assert_eq!(parse_date(""), None);
    assert_eq!(parse_date("2147483647-4294967295-1"), Some((2147483647, 4294967295, 1)));
    assert_eq!(parse_date("2147483648-1-1"), None);
    assert_eq!(parse_date("1-4294967296-1"), None);
    assert_eq!(parse_date("1-99999999999999999999999-1"), None);
    assert_eq!(parse_date("2025-01- 8"), None);
}

#[test]
fn days_between_dates() {
    assert_eq!(days_between("2025-01-08", "2025-01-14"), 6);
    assert_eq!(days_between("2025-01-08", "2025-01-01"), -7);
    assert_eq!(days_between("2024-02-28", "2024-03-01"), 2);
    assert_eq!(days_between("nonsense", "2025-01-01"), 999);
    assert_eq!(days_between("2025-01-01", ""), 999);
}

#[test]
fn weekday_names() {
    assert_eq!(weekday_name("1970-01-01"), "Thu");
    assert_eq!(weekday_name("2025-01-08"), "Wed");
    assert_eq!(weekday_name("2025-01-12"), "Sun");
    assert_eq!(weekday_name("2025-01-13"), "Mon");
    assert_eq!(weekday_name("1969-12-28"), "Sun");
    assert_eq!(weekday_name("soon"), "soon");
}

#[test]
fn short_dates() {
    assert_eq!(format_short_date("2025-01-08"), "Jan 8");
    assert_eq!(format_short_date("2025-12-25"), "Dec 25");
    assert_eq!(format_short_date("2025-00-05"), " 5");
    assert_eq!(format_short_date("2025-13-05"), "??? 5");
    assert_eq!(format_short_date("later"), "later");
}

#[test]
fn comment_times() {
    assert_eq!(format_comment_time("2025-01-08T09:30:00Z"), "2025-01-08 09:30");
    assert_eq!(format_comment_time("2025-01-08T09:30"), "2025-01-08 09:30");
    assert_eq!(format_comment_time("2025-01-08T09:3"), "2025-01-08T09:3");
    assert_eq!(format_comment_time(""), "");
}

#[test]
fn due_dates_are_made_ready_for_display() {
    let d = format_due("2025-01-08", NOW);
    assert_eq!((d.text.as_str(), d.tone), ("today", DueTone::Today));
    let d = format_due("2025-01-09", NOW);
    assert_eq!((d.text.as_str(), d.tone), ("tomorrow", DueTone::Upcoming));
    let d = format_due("2025-01-07", NOW);
    assert_eq!((d.text.as_str(), d.tone), ("yesterday", DueTone::Overdue));
    let d = format_due("2024-12-24", NOW);
    assert_eq!((d.text.as_str(), d.tone), ("Dec 24", DueTone::Overdue));
    let d = format_due("2025-01-14", NOW);
    assert_eq!((d.text.as_str(), d.tone), ("Tue", DueTone::Upcoming));
    let d = format_due("2025-01-15", NOW);
    assert_eq!((d.text.as_str(), d.tone), ("Jan 15", DueTone::Future));
    let d = format_due("someday", NOW);
    assert_eq!((d.text.as_str(), d.tone), ("someday", DueTone::Future));
}
