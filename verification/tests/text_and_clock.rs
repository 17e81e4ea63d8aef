use verified_registry::clock::{is_timestamp, utc_timestamp};
use verified_registry::text::same_text;

#[test]
fn same_text_on_equal_and_unequal() {
    assert!(same_text("", ""));
    assert!(same_text("delete", "delete"));
    assert!(!same_text("delete", "Delete"));
    assert!(!same_text("delete", "delete "));
    assert!(!same_text("", "x"));
    assert!(!same_text("abc", "abd"));
}

#[test]
fn same_text_beyond_ascii() {
    assert!(same_text("Zoë#1234", "Zoë#1234"));
    assert!(!same_text("Zoë", "Zoe"));
    assert!(!same_text("é", "e\u{301}"));
}

#[test]
fn timestamp_shape_accepted() {
    assert!(is_timestamp("2024-02-29 23:59:59"));
    assert!(is_timestamp("1970-01-01 00:00:00"));
    assert!(is_timestamp("9999-12-31 23:59:60"));
    // the shape alone is checked, not the calendar
    assert!(is_timestamp("0000-00-00 00:00:00"));
    assert!(is_timestamp("2024-13-45 99:99:99"));
}

#[test]
fn timestamp_shape_refused() {
    assert!(!is_timestamp(""));
    assert!(!is_timestamp("2024-02-29"));
    assert!(!is_timestamp("2024-02-29T23:59:59"));
    assert!(!is_timestamp("2024-02-29 23:59:5"));
    assert!(!is_timestamp("2024-02-29 23:59:599"));
    assert!(!is_timestamp("2024/02/29 23:59:59"));
    assert!(!is_timestamp("2024-02-29 23.59.59"));
    assert!(!is_timestamp("+10000-01-01 00:00:00"));
    assert!(!is_timestamp("2024-02-29 23:59:5x"));
    assert!(!is_timestamp("２０２４-02-29 23:59:59"));
    assert!(!is_timestamp("2024-02-29 23:59:5٩"));
}

#[test]
fn clock_gives_a_timestamp() {
    let now = utc_timestamp();
    assert!(is_timestamp(&now), "unexpected clock text: {}", now);
    assert_ne!(now, "%Y-%m-%d %H:%M:%S");
    assert!(now.as_str() >= "2024-01-01 00:00:00");
}

fn rendered(unix_seconds: i64) -> String {
    chrono::DateTime::from_timestamp(unix_seconds, 0)
        .unwrap()
        .format("%Y-%m-%d %H:%M:%S")
        .to_string()
}

#[test]
fn chrono_prints_the_shape_up_to_the_year_9999() {
    assert_eq!(rendered(0), "1970-01-01 00:00:00");
    assert_eq!(rendered(1_709_251_199), "2024-02-29 23:59:59");
    assert_eq!(rendered(253_402_300_799), "9999-12-31 23:59:59");
    assert!(is_timestamp(&rendered(0)));
    assert!(is_timestamp(&rendered(1_709_251_199)));
    assert!(is_timestamp(&rendered(253_402_300_799)));
}

#[test]
fn chrono_prints_a_longer_text_from_the_year_10000() {
    let text = rendered(253_402_300_800);
    assert_eq!(text, "+10000-01-01 00:00:00");
    assert!(text.chars().count() > 19);
    assert!(!is_timestamp(&text));
}
