//! String building blocks and the display labels derived from them.

use jobtrackr::bootstrap::db_location_of;
use jobtrackr::i64_to_string;
use jobtrackr::labels::format_person_label;
use jobtrackr::labels::format_reminder_label;
use jobtrackr::labels::record_label;
use jobtrackr::str_eq;
use jobtrackr::trim_str;

#[test]
fn integers_render_in_decimal() {
    assert_eq!(i64_to_string(0), "0");
    assert_eq!(i64_to_string(7), "7");
    assert_eq!(i64_to_string(42), "42");
    assert_eq!(i64_to_string(1000), "1000");
    assert_eq!(i64_to_string(-1), "-1");
    assert_eq!(i64_to_string(-9007), "-9007");
    assert_eq!(i64_to_string(i64::MAX), "9223372036854775807");
    assert_eq!(i64_to_string(i64::MIN), "-9223372036854775808");
}

#[test]
fn trimming_removes_surrounding_whitespace() {
    assert_eq!(trim_str(""), "");
    assert_eq!(trim_str("   "), "");
    assert_eq!(trim_str("abc"), "abc");
    assert_eq!(trim_str("  abc\t"), "abc");
    assert_eq!(trim_str("\n a b \r\n"), "a b");
    assert_eq!(trim_str(";"), ";");
}

#[test]
fn string_equality_is_by_characters() {
    assert!(str_eq("", ""));
    assert!(str_eq("abc", "abc"));
    assert!(!str_eq("abc", "abd"));
    assert!(!str_eq("abc", "abcd"));
}

#[test]
fn person_labels() {
    assert_eq!(format_person_label("Johnson", "Alice", 1), "Johnson, Alice");
    assert_eq!(format_person_label("  Johnson ", " Alice ", 1), "Johnson, Alice");
    assert_eq!(format_person_label("Johnson", "", 1), "Johnson");
    assert_eq!(format_person_label("", "Alice", 1), "Alice");
    assert_eq!(format_person_label("  ", "\t", 17), "Person ID: 17");
}

#[test]
fn reminder_labels() {
    assert_eq!(format_reminder_label("Follow up interview", 3), "Follow up interview");
    assert_eq!(format_reminder_label("  padded  ", 3), "padded");
    assert_eq!(format_reminder_label("   ", 25), "Reminder ID: 25");
    assert_eq!(format_reminder_label("", 0), "Reminder ID: 0");
}

#[test]
fn record_labels_prefer_a_non_blank_label() {
    assert_eq!(record_label(Some("Acme Corp"), Some(4)), "Acme Corp");
    assert_eq!(record_label(Some("  Acme  "), Some(4)), "  Acme  ");
    assert_eq!(record_label(Some("   "), Some(4)), "Record ID: 4");
    assert_eq!(record_label(None, Some(4)), "Record ID: 4");
    assert_eq!(record_label(Some(""), None), "Unnamed record");
    assert_eq!(record_label(None, None), "Unnamed record");
}

#[test]
fn store_location_is_fixed_under_home() {
    let loc = db_location_of("/home/someone");
    assert_eq!(loc.base_dir, "/home/someone/.JobTrackr");
    assert_eq!(loc.db_path, "/home/someone/.JobTrackr/jobtrackr.db");
    assert_eq!(loc.db_url, "sqlite:///home/someone/.JobTrackr/jobtrackr.db");
}
