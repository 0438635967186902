use x_log::clock::{get_timestamp, timestamp_or_fallback, RFC3339_MAX_NANOS, RFC3339_MIN_NANOS};
use x_log::rotation::rotated_path;
use x_log::text::{byte_len, format_line, line_length, rotated_file_name, to_decimal};

#[test]
fn decimal_notation() {
    assert_eq!(to_decimal(0), "0");
    assert_eq!(to_decimal(7), "7");
    assert_eq!(to_decimal(10), "10");
    assert_eq!(to_decimal(1234567890123), "1234567890123");
    assert_eq!(to_decimal(u128::MAX), "340282366920938463463374607431768211455");
}

#[test]
fn line_is_framed_with_timestamp() {
    assert_eq!(format_line("2026-09-13T13:35:56.6214121Z", "The answer is 42"),
        "[2026-09-13T13:35:56.6214121Z]: The answer is 42\n");
    assert_eq!(format_line("", ""), "[]: \n");
}

#[test]
fn entry_length_counts_the_whole_line() {
    assert_eq!(byte_len("héllo"), 6);
    assert_eq!(line_length(&format_line("abc", "héllo")), 14);
    assert_eq!(line_length(&format_line("2026-09-13T13:35:56.6214121Z", "V1: 75")), 39);
    assert_eq!(line_length(&format_line("0000-00-00 00:00:00", "m")), 25);
    assert_eq!(line_length(""), 0);
}

#[test]
fn rotated_names() {
    assert_eq!(rotated_file_name("app", Some("txt"), 42, 7), "app-42-7.txt");
    assert_eq!(rotated_file_name("app", None, 42, 7), "app-42-7.log");
    assert_eq!(rotated_file_name("app", Some(""), 0, 0), "app-0-0.");
}

#[test]
fn rotated_paths_follow_the_file() {
    assert_eq!(rotated_path("logs/app.log", Some(123), 4), Some("logs/app-123-4.log".to_string()));
    assert_eq!(rotated_path("test1.log", Some(1700000000000000000), 0),
        Some("test1-1700000000000000000-0.log".to_string()));
    assert_eq!(rotated_path("archive.tar.gz", Some(5), 2), Some("archive.tar-5-2.gz".to_string()));
    assert_eq!(rotated_path("notes", Some(9), 1), Some("notes-9-1.log".to_string()));
    assert_eq!(rotated_path(".hidden", Some(1), 0), Some(".hidden-1-0.log".to_string()));
    assert_eq!(rotated_path("dir/sub/x.log", Some(3), 10), Some("dir/sub/x-3-10.log".to_string()));
}

#[test]
fn rotated_path_needs_stem_and_clock() {
    assert_eq!(rotated_path("log.log", None, 0), None);
    assert_eq!(rotated_path("/", Some(1), 0), None);
    assert_eq!(rotated_path("..", Some(1), 0), None);
}

#[test]
fn timestamp_fallback() {
    assert_eq!(timestamp_or_fallback(None), "0000-00-00 00:00:00");
    assert_eq!(timestamp_or_fallback(Some("2026-01-01T00:00:00Z".to_string())), "2026-01-01T00:00:00Z");
}

#[test]
fn timestamp_is_rfc3339_utc() {
    assert_eq!(get_timestamp(0), "1970-01-01T00:00:00Z");
    assert_eq!(get_timestamp(1_546_300_800_000_000_000), "2019-01-01T00:00:00Z");
    assert_eq!(get_timestamp(1_700_000_000_123_456_789), "2023-11-14T22:13:20.123456789Z");
    assert_eq!(get_timestamp(500_000_000), "1970-01-01T00:00:00.5Z");
    assert_eq!(get_timestamp(-1), "1969-12-31T23:59:59.999999999Z");
}

#[test]
fn timestamp_outside_rfc3339_years_falls_back() {
    assert_eq!(get_timestamp(RFC3339_MIN_NANOS), "0000-01-01T00:00:00Z");
    assert_eq!(get_timestamp(RFC3339_MIN_NANOS - 1), "0000-00-00 00:00:00");
    assert_eq!(get_timestamp(RFC3339_MAX_NANOS), "9999-12-31T23:59:59.999999999Z");
    assert_eq!(get_timestamp(RFC3339_MAX_NANOS + 1), "0000-00-00 00:00:00");
    assert_eq!(get_timestamp(i128::MAX), "0000-00-00 00:00:00");
    assert_eq!(get_timestamp(i128::MIN), "0000-00-00 00:00:00");
}
