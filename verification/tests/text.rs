use video_viewer::text::{format_time, replace_char, NANOS_PER_SEC};

fn seconds(n: u64) -> u128 {
    n as u128 * NANOS_PER_SEC as u128
}

#[test]
fn times_are_minutes_and_seconds() {
    assert_eq!(format_time(0), "0:00");
    assert_eq!(format_time(seconds(5)), "0:05");
    assert_eq!(format_time(seconds(59)), "0:59");
    assert_eq!(format_time(seconds(60)), "1:00");
    assert_eq!(format_time(seconds(75)), "1:15");
    assert_eq!(format_time(seconds(3600)), "60:00");
    assert_eq!(format_time(seconds(7384)), "123:04");
}

#[test]
fn fractions_of_a_second_are_dropped() {
    assert_eq!(format_time(seconds(1) - 1), "0:00");
    assert_eq!(format_time(seconds(1)), "0:01");
    assert_eq!(format_time(seconds(2) - 1), "0:01");
}

#[test]
fn longest_time() {
    assert_eq!(format_time(seconds(u64::MAX) + 999_999_999), "307445734561825860:15");
}

#[test]
fn times_in_different_seconds_look_different() {
    assert_ne!(format_time(seconds(61)), format_time(seconds(601)));
    assert_ne!(format_time(seconds(661)), format_time(seconds(61)));
}

#[test]
fn characters_are_replaced_one_for_one() {
    assert_eq!(replace_char("a\\b\\\\c", '\\', '/'), "a/b//c");
    assert_eq!(replace_char("größe", 'ö', 'o'), "große");
    assert_eq!(replace_char("", 'a', 'b'), "");
}
