use sysfetch::numfmt::{format_gb, format_uptime, u64_to_string};

#[test]
fn gb_one_exact() {
    assert_eq!(format_gb(1073741824), "1.00 GB");
}

#[test]
fn gb_one_and_a_half() {
    assert_eq!(format_gb(1610612736), "1.50 GB");
}

#[test]
fn gb_zero() {
    assert_eq!(format_gb(0), "0.00 GB");
}

#[test]
fn gb_half() {
    assert_eq!(format_gb(536870912), "0.50 GB");
}

#[test]
fn gb_tie_rounds_to_even() {
    // 134217728 bytes is exactly 0.125 GB; the tie rounds to the even
    // hundredth, 0.12.
    assert_eq!(format_gb(134217728), "0.12 GB");
}

#[test]
fn gb_small_fraction() {
    // 1 byte is far less than half a hundredth of a gigabyte.
    assert_eq!(format_gb(1), "0.00 GB");
}

#[test]
fn gb_largest() {
    assert_eq!(format_gb(u64::MAX), "17179869184.00 GB");
}

#[test]
fn uptime_one_of_each() {
    assert_eq!(format_uptime(3661), "1 hours, 1 minutes, 1 seconds");
}

#[test]
fn uptime_under_a_minute() {
    assert_eq!(format_uptime(59), "0 hours, 0 minutes, 59 seconds");
}

#[test]
fn uptime_zero() {
    assert_eq!(format_uptime(0), "0 hours, 0 minutes, 0 seconds");
}

#[test]
fn uptime_whole_day() {
    assert_eq!(format_uptime(86400), "24 hours, 0 minutes, 0 seconds");
}

#[test]
fn uptime_just_under_an_hour() {
    assert_eq!(format_uptime(3599), "0 hours, 59 minutes, 59 seconds");
}

#[test]
fn decimal_zero() {
    assert_eq!(u64_to_string(0), "0");
}

#[test]
fn decimal_with_inner_zero() {
    assert_eq!(u64_to_string(105), "105");
}

#[test]
fn decimal_largest() {
    assert_eq!(u64_to_string(u64::MAX), "18446744073709551615");
}
