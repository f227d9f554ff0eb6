use bifes::{decimal_string, format_size, report_line};

#[test]
fn format_size_zero() {
    assert_eq!(format_size(0), "0 bytes");
}

#[test]
fn format_size_largest_in_bytes() {
    assert_eq!(format_size(1023), "1023 bytes");
}

#[test]
fn format_size_one_kb() {
    assert_eq!(format_size(1024), "1 KB");
}

#[test]
fn format_size_one_mb() {
    assert_eq!(format_size(1048576), "1 MB");
}

#[test]
fn format_size_one_gb() {
    assert_eq!(format_size(1073741824), "1 GB");
}

#[test]
fn format_size_truncates() {
    assert_eq!(format_size(2047), "1 KB");
    assert_eq!(format_size(1048575), "1023 KB");
    assert_eq!(format_size(3 * 1048576 + 1048575), "3 MB");
}

#[test]
fn format_size_tb_is_ceiling() {
    assert_eq!(format_size(1099511627776), "1 TB");
    assert_eq!(format_size(1024 * 1099511627776), "1024 TB");
    assert_eq!(format_size(u64::MAX), "16777215 TB");
}

#[test]
fn decimal_string_digits() {
    assert_eq!(decimal_string(0), "0");
    assert_eq!(decimal_string(9), "9");
    assert_eq!(decimal_string(10), "10");
    assert_eq!(decimal_string(1234567890), "1234567890");
    assert_eq!(decimal_string(u64::MAX), "18446744073709551615");
}

#[test]
fn report_line_layout() {
    assert_eq!(report_line(4096, "root/B/C"), "4 KB bytes: root/B/C");
    assert_eq!(report_line(5, "x"), "5 bytes bytes: x");
}
