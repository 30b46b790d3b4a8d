use overtopr::naming::{disk_name, indexed_title, name_or_placeholder, placeholdertitle};
use overtopr::text::{contains_str, decimal_text};
use overtopr::units::get_prettybytes;

#[test]
fn zero_bytes_use_the_smallest_unit() {
    let (raw, text) = get_prettybytes(0);
    assert_eq!(raw, 0);
    assert_eq!(text, "0.00 B");
}

#[test]
fn small_counts_keep_two_decimals() {
    assert_eq!(get_prettybytes(1).1, "1.00 B");
    assert_eq!(get_prettybytes(1023).1, "1023.00 B");
}

#[test]
fn binary_units_from_the_outside_formatter() {
    assert_eq!(get_prettybytes(1024).1, "1.00 KiB");
    assert_eq!(get_prettybytes(1536).1, "1.50 KiB");
    assert_eq!(get_prettybytes(10000).1, "9.77 KiB");
    assert_eq!(get_prettybytes(1048576).1, "1.00 MiB");
    assert_eq!(get_prettybytes(3 * 1024 * 1024 * 1024).1, "3.00 GiB");
    assert_eq!(get_prettybytes(10000).0, 10000);
}

#[test]
fn formatting_is_repeatable() {
    for raw in [0u64, 5, 1023, 1024, 123456789, u64::MAX] {
        assert_eq!(get_prettybytes(raw), get_prettybytes(raw));
    }
}

fn divisor(unit: &str) -> f64 {
    let units = ["B", "KiB", "MiB", "GiB", "TiB", "PiB", "EiB"];
    let k = units.iter().position(|u| *u == unit).expect("known unit");
    1024f64.powi(k as i32)
}

#[test]
fn formatted_text_parses_back_close_to_the_count() {
    for raw in [0u64, 1, 999, 1024, 1536, 10000, 5_000_000, 7_340_032_123, 1u64 << 50, u64::MAX / 3] {
        let (_, text) = get_prettybytes(raw);
        let mut parts = text.split(' ');
        let number: f64 = parts.next().unwrap().parse().unwrap();
        let unit = parts.next().unwrap();
        assert_eq!(text.split('.').nth(1).unwrap().len(), 2 + 1 + unit.len());
        let scaled = raw as f64 / divisor(unit);
        assert!((number - scaled).abs() <= 0.01, "{raw} -> {text}");
        assert!(raw == 0 || scaled >= 1.0, "{raw} -> {text}");
        assert!(scaled < 1024.0, "{raw} -> {text}");
    }
}

#[test]
fn placeholder_appends_the_index() {
    assert_eq!(placeholdertitle(1, String::from("Disk ")), "Disk 1");
    assert_eq!(placeholdertitle(65535, String::from("mount ")), "mount 65535");
    assert_eq!(indexed_title(0, "unknown fs "), "unknown fs 0");
}

#[test]
fn undecodable_or_empty_disk_name_gets_placeholder() {
    assert_eq!(disk_name(&None, 2), "Disk 2");
    assert_eq!(disk_name(&Some(String::new()), 2), "Disk 2");
}

#[test]
fn luks_names_are_hidden() {
    assert_eq!(
        disk_name(&Some(String::from("luks-3f2a9c1e-0b7d-4e55-9a1b-2c3d4e5f6a7b")), 4),
        "luks disk"
    );
    assert_eq!(disk_name(&Some(String::from("dm-luks")), 0), "luks disk");
    assert_eq!(disk_name(&Some(String::from("/dev/sda1")), 0), "/dev/sda1");
    assert_eq!(disk_name(&Some(String::from("luk")), 7), "luk");
}

#[test]
fn filesystem_and_mount_fallbacks() {
    assert_eq!(name_or_placeholder(&None, 3, "unknown fs "), "unknown fs 3");
    assert_eq!(name_or_placeholder(&Some(String::from("ext4")), 3, "unknown fs "), "ext4");
    assert_eq!(name_or_placeholder(&None, 5, "mount "), "mount 5");
}

#[test]
fn text_helpers() {
    assert_eq!(decimal_text(0), "0");
    assert_eq!(decimal_text(340282366920938463463374607431768211455), "340282366920938463463374607431768211455");
    assert!(contains_str("abcluksdef", "luks"));
    assert!(contains_str("x", ""));
    assert!(!contains_str("lu", "luks"));
    assert!(!contains_str("l-u-k-s", "luks"));
}
