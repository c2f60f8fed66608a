use snapclip::filename::{png_file_name, u64_to_decimal};

#[test]
fn decimal_of_zero() {
    assert_eq!(u64_to_decimal(0), "0");
}

#[test]
fn decimal_of_single_digits() {
    for d in 0u64..10 {
        assert_eq!(u64_to_decimal(d), d.to_string());
    }
}

#[test]
fn decimal_of_larger_values() {
    assert_eq!(u64_to_decimal(10), "10");
    assert_eq!(u64_to_decimal(1699999999), "1699999999");
    assert_eq!(u64_to_decimal(u64::MAX), "18446744073709551615");
}

#[test]
fn file_name_is_seconds_then_png() {
    assert_eq!(png_file_name(0), "0.png");
    assert_eq!(png_file_name(7), "7.png");
    assert_eq!(png_file_name(1699999999), "1699999999.png");
}

#[test]
fn file_name_matches_digits_dot_png() {
    let name = png_file_name(1234567890);
    let (stem, suffix) = name.split_at(name.len() - 4);
    assert_eq!(suffix, ".png");
    assert!(!stem.is_empty());
    assert!(stem.chars().all(|c| c.is_ascii_digit()));
}
