use disktui::error::ErrorKind;
use disktui::operations::create::requested_size;
use disktui::size::parse_size;
use disktui::utils::format_bytes;

#[test]
fn parse_size_reads_megabytes() {
    assert_eq!(parse_size("100M").unwrap(), 100_000_000);
}

#[test]
fn parse_size_reads_fractional_gigabytes() {
    assert_eq!(parse_size("2.5G").unwrap(), 2_500_000_000);
}

#[test]
fn parse_size_reads_terabytes() {
    assert_eq!(parse_size("1T").unwrap(), 1_000_000_000_000);
}

#[test]
fn parse_size_rejects_letters() {
    let e = parse_size("abc").unwrap_err();
    assert_eq!(e.kind, ErrorKind::Validation);
    assert_eq!(e.message, "Invalid size format. Use format like: 100M, 2.5GB, 1TB");
}

#[test]
fn parse_size_rejects_empty_text() {
    assert!(parse_size("").is_err());
    assert!(parse_size("   ").is_err());
    assert!(parse_size("B").is_err());
    assert!(parse_size("G").is_err());
    assert!(parse_size(".").is_err());
}

#[test]
fn blank_size_means_all_free_space() {
    assert_eq!(requested_size("", 123_456_789).unwrap(), 123_456_789);
    assert_eq!(requested_size("  \t", 42).unwrap(), 42);
}

#[test]
fn written_size_overrides_free_space() {
    assert_eq!(requested_size("500M", 1_000_000_000).unwrap(), 500_000_000);
    assert!(requested_size("abc", 1_000_000_000).is_err());
}

#[test]
fn parse_size_accepts_two_letter_units_in_either_case() {
    assert_eq!(parse_size("1KB").unwrap(), 1_000);
    assert_eq!(parse_size("1kb").unwrap(), 1_000);
    assert_eq!(parse_size("3mb").unwrap(), 3_000_000);
    assert_eq!(parse_size("2.5GB").unwrap(), 2_500_000_000);
    assert_eq!(parse_size("1tb").unwrap(), 1_000_000_000_000);
    assert_eq!(parse_size("7k").unwrap(), 7_000);
}

#[test]
fn parse_size_without_unit_is_bytes() {
    assert_eq!(parse_size("4096").unwrap(), 4096);
    assert_eq!(parse_size("0").unwrap(), 0);
}

#[test]
fn parse_size_takes_one_b_behind_a_unit_letter_only() {
    assert_eq!(parse_size("1KB").unwrap(), 1_000);
    assert_eq!(parse_size("1Kb").unwrap(), 1_000);
    assert!(parse_size("100B").is_err());
    assert!(parse_size("5b").is_err());
    assert!(parse_size("1KBB").is_err());
    assert!(parse_size("1BB").is_err());
    assert!(parse_size("1BK").is_err());
    assert!(parse_size("1KK").is_err());
    assert!(parse_size("1KM").is_err());
    assert!(parse_size("KB").is_err());
    assert!(parse_size("1K B").is_err());
}

#[test]
fn parse_size_trims_white_space_around_only() {
    assert_eq!(parse_size("  10M \n").unwrap(), 10_000_000);
    assert!(parse_size("10 M").is_err());
}

#[test]
fn parse_size_rounds_to_the_nearest_byte() {
    assert_eq!(parse_size("0.4").unwrap(), 0);
    assert_eq!(parse_size("0.5").unwrap(), 1);
    assert_eq!(parse_size("1.49").unwrap(), 1);
    assert_eq!(parse_size("1.5").unwrap(), 2);
    assert_eq!(parse_size("0.0004K").unwrap(), 0);
    assert_eq!(parse_size("0.0005K").unwrap(), 1);
    assert_eq!(parse_size("1.2345678K").unwrap(), 1235);
    assert_eq!(parse_size("0.0000000000014T").unwrap(), 1);
}

#[test]
fn parse_size_reads_numerals_with_a_bare_point() {
    assert_eq!(parse_size("5.").unwrap(), 5);
    assert_eq!(parse_size(".5K").unwrap(), 500);
    assert_eq!(parse_size("+3M").unwrap(), 3_000_000);
    assert!(parse_size("1.2.3").is_err());
    assert!(parse_size("1,5G").is_err());
    assert!(parse_size("--1").is_err());
}

#[test]
fn parse_size_rejects_negative_sizes() {
    let e = parse_size("-1G").unwrap_err();
    assert_eq!(e.kind, ErrorKind::Validation);
    assert_eq!(e.message, "Invalid size format. Use format like: 100M, 2.5GB, 1TB");
    assert!(parse_size("-5").is_err());
    assert!(parse_size("-2.5G").is_err());
    assert!(parse_size("-0.4").is_err());
    assert!(parse_size("-1e-30").is_err());
    assert!(parse_size("-.5K").is_err());
    assert!(requested_size("-1G", 1_000_000_000).is_err());
}

#[test]
fn parse_size_reads_a_signed_zero_as_zero() {
    assert_eq!(parse_size("-0").unwrap(), 0);
    assert_eq!(parse_size("-0.000G").unwrap(), 0);
    assert_eq!(parse_size("-0e5").unwrap(), 0);
    assert_eq!(parse_size("+0").unwrap(), 0);
}

#[test]
fn parse_size_caps_at_the_largest_number() {
    assert_eq!(parse_size("18446744073709551615").unwrap(), u64::MAX);
    assert_eq!(parse_size("18446744073709551616").unwrap(), u64::MAX);
    assert_eq!(parse_size("99999999999T").unwrap(), u64::MAX);
    assert_eq!(parse_size("18446744073709551615.5").unwrap(), u64::MAX);
    assert_eq!(parse_size("18446744073709551614.5").unwrap(), u64::MAX);
    assert_eq!(parse_size("18446744073709551614.4").unwrap(), u64::MAX - 1);
}

#[test]
fn parse_size_keeps_leading_zeros_harmless() {
    assert_eq!(parse_size("000000000000000000000000000012M").unwrap(), 12_000_000);
    assert_eq!(parse_size("0.000000000000000000000000000001T").unwrap(), 0);
}

#[test]
fn format_bytes_picks_the_largest_unit() {
    assert_eq!(format_bytes(0), "0B");
    assert_eq!(format_bytes(999), "999B");
    assert_eq!(format_bytes(1_000), "1KB");
    assert_eq!(format_bytes(1_500), "1.5KB");
    assert_eq!(format_bytes(2_000_000), "2MB");
    assert_eq!(format_bytes(2_500_000_000), "2.5GB");
    assert_eq!(format_bytes(1_000_000_000_000), "1TB");
    assert_eq!(format_bytes(500_000_000), "500MB");
}

#[test]
fn format_bytes_rounds_to_one_decimal() {
    assert_eq!(format_bytes(1_234), "1.2KB");
    assert_eq!(format_bytes(1_260), "1.3KB");
    assert_eq!(format_bytes(1_250), "1.2KB");
    assert_eq!(format_bytes(1_750), "1.8KB");
    assert_eq!(format_bytes(1_001), "1.0KB");
    assert_eq!(format_bytes(999_950), "1000.0KB");
    assert_eq!(format_bytes(u64::MAX), "18446744.1TB");
}

#[test]
fn parse_size_reads_exponents() {
    assert_eq!(parse_size("1e3").unwrap(), 1_000);
    assert_eq!(parse_size("1E3").unwrap(), 1_000);
    assert_eq!(parse_size("1e+2").unwrap(), 100);
    assert_eq!(parse_size("1e3K").unwrap(), 1_000_000);
    assert_eq!(parse_size("2.5e-1K").unwrap(), 250);
    assert_eq!(parse_size("5e-1").unwrap(), 1);
    assert_eq!(parse_size("4e-1").unwrap(), 0);
    assert_eq!(parse_size("12345e-2").unwrap(), 123);
    assert_eq!(parse_size("12355e-2").unwrap(), 124);
    assert_eq!(parse_size("1e19").unwrap(), 10_000_000_000_000_000_000);
    assert_eq!(parse_size("1.8446744073709551615e19").unwrap(), u64::MAX);
    assert_eq!(parse_size("1.8446744073709551614e19").unwrap(), u64::MAX - 1);
    assert_eq!(parse_size("1e20").unwrap(), u64::MAX);
    assert_eq!(parse_size("1e-0").unwrap(), 1);
    assert_eq!(parse_size("0.001e3").unwrap(), 1);
    assert_eq!(parse_size("1e-12T").unwrap(), 1);
    assert_eq!(parse_size("1e-13T").unwrap(), 0);
    assert_eq!(parse_size("5e-13T").unwrap(), 1);
}

#[test]
fn parse_size_copes_with_absurd_exponents() {
    assert_eq!(parse_size("0e99999999999999999999999999999").unwrap(), 0);
    assert_eq!(parse_size("0.000e99999999999999999999999999999").unwrap(), 0);
    assert_eq!(parse_size("1e99999999999999999999999999999").unwrap(), u64::MAX);
    assert_eq!(parse_size("1e-99999999999999999999999999999").unwrap(), 0);
    assert_eq!(parse_size("9e-1000000000000000000000000").unwrap(), 0);
    assert_eq!(parse_size("1e1000000000000000000000000").unwrap(), u64::MAX);
    assert_eq!(parse_size("0.00000000000000000001e20").unwrap(), 1);
    assert_eq!(parse_size("100000000000000000000e-20").unwrap(), 1);
}

#[test]
fn parse_size_rejects_broken_exponents() {
    assert!(parse_size("1e").is_err());
    assert!(parse_size("e5").is_err());
    assert!(parse_size("1e5.5").is_err());
    assert!(parse_size("1e+").is_err());
    assert!(parse_size("1e--5").is_err());
    assert!(parse_size("1e5e5").is_err());
    assert!(parse_size("1eM").is_err());
    assert!(parse_size(".e5").is_err());
}

#[test]
fn parse_size_rejects_infinity_and_not_a_number() {
    let e = parse_size("nan").unwrap_err();
    assert_eq!(e.kind, ErrorKind::Validation);
    assert!(parse_size("inf").is_err());
    assert!(parse_size("+inf").is_err());
    assert!(parse_size("-inf").is_err());
    assert!(parse_size("infinity").is_err());
    assert!(parse_size("Infinity").is_err());
    assert!(parse_size("INFINITY").is_err());
    assert!(parse_size("infG").is_err());
    assert!(parse_size("NaN").is_err());
    assert!(parse_size("-nan").is_err());
    assert!(parse_size("nanM").is_err());
    assert!(requested_size("inf", 1_000_000_000).is_err());
    assert!(parse_size("in").is_err());
    assert!(parse_size("infinit").is_err());
    assert!(parse_size("infinityy").is_err());
    assert!(parse_size("nano").is_err());
    assert!(parse_size("na").is_err());
}
