use rumiland::email::{normalize_email, suggest_email_correction, validate_email};
use rumiland::localization::{persian_to_english_numbers, to_persian_digits};
use rumiland::phone::{
    format_phone_for_display, get_phone_type, normalize_phone_number, PhoneType,
};
use rumiland::strutil::{trim_str, u64_to_string};

#[test]
fn test_validate_email() {
    // Valid emails
    assert!(validate_email("test@example.com").is_ok());
    assert!(validate_email("user.name@company.co.uk").is_ok());
    assert!(validate_email("info@domain.ir").is_ok());

    // Invalid emails
    assert!(validate_email("").is_err());
    assert!(validate_email("notanemail").is_err());
    assert!(validate_email("missing@domain").is_err());
    assert!(validate_email("@domain.com").is_err());
    assert!(validate_email("user@").is_err());
}

#[test]
fn test_normalize_email() {
    assert_eq!(normalize_email("  TEST@EXAMPLE.COM  "), "test@example.com");
    assert_eq!(normalize_email("User@Domain.COM"), "user@domain.com");
}

#[test]
fn test_validate_email_normalizes() {
    assert_eq!(
        validate_email("  ADMIN@Example.COM ").unwrap(),
        "admin@example.com"
    );
}

#[test]
fn test_validate_email_rejections() {
    // space inside
    assert!(validate_email("a b@example.com").is_err());
    // consecutive dots
    assert!(validate_email("a..b@example.com").is_err());
    // dot at a boundary
    assert!(validate_email(".ab@example.com").is_err());
    assert!(validate_email("ab.@example.com").is_err());
    assert!(validate_email("ab@.example.com").is_err());
    assert!(validate_email("ab@example.com.").is_err());
    // two @ signs
    assert!(validate_email("a@b@example.com").is_err());
    // too short
    assert!(validate_email("a@b.").is_err());
}

#[test]
fn test_suggest_email_correction() {
    assert_eq!(
        suggest_email_correction("user@gmial.com").unwrap(),
        "user@gmail.com"
    );
    assert_eq!(
        suggest_email_correction("user@yaho.com").unwrap(),
        "user@yahoo.com"
    );
    assert_eq!(
        suggest_email_correction("user@outlok.com").unwrap(),
        "user@outlook.com"
    );
    assert!(suggest_email_correction("user@gmail.com").is_none());
    assert!(suggest_email_correction("no-at-sign").is_none());
}

#[test]
fn test_validate_email_suggests_correction() {
    // A well-formed address with a known domain typo is rejected.
    assert!(validate_email("user@gmial.com").is_err());
}

#[test]
fn test_normalize_phone_number() {
    // Test mobile formats
    assert_eq!(
        normalize_phone_number("09123456789").unwrap(),
        "09123456789"
    );
    assert_eq!(normalize_phone_number("9123456789").unwrap(), "09123456789");
    assert_eq!(
        normalize_phone_number("0912 345 6789").unwrap(),
        "09123456789"
    );
    assert_eq!(
        normalize_phone_number("+989123456789").unwrap(),
        "09123456789"
    );
    assert_eq!(
        normalize_phone_number("989123456789").unwrap(),
        "09123456789"
    );

    // Test landline formats
    assert_eq!(
        normalize_phone_number("02144556677").unwrap(),
        "02144556677"
    );
    assert_eq!(
        normalize_phone_number("0241 333 4444").unwrap(),
        "02413334444"
    );

    // Test invalid formats
    assert!(normalize_phone_number("123456").is_err());
    assert!(normalize_phone_number("08123456789").is_err()); // Invalid mobile prefix
}

#[test]
fn test_format_phone() {
    // Mobile numbers
    assert_eq!(format_phone_for_display("09123456789"), "0912 345 6789");
    assert_eq!(format_phone_for_display("09374749005"), "0937 474 9005");

    // Landline - Tehran
    assert_eq!(format_phone_for_display("02144556677"), "021 4455 6677");

    // Landline - Other cities
    assert_eq!(format_phone_for_display("02413334444"), "0241 333 4444");
    assert_eq!(format_phone_for_display("02435751742"), "0243 575 1742");

    // Major cities with 3-digit codes
    assert_eq!(format_phone_for_display("03133445566"), "031 3344 5566"); // Isfahan
    assert_eq!(format_phone_for_display("04133445566"), "041 3344 5566"); // Tabriz
}

#[test]
fn test_get_phone_type() {
    assert_eq!(get_phone_type("09123456789"), Some(PhoneType::Mobile));
    assert_eq!(get_phone_type("02144556677"), Some(PhoneType::Landline));
    assert_eq!(get_phone_type("9123456789"), None);
    assert_eq!(get_phone_type("12345678901"), None);
}

#[test]
fn test_format_phone_passthrough() {
    // Unrecognized numbers come back unchanged.
    assert_eq!(format_phone_for_display("12345"), "12345");
}

#[test]
fn test_persian_to_english_numbers() {
    assert_eq!(persian_to_english_numbers("۱۴۰۳/۰۵/۰۲"), "1403/05/02");
    assert_eq!(persian_to_english_numbers("۰۹۱۲۳۴۵۶۷۸۹"), "09123456789");
    assert_eq!(persian_to_english_numbers("abc"), "abc");
}

#[test]
fn test_to_persian_digits() {
    assert_eq!(to_persian_digits("1403"), "۱۴۰۳");
    assert_eq!(to_persian_digits("no digits"), "no digits");
    // Round trip over digits
    assert_eq!(persian_to_english_numbers(&to_persian_digits("0123456789")), "0123456789");
}

#[test]
fn test_trim_str() {
    assert_eq!(trim_str("  hello \t"), "hello");
    assert_eq!(trim_str("\u{00A0}x\u{3000}"), "x");
    assert_eq!(trim_str("   "), "");
    assert_eq!(trim_str("inner space kept"), "inner space kept");
}

#[test]
fn test_u64_to_string() {
    assert_eq!(u64_to_string(0), "0");
    assert_eq!(u64_to_string(3000), "3000");
    assert_eq!(u64_to_string(18446744073709551615), "18446744073709551615");
}
