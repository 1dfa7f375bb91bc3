use sigvim::dbus::client::checked_phone_number;
use sigvim::dbus::client::account_from_object_path;
use sigvim::dbus::client::{account_object_path, validate_device_name, validate_phone_number, validate_verify_code};
use sigvim::dbus::stream::normalize_group_id;

#[test]
fn account_path_strips_plus_and_formatting() {
    assert_eq!(account_object_path("+14155552671"), "/org/asamk/Signal/_14155552671");
    assert_eq!(account_object_path("14155552671"), "/org/asamk/Signal/_14155552671");
    assert_eq!(account_object_path("+1 (415) 555-2671"), "/org/asamk/Signal/_14155552671");
}

#[test]
fn phone_number_requires_e164() {
    assert!(validate_phone_number("+14155552671").is_ok());
    assert!(validate_phone_number("14155552671").is_err(), "missing +");
    assert!(validate_phone_number("+1abcd").is_err(), "non-digits");
    assert!(validate_phone_number("+1").is_err(), "too short");
    assert!(validate_phone_number(&format!("+{}", "9".repeat(20))).is_err(), "too long");
}

#[test]
fn verify_code_must_be_six_digits() {
    assert!(validate_verify_code("123456").is_ok());
    assert!(validate_verify_code("123-456").is_ok(), "hyphens allowed");
    assert!(validate_verify_code("123 456").is_ok(), "spaces allowed");
    assert!(validate_verify_code("12345").is_err());
    assert!(validate_verify_code("1234567").is_err());
    assert!(validate_verify_code("12345a").is_err());
}

#[test]
fn device_name_validation() {
    assert!(validate_device_name("nixos-laptop").is_ok());
    assert!(validate_device_name("").is_err());
    assert!(validate_device_name("   ").is_err());
    assert!(validate_device_name(&"x".repeat(51)).is_err());
}

#[test]
fn empty_group_id_becomes_none() {
    assert_eq!(normalize_group_id(Vec::new()), None);
}

#[test]
fn non_empty_group_id_is_some() {
    assert_eq!(normalize_group_id(vec![1, 2, 3]), Some(vec![1, 2, 3]));
}

#[test]
fn phone_errors_quote_the_trimmed_input() {
    let e = validate_phone_number("  14155552671 ").unwrap_err();
    assert_eq!(
        e.to_string(),
        "config: invalid phone number \"14155552671\": must be E.164 like +14155552671"
    );
    let e = validate_phone_number("+1415555abcd").unwrap_err();
    assert_eq!(e.to_string(), "config: invalid phone number \"+1415555abcd\": only digits allowed after +");
    assert!(validate_phone_number("  +14155552671\t").is_ok());
}

#[test]
fn phone_length_counts_bytes() {
    // 8 bytes is the shortest accepted, 20 the longest.
    assert!(validate_phone_number("+1234567").is_ok());
    assert!(validate_phone_number("+123456").is_err());
    assert!(validate_phone_number(&format!("+{}", "9".repeat(19))).is_ok());
}

#[test]
fn verify_code_error_messages() {
    let e = validate_verify_code("12345").unwrap_err();
    assert_eq!(e.to_string(), "config: invalid verification code \"12345\": expected 6 digits");
    let e = validate_verify_code("123_456").unwrap_err();
    assert_eq!(
        e.to_string(),
        "config: invalid verification code \"123_456\": only digits, spaces, and hyphens allowed"
    );
}

#[test]
fn device_name_limits() {
    assert!(validate_device_name(&"x".repeat(50)).is_ok());
    assert_eq!(validate_device_name(" ").unwrap_err().to_string(), "config: device name cannot be empty");
    // 26 two-byte chars are 52 bytes.
    let long = "é".repeat(26);
    assert_eq!(
        validate_device_name(&long).unwrap_err().to_string(),
        format!("config: device name \"{long}\": max 50 characters")
    );
}

#[test]
fn account_paths_read_back_as_numbers() {
    assert_eq!(account_from_object_path(&account_object_path("+1 (415) 555-2671")).as_deref(), Some("+14155552671"));
    assert_eq!(account_from_object_path("/org/asamk/Signal"), None);
    assert_eq!(account_from_object_path("/org/asamk/Signal/_"), None);
    assert_eq!(account_from_object_path("/elsewhere/_123"), None);
}

#[test]
fn checked_number_is_trimmed() {
    assert_eq!(checked_phone_number("  +14155552671\n").unwrap(), "+14155552671");
    assert_eq!(
        checked_phone_number("14155552671").unwrap_err().to_string(),
        validate_phone_number("14155552671").unwrap_err().to_string()
    );
    assert!(checked_phone_number("+1415abc5552").is_err());
}
