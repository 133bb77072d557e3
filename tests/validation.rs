use auth_backend::error::AppError;
use auth_backend::validation::{
    contains_class, validate_password, validate_password_digit, validate_password_length,
    validate_password_lowercase, validate_password_uppercase, CharClass,
};

fn refusal(r: Result<(), AppError>) -> String {
    match r {
        Err(AppError::BadRequest(m)) => m,
        other => panic!("expected a bad request, got {:?}", other),
    }
}

#[test]
fn test_validate_password() {
    assert!(validate_password("Valid1").is_err());
    assert!(validate_password("validpassword").is_err());
    assert!(validate_password("VALIDPASSWORD").is_err());
    assert!(validate_password("ValidPassword").is_err());
    assert!(validate_password("Valid1Password").is_ok());
    assert!(validate_password("Valid1Password!").is_ok());
}

#[test]
fn policy_rejects_each_rule_with_its_message() {
    assert_eq!(refusal(validate_password("")), "Password cannot be empty");
    assert_eq!(refusal(validate_password("short1A")), "Password must be at least 8 characters long");
    assert_eq!(
        refusal(validate_password("alllowercase1")),
        "Password must contain at least one uppercase letter"
    );
    assert_eq!(
        refusal(validate_password("ALLUPPER1")),
        "Password must contain at least one lowercase letter"
    );
    assert_eq!(refusal(validate_password("NoDigitsHere")), "Password must contain at least one digit");
    assert!(validate_password("Valid1Password").is_ok());
}

#[test]
fn policy_reports_the_first_broken_rule() {
    // too short and without uppercase or digit: length comes first
    assert_eq!(refusal(validate_password("abc")), "Password must be at least 8 characters long");
    // no uppercase and no digit: uppercase comes first
    assert_eq!(
        refusal(validate_password("abcdefghij")),
        "Password must contain at least one uppercase letter"
    );
}

#[test]
fn policy_length_bounds() {
    let longest = format!("Aa1{}", "x".repeat(125));
    assert_eq!(longest.chars().count(), 128);
    assert!(validate_password(&longest).is_ok());
    let too_long = format!("Aa1{}", "x".repeat(126));
    assert_eq!(refusal(validate_password(&too_long)), "Password is too long");
    assert!(validate_password("Abcdef1g").is_ok());
    assert!(validate_password_length("1234567").is_err());
    assert!(validate_password_length("12345678").is_ok());
}

#[test]
fn policy_counts_characters_not_bytes() {
    // seven characters, more than eight bytes
    assert!(validate_password_length("Äöü1ßéè").is_err());
    // eight characters
    assert!(validate_password_length("Äöü1ßéèa").is_ok());
}

#[test]
fn single_rule_checks() {
    assert!(validate_password_uppercase("abcD").is_ok());
    assert!(validate_password_uppercase("abcd").is_err());
    assert!(validate_password_lowercase("ABCd").is_ok());
    assert!(validate_password_lowercase("ABCD").is_err());
    assert!(validate_password_digit("abc9").is_ok());
    assert!(validate_password_digit("abc").is_err());
}

#[test]
fn character_classes_follow_unicode() {
    assert!(contains_class("Élan", CharClass::Uppercase));
    assert!(contains_class("ÉLAN", CharClass::Uppercase));
    assert!(!contains_class("ÉLAN", CharClass::Lowercase));
    assert!(contains_class("straße", CharClass::Lowercase));
    assert!(!contains_class("", CharClass::Digit));
    assert!(!contains_class("٣", CharClass::Digit));
    assert!(CharClass::Digit.contains('0'));
    assert!(!CharClass::Uppercase.contains('a'));
}
