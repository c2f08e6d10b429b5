//! Tests for the field validators.

use auth_utils::AppError;
use auth_utils::validate_email;
use auth_utils::validate_full_name;
use auth_utils::validate_password;
use auth_utils::validate_phone_number;
use auth_utils::validate_role;
use auth_utils::validate_username;

fn validation_msg<T: std::fmt::Debug>(r: Result<T, AppError>) -> String {
    match r {
        Err(AppError::ValidationError(m)) => m,
        other => panic!("expected a validation error, got {:?}", other),
    }
}

#[test]
fn password_strong_accepted() {
    assert!(validate_password("Passw0rd").is_ok());
    assert!(validate_password("Abcdefg1").is_ok());
    assert!(validate_password("longer Password 123").is_ok());
}

#[test]
fn password_too_short() {
    assert_eq!(
        validation_msg(validate_password("Abc1efg")),
        "Password must be at least 8 characters long"
    );
}

#[test]
fn password_missing_digit() {
    assert_eq!(
        validation_msg(validate_password("Abcdefgh")),
        "Password must contain at least one digit"
    );
}

#[test]
fn password_missing_uppercase() {
    assert_eq!(
        validation_msg(validate_password("abcdefg1")),
        "Password must contain at least one uppercase letter"
    );
}

#[test]
fn password_missing_lowercase() {
    assert_eq!(
        validation_msg(validate_password("ABCDEFG1")),
        "Password must contain at least one lowercase letter"
    );
}

#[test]
fn password_unicode_letters_count() {
    // A non-ASCII uppercase letter satisfies the uppercase rule.
    assert!(validate_password("\u{17b}abcdef1").is_ok());
}

#[test]
fn email_accepted() {
    assert!(validate_email("user.name+tag@example.co").is_ok());
    assert!(validate_email("a@b.co").is_ok());
    assert!(validate_email("A_b%c-d@sub.domain-x.org").is_ok());
}

#[test]
fn email_empty_domain_label_rejected() {
    // The character right after '@' may be '.', but then the domain part
    // before the final dot must still be non-empty.
    assert_eq!(validation_msg(validate_email("user@.com")), "Invalid email format");
}

#[test]
fn email_malformed_rejected() {
    assert_eq!(validation_msg(validate_email("")), "Invalid email format");
    assert_eq!(validation_msg(validate_email("no-at-sign.com")), "Invalid email format");
    assert_eq!(validation_msg(validate_email("@domain.com")), "Invalid email format");
    assert_eq!(validation_msg(validate_email("user@domain")), "Invalid email format");
    assert_eq!(validation_msg(validate_email("user@domain.c")), "Invalid email format");
    assert_eq!(validation_msg(validate_email("user@domain.c0m")), "Invalid email format");
    assert_eq!(validation_msg(validate_email("two@ats@domain.com")), "Invalid email format");
    assert_eq!(validation_msg(validate_email("user@domain.com ")), "Invalid email format");
}

#[test]
fn email_tld_letters_accepted() {
    assert!(validate_email("user@domain.info").is_ok());
}

#[test]
fn email_too_long() {
    let email = format!("{}@b.co", "a".repeat(101));
    assert_eq!(
        validation_msg(validate_email(&email)),
        "Email is too long (max 100 characters)"
    );
}

#[test]
fn phone_accepted() {
    assert!(validate_phone_number("+48 123 456 789").is_ok());
    assert!(validate_phone_number("123456").is_ok());
    assert!(validate_phone_number("123-456-789").is_ok());
}

#[test]
fn phone_no_digits_rejected() {
    assert_eq!(
        validation_msg(validate_phone_number("abc-def")),
        "Invalid phone number format. Use only digits, spaces, hyphens, and optionally a + prefix"
    );
}

#[test]
fn phone_too_short_rejected() {
    assert_eq!(
        validation_msg(validate_phone_number("123")),
        "Invalid phone number format. Use only digits, spaces, hyphens, and optionally a + prefix"
    );
}

#[test]
fn phone_pattern_ok_but_few_digits() {
    // Six pattern characters but only five digits: the pattern passes and
    // the independent digit count fails.
    assert_eq!(
        validation_msg(validate_phone_number("12345-")),
        "Phone number must contain at least 6 digits"
    );
}

#[test]
fn phone_too_long_rejected() {
    assert_eq!(
        validation_msg(validate_phone_number("123456789012345678901")),
        "Invalid phone number format. Use only digits, spaces, hyphens, and optionally a + prefix"
    );
}

#[test]
fn phone_plus_only_prefix() {
    // The '+' is only allowed first; it does not count toward the six digits.
    assert!(validate_phone_number("+123456").is_ok());
    assert_eq!(
        validation_msg(validate_phone_number("12+456")),
        "Invalid phone number format. Use only digits, spaces, hyphens, and optionally a + prefix"
    );
}

#[test]
fn username_accepted() {
    assert!(validate_username("john_doe.99").is_ok());
    assert!(validate_username("abc").is_ok());
}

#[test]
fn username_too_short() {
    assert_eq!(
        validation_msg(validate_username("jo")),
        "Username must be at least 3 characters long"
    );
}

#[test]
fn username_too_long() {
    assert_eq!(
        validation_msg(validate_username(&"a".repeat(51))),
        "Username is too long (max 50 characters)"
    );
}

#[test]
fn username_bad_characters() {
    assert_eq!(
        validation_msg(validate_username("john doe")),
        "Username can only contain letters, numbers, underscores and dots"
    );
    assert_eq!(
        validation_msg(validate_username("john-doe")),
        "Username can only contain letters, numbers, underscores and dots"
    );
}

#[test]
fn full_name_accepted() {
    assert!(validate_full_name("Anna Kowalska").is_ok());
    assert!(validate_full_name("Jan Maria Rokita").is_ok());
    assert!(validate_full_name("Sean O'Connor").is_ok());
    assert!(validate_full_name("Anna Kowalska-Nowak").is_ok());
}

#[test]
fn full_name_polish_letters_accepted() {
    assert!(validate_full_name("\u{141}ukasz Wi\u{15b}niewski").is_ok());
}

#[test]
fn full_name_single_part_rejected() {
    assert_eq!(
        validation_msg(validate_full_name("Anna")),
        "Full name must include both first and last name"
    );
}

#[test]
fn full_name_digits_rejected() {
    assert_eq!(
        validation_msg(validate_full_name("Anna123 Kowalska")),
        "Full name can only contain letters, spaces, hyphens and apostrophes"
    );
}

#[test]
fn full_name_too_short() {
    assert_eq!(
        validation_msg(validate_full_name("A")),
        "Full name must be at least 2 characters long"
    );
}

#[test]
fn full_name_too_long() {
    assert_eq!(
        validation_msg(validate_full_name(&"ab ".repeat(40))),
        "Full name is too long (max 100 characters)"
    );
}

#[test]
fn full_name_tab_separator_fails_character_rule() {
    // A tab separates the two parts, so the parts rule passes, but the
    // character set allows only spaces.
    assert_eq!(
        validation_msg(validate_full_name("Anna\tKowalska")),
        "Full name can only contain letters, spaces, hyphens and apostrophes"
    );
}

#[test]
fn email_length_boundary() {
    // 95 local-part bytes + "@b.co" is exactly 100 bytes.
    assert!(validate_email(&format!("{}@b.co", "a".repeat(95))).is_ok());
    assert_eq!(
        validation_msg(validate_email(&format!("{}@b.co", "a".repeat(96)))),
        "Email is too long (max 100 characters)"
    );
}

#[test]
fn email_length_checked_before_pattern() {
    // Over-long and not matching the pattern: the length message wins.
    assert_eq!(
        validation_msg(validate_email(&"a".repeat(101))),
        "Email is too long (max 100 characters)"
    );
}

#[test]
fn full_name_charset_checked_before_parts() {
    // One part and a forbidden digit: the character-set message wins.
    assert_eq!(
        validation_msg(validate_full_name("Anna123")),
        "Full name can only contain letters, spaces, hyphens and apostrophes"
    );
}

#[test]
fn phone_separators_only_fails_digit_count() {
    assert_eq!(
        validation_msg(validate_phone_number("--- ---")),
        "Phone number must contain at least 6 digits"
    );
}

#[test]
fn username_length_boundary() {
    assert!(validate_username(&"a".repeat(50)).is_ok());
}

#[test]
fn full_name_length_boundary() {
    let name = format!("{} {}", "a".repeat(49), "b".repeat(50));
    assert_eq!(name.len(), 100);
    assert!(validate_full_name(&name).is_ok());
}

#[test]
fn full_name_multiple_spaces_accepted() {
    assert!(validate_full_name("Anna  Kowalska").is_ok());
}

#[test]
fn role_round_trip() {
    assert_eq!(validate_role("Trainer").unwrap(), "trainer");
    assert_eq!(validate_role("trainer").unwrap(), "trainer");
    assert_eq!(validate_role("CLIENT").unwrap(), "client");
    assert_eq!(validate_role("client").unwrap(), "client");
}

#[test]
fn role_unknown_rejected() {
    assert_eq!(
        validation_msg(validate_role("admin")),
        "Invalid role. Must be 'client' or 'trainer'"
    );
    assert_eq!(
        validation_msg(validate_role("")),
        "Invalid role. Must be 'client' or 'trainer'"
    );
    assert_eq!(
        validation_msg(validate_role("clients")),
        "Invalid role. Must be 'client' or 'trainer'"
    );
}
