use flowy_user::errors::{ErrorCode, ProfileField};
use flowy_user::parser::{UserEmail, UserIcon, UserName, UserOpenaiKey, UserPassword};

#[test]
fn name_is_accepted_unchanged() {
    let n = UserName::parse("Ada Lovelace".to_string()).unwrap();
    assert_eq!(n.as_str(), "Ada Lovelace");
}

#[test]
fn name_validation_is_idempotent() {
    let n = UserName::parse("Ada".to_string()).unwrap();
    let again = UserName::parse(n.as_str().to_string()).unwrap();
    assert_eq!(again, n);
}

#[test]
fn empty_name_is_rejected() {
    assert_eq!(UserName::parse(String::new()), Err(ErrorCode::UserNameIsEmpty));
}

#[test]
fn blank_name_is_rejected() {
    assert_eq!(UserName::parse(" \t ".to_string()), Err(ErrorCode::UserNameIsEmpty));
}

#[test]
fn name_at_the_length_limit_is_accepted() {
    let s = "a".repeat(256);
    assert!(UserName::parse(s).is_ok());
}

#[test]
fn name_over_the_length_limit_is_rejected() {
    let s = "a".repeat(257);
    assert_eq!(UserName::parse(s), Err(ErrorCode::UserNameTooLong));
}

#[test]
fn name_length_counts_characters_not_bytes() {
    let s = "é".repeat(200);
    assert!(UserName::parse(s).is_ok());
}

#[test]
fn name_with_forbidden_character_is_rejected() {
    assert_eq!(
        UserName::parse("a/b".to_string()),
        Err(ErrorCode::UserNameContainForbiddenCharacters)
    );
}

#[test]
fn email_is_accepted_unchanged() {
    let e = UserEmail::parse("ada@example.com".to_string()).unwrap();
    assert_eq!(e.as_str(), "ada@example.com");
    let again = UserEmail::parse(e.as_str().to_string()).unwrap();
    assert_eq!(again, e);
}

#[test]
fn email_without_at_is_rejected() {
    assert_eq!(
        UserEmail::parse("not-an-email".to_string()),
        Err(ErrorCode::EmailFormatInvalid)
    );
}

#[test]
fn malformed_emails_are_rejected() {
    for s in [
        "",
        "@example.com",
        "ada@",
        "ada@example",
        "ada@.example.com",
        "ada@example.com.",
        "ada@@example.com",
        "a@b@example.com",
        "ada @example.com",
    ] {
        assert_eq!(
            UserEmail::parse(s.to_string()),
            Err(ErrorCode::EmailFormatInvalid),
            "{}",
            s
        );
    }
}

#[test]
fn password_rules() {
    assert!(UserPassword::parse("secret123".to_string()).is_ok());
    assert_eq!(UserPassword::parse(String::new()), Err(ErrorCode::PasswordIsEmpty));
    let long = format!("a1{}", "b".repeat(99));
    assert_eq!(UserPassword::parse(long), Err(ErrorCode::PasswordTooLong));
    let limit = format!("a1{}", "b".repeat(98));
    assert!(UserPassword::parse(limit).is_ok());
    assert_eq!(
        UserPassword::parse("abc<123".to_string()),
        Err(ErrorCode::PasswordContainsForbidCharacters)
    );
    assert_eq!(
        UserPassword::parse("abcdef".to_string()),
        Err(ErrorCode::PasswordFormatInvalid)
    );
    assert_eq!(
        UserPassword::parse("123456".to_string()),
        Err(ErrorCode::PasswordFormatInvalid)
    );
}

#[test]
fn icon_rules() {
    assert_eq!(UserIcon::parse("🚀".to_string()).unwrap().as_str(), "🚀");
    assert!(UserIcon::parse(String::new()).is_ok());
    assert_eq!(UserIcon::parse("a b".to_string()), Err(ErrorCode::UserIconInvalid));
    assert_eq!(UserIcon::parse("x".repeat(2049)), Err(ErrorCode::UserIconInvalid));
    assert!(UserIcon::parse("x".repeat(2048)).is_ok());
}

#[test]
fn openai_key_rules() {
    assert_eq!(
        UserOpenaiKey::parse("sk-Abc_123".to_string()).unwrap().as_str(),
        "sk-Abc_123"
    );
    assert!(UserOpenaiKey::parse(String::new()).is_ok());
    assert_eq!(
        UserOpenaiKey::parse("sk key".to_string()),
        Err(ErrorCode::OpenaiKeyInvalid)
    );
    assert_eq!(
        UserOpenaiKey::parse("k".repeat(257)),
        Err(ErrorCode::OpenaiKeyInvalid)
    );
}

#[test]
fn error_codes_name_their_field() {
    assert_eq!(ErrorCode::UserNameTooLong.field(), ProfileField::Name);
    assert_eq!(ErrorCode::EmailFormatInvalid.field(), ProfileField::Email);
    assert_eq!(ErrorCode::PasswordFormatInvalid.field(), ProfileField::Password);
    assert_eq!(ErrorCode::UserIconInvalid.field(), ProfileField::IconUrl);
    assert_eq!(ErrorCode::OpenaiKeyInvalid.field(), ProfileField::OpenaiKey);
}
