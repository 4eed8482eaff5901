use newsletter_deliverer::domain::{SubscriberEmail, SubscriberName};
use newsletter_deliverer::error::ValidationError;

#[test]
fn name_in_range_of_3_to_30_grapheme() {
    let name = "a".repeat(20);
    assert!(SubscriberName::parse(name).is_ok());
}

#[test]
fn empty_name_is_rejected() {
    let empty_name = "".to_string();
    assert!(SubscriberName::parse(empty_name).is_err());
    let only_whitespace = " ".to_string();
    assert!(SubscriberName::parse(only_whitespace).is_err());
}

#[test]
fn names_containing_an_invalid_character_are_rejected() {
    let name = "a".repeat(3);
    for invalid_char in &['/', '(', ')', '"', '<', '>', '\\', '{', '}'] {
        let mut name = name.clone();
        name.push_str(&invalid_char.to_string());
        assert!(SubscriberName::parse(name).is_err());
    }
}

#[test]
fn a_valid_name_is_parsed_successfully() {
    let name = "sergey".to_string();
    assert!(SubscriberName::parse(name).is_ok());
}

#[test]
fn a_256_grapheme_name_is_accepted_and_257_is_rejected() {
    assert!(SubscriberName::parse("a".repeat(256)).is_ok());
    assert!(SubscriberName::parse("a".repeat(257)).is_err());
}

#[test]
fn grapheme_clusters_count_once_not_per_code_point() {
    // 'a' followed by a combining acute accent is one user-perceived
    // character made of two code points: 200 of them are 400 code points
    // but only 200 graphemes, which fits the limit.
    let accented = "a\u{0301}".repeat(200);
    assert_eq!(accented.chars().count(), 400);
    assert!(SubscriberName::parse(accented).is_ok());
    // 300 of them exceed the 256-grapheme limit.
    assert!(SubscriberName::parse("a\u{0301}".repeat(300)).is_err());
}

#[test]
fn unicode_whitespace_only_names_are_rejected() {
    assert!(SubscriberName::parse(" \t\r\n".to_string()).is_err());
    // No-break space and em space have the Unicode White_Space property.
    assert!(SubscriberName::parse("\u{00A0}\u{2003}".to_string()).is_err());
    // Whitespace around a real name is fine: the text does not trim to nothing.
    assert!(SubscriberName::parse(" sergey ".to_string()).is_ok());
}

#[test]
fn parsed_name_wraps_the_input_unchanged() {
    let name = SubscriberName::parse(" Sergey  Nekhoroshev ".to_string()).unwrap();
    assert_eq!(name.as_ref(), " Sergey  Nekhoroshev ");
}

#[test]
fn rejected_name_error_carries_the_offending_text() {
    let err = SubscriberName::parse("{bad}".to_string()).unwrap_err();
    assert!(matches!(err, ValidationError::InvalidName(t) if t == "{bad}"));
}

#[test]
fn a_conventional_email_is_parsed_successfully() {
    let email = SubscriberEmail::parse("user@example.com".to_string()).unwrap();
    assert_eq!(email.as_ref(), "user@example.com");
}

#[test]
fn syntactically_invalid_emails_are_rejected() {
    // Missing the @ separator.
    assert!(SubscriberEmail::parse("userexample.com".to_string()).is_err());
    // Empty local part.
    assert!(SubscriberEmail::parse("@example.com".to_string()).is_err());
    // Malformed domain.
    assert!(SubscriberEmail::parse("user@-bad-".to_string()).is_err());
    // Empty string.
    assert!(SubscriberEmail::parse("".to_string()).is_err());
}

#[test]
fn rejected_email_error_carries_the_offending_text() {
    let err = SubscriberEmail::parse("not-an-email".to_string()).unwrap_err();
    assert!(matches!(err, ValidationError::InvalidEmail(t) if t == "not-an-email"));
}
