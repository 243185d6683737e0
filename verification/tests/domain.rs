use newsletter::domain::{NewSubscriber, SubscriberEmail, SubscriberName, SubscriptionFormData};

#[test]
fn subscriber_name_empty_string_is_rejected() {
    let empty = "".to_string();
    assert!(SubscriberName::parse(empty).is_err());
}

#[test]
fn whitespace_only_string_is_rejected() {
    let whitespace = " ".to_string();
    assert!(SubscriberName::parse(whitespace).is_err());
}

#[test]
fn string_with_more_than_256_graphemes_is_rejected() {
    let long_string = "a".repeat(257);
    assert!(SubscriberName::parse(long_string).is_err());
}

#[test]
fn string_with_forbidden_characters_is_rejected() {
    let forbidden_characters = [
        '/', '\\', ':', '*', '?', '"', '<', '>', '|', '{', '}', '(', ')', '[', ']', '&', '$', '#',
        '@', '%', '^', '!', '~', '`', '+', '=', ';', ',',
    ];
    for c in forbidden_characters.iter() {
        let string_with_forbidden_character = format!("a{}", c);
        assert!(SubscriberName::parse(string_with_forbidden_character).is_err());
    }
}

#[test]
fn valid_subscriber_name_is_parsed_successfully() {
    let valid_subscriber_name = "valid_subscriber_name".to_string();
    assert!(SubscriberName::parse(valid_subscriber_name).is_ok());
}

#[test]
fn valid_subscriber_name_with_256_graphemes_is_parsed_successfully() {
    let valid_subscriber_name = "a".repeat(256);
    assert!(SubscriberName::parse(valid_subscriber_name).is_ok());
}

#[test]
fn subscriber_email_empty_string_is_rejected() {
    let empty = "".to_string();
    assert!(SubscriberEmail::parse(empty).is_err());
}

#[test]
fn email_missing_symbol_is_rejected() {
    let email_missing_symbol = "somerandomstring".to_string();
    assert!(SubscriberEmail::parse(email_missing_symbol).is_err());
}

#[test]
fn email_missing_subject_is_rejected() {
    let email_missing_subject = "@example.com".to_string();
    assert!(SubscriberEmail::parse(email_missing_subject).is_err());
}

#[test]
fn email_with_subject_and_symbol_is_parsed_successfully() {
    let email_with_subject_and_symbol = "some@email.com".to_string();
    assert!(SubscriberEmail::parse(email_with_subject_and_symbol).is_ok());
}

#[test]
fn parsed_name_preserves_input_text() {
    let name = SubscriberName::parse("jon jones".to_string()).unwrap();
    assert_eq!(name.as_ref(), "jon jones");
}

#[test]
fn parsed_email_preserves_input_text() {
    let email = SubscriberEmail::parse("some@email.com".to_string()).unwrap();
    assert_eq!(email.as_ref(), "some@email.com");
}

#[test]
fn name_of_256_multi_codepoint_graphemes_is_accepted() {
    // Each grapheme is the letter `e` followed by a combining acute accent:
    // two code points that count as one user-perceived character.
    let name = "e\u{0301}".repeat(256);
    assert_eq!(name.chars().count(), 512);
    assert!(SubscriberName::parse(name).is_ok());
}

#[test]
fn name_of_257_multi_codepoint_graphemes_is_rejected() {
    let name = "e\u{0301}".repeat(257);
    assert!(SubscriberName::parse(name).is_err());
}

#[test]
fn unicode_whitespace_only_name_is_rejected() {
    let whitespace = "\u{00A0}\t\n ".to_string();
    assert!(SubscriberName::parse(whitespace).is_err());
}

#[test]
fn name_error_message_names_the_input() {
    let err = SubscriberName::parse("jon/jones".to_string()).unwrap_err();
    assert_eq!(err, "jon/jones invalid subscriber name");
}

#[test]
fn email_error_message_names_the_input() {
    let err = SubscriberEmail::parse("chuck".to_string()).unwrap_err();
    assert_eq!(err, "chuck is not a valid subscriber email");
}

#[test]
fn assembler_accepts_valid_input() {
    let form = SubscriptionFormData {
        name: "jon jones".to_string(),
        email: "bones@jones.com".to_string(),
    };
    let subscriber = NewSubscriber::try_from(form).unwrap();
    assert_eq!(subscriber.name.as_ref(), "jon jones");
    assert_eq!(subscriber.email.as_ref(), "bones@jones.com");
}

#[test]
fn assembler_reports_name_error_even_when_email_is_valid() {
    let form = SubscriptionFormData {
        name: "".to_string(),
        email: "bones@jones.com".to_string(),
    };
    let err = NewSubscriber::try_from(form).unwrap_err();
    assert_eq!(err, " invalid subscriber name");
}

#[test]
fn assembler_reports_email_error_when_name_is_valid() {
    let form = SubscriptionFormData {
        name: "chuck".to_string(),
        email: "chuck".to_string(),
    };
    let err = NewSubscriber::try_from(form).unwrap_err();
    assert_eq!(err, "chuck is not a valid subscriber email");
}

#[test]
fn parsing_the_same_name_twice_yields_identical_text() {
    let first = SubscriberName::parse("ursula le guin".to_string()).unwrap();
    let second = SubscriberName::parse("ursula le guin".to_string()).unwrap();
    assert_eq!(first.as_ref(), second.as_ref());
}

#[test]
fn parsing_the_same_email_twice_yields_identical_text() {
    let first = SubscriberEmail::parse("ursula@le.guin".to_string()).unwrap();
    let second = SubscriberEmail::parse("ursula@le.guin".to_string()).unwrap();
    assert_eq!(first.as_ref(), second.as_ref());
}
