use fake::faker::internet::en::SafeEmail;
use fake::Fake;
use kobo::domain::subscriber_email::accept_or_refuse;
use kobo::domain::subscriber_name::{contains_forbidden, name_is_acceptable};
use kobo::domain::{NewSubscriber, SubscriberEmail, SubscriberName};
use kobo::text::{blank, char_is_whitespace, same_text};

#[test]
fn a_256_grapheme_long_name_is_valid() {
    let name = "a".repeat(256);
    assert!(SubscriberName::parse(&name).is_ok());
}

#[test]
fn a_name_longer_than_256_graphemes_is_rejected() {
    let name = "a".repeat(257);
    assert!(SubscriberName::parse(&name).is_err());
}

#[test]
fn whitespace_only_names_are_rejected() {
    let name = " ";
    assert!(SubscriberName::parse(name).is_err());
}

#[test]
fn subscriber_name_empty_string_is_rejected() {
    let name = "";
    assert!(SubscriberName::parse(name).is_err());
}

#[test]
fn names_containing_an_invalid_char_is_rejected() {
    for name in &['/', '(', ')', '"', '\\', '<', '>', '{', '}'] {
        assert!(SubscriberName::parse(&name.to_string()).is_err());
    }
}

#[test]
fn a_valid_name_is_parsed_successfully() {
    let name = "r2f2";
    assert!(SubscriberName::parse(name).is_ok());
}

#[test]
fn subscriber_email_empty_string_is_rejected() {
    let email = "";
    assert!(SubscriberEmail::parse(email).is_err());
}

#[test]
fn email_missing_at_symbol_is_rejected() {
    let email = "something";
    assert!(SubscriberEmail::parse(email).is_err());
}

#[test]
fn email_missing_subject_is_rejected() {
    let email = "@something.com";
    assert!(SubscriberEmail::parse(email).is_err());
}

#[test]
fn valid_emails_are_parsed_successfully() {
    for _ in 0..200 {
        let email: String = SafeEmail().fake();
        assert!(SubscriberEmail::parse(&email).is_ok(), "{} was refused", email);
    }
}

#[test]
fn a_parsed_name_keeps_the_text_it_was_given() {
    let name = SubscriberName::parse("Ursula Le Guin").unwrap();
    assert_eq!(name.as_ref(), "Ursula Le Guin");
    let padded = SubscriberName::parse("  le guin ").unwrap();
    assert_eq!(padded.as_ref(), "  le guin ");
}

#[test]
fn a_parsed_email_keeps_the_text_it_was_given() {
    let email = SubscriberEmail::parse("ursula_le_guin@gmail.com").unwrap();
    assert_eq!(email.as_ref(), "ursula_le_guin@gmail.com");
}

#[test]
fn a_refused_name_is_quoted_in_the_message() {
    assert_eq!(
        SubscriberName::parse("a<b").unwrap_err(),
        "a<b is not a valid subscriber name"
    );
    assert_eq!(SubscriberName::parse("").unwrap_err(), " is not a valid subscriber name");
}

#[test]
fn a_refused_email_is_quoted_in_the_message() {
    assert_eq!(
        SubscriberEmail::parse("something").unwrap_err(),
        "something is not a valid subscriber email"
    );
}

#[test]
fn names_are_measured_in_grapheme_clusters_not_in_characters() {
    // Each cluster is a letter followed by a combining mark: two characters.
    let cluster = "a\u{0310}";
    let at_the_limit = cluster.repeat(256);
    assert_eq!(at_the_limit.chars().count(), 512);
    assert!(SubscriberName::parse(&at_the_limit).is_ok());
    let over_the_limit = cluster.repeat(257);
    assert!(SubscriberName::parse(&over_the_limit).is_err());
}

#[test]
fn names_of_unicode_white_space_only_are_rejected() {
    for name in ["\t", "\n \r", "\u{00a0}", "\u{2003}\u{3000}", "\u{2028}\u{2029}", "\u{0085}"] {
        assert!(SubscriberName::parse(name).is_err(), "{:?} was accepted", name);
    }
    // The zero-width space is no white space.
    assert!(SubscriberName::parse("\u{200b}").is_ok());
}

#[test]
fn white_space_is_what_std_calls_white_space() {
    let mut code: u32 = 0;
    while code <= 0x10ffff {
        if let Some(c) = char::from_u32(code) {
            assert_eq!(char_is_whitespace(c), c.is_whitespace(), "U+{:04X}", code);
        }
        code += 1;
    }
}

#[test]
fn blank_is_empty_after_trimming() {
    for text in ["", " ", " \t\n", "a", " a ", "\u{3000}x"] {
        assert_eq!(blank(text), text.trim().is_empty(), "{:?}", text);
    }
}

#[test]
fn forbidden_characters_are_found_wherever_they_stand() {
    assert!(contains_forbidden("/abc"));
    assert!(contains_forbidden("ab{c"));
    assert!(contains_forbidden("abc\\"));
    assert!(!contains_forbidden("abc"));
    assert!(!contains_forbidden(""));
    assert!(!contains_forbidden("a[b]c|d"));
}

#[test]
fn a_name_is_judged_by_its_text_and_its_number_of_graphemes() {
    assert!(name_is_acceptable("r2f2", 4));
    assert!(name_is_acceptable("r2f2", 256));
    assert!(!name_is_acceptable("r2f2", 257));
    assert!(!name_is_acceptable("   ", 3));
    assert!(!name_is_acceptable("", 0));
    assert!(!name_is_acceptable("r2(f2", 5));
}

#[test]
fn the_verdict_of_the_validator_decides_on_an_email() {
    assert_eq!(accept_or_refuse("a@b.c", true), Ok("a@b.c".to_string()));
    assert_eq!(
        accept_or_refuse("a@b.c", false),
        Err("a@b.c is not a valid subscriber email".to_string())
    );
}

#[test]
fn a_new_subscriber_holds_its_email_and_its_name() {
    let email = SubscriberEmail::parse("ursula_le_guin@gmail.com").unwrap();
    let name = SubscriberName::parse("le guin").unwrap();
    let subscriber = NewSubscriber::new(email, name);
    assert_eq!(subscriber.email.as_ref(), "ursula_le_guin@gmail.com");
    assert_eq!(subscriber.name.as_ref(), "le guin");
}

#[test]
fn texts_are_the_same_when_their_characters_are() {
    assert!(same_text("local", "local"));
    assert!(!same_text("local", "Local"));
    assert!(!same_text("local", "loca"));
    assert!(same_text("", ""));
}
