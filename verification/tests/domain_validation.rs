use zero2prod::domain::{SubscriberEmail, SubscriberField, SubscriberName};

#[test]
fn empty_name_is_rejected() {
    let r = SubscriberName::parse(String::from(""));
    let e = r.err().expect("empty name must be rejected");
    assert_eq!(e.field, SubscriberField::Name);
    assert_eq!(e.reason, "subscriber name is empty or whitespace-only");
}

#[test]
fn whitespace_only_names_are_rejected() {
    for s in [" ", "   ", " \t\r\n ", "\u{00A0}\u{2003}\u{3000}"] {
        let r = SubscriberName::parse(String::from(s));
        let e = r.err().expect("whitespace-only name must be rejected");
        assert_eq!(e.reason, "subscriber name is empty or whitespace-only");
    }
}

#[test]
fn a_256_character_name_is_accepted() {
    let s = "a".repeat(256);
    let r = SubscriberName::parse(s.clone());
    assert_eq!(r.ok().expect("256 characters fit the bound").as_str(), s);
}

#[test]
fn overlong_names_are_rejected() {
    let r = SubscriberName::parse("a".repeat(257));
    let e = r.err().expect("257 characters exceed the bound");
    assert_eq!(e.field, SubscriberField::Name);
    assert_eq!(e.reason, "subscriber name is longer than 256 characters");
}

#[test]
fn surrounding_whitespace_does_not_count_toward_the_bound() {
    let s = format!("   {}   ", "a".repeat(256));
    let r = SubscriberName::parse(s);
    assert_eq!(r.ok().expect("the trimmed value fits").as_str(), "a".repeat(256));
}

#[test]
fn names_with_forbidden_characters_are_rejected() {
    for c in ['/', '(', ')', '"', '<', '>', '\\', '{', '}'] {
        let r = SubscriberName::parse(format!("Ursula {c} Le Guin"));
        let e = r.err().expect("a forbidden character must be rejected");
        assert_eq!(e.field, SubscriberField::Name);
        assert_eq!(e.reason, "subscriber name contains a forbidden character");
    }
}

#[test]
fn length_is_checked_before_forbidden_characters() {
    // A name that is both overlong and holds a forbidden character: the
    // length rule comes first.
    let r = SubscriberName::parse(format!("<{}", "a".repeat(257)));
    let e = r.err().expect("must be rejected");
    assert_eq!(e.reason, "subscriber name is longer than 256 characters");
}

#[test]
fn valid_names_round_trip_to_the_trimmed_value() {
    let r = SubscriberName::parse(String::from("  le guin \t"));
    assert_eq!(r.ok().expect("a plain name is accepted").as_str(), "le guin");

    let r = SubscriberName::parse(String::from("Ursula K. Le Guin"));
    assert_eq!(
        r.ok().expect("an already-trimmed name is kept as it is").as_str(),
        "Ursula K. Le Guin"
    );
}

#[test]
fn a_well_known_email_is_accepted() {
    let r = SubscriberEmail::parse(String::from("ursula_le_guin@gmail.com"));
    assert_eq!(r.ok().expect("a well-formed email is accepted").as_str(), "ursula_le_guin@gmail.com");
}

#[test]
fn emails_without_an_at_sign_are_rejected() {
    let r = SubscriberEmail::parse(String::from("ursula_le_guin.gmail.com"));
    let e = r.err().expect("an email needs an @");
    assert_eq!(e.field, SubscriberField::Email);
    assert_eq!(e.reason, "subscriber email is not a valid email address");
}

#[test]
fn emails_with_an_empty_local_part_are_rejected() {
    assert!(SubscriberEmail::parse(String::from("@gmail.com")).is_err());
}

#[test]
fn emails_with_an_empty_domain_are_rejected() {
    assert!(SubscriberEmail::parse(String::from("ursula@")).is_err());
}

#[test]
fn emails_whose_domain_lacks_a_dot_are_rejected() {
    assert!(SubscriberEmail::parse(String::from("ursula@gmail")).is_err());
}

#[test]
fn emails_with_two_at_signs_are_rejected() {
    assert!(SubscriberEmail::parse(String::from("ursula@le@gmail.com")).is_err());
}

#[test]
fn emails_with_whitespace_are_rejected() {
    assert!(SubscriberEmail::parse(String::from("ursula le guin@gmail.com")).is_err());
}

#[test]
fn the_empty_string_is_not_an_email() {
    assert!(SubscriberEmail::parse(String::new()).is_err());
}
