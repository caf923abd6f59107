use zero2prod::domain::parameters::all_alphanumeric;
use zero2prod::domain::subscriber::pending_subscriber_id;
use zero2prod::domain::{NewSubscriber, Parameters, Subscriber, SubscriptionToken};

const VALID: &str = "abcdefghijklmnopqrstuvwxy";

#[test]
fn parse_accepts_twenty_five_alphanumeric_characters() {
    let token = SubscriptionToken::parse(VALID.to_string()).expect("valid token");
    assert_eq!(token.to_string(), VALID);
    assert_eq!(token.as_str(), VALID);
    assert_eq!(&*token, VALID);
}

#[test]
fn parse_accepts_digits_and_capitals() {
    assert!(SubscriptionToken::parse("ABCDEFGHIJKLM0123456789xy".to_string()).is_ok());
}

#[test]
fn parse_rejects_a_short_token() {
    let err = SubscriptionToken::parse("abcdefghijklmnopqrstuvwx".to_string()).unwrap_err();
    assert_eq!(err, "Invalid token format");
}

#[test]
fn parse_rejects_a_long_token() {
    assert!(SubscriptionToken::parse("abcdefghijklmnopqrstuvwxyz".to_string()).is_err());
}

#[test]
fn parse_rejects_the_empty_string() {
    assert_eq!(
        SubscriptionToken::parse(String::new()).unwrap_err(),
        "Invalid token format"
    );
}

#[test]
fn parse_rejects_punctuation() {
    assert!(SubscriptionToken::parse("abcdefghijklmnopqrstuvwx-".to_string()).is_err());
    assert!(SubscriptionToken::parse("abcdefghijkl mnopqrstuvwx".to_string()).is_err());
}

#[test]
fn parse_counts_bytes_not_characters() {
    // 'é' is alphanumeric and takes two bytes: 23 + 2 = 25 bytes, 24 characters.
    let s = format!("{}é", "a".repeat(23));
    assert_eq!(s.len(), 25);
    assert!(SubscriptionToken::parse(s.clone()).is_ok());
    // 25 characters but 26 bytes.
    let t = format!("{}é", "a".repeat(24));
    assert!(SubscriptionToken::parse(t).is_err());
}

#[test]
fn try_from_agrees_with_parse() {
    let ok = SubscriptionToken::try_from(VALID.to_string()).unwrap();
    assert_eq!(ok.to_string(), VALID);
    let err = SubscriptionToken::try_from("short".to_string()).unwrap_err();
    assert_eq!(err, "Invalid token format");
}

#[test]
fn parameters_display_the_token() {
    let parameters = Parameters {
        subscriptions_token: SubscriptionToken::parse(VALID.to_string()).unwrap(),
    };
    assert_eq!(parameters.to_string(), VALID);
}

#[test]
fn alphanumeric_follows_unicode() {
    assert!(all_alphanumeric("aZ7"));
    assert!(all_alphanumeric("é"));
    assert!(all_alphanumeric("日本"));
    assert!(!all_alphanumeric("-"));
    assert!(!all_alphanumeric(" "));
    assert!(!all_alphanumeric("a_b"));
}

#[test]
fn all_alphanumeric_checks_every_character() {
    assert!(all_alphanumeric("abc123"));
    assert!(all_alphanumeric(""));
    assert!(!all_alphanumeric("abc 123"));
}

fn subscriber(status: &str) -> Subscriber {
    Subscriber {
        id: 42,
        email: "ursula@example.com".to_string(),
        name: "Ursula".to_string(),
        subscribed_at: "2024-01-01".to_string(),
        status: status.to_string(),
    }
}

#[test]
fn a_pending_subscriber_keeps_its_id() {
    assert_eq!(
        pending_subscriber_id(&Some(subscriber("pending_confirmation"))),
        Some(42)
    );
}

#[test]
fn a_confirmed_subscriber_gets_a_new_record() {
    assert_eq!(pending_subscriber_id(&Some(subscriber("confirmed"))), None);
    assert_eq!(pending_subscriber_id(&None), None);
}

#[test]
fn new_subscriber_duplicate_is_equal() {
    let s = NewSubscriber {
        email: "a@b.c".to_string(),
        name: "A".to_string(),
    };
    assert_eq!(s.duplicate(), s);
}
