use zero2prod::email_client::{EmailClient, SendEmailRequest, TargetEmailBody};
use zero2prod::routes::subscriptions::{
    assemble_confirmation_email, confirmation_email, confirmation_link, confirmation_plain_body, generate_subscription_token,
};
use zero2prod::startup::listen_address;

#[test]
fn email_request_uses_the_sender() {
    let client = EmailClient::new(
        "http://localhost:1234".to_string(),
        "sender@example.com".to_string(),
        "secret".to_string(),
    );
    let request = client.email_request("to@example.com", "Hi", "<p>hi</p>", "hi");
    assert_eq!(
        request,
        SendEmailRequest {
            from: "sender@example.com".to_string(),
            to: "to@example.com".to_string(),
            subject: "Hi".to_string(),
            html: "<p>hi</p>".to_string(),
            text: "hi".to_string(),
        }
    );
    assert_eq!(
        request.to_target(),
        TargetEmailBody {
            from: "sender@example.com".to_string(),
            to: "to@example.com".to_string(),
            subject: "Hi".to_string(),
            html: "<p>hi</p>".to_string(),
            text: "hi".to_string(),
        }
    );
    assert_eq!(
        client.credentials(),
        ("api".to_string(), "secret".to_string())
    );
    assert_eq!(client.base_url, "http://localhost:1234/");
    assert_eq!(client.sender, "sender@example.com");
}

#[test]
fn email_client_rejects_an_invalid_base_url() {
    assert!(
        EmailClient::try_new("not a url".to_string(), "s".to_string(), "t".to_string()).is_none()
    );
    assert!(EmailClient::try_new(String::new(), "s".to_string(), "t".to_string()).is_none());
    let c = EmailClient::try_new("HTTP://Example.com".to_string(), "s".to_string(), "t".to_string())
        .unwrap();
    assert_eq!(c.base_url, "http://example.com/");
}

#[test]
fn messages_url_is_resolved_against_the_base() {
    let client =
        EmailClient::new("http://127.0.0.1:8080".to_string(), "s".to_string(), "t".to_string());
    assert_eq!(
        client.messages_url().unwrap(),
        "http://127.0.0.1:8080/messages"
    );
    let nested = EmailClient::new("http://host/api/".to_string(), "s".to_string(), "t".to_string());
    assert_eq!(nested.messages_url().unwrap(), "http://host/api/messages");
    let sibling = EmailClient::new("http://host/api".to_string(), "s".to_string(), "t".to_string());
    assert_eq!(sibling.messages_url().unwrap(), "http://host/messages");
    let cannot_be_base =
        EmailClient::new("mailto:someone@example.com".to_string(), "s".to_string(), "t".to_string());
    assert!(cannot_be_base.messages_url().is_none());
}

#[test]
fn confirmation_link_and_body() {
    let link = confirmation_link("http://127.0.0.1", "abc");
    assert_eq!(
        link,
        "http://127.0.0.1/subscriptions/confirm?subscriptions_token=abc"
    );
    assert_eq!(
        confirmation_plain_body(&link),
        "Welcome to our newsletter!\nVisit http://127.0.0.1/subscriptions/confirm?subscriptions_token=abc to confirm your subscription."
    );
}

#[test]
fn confirmation_email_renders_the_link() {
    let mut tera = tera::Tera::default();
    tera.add_raw_template("confirmation.html", "<a href=\"{{ confirmation_link }}\">confirm</a>")
        .unwrap();
    let email = confirmation_email(&tera, "http://x", "tok").unwrap();
    assert_eq!(email.subject, "Welcome!");
    assert_eq!(
        email.html_body,
        "<a href=\"http:&#x2F;&#x2F;x&#x2F;subscriptions&#x2F;confirm?subscriptions_token=tok\">confirm</a>"
    );
    assert_eq!(
        email.text_body,
        "Welcome to our newsletter!\nVisit http://x/subscriptions/confirm?subscriptions_token=tok to confirm your subscription."
    );
    assert!(confirmation_email(&tera::Tera::default(), "http://x", "tok").is_err());
}

#[test]
fn generated_tokens_are_alphanumeric_and_distinct() {
    let a = generate_subscription_token();
    let b = generate_subscription_token();
    assert_eq!(a.len(), 25);
    assert!(a.chars().all(|c| c.is_ascii_alphanumeric()));
    assert_ne!(a, b);
}

#[test]
fn listen_address_joins_host_and_port() {
    assert_eq!(listen_address("127.0.0.1", 8000), "127.0.0.1:8000");
    assert_eq!(listen_address("localhost", 0), "localhost:0");
    assert_eq!(listen_address("h", 65535), "h:65535");
}

#[test]
fn assemble_confirmation_email_keeps_both_bodies() {
    let email = assemble_confirmation_email(Ok("<p>html</p>".to_string()), "text".to_string())
        .unwrap();
    assert_eq!(email.subject, "Welcome!");
    assert_eq!(email.html_body, "<p>html</p>");
    assert_eq!(email.text_body, "text");
    let failed = assemble_confirmation_email(Err(tera::Error::msg("broken")), "text".to_string());
    assert_eq!(failed.err().unwrap().to_string(), "broken");
}
