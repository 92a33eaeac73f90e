use zero::domain::SubscriberEmail;
use zero::email_client::{bearer, delivery_outcome, EmailClient, SendError};

fn client() -> EmailClient {
    let sender = SubscriberEmail::parse("sender@example.com".to_string()).unwrap();
    EmailClient::new("http://127.0.0.1:9000".to_string(), "s3cr3t".to_string(), sender)
}

#[test]
fn request_goes_to_the_send_path_with_a_bearer_header() {
    let recipient = SubscriberEmail::parse("reader@example.com".to_string()).unwrap();
    let req = client().build_request(&recipient, "Hello", "<p>Hi</p>", "Hi");
    assert_eq!(req.url, "http://127.0.0.1:9000/v3/mail/send");
    assert_eq!(req.authorization, "Bearer s3cr3t");
}

#[test]
fn request_body_has_one_recipient_and_two_bodies() {
    let recipient = SubscriberEmail::parse("reader@example.com".to_string()).unwrap();
    let req = client().build_request(&recipient, "Hello", "<p>Hi</p>", "Hi");
    let body = req.body;
    assert_eq!(body.from.email, "sender@example.com");
    assert_eq!(body.from.name, "sender@example.com");
    assert_eq!(body.personalizations.len(), 1);
    assert_eq!(body.personalizations[0].to, "reader@example.com");
    assert_eq!(body.subject, "Hello");
    assert_eq!(body.content.len(), 2);
    assert_eq!(body.content[0].content_type, "text/html");
    assert_eq!(body.content[0].content, "<p>Hi</p>");
    assert_eq!(body.content[1].content_type, "text/plain");
    assert_eq!(body.content[1].content, "Hi");
}

#[test]
fn send_email_succeeds_on_202() {
    assert!(delivery_outcome(202).is_ok());
    assert!(delivery_outcome(200).is_ok());
    assert!(delivery_outcome(299).is_ok());
}

#[test]
fn send_email_fails_on_500() {
    assert!(matches!(delivery_outcome(500), Err(SendError::Status(500))));
    assert!(matches!(delivery_outcome(404), Err(SendError::Status(404))));
    assert!(matches!(delivery_outcome(302), Err(SendError::Status(302))));
    assert!(matches!(delivery_outcome(199), Err(SendError::Status(199))));
}

#[test]
fn bearer_prefixes_the_credential() {
    assert_eq!(bearer("abc"), "Bearer abc");
    assert_eq!(bearer(""), "Bearer ");
}

#[test]
fn send_url_appends_the_path() {
    assert_eq!(client().send_url(), "http://127.0.0.1:9000/v3/mail/send");
}
