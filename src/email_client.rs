use vstd::prelude::*;

use crate::domain::subscriber_email::SubscriberEmail;

verus! {

/// The sender of a message; both fields hold the sender's address.
#[derive(Debug)]
pub struct FromField {
    pub email: String,
    pub name: String,
}

/// One recipient of a message.
#[derive(Debug)]
pub struct Personalization {
    pub to: String,
}

/// One body of a message with its media type.
#[derive(Debug)]
pub struct ContentField {
    pub content_type: String,
    pub content: String,
}

/// The payload of a send request to the mail provider.
#[derive(Debug)]
pub struct SendEmailRequest {
    pub from: FromField,
    pub personalizations: Vec<Personalization>,
    pub subject: String,
    pub content: Vec<ContentField>,
}

/// A complete send request: where it goes, its `Authorization` header value and its payload.
pub struct OutgoingEmail {
    pub url: String,
    pub authorization: String,
    pub body: SendEmailRequest,
}

/// Why a message was not delivered.
#[derive(Debug)]
pub enum SendError {
    /// The provider answered with a status outside the 2xx range.
    Status(u16),
    /// The request did not reach the provider, or no answer came back.
    Transport(String),
}

/// The path under the provider's base address that accepts messages.
pub open spec fn send_url_of(base_url: Seq<char>) -> Seq<char> {
    base_url + "/v3/mail/send"@
}

/// The `Authorization` header value for `credential`.
pub open spec fn bearer_of(credential: Seq<char>) -> Seq<char> {
    "Bearer "@ + credential
}

/// The payload is exactly the message described by its arguments.
pub open spec fn is_request_for(
    r: SendEmailRequest,
    sender: Seq<char>,
    recipient: Seq<char>,
    subject: Seq<char>,
    html_content: Seq<char>,
    text_content: Seq<char>,
) -> bool {
    &&& r.from.email@ == sender
    &&& r.from.name@ == sender
    &&& r.personalizations@.len() == 1
    &&& r.personalizations@[0].to@ == recipient
    &&& r.subject@ == subject
    &&& r.content@.len() == 2
    &&& r.content@[0].content_type@ == "text/html"@
    &&& r.content@[0].content@ == html_content
    &&& r.content@[1].content_type@ == "text/plain"@
    &&& r.content@[1].content@ == text_content
}

/// The `Authorization` header value for `credential`: `Bearer ` followed by it.
pub fn bearer(credential: &str) -> (r: String)
    ensures
        r@ == bearer_of(credential@),
{
    "Bearer ".to_string().concat(credential)
}

/// A delivery succeeded exactly when the provider answered with a 2xx status.
pub fn delivery_outcome(status: u16) -> (r: Result<(), SendError>)
    ensures
        r is Ok <==> 200 <= status <= 299,
        r matches Err(e) ==> e == SendError::Status(status),
{
    if 200 <= status && status <= 299 {
        Ok(())
    } else {
        Err(SendError::Status(status))
    }
}

/// Sends transactional messages through the provider at `base_url`, as `sender`.
pub struct EmailClient {
    base_url: String,
    client_secret: String,
    sender: SubscriberEmail,
}

impl EmailClient {
    pub closed spec fn spec_base_url(&self) -> Seq<char> {
        self.base_url@
    }

    pub closed spec fn spec_client_secret(&self) -> Seq<char> {
        self.client_secret@
    }

    pub closed spec fn spec_sender(&self) -> Seq<char> {
        self.sender@
    }

    pub fn new(base_url: String, client_secret: String, sender: SubscriberEmail) -> (r: Self)
        ensures
            r.spec_client_secret() == client_secret@,
            r.spec_base_url() == base_url@,
            r.spec_sender() == sender@,
    {
        EmailClient { base_url, client_secret, sender }
    }

    /// The address that messages are posted to.
    pub fn send_url(&self) -> (r: String)
        ensures
            r@ == send_url_of(self.spec_base_url()),
    {
        self.base_url.clone().concat("/v3/mail/send")
    }

    /// The payload of a message to `recipient`, with an HTML body and a plain-text body in that
    /// order.
    pub fn request_body(
        &self,
        recipient: &SubscriberEmail,
        subject: &str,
        html_content: &str,
        text_content: &str,
    ) -> (r: SendEmailRequest)
        ensures
            is_request_for(r, self.spec_sender(), recipient@, subject@, html_content@, text_content@),
    {
        let from = FromField {
            email: self.sender.as_str().to_string(),
            name: self.sender.as_str().to_string(),
        };
        let mut personalizations: Vec<Personalization> = Vec::new();
        personalizations.push(Personalization { to: recipient.as_str().to_string() });
        let mut content: Vec<ContentField> = Vec::new();
        content.push(
            ContentField {
                content_type: "text/html".to_string(),
                content: html_content.to_string(),
            },
        );
        content.push(
            ContentField {
                content_type: "text/plain".to_string(),
                content: text_content.to_string(),
            },
        );
        SendEmailRequest { from, personalizations, subject: subject.to_string(), content }
    }

    /// The request for a message, authorised with the client's own credential.
    pub fn build_request(
        &self,
        recipient: &SubscriberEmail,
        subject: &str,
        html_content: &str,
        text_content: &str,
    ) -> (r: OutgoingEmail)
        ensures
            r.url@ == send_url_of(self.spec_base_url()),
            r.authorization@ == bearer_of(self.spec_client_secret()),
            is_request_for(r.body, self.spec_sender(), recipient@, subject@, html_content@, text_content@),
    {
        OutgoingEmail {
            url: self.send_url(),
            authorization: bearer(self.client_secret.as_str()),
            body: self.request_body(recipient, subject, html_content, text_content),
        }
    }
}

} // verus!
