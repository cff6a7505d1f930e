//! The client that hands transactional emails to the delivery provider.
//!
//! The client does no input or output itself. [`EmailClient::email_request`]
//! describes the request to send, the caller carries it to the provider and
//! reports what happened as a [`TransportEvent`], and
//! [`EmailClient::delivery_outcome`] says whether the email was delivered.

use crate::credential::Credential;
use crate::domain::subscriber_email::SubscriberEmail;
use std::time::Duration;
use vstd::prelude::*;

verus! {

/// The text of the URL that `reference` resolves to against the URL written
/// as `base`: what `Url::parse` on `base`, then `Url::join` with `reference`,
/// give. `None` where `base` is no absolute URL or `reference` cannot be
/// resolved against it.
pub uninterp spec fn url_join(base: Seq<char>, reference: Seq<char>) -> Option<Seq<char>>;

/// Parses `base` with `reqwest::Url::parse` and resolves `reference` against
/// it with `Url::join`. Assumed: the URL that results, as text, depends on
/// the two texts alone; `None` comes back where either call fails.
#[verifier::external_body]
fn join(base: &str, reference: &str) -> (r: Option<String>)
    ensures
        match r {
            Some(url) => url_join(base@, reference@) == Some(url@),
            None => url_join(base@, reference@) is None,
        },
{
    reqwest::Url::parse(base).ok()?.join(reference).ok().map(String::from)
}

/// The URL that emails are posted to, for a provider at `base_url`.
pub open spec fn endpoint_of(base_url: Seq<char>) -> Option<Seq<char>> {
    url_join(base_url, "/email"@)
}

/// A name and a value, as texts: a header, or a field of a body.
pub type Pair = (Seq<char>, Seq<char>);

/// The five fields of an email, under the names the provider knows them by.
pub open spec fn email_fields(
    from: Seq<char>,
    to: Seq<char>,
    subject: Seq<char>,
    html_body: Seq<char>,
    text_body: Seq<char>,
) -> Seq<Pair> {
    seq![
        ("From"@, from),
        ("To"@, to),
        ("Subject"@, subject),
        ("HtmlBody"@, html_body),
        ("TextBody"@, text_body),
    ]
}

/// The headers of a request: the token that authorizes it, and the type of
/// its body.
pub open spec fn email_headers(token: Seq<char>) -> Seq<Pair> {
    seq![("X-Postmark-Server-Token"@, token), ("Content-Type"@, "application/json"@)]
}

/// The body of a request to the provider.
pub struct SendEmailRequest {
    pub from: String,
    pub to: String,
    pub subject: String,
    pub html_body: String,
    pub text_body: String,
}

impl View for SendEmailRequest {
    type V = Seq<Pair>;

    /// The fields of the JSON object that is the body, in order.
    open spec fn view(&self) -> Seq<Pair> {
        email_fields(self.from@, self.to@, self.subject@, self.html_body@, self.text_body@)
    }
}

impl SendEmailRequest {
    /// The fields of the JSON object that is the body, each with its name.
    pub fn fields(&self) -> (pairs: Vec<(&'static str, &str)>)
        ensures
            pairs@.len() == self@.len(),
            forall|i: int|
                0 <= i < pairs@.len() ==> (#[trigger] pairs@[i]).0@ == self@[i].0 && pairs@[i].1@
                    == self@[i].1,
    {
        let mut pairs: Vec<(&'static str, &str)> = Vec::new();
        pairs.push(("From", self.from.as_str()));
        pairs.push(("To", self.to.as_str()));
        pairs.push(("Subject", self.subject.as_str()));
        pairs.push(("HtmlBody", self.html_body.as_str()));
        pairs.push(("TextBody", self.text_body.as_str()));
        pairs
    }
}

/// A request for the caller to send.
pub struct OutboundRequest {
    pub method: &'static str,
    pub url: String,
    pub headers: Vec<(String, String)>,
    pub body: SendEmailRequest,
}

/// A request as plain texts.
pub struct RequestView {
    pub method: Seq<char>,
    pub url: Seq<char>,
    pub headers: Seq<Pair>,
    pub body: Seq<Pair>,
}

impl View for OutboundRequest {
    type V = RequestView;

    open spec fn view(&self) -> RequestView {
        RequestView {
            method: self.method@,
            url: self.url@,
            headers: Seq::new(self.headers@.len(), |i: int| (self.headers@[i].0@, self.headers@[i].1@)),
            body: self.body@,
        }
    }
}

/// What became of a request that was sent.
#[derive(Debug, Clone, Copy, PartialEq, Eq, Structural)]
pub enum TransportEvent {
    /// The provider answered with this status code.
    Responded { status: u16 },
    /// No answer came within the client's timeout.
    TimedOut,
    /// The exchange failed before an answer came: no connection, a failed
    /// name lookup, a broken TLS session.
    Failed,
}

/// Why an email was not delivered.
#[derive(Debug, Clone, Copy, PartialEq, Eq, Structural)]
pub enum DeliveryError {
    /// No answer was had from the provider; `timed_out` tells a timeout from
    /// the other failures.
    Transport { timed_out: bool },
    /// The provider answered with a status code outside the success range.
    Status { code: u16 },
}

/// Whether a status code is in the success range, 200 to 299.
pub open spec fn is_success(status: u16) -> bool {
    200 <= status <= 299
}

/// The outcome of a delivery, from what became of the request.
pub open spec fn outcome(event: TransportEvent) -> Result<(), DeliveryError> {
    match event {
        TransportEvent::Responded { status } => if is_success(status) {
            Ok(())
        } else {
            Err(DeliveryError::Status { code: status })
        },
        TransportEvent::TimedOut => Err(DeliveryError::Transport { timed_out: true }),
        TransportEvent::Failed => Err(DeliveryError::Transport { timed_out: false }),
    }
}

/// The address of the delivery provider: a URL that the endpoint for emails
/// can be resolved against.
pub struct BaseUrl {
    text: String,
    endpoint: String,
}

impl View for BaseUrl {
    type V = Seq<char>;

    closed spec fn view(&self) -> Seq<char> {
        self.text@
    }
}

impl BaseUrl {
    #[verifier::type_invariant]
    closed spec fn has_endpoint(&self) -> bool {
        endpoint_of(self.text@) == Some(self.endpoint@)
    }

    /// Takes `text` as the address of the provider. It is none where no
    /// endpoint for emails can be had from it.
    pub fn parse(text: String) -> (r: Option<BaseUrl>)
        ensures
            match r {
                Some(url) => url@ == text@ && endpoint_of(text@) is Some,
                None => endpoint_of(text@) is None,
            },
    {
        match join(text.as_str(), "/email") {
            Some(endpoint) => Some(BaseUrl { text, endpoint }),
            None => None,
        }
    }

    /// The address as it was given to [`BaseUrl::parse`].
    pub fn as_str(&self) -> (text: &str)
        ensures
            text@ == self@,
    {
        self.text.as_str()
    }

    /// The URL that emails are posted to.
    pub fn endpoint(&self) -> (url: &str)
        ensures
            endpoint_of(self@) == Some(url@),
    {
        proof {
            use_type_invariant(self);
        }
        self.endpoint.as_str()
    }
}

/// A client of the delivery provider: where the provider is, who the emails
/// are from, the token that authorizes them, and how long to wait for an
/// answer. Nothing of it changes once it is made.
pub struct EmailClient {
    base_url: BaseUrl,
    sender: SubscriberEmail,
    authorization_token: Credential,
    timeout: Duration,
}

/// A client as plain values.
pub struct EmailClientView {
    pub base_url: Seq<char>,
    pub sender: Seq<char>,
    pub authorization_token: Seq<char>,
    pub timeout: Duration,
}

impl View for EmailClient {
    type V = EmailClientView;

    closed spec fn view(&self) -> EmailClientView {
        EmailClientView {
            base_url: self.base_url@,
            sender: self.sender@,
            authorization_token: self.authorization_token@,
            timeout: self.timeout,
        }
    }
}

/// The request that sends an email from `client` to `recipient`, by way of
/// the endpoint at `url`.
pub open spec fn email_request_of(
    client: EmailClientView,
    url: Seq<char>,
    recipient: Seq<char>,
    subject: Seq<char>,
    html_content: Seq<char>,
    text_content: Seq<char>,
) -> RequestView {
    RequestView {
        method: "POST"@,
        url,
        headers: email_headers(client.authorization_token),
        body: email_fields(client.sender, recipient, subject, html_content, text_content),
    }
}

impl EmailClient {
    pub fn new(
        base_url: BaseUrl,
        sender: SubscriberEmail,
        authorization_token: Credential,
        timeout: Duration,
    ) -> (client: EmailClient)
        ensures
            client@.base_url == base_url@,
            client@.sender == sender@,
            client@.authorization_token == authorization_token@,
            client@.timeout == timeout,
    {
        EmailClient { base_url, sender, authorization_token, timeout }
    }

    pub fn base_url(&self) -> (url: &BaseUrl)
        ensures
            url@ == self@.base_url,
    {
        &self.base_url
    }

    pub fn sender(&self) -> (sender: &SubscriberEmail)
        ensures
            sender@ == self@.sender,
    {
        &self.sender
    }

    /// How long the transport is to wait for the provider's answer.
    pub fn timeout(&self) -> (timeout: Duration)
        ensures
            timeout == self@.timeout,
    {
        self.timeout
    }

    /// The request that sends an email to `recipient`: a `POST` to the
    /// client's endpoint, authorized by the client's token, with a JSON
    /// body of five fields.
    pub fn email_request(
        &self,
        recipient: SubscriberEmail,
        subject: &str,
        html_content: &str,
        text_content: &str,
    ) -> (request: OutboundRequest)
        ensures
            endpoint_of(self@.base_url) matches Some(url) && request@ == email_request_of(
                self@,
                url,
                recipient@,
                subject@,
                html_content@,
                text_content@,
            ),
    {
        let mut headers: Vec<(String, String)> = Vec::new();
        headers.push(
            ("X-Postmark-Server-Token".to_owned(), self.authorization_token.expose().to_owned()),
        );
        headers.push(("Content-Type".to_owned(), "application/json".to_owned()));
        let request = OutboundRequest {
            method: "POST",
            url: self.base_url.endpoint().to_owned(),
            headers,
            body: SendEmailRequest {
                from: self.sender.as_ref().to_owned(),
                to: recipient.as_ref().to_owned(),
                subject: subject.to_owned(),
                html_body: html_content.to_owned(),
                text_body: text_content.to_owned(),
            },
        };
        assert(request@.headers =~= email_headers(self@.authorization_token));
        request
    }

    /// Whether the email was delivered, from what became of its request:
    /// delivered when the provider answered with a status from 200 to 299,
    /// and not otherwise.
    pub fn delivery_outcome(&self, event: TransportEvent) -> (r: Result<(), DeliveryError>)
        ensures
            r == outcome(event),
            r is Ok <==> (event matches TransportEvent::Responded { status } && is_success(status)),
    {
        match event {
            TransportEvent::Responded { status } => {
                if 200 <= status && status <= 299 {
                    Ok(())
                } else {
                    Err(DeliveryError::Status { code: status })
                }
            },
            TransportEvent::TimedOut => Err(DeliveryError::Transport { timed_out: true }),
            TransportEvent::Failed => Err(DeliveryError::Transport { timed_out: false }),
        }
    }
}

} // verus!
