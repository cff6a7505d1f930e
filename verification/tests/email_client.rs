use std::time::Duration;
use zero2prod::credential::Credential;
use zero2prod::domain::SubscriberEmail;
use zero2prod::email_client::{BaseUrl, DeliveryError, EmailClient, TransportEvent};

fn email(text: &str) -> SubscriberEmail {
    SubscriberEmail::parse(String::from(text)).unwrap()
}

fn client(base_url: &str) -> EmailClient {
    EmailClient::new(
        BaseUrl::parse(String::from(base_url)).unwrap(),
        email("newsletter@example.com"),
        Credential::new(String::from("my-secret-token")),
        Duration::from_millis(200),
    )
}

#[test]
fn request_is_a_post_to_the_email_endpoint() {
    let request = client("http://127.0.0.1:8025").email_request(
        email("ursula_le_guin@gmail.com"),
        "Welcome",
        "<p>Hello</p>",
        "Hello",
    );
    assert_eq!(request.method, "POST");
    assert_eq!(request.url, "http://127.0.0.1:8025/email");
    assert_eq!(reqwest::Url::parse(&request.url).unwrap().path(), "/email");
}

fn endpoint(base_url: &str) -> String {
    String::from(BaseUrl::parse(String::from(base_url)).unwrap().endpoint())
}

#[test]
fn endpoint_takes_the_place_of_the_path_of_the_base_url() {
    assert_eq!(endpoint("http://127.0.0.1:8025"), "http://127.0.0.1:8025/email");
    assert_eq!(endpoint("http://127.0.0.1:8025/"), "http://127.0.0.1:8025/email");
    assert_eq!(endpoint("https://api.example.com/v1/"), "https://api.example.com/email");
    assert_eq!(endpoint("https://api.example.com/v1/send?to=all"), "https://api.example.com/email");
}

#[test]
fn base_url_reads_back_unchanged() {
    let base_url = BaseUrl::parse(String::from("https://api.example.com/v1/")).unwrap();
    assert_eq!(base_url.as_str(), "https://api.example.com/v1/");
}

#[test]
fn request_carries_the_token_and_the_type_of_its_body() {
    let request = client("http://127.0.0.1:8025").email_request(
        email("ursula_le_guin@gmail.com"),
        "Welcome",
        "<p>Hello</p>",
        "Hello",
    );
    assert_eq!(
        request.headers,
        vec![
            (String::from("X-Postmark-Server-Token"), String::from("my-secret-token")),
            (String::from("Content-Type"), String::from("application/json")),
        ]
    );
}

#[test]
fn request_body_has_the_five_fields() {
    let request = client("http://127.0.0.1:8025").email_request(
        email("ursula_le_guin@gmail.com"),
        "Welcome",
        "<p>Hello</p>",
        "Hello",
    );
    assert_eq!(request.body.from, "newsletter@example.com");
    assert_eq!(request.body.to, "ursula_le_guin@gmail.com");
    assert_eq!(request.body.subject, "Welcome");
    assert_eq!(request.body.html_body, "<p>Hello</p>");
    assert_eq!(request.body.text_body, "Hello");
    assert_eq!(
        request.body.fields(),
        vec![
            ("From", "newsletter@example.com"),
            ("To", "ursula_le_guin@gmail.com"),
            ("Subject", "Welcome"),
            ("HtmlBody", "<p>Hello</p>"),
            ("TextBody", "Hello"),
        ]
    );
}

#[test]
fn client_keeps_what_it_was_made_with() {
    let client = client("http://127.0.0.1:8025");
    assert_eq!(client.base_url().as_str(), "http://127.0.0.1:8025");
    assert_eq!(client.sender().as_ref(), "newsletter@example.com");
    assert_eq!(client.timeout(), Duration::from_millis(200));
}

#[test]
fn no_base_url_without_an_endpoint() {
    for text in ["", "not a url", "/relative", "mailto:someone@example.com"] {
        assert!(BaseUrl::parse(String::from(text)).is_none(), "{:?} was taken", text);
    }
}

#[test]
fn status_200_is_a_delivery() {
    let client = client("http://127.0.0.1:8025");
    assert_eq!(client.delivery_outcome(TransportEvent::Responded { status: 200 }), Ok(()));
}

#[test]
fn status_500_is_a_failure() {
    let client = client("http://127.0.0.1:8025");
    assert_eq!(
        client.delivery_outcome(TransportEvent::Responded { status: 500 }),
        Err(DeliveryError::Status { code: 500 })
    );
}

#[test]
fn timeout_is_a_transport_failure_flagged_as_timeout() {
    let client = client("http://127.0.0.1:8025");
    assert_eq!(
        client.delivery_outcome(TransportEvent::TimedOut),
        Err(DeliveryError::Transport { timed_out: true })
    );
    assert_eq!(
        client.delivery_outcome(TransportEvent::Failed),
        Err(DeliveryError::Transport { timed_out: false })
    );
}

#[test]
fn success_range_is_200_to_299() {
    let client = client("http://127.0.0.1:8025");
    for status in 0..=u16::MAX {
        let outcome = client.delivery_outcome(TransportEvent::Responded { status });
        if (200..=299).contains(&status) {
            assert_eq!(outcome, Ok(()));
        } else {
            assert_eq!(outcome, Err(DeliveryError::Status { code: status }));
        }
    }
}

#[test]
fn failed_delivery_leaves_the_client_as_it_was() {
    let client = client("http://127.0.0.1:8025");
    let before = client.email_request(email("a@example.com"), "s", "h", "t");
    assert!(client.delivery_outcome(TransportEvent::Responded { status: 503 }).is_err());
    assert!(client.delivery_outcome(TransportEvent::TimedOut).is_err());
    let after = client.email_request(email("a@example.com"), "s", "h", "t");
    assert_eq!(before.url, after.url);
    assert_eq!(before.headers, after.headers);
    assert_eq!(before.body.fields(), after.body.fields());
}

#[test]
fn credential_is_read_through_expose() {
    let token = Credential::new(String::from("my-secret-token"));
    assert_eq!(token.expose(), "my-secret-token");
}

fn shared_between_threads<T: Send + Sync>() {}

#[test]
fn client_can_be_shared_between_threads() {
    shared_between_threads::<EmailClient>();
}
