use std::time::Duration;
use zero2prod::domain::SubscriberEmail;
use zero2prod::email_client::{
    delivery_result, Delivery, EmailClient, EmailRequest, SendError, CONTENT_TYPE,
    DEFAULT_TIMEOUT_SECONDS, EMAIL_PATH, REQUEST_METHOD, TOKEN_HEADER,
};

/// A provider that answers every request with one status, after a delay.
struct Provider {
    uri: String,
    status: u16,
    delay: Duration,
    received: Vec<Received>,
}

/// What the provider saw of a request.
struct Received {
    method: String,
    path: String,
    content_type: String,
    header_name: String,
    header_value: String,
    body: Vec<(String, String)>,
}

impl Provider {
    fn new(status: u16) -> Provider {
        Provider {
            uri: "http://127.0.0.1:4010".to_string(),
            status,
            delay: Duration::ZERO,
            received: Vec::new(),
        }
    }

    fn handle(&mut self, request: &EmailRequest) -> Delivery {
        let path = match request.url.strip_prefix(&self.uri) {
            Some(path) => path.to_string(),
            None => return Delivery::NoResponse,
        };
        self.received.push(Received {
            method: request.method.to_string(),
            path,
            content_type: request.content_type.to_string(),
            header_name: request.header_name.to_string(),
            header_value: request.header_value.to_string(),
            body: request
                .body
                .json_fields()
                .into_iter()
                .map(|(name, value)| (name.to_string(), value.to_string()))
                .collect(),
        });
        if self.delay > request.timeout {
            Delivery::NoResponse
        } else {
            Delivery::Responded(self.status)
        }
    }
}

fn send_email(
    client: &EmailClient,
    provider: &mut Provider,
    recipient: SubscriberEmail,
    subject: &str,
    html_content: &str,
    text_content: &str,
) -> Result<(), SendError> {
    let request = client.request(&recipient, subject, html_content, text_content);
    delivery_result(provider.handle(&request))
}

fn sender_email() -> SubscriberEmail {
    SubscriberEmail::parse("test@test.com".to_string()).expect("failed to parse sender email")
}

fn auth_token() -> String {
    "AB123".to_string()
}

fn email_client(server_uri: String) -> EmailClient {
    EmailClient::new(server_uri, sender_email(), auth_token())
}

fn subject() -> String {
    "Welcome to the list".to_string()
}

fn html_content() -> String {
    "<p>You asked to hear from us. Here we are.</p>".to_string()
}

fn content() -> String {
    "You asked to hear from us. Here we are.".to_string()
}

fn recipient() -> SubscriberEmail {
    SubscriberEmail::parse("reader@example.com".to_string()).expect("failed to parse recipient")
}

#[test]
fn send_email_fires_request_to_base_url() {
    let mut provider = Provider::new(200);
    let email_client = email_client(provider.uri.clone());

    let _ = send_email(
        &email_client,
        &mut provider,
        recipient(),
        &subject(),
        &html_content(),
        &content(),
    );

    assert_eq!(provider.received.len(), 1);
    let received = &provider.received[0];
    assert_eq!(received.method, "POST");
    assert_eq!(received.path, "/email");
    assert_eq!(received.content_type, "application/json");
    assert_eq!(received.header_name, "X-Postmark-Server-Token");
    assert_eq!(received.header_value, "AB123");
    let names: Vec<&str> = received.body.iter().map(|(name, _)| name.as_str()).collect();
    for name in ["TextBody", "HtmlBody", "Subject", "To", "From"] {
        assert!(names.contains(&name), "{} is missing", name);
    }
    assert_eq!(names.len(), 5);
}

#[test]
fn send_email_succeeds_on_200_return() {
    let mut provider = Provider::new(200);
    let email_client = email_client(provider.uri.clone());

    let res = send_email(
        &email_client,
        &mut provider,
        recipient(),
        &subject(),
        &html_content(),
        &content(),
    );

    assert_eq!(provider.received.len(), 1);
    assert!(res.is_ok());
}

#[test]
fn send_email_failed_on_500() {
    let mut provider = Provider::new(500);
    let email_client = email_client(provider.uri.clone());

    let res = send_email(
        &email_client,
        &mut provider,
        recipient(),
        &subject(),
        &html_content(),
        &content(),
    );

    assert_eq!(provider.received.len(), 1);
    assert!(res.is_err());
    assert_eq!(res, Err(SendError::ProviderRejected));
}

#[test]
fn send_email_on_timeout() {
    let mut provider = Provider::new(200);
    provider.delay = Duration::from_secs(180);
    let email_client = email_client(provider.uri.clone());

    let res = send_email(
        &email_client,
        &mut provider,
        recipient(),
        &subject(),
        &html_content(),
        &content(),
    );

    assert_eq!(provider.received.len(), 1);
    assert!(res.is_err());
    assert_eq!(res, Err(SendError::Transport));
}

#[test]
fn the_request_carries_the_message() {
    let client = email_client("https://api.postmarkapp.com".to_string());
    let to = recipient();
    let request = client.request(&to, "Subject line", "<b>html</b>", "text");
    assert_eq!(request.method, REQUEST_METHOD);
    assert_eq!(request.method, "POST");
    assert_eq!(request.url, "https://api.postmarkapp.com/email");
    assert_eq!(request.content_type, CONTENT_TYPE);
    assert_eq!(request.content_type, "application/json");
    assert_eq!(TOKEN_HEADER, "X-Postmark-Server-Token");
    assert_eq!(request.header_name, TOKEN_HEADER);
    assert_eq!(request.header_value, "AB123");
    assert_eq!(request.timeout, Duration::from_secs(10));
    assert_eq!(request.body.to, "reader@example.com");
    assert_eq!(request.body.from, "test@test.com");
    assert_eq!(request.body.subject, "Subject line");
    assert_eq!(request.body.html_body, "<b>html</b>");
    assert_eq!(request.body.text_body, "text");
    assert_eq!(
        request.body.json_fields(),
        vec![
            ("TextBody", "text"),
            ("HtmlBody", "<b>html</b>"),
            ("Subject", "Subject line"),
            ("To", "reader@example.com"),
            ("From", "test@test.com"),
        ]
    );
}

#[test]
fn the_url_is_the_base_url_followed_by_the_path() {
    assert_eq!(EMAIL_PATH, "/email");
    assert_eq!(email_client("http://localhost:8080".to_string()).construct_url(), "http://localhost:8080/email");
    assert_eq!(email_client(String::new()).construct_url(), "/email");
    assert_eq!(email_client("base/".to_string()).construct_url(), "base//email");
}

#[test]
fn a_client_gives_a_request_ten_seconds_by_default() {
    assert_eq!(DEFAULT_TIMEOUT_SECONDS, 10);
    let client = email_client("http://localhost".to_string());
    assert_eq!(client.timeout(), Duration::from_secs(10));
    assert_eq!(client.timeout().as_millis(), 10_000);
}

#[test]
fn a_client_can_be_given_another_timeout() {
    let client = EmailClient::with_timeout(
        "http://localhost".to_string(),
        sender_email(),
        auth_token(),
        Duration::from_millis(2_500),
    );
    assert_eq!(client.timeout(), Duration::from_millis(2_500));
    assert_eq!(client.construct_url(), "http://localhost/email");
    let to = recipient();
    let request = client.request(&to, "s", "h", "t");
    assert_eq!(request.timeout, Duration::from_millis(2_500));
    assert_eq!(request.body.from, "test@test.com");
    assert_eq!(request.header_value, "AB123");
}

#[test]
fn only_statuses_from_200_to_299_are_success() {
    for status in 0..=u16::MAX {
        let expected =
            if (200..=299).contains(&status) { Ok(()) } else { Err(SendError::ProviderRejected) };
        assert_eq!(delivery_result(Delivery::Responded(status)), expected, "status {}", status);
    }
    assert_eq!(delivery_result(Delivery::Responded(199)), Err(SendError::ProviderRejected));
    assert_eq!(delivery_result(Delivery::Responded(200)), Ok(()));
    assert_eq!(delivery_result(Delivery::Responded(299)), Ok(()));
    assert_eq!(delivery_result(Delivery::Responded(300)), Err(SendError::ProviderRejected));
    assert_eq!(delivery_result(Delivery::Responded(404)), Err(SendError::ProviderRejected));
}

#[test]
fn no_answer_is_a_transport_failure() {
    assert_eq!(delivery_result(Delivery::NoResponse), Err(SendError::Transport));
}
