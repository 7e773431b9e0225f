//! The client side of the email provider's interface: what is sent for one
//! message, and how the provider's answer is read.
//!
//! The client holds no connection. It says which request to make; whoever
//! makes it reports what came back.

use vstd::prelude::*;
use vstd::string::StringExecFns;
use std::time::Duration;
use crate::domain::SubscriberEmail;
use crate::validation::valid_email;

verus! {

/// The HTTP method of a request to send one message.
pub const REQUEST_METHOD: &'static str = "POST";

/// The media type of the body of such a request.
pub const CONTENT_TYPE: &'static str = "application/json";

/// The path of the provider's endpoint for sending one message.
pub const EMAIL_PATH: &'static str = "/email";

/// The header that carries the authorization token.
pub const TOKEN_HEADER: &'static str = "X-Postmark-Server-Token";

/// The seconds a request may take unless the client was told otherwise.
pub const DEFAULT_TIMEOUT_SECONDS: u64 = 10;

/// The whole milliseconds of `d`: what `Duration::as_millis` gives.
pub uninterp spec fn duration_millis(d: Duration) -> nat;

/// `Duration::from_secs`. Trusted: the duration lasts a thousand
/// milliseconds for each second asked for.
pub assume_specification[ Duration::from_secs ](secs: u64) -> (d: Duration)
    ensures
        duration_millis(d) == secs * 1000,
;

/// `Duration::from_millis`. Trusted: the duration lasts the milliseconds
/// asked for.
pub assume_specification[ Duration::from_millis ](millis: u64) -> (d: Duration)
    ensures
        duration_millis(d) == millis,
;

/// Why a message could not be handed to the provider.
#[derive(Debug, Clone, Copy, PartialEq, Eq, Structural)]
pub enum SendError {
    /// The request was not completed: no connection, or no answer in time.
    Transport,
    /// The provider answered, and refused.
    ProviderRejected,
}

/// What became of the one request made for a message.
#[derive(Debug, Clone, Copy, PartialEq, Eq, Structural)]
pub enum Delivery {
    /// The provider answered with this HTTP status.
    Responded(u16),
    /// No answer arrived: the connection failed or the timeout passed.
    NoResponse,
}

/// The body of a request to send one message.
#[derive(Debug)]
pub struct SendEmailRequestData<'a> {
    pub text_body: &'a str,
    pub html_body: &'a str,
    pub subject: &'a str,
    pub to: &'a str,
    pub from: &'a str,
}

/// One request to the provider: `body`, written as a JSON object of the
/// media type `content_type`, is sent by `method` to `url`, with the header
/// `header_name` set to `header_value`, and the request is given up after
/// `timeout`.
#[derive(Debug)]
pub struct EmailRequest<'a> {
    pub method: &'static str,
    pub url: String,
    pub content_type: &'static str,
    pub header_name: &'static str,
    pub header_value: &'a str,
    pub body: SendEmailRequestData<'a>,
    pub timeout: Duration,
}

/// A sender's address, the provider's base URL, the token that authorizes the
/// sender, and the time a request may take.
#[derive(Debug)]
pub struct EmailClient {
    sender: SubscriberEmail,
    base_url: String,
    authorization_token: String,
    timeout: Duration,
}

/// What a client holds, as plain values.
pub struct EmailClientView {
    pub sender: Seq<char>,
    pub base_url: Seq<char>,
    pub authorization_token: Seq<char>,
    pub timeout_millis: nat,
}

impl View for EmailClient {
    type V = EmailClientView;

    closed spec fn view(&self) -> EmailClientView {
        EmailClientView {
            sender: self.sender@,
            base_url: self.base_url@,
            authorization_token: self.authorization_token@,
            timeout_millis: duration_millis(self.timeout),
        }
    }
}

/// The result of sending, read from what became of the request: success on a
/// status from 200 to 299, a rejection on any other status, a transport
/// failure when no answer arrived.
pub open spec fn send_result(delivery: Delivery) -> Result<(), SendError> {
    match delivery {
        Delivery::Responded(status) => if 200 <= status <= 299 {
            Ok(())
        } else {
            Err(SendError::ProviderRejected)
        },
        Delivery::NoResponse => Err(SendError::Transport),
    }
}

/// Reads the result of sending from what became of the request.
pub fn delivery_result(delivery: Delivery) -> (r: Result<(), SendError>)
    ensures
        r == send_result(delivery),
{
    match delivery {
        Delivery::Responded(status) => {
            if 200 <= status && status <= 299 {
                Ok(())
            } else {
                Err(SendError::ProviderRejected)
            }
        },
        Delivery::NoResponse => Err(SendError::Transport),
    }
}

impl<'a> SendEmailRequestData<'a> {
    /// The members of the JSON object that the provider expects, each with
    /// its value.
    pub fn json_fields(&self) -> (fields: Vec<(&'static str, &'a str)>)
        ensures
            fields@.len() == 5,
            fields@[0].0@ == "TextBody"@ && fields@[0].1@ == self.text_body@,
            fields@[1].0@ == "HtmlBody"@ && fields@[1].1@ == self.html_body@,
            fields@[2].0@ == "Subject"@ && fields@[2].1@ == self.subject@,
            fields@[3].0@ == "To"@ && fields@[3].1@ == self.to@,
            fields@[4].0@ == "From"@ && fields@[4].1@ == self.from@,
    {
        let mut fields: Vec<(&'static str, &'a str)> = Vec::new();
        fields.push(("TextBody", self.text_body));
        fields.push(("HtmlBody", self.html_body));
        fields.push(("Subject", self.subject));
        fields.push(("To", self.to));
        fields.push(("From", self.from));
        fields
    }
}

impl EmailClient {
    /// A client for the provider at `base_url` that sends in the name of
    /// `sender` and gives a request ten seconds.
    pub fn new(base_url: String, sender: SubscriberEmail, authorization_token: String) -> (client:
        Self)
        ensures
            client@.base_url == base_url@,
            client@.sender == sender@,
            client@.authorization_token == authorization_token@,
            client@.timeout_millis == DEFAULT_TIMEOUT_SECONDS * 1000,
    {
        Self {
            sender,
            base_url,
            authorization_token,
            timeout: Duration::from_secs(DEFAULT_TIMEOUT_SECONDS),
        }
    }

    /// A client as [`EmailClient::new`] makes it, but one that gives a request
    /// the time `timeout`.
    pub fn with_timeout(
        base_url: String,
        sender: SubscriberEmail,
        authorization_token: String,
        timeout: Duration,
    ) -> (client: Self)
        ensures
            client@.base_url == base_url@,
            client@.sender == sender@,
            client@.authorization_token == authorization_token@,
            client@.timeout_millis == duration_millis(timeout),
    {
        Self { sender, base_url, authorization_token, timeout }
    }

    /// The time a request may take.
    pub fn timeout(&self) -> (timeout: Duration)
        ensures
            duration_millis(timeout) == self@.timeout_millis,
    {
        self.timeout
    }

    /// The address of the provider's endpoint for sending: the base URL
    /// followed by `/email`.
    pub fn construct_url(&self) -> (url: String)
        ensures
            url@ == self@.base_url + EMAIL_PATH@,
    {
        let mut url = self.base_url.clone();
        url.append(EMAIL_PATH);
        url
    }

    /// The one request that sends a message to `recipient`.
    pub fn request<'a>(
        &'a self,
        recipient: &'a SubscriberEmail,
        subject: &'a str,
        html_content: &'a str,
        text_content: &'a str,
    ) -> (request: EmailRequest<'a>)
        ensures
            request.method@ == REQUEST_METHOD@,
            request.url@ == self@.base_url + EMAIL_PATH@,
            request.content_type@ == CONTENT_TYPE@,
            request.header_name@ == TOKEN_HEADER@,
            request.header_value@ == self@.authorization_token,
            duration_millis(request.timeout) == self@.timeout_millis,
            request.body.to@ == recipient@,
            request.body.from@ == self@.sender,
            request.body.subject@ == subject@,
            request.body.html_body@ == html_content@,
            request.body.text_body@ == text_content@,
            valid_email(request.body.to@),
            valid_email(request.body.from@),
    {
        let request_body = SendEmailRequestData {
            text_body: text_content,
            html_body: html_content,
            subject,
            to: recipient.as_ref(),
            from: self.sender.as_ref(),
        };
        EmailRequest {
            method: REQUEST_METHOD,
            url: self.construct_url(),
            content_type: CONTENT_TYPE,
            header_name: TOKEN_HEADER,
            header_value: self.authorization_token.as_str(),
            body: request_body,
            timeout: self.timeout,
        }
    }
}

} // verus!
