//! The client side of the email gateway: what a request to it holds.

use crate::domain::SubscriberEmail;
use vstd::prelude::*;

verus! {

/// The header that carries the gateway's authentication token.
pub const TOKEN_HEADER: &'static str = "X-Token";

/// The path of the gateway's endpoint for sending, below its base URL.
pub const SEND_PATH: &'static str = "email";

/// One request to the gateway: where it goes, the token that authorises
/// it, how long to wait for the answer, and the email itself.
#[derive(Debug, PartialEq, Eq)]
pub struct EmailRequest {
    pub base_url: String,
    pub auth_token: String,
    pub timeout_millis: u64,
    pub from: String,
    pub to: String,
    pub subject: String,
    pub html_body: String,
    pub text_body: String,
}

/// What an `EmailRequest` holds.
pub struct EmailMessage {
    pub base_url: Seq<char>,
    pub auth_token: Seq<char>,
    pub timeout_millis: u64,
    pub from: Seq<char>,
    pub to: Seq<char>,
    pub subject: Seq<char>,
    pub html_body: Seq<char>,
    pub text_body: Seq<char>,
}

impl View for EmailRequest {
    type V = EmailMessage;

    open spec fn view(&self) -> EmailMessage {
        EmailMessage {
            base_url: self.base_url@,
            auth_token: self.auth_token@,
            timeout_millis: self.timeout_millis,
            from: self.from@,
            to: self.to@,
            subject: self.subject@,
            html_body: self.html_body@,
            text_body: self.text_body@,
        }
    }
}

/// What the service needs to know of the gateway: its base URL, the
/// address it sends from, its token and the time allowed to a request.
pub struct EmailClient {
    base_url: String,
    sender: SubscriberEmail,
    auth_token: String,
    timeout_millis: u64,
}

/// What an `EmailClient` holds.
pub struct Gateway {
    pub base_url: Seq<char>,
    pub sender: Seq<char>,
    pub auth_token: Seq<char>,
    pub timeout_millis: u64,
}

impl Gateway {
    /// The request that sends one email through this gateway.
    pub open spec fn message(
        self,
        recipient: Seq<char>,
        subject: Seq<char>,
        html: Seq<char>,
        text: Seq<char>,
    ) -> EmailMessage {
        EmailMessage {
            base_url: self.base_url,
            auth_token: self.auth_token,
            timeout_millis: self.timeout_millis,
            from: self.sender,
            to: recipient,
            subject,
            html_body: html,
            text_body: text,
        }
    }
}

impl View for EmailClient {
    type V = Gateway;

    closed spec fn view(&self) -> Gateway {
        Gateway {
            base_url: self.base_url@,
            sender: self.sender@,
            auth_token: self.auth_token@,
            timeout_millis: self.timeout_millis,
        }
    }
}

impl EmailClient {
    /// A client for the gateway at `base_url`.
    pub fn new(
        base_url: &str,
        sender: SubscriberEmail,
        auth_token: String,
        timeout_millis: u64,
    ) -> (client: Self)
        ensures
            client@ == (Gateway {
                base_url: base_url@,
                sender: sender@,
                auth_token: auth_token@,
                timeout_millis,
            }),
    {
        Self { base_url: base_url.to_owned(), sender, auth_token, timeout_millis }
    }

    /// Prepares the sending of an email to `recipient`: the request that
    /// the host hands to the gateway.
    pub fn send_email(
        &self,
        recipient: &SubscriberEmail,
        subject_content: &str,
        html_content: &str,
        text_content: &str,
    ) -> (request: EmailRequest)
        ensures
            request@ == self@.message(recipient@, subject_content@, html_content@, text_content@),
    {
        EmailRequest {
            base_url: self.base_url.clone(),
            auth_token: self.auth_token.clone(),
            timeout_millis: self.timeout_millis,
            from: self.sender.as_ref().clone(),
            to: recipient.as_ref().clone(),
            subject: subject_content.to_owned(),
            html_body: html_content.to_owned(),
            text_body: text_content.to_owned(),
        }
    }
}

} // verus!
