use crate::domain::subscriber_email::valid_email_of;
use crate::domain::subscriber_name::is_valid_name;
use crate::domain::{NewSubscriber, SubscriberEmail};
use crate::email_client::EmailClientError;
use crate::email_client::{auth_header_spec, email_endpoint_of, EmailClient, EmailRequest};
use crate::routes::token::{generate_token, is_token};
use vstd::prelude::*;
use vstd::string::*;

verus! {

/// The fields of a signup form.
pub struct FormData {
    pub name: String,
    pub email: String,
}

/// Relies on `uuid::Uuid::new_v4`: a random identifier; its version nibble
/// (bits 76 to 79) is 4.
#[verifier::external_body]
pub(crate) fn new_subscription_id() -> (r: u128)
    ensures
        (r >> 76u128) & 0xfu128 == 4,
{
    uuid::Uuid::new_v4().as_u128()
}

/// Lifecycle status of a subscription.
#[derive(Clone, Copy, Debug, PartialEq, Eq, Structural)]
pub enum SubscriptionStatus {
    PendingConfirmation,
    Confirmed,
}

impl SubscriptionStatus {
    pub open spec fn text(self) -> Seq<char> {
        match self {
            SubscriptionStatus::PendingConfirmation => "pending_confirmation"@,
            SubscriptionStatus::Confirmed => "confirmed"@,
        }
    }

    /// The name under which the status is stored.
    pub fn as_str(&self) -> (r: &'static str)
        ensures
            r@ == self.text(),
    {
        match self {
            SubscriptionStatus::PendingConfirmation => "pending_confirmation",
            SubscriptionStatus::Confirmed => "confirmed",
        }
    }
}

/// Why a signup failed.
#[derive(Debug)]
pub enum SubscribeError {
    ValidationError(String),
    PoolError,
    InsertSubscriberError,
    TxCommitError,
    StoreTokenError,
    SendEmailError,
}

impl SubscribeError {
    pub open spec fn status_spec(&self) -> u16 {
        match self {
            SubscribeError::ValidationError(_) => 400,
            _ => 500,
        }
    }

    /// The HTTP status of the response: 400 for bad input, 500 for a
    /// failure downstream.
    pub fn status_code(&self) -> (r: u16)
        ensures
            r == self.status_spec(),
    {
        match self {
            SubscribeError::ValidationError(_) => 400,
            SubscribeError::PoolError
            | SubscribeError::InsertSubscriberError
            | SubscribeError::TxCommitError
            | SubscribeError::StoreTokenError
            | SubscribeError::SendEmailError => 500,
        }
    }

    pub open spec fn message_spec(&self) -> Seq<char> {
        match self {
            SubscribeError::ValidationError(m) => m@,
            SubscribeError::PoolError => "Failed to create database pool"@,
            SubscribeError::InsertSubscriberError => "Failed to insert subscriber"@,
            SubscribeError::TxCommitError => "Failed to commit transaction"@,
            SubscribeError::StoreTokenError => "Failed to store token"@,
            SubscribeError::SendEmailError => "Failed to send email"@,
        }
    }

    /// A one-line description of the failure.
    pub fn message(&self) -> (r: String)
        ensures
            r@ == self.message_spec(),
    {
        match self {
            SubscribeError::ValidationError(m) => m.clone(),
            SubscribeError::PoolError => String::from_str("Failed to create database pool"),
            SubscribeError::InsertSubscriberError => String::from_str("Failed to insert subscriber"),
            SubscribeError::TxCommitError => String::from_str("Failed to commit transaction"),
            SubscribeError::StoreTokenError => String::from_str("Failed to store token"),
            SubscribeError::SendEmailError => String::from_str("Failed to send email"),
        }
    }
}

pub open spec fn confirmation_link_spec(base_url: Seq<char>, token: Seq<char>) -> Seq<char> {
    base_url + "/subscriptions/confirm?subscription_token="@ + token
}

pub open spec fn html_body_spec(link: Seq<char>) -> Seq<char> {
    "Welcome to our newsletter. Click <a href=\""@ + link + "\">here</a>"@
}

pub open spec fn text_body_spec(link: Seq<char>) -> Seq<char> {
    "Welcome to our newsletter. Click here -- "@ + link
}

pub open spec fn welcome_subject() -> Seq<char> {
    "Welcome!"@
}

/// The link that confirms the subscription holding `token`.
pub fn confirmation_link(base_url: &str, token: &str) -> (r: String)
    ensures
        r@ == confirmation_link_spec(base_url@, token@),
{
    let mut link = String::from_str(base_url);
    link.append("/subscriptions/confirm?subscription_token=");
    link.append(token);
    link
}

/// The HTML body of the confirmation email.
pub fn confirmation_html_body(link: &str) -> (r: String)
    ensures
        r@ == html_body_spec(link@),
{
    let mut body = String::from_str("Welcome to our newsletter. Click <a href=\"");
    body.append(link);
    body.append("\">here</a>");
    body
}

/// The plain-text body of the confirmation email.
pub fn confirmation_text_body(link: &str) -> (r: String)
    ensures
        r@ == text_body_spec(link@),
{
    let mut body = String::from_str("Welcome to our newsletter. Click here -- ");
    body.append(link);
    body
}

/// What the confirmation email sent to `recipient` for `token` holds, as a
/// request to the gateway.
pub open spec fn is_confirmation_email(
    q: EmailRequest,
    client: EmailClient,
    recipient: Seq<char>,
    base_url: Seq<char>,
    token: Seq<char>,
) -> bool {
    let link = confirmation_link_spec(base_url, token);
    &&& q.url@ == email_endpoint_of(client.base_url_spec())->0
    &&& q.auth_header@ == auth_header_spec()
    &&& q.auth_token@ == client.auth_token_spec()
    &&& q.timeout_millis == client.timeout_spec()
    &&& q.from@ == client.sender_spec()
    &&& q.to@ == recipient
    &&& q.subject@ == welcome_subject()
    &&& q.html_body@ == html_body_spec(link)
    &&& q.text_body@ == text_body_spec(link)
}

/// The confirmation email for a new subscriber: subject `Welcome!`, and both
/// bodies carry the confirmation link for `token`.
pub fn send_confirmation_email(
    recipient: &SubscriberEmail,
    email_client: &EmailClient,
    base_url: &str,
    token: &str,
) -> (r: Result<EmailRequest, EmailClientError>)
    ensures
        r is Err <==> email_endpoint_of(email_client.base_url_spec()) is None,
        r matches Ok(q) ==> is_confirmation_email(q, *email_client, recipient@, base_url@, token@),
{
    let link = confirmation_link(base_url, token);
    let html = confirmation_html_body(link.as_str());
    let text = confirmation_text_body(link.as_str());
    email_client.email_request(recipient, "Welcome!", html.as_str(), text.as_str())
}

/// The causes of an error, one after another, each behind `Caused by`.
pub open spec fn causes_text(causes: Seq<Seq<char>>) -> Seq<char>
    decreases causes.len(),
{
    if causes.len() == 0 {
        Seq::empty()
    } else {
        causes_text(causes.drop_last()) + "Caused by \n\t"@ + causes.last() + "\n"@
    }
}

/// An error's message on its own line, then each of its causes.
pub open spec fn chain_text(messages: Seq<Seq<char>>) -> Seq<char> {
    if messages.len() == 0 {
        Seq::empty()
    } else {
        messages[0] + "\n"@ + causes_text(messages.subrange(1, messages.len() as int))
    }
}

/// Renders an error chain: `messages[0]` is the error's own message and each
/// later entry the cause of the one before it.
pub fn error_chain_fmt(messages: &Vec<String>) -> (r: String)
    ensures
        r@ == chain_text(messages@.map_values(|m: String| m@)),
{
    let ghost views = messages@.map_values(|m: String| m@);
    if messages.len() == 0 {
        return String::new();
    }
    let mut text = messages[0].clone();
    text.append("\n");
    let mut i: usize = 1;
    while i < messages.len()
        invariant
            1 <= i <= messages.len(),
            views == messages@.map_values(|m: String| m@),
            text@ == views[0] + "\n"@ + causes_text(views.subrange(1, i as int)),
        decreases messages.len() - i,
    {
        text.append("Caused by \n\t");
        text.append(messages[i].as_str());
        text.append("\n");
        assert(views.subrange(1, i + 1).drop_last() =~= views.subrange(1, i as int));
        assert(views.subrange(1, i + 1).last() == messages[i as int]@);
        i += 1;
    }
    assert(views.subrange(1, messages.len() as int) =~= views.subrange(1, i as int));
    text
}

} // verus!
