use crate::domain::SubscriberEmail;
use vstd::prelude::*;
use vstd::string::*;

verus! {

/// The URL that `{base}` joined with the relative path `email` resolves to,
/// or `None` where `{base}` is no absolute URL.
pub uninterp spec fn email_endpoint_of(base: Seq<char>) -> Option<Seq<char>>;

/// Relies on `reqwest::Url::parse` and `Url::join`: parses `base` as an
/// absolute URL and resolves the relative reference `email` against it.
#[verifier::external_body]
fn email_endpoint(base: &str) -> (r: Option<String>)
    ensures
        r is Some <==> email_endpoint_of(base@) is Some,
        r matches Some(u) ==> u@ == email_endpoint_of(base@)->0,
{
    let base = reqwest::Url::parse(base).ok()?;
    let endpoint = base.join("email").ok()?;
    Some(endpoint.to_string())
}

/// Name of the header that carries the gateway's auth token.
pub open spec fn auth_header_spec() -> Seq<char> {
    "X-Postmark-Server-Token"@
}

/// Why no request could be made.
#[derive(Debug, PartialEq, Eq, Structural)]
pub enum EmailClientError {
    /// The configured base URL is no absolute URL.
    InvalidBaseUrl,
}

/// One POST to the email gateway: where it goes, its auth header, the
/// timeout, and the fields of its JSON body.
pub struct EmailRequest {
    pub url: String,
    pub auth_header: String,
    pub auth_token: String,
    pub timeout_millis: u64,
    pub from: String,
    pub to: String,
    pub subject: String,
    pub html_body: String,
    pub text_body: String,
}

/// The client of the email gateway: its base URL, the sender address, the
/// auth token and the timeout of each request.
pub struct EmailClient {
    base_url: String,
    sender: SubscriberEmail,
    auth_token: String,
    timeout_millis: u64,
}

impl EmailClient {
    pub closed spec fn base_url_spec(&self) -> Seq<char> {
        self.base_url@
    }

    pub closed spec fn sender_spec(&self) -> Seq<char> {
        self.sender@
    }

    pub closed spec fn auth_token_spec(&self) -> Seq<char> {
        self.auth_token@
    }

    pub closed spec fn timeout_spec(&self) -> u64 {
        self.timeout_millis
    }

    pub fn new(base_url: String, sender: SubscriberEmail, auth_token: String, timeout_millis: u64) -> (r: EmailClient)
        ensures
            r.base_url_spec() == base_url@,
            r.sender_spec() == sender@,
            r.auth_token_spec() == auth_token@,
            r.timeout_spec() == timeout_millis,
    {
        EmailClient { base_url, sender, auth_token, timeout_millis }
    }

    pub fn timeout_millis(&self) -> (r: u64)
        ensures
            r == self.timeout_spec(),
    {
        self.timeout_millis
    }

    /// The request that sends one email to `recipient`: a POST to
    /// `{base_url}/email` with the auth header, from the sender address.
    pub fn email_request(
        &self,
        recipient: &SubscriberEmail,
        subject: &str,
        html_content: &str,
        text_content: &str,
    ) -> (r: Result<EmailRequest, EmailClientError>)
        ensures
            r is Err <==> email_endpoint_of(self.base_url_spec()) is None,
            r matches Err(e) ==> e == EmailClientError::InvalidBaseUrl,
            r matches Ok(q) ==> {
                &&& q.url@ == email_endpoint_of(self.base_url_spec())->0
                &&& q.auth_header@ == auth_header_spec()
                &&& q.auth_token@ == self.auth_token_spec()
                &&& q.timeout_millis == self.timeout_spec()
                &&& q.from@ == self.sender_spec()
                &&& q.to@ == recipient@
                &&& q.subject@ == subject@
                &&& q.html_body@ == html_content@
                &&& q.text_body@ == text_content@
            },
    {
        let url = match email_endpoint(self.base_url.as_str()) {
            Some(u) => u,
            None => {
                return Err(EmailClientError::InvalidBaseUrl);
            },
        };
        Ok(
            EmailRequest {
                url,
                auth_header: String::from_str("X-Postmark-Server-Token"),
                auth_token: String::from_str(self.auth_token.as_str()),
                timeout_millis: self.timeout_millis,
                from: String::from_str(self.sender.as_str()),
                to: String::from_str(recipient.as_str()),
                subject: String::from_str(subject),
                html_body: String::from_str(html_content),
                text_body: String::from_str(text_content),
            },
        )
    }
}

} // verus!
