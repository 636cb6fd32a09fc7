use zero2prod::domain::SubscriberEmail;
use zero2prod::email_client::{EmailClient, EmailClientError, EmailRequest};
use zero2prod::routes::subscribe_flow::{
    SubscribeAction, SubscribeEvent, SubscribeFlow, SubscribeStage,
};
use zero2prod::routes::subscriptions::{
    confirmation_link, error_chain_fmt, send_confirmation_email, SubscribeError,
    SubscriptionStatus,
};
use zero2prod::routes::subscriptions_confirm::{ConfirmAction, ConfirmEvent, ConfirmFlow};
use zero2prod::startup::listen_address;

const BASE_URL: &str = "http://127.0.0.1:8000";

struct Row {
    id: u128,
    name: String,
    email: String,
    status: &'static str,
}

/// The store and gateway that the workflows drive in these tests.
#[derive(Default)]
struct World {
    rows: Vec<Row>,
    tokens: Vec<(String, u128)>,
    sent: Vec<EmailRequest>,
    email_fails: bool,
}

fn email_client(base_url: &str) -> EmailClient {
    EmailClient::new(
        base_url.to_string(),
        SubscriberEmail::parse("sender@example.com".to_string()).unwrap(),
        "secret-token".to_string(),
        200,
    )
}

fn form(name: Option<&str>, email: Option<&str>) -> SubscribeEvent {
    SubscribeEvent::FormReceived {
        name: name.map(|s| s.to_string()),
        email: email.map(|s| s.to_string()),
    }
}

/// Runs a signup to its end and returns the answer's status.
fn subscribe(world: &mut World, first: SubscribeEvent) -> u16 {
    let client = email_client("http://email.example.com");
    let mut flow = SubscribeFlow::new(BASE_URL.to_string());
    let mut event = first;
    loop {
        let next = match flow.step(event, &client) {
            SubscribeAction::InsertSubscriber { id, email, name, status } => {
                if world.rows.iter().any(|r| r.email == email) {
                    SubscribeEvent::StepFailed
                } else {
                    world.rows.push(Row { id, name, email, status: status.as_str() });
                    SubscribeEvent::StepSucceeded
                }
            }
            SubscribeAction::InsertToken { subscription_id, token } => {
                world.tokens.push((token, subscription_id));
                SubscribeEvent::StepSucceeded
            }
            SubscribeAction::SendEmail(request) => {
                world.sent.push(request);
                if world.email_fails {
                    SubscribeEvent::StepFailed
                } else {
                    SubscribeEvent::StepSucceeded
                }
            }
            SubscribeAction::Finish(Ok(())) => return 200,
            SubscribeAction::Finish(Err(e)) => return e.status_code(),
            SubscribeAction::Ignore => panic!("event ignored"),
        };
        event = next;
    }
}

/// Runs a confirmation to its end and returns the answer's status.
fn confirm(world: &mut World, token: Option<&str>) -> u16 {
    let mut flow = ConfirmFlow::new();
    let mut event = ConfirmEvent::RequestReceived { subscription_token: token.map(|t| t.to_string()) };
    let mut pending: Option<u128> = None;
    loop {
        let next = match flow.step(event) {
            ConfirmAction::BeginTransaction => ConfirmEvent::StepSucceeded,
            ConfirmAction::LookUpToken { subscription_token } => ConfirmEvent::TokenResolved(
                world.tokens.iter().find(|(t, _)| *t == subscription_token).map(|(_, id)| *id),
            ),
            ConfirmAction::MarkConfirmed { subscription_id } => {
                pending = Some(subscription_id);
                ConfirmEvent::StepSucceeded
            }
            ConfirmAction::Commit => {
                if let Some(id) = pending {
                    for row in world.rows.iter_mut().filter(|r| r.id == id) {
                        row.status = SubscriptionStatus::Confirmed.as_str();
                    }
                }
                ConfirmEvent::StepSucceeded
            }
            ConfirmAction::Respond { status } => return status,
            ConfirmAction::Ignore => panic!("event ignored"),
        };
        event = next;
    }
}

fn token_of_link(link: &str) -> String {
    let prefix = format!("{}/subscriptions/confirm?subscription_token=", BASE_URL);
    assert!(link.starts_with(&prefix), "unexpected link {}", link);
    link[prefix.len()..].to_string()
}

fn link_of_text_body(body: &str) -> String {
    body.strip_prefix("Welcome to our newsletter. Click here -- ").unwrap().to_string()
}

#[test]
fn subscriptions_subscribe_returns_200_for_valid_data() {
    let mut world = World::default();
    let status = subscribe(&mut world, form(Some("Sanjay Sharma"), Some("sanjay_sharma@hotmail.com")));
    assert_eq!(status, 200);
}

#[test]
fn subscribe_sends_confirmation_email_valid_data() {
    let mut world = World::default();
    subscribe(&mut world, form(Some("Sanjay Sharma"), Some("sanjay_sharma@hotmail.com")));
    assert_eq!(world.sent.len(), 1);
}

#[test]
fn subscribe_persists_the_new_subscriber() {
    let mut world = World::default();
    subscribe(&mut world, form(Some("Sanjay Sharma"), Some("sanjay_sharma@hotmail.com")));
    assert_eq!(world.rows.len(), 1);
    assert_eq!(world.rows[0].name, "Sanjay Sharma");
    assert_eq!(world.rows[0].email, "sanjay_sharma@hotmail.com");
    assert_eq!(world.rows[0].status, "pending_confirmation");
}

#[test]
fn subscribe_sends_confirmation_mail_with_link() {
    let mut world = World::default();
    subscribe(&mut world, form(Some("Sanjay Sharma"), Some("sanjay_sharma@hotmail.com")));
    assert_eq!(world.sent.len(), 1);
    let request = &world.sent[0];
    assert_eq!(request.url, "http://email.example.com/email");
    assert_eq!(request.auth_header, "X-Postmark-Server-Token");
    assert_eq!(request.auth_token, "secret-token");
    assert_eq!(request.from, "sender@example.com");
    assert_eq!(request.to, "sanjay_sharma@hotmail.com");
    assert_eq!(request.subject, "Welcome!");
    let link = link_of_text_body(&request.text_body);
    let token = token_of_link(&link);
    assert_eq!(token.len(), 25);
    assert!(token.chars().all(|c| c.is_ascii_alphanumeric()));
    assert_eq!(token, world.tokens[0].0);
    assert_eq!(
        request.html_body,
        format!("Welcome to our newsletter. Click <a href=\"{}\">here</a>", link)
    );
}

#[test]
fn subscriptions_subscribe_returns_400_for_invalid_data() {
    let cases = [
        (form(None, None), "missing both name and email"),
        (form(Some("Sanjay Sharma"), None), "missing email"),
        (form(None, Some("sanjay_sharma@hotmail.com")), "missing name"),
        (form(Some("  "), Some("  ")), "empty name and email"),
        (form(Some(""), Some("sanjay_sharma@hotmail.com")), "empty name"),
        (form(Some("Sanjay Sharma"), Some("not-an-email")), "invalid email"),
    ];
    for (event, description) in cases {
        let mut world = World::default();
        let status = subscribe(&mut world, event);
        assert_eq!(status, 400, "Expecting failure but got status `{}` for input `{}`", status, description);
        assert!(world.rows.is_empty());
        assert!(world.sent.is_empty());
    }
}

#[test]
fn missing_fields_are_reported_by_name() {
    let client = email_client("http://email.example.com");
    let mut flow = SubscribeFlow::new(BASE_URL.to_string());
    match flow.step(form(None, Some("a@b.com")), &client) {
        SubscribeAction::Finish(Err(e)) => assert_eq!(e.message(), "missing field name"),
        _ => panic!("expected a validation error"),
    }
    let mut flow = SubscribeFlow::new(BASE_URL.to_string());
    match flow.step(form(Some("Ursula"), None), &client) {
        SubscribeAction::Finish(Err(e)) => assert_eq!(e.message(), "missing field email"),
        _ => panic!("expected a validation error"),
    }
}

#[test]
fn email_failure_returns_500_and_keeps_rows() {
    let mut world = World { email_fails: true, ..World::default() };
    let status = subscribe(&mut world, form(Some("Sanjay Sharma"), Some("sanjay_sharma@hotmail.com")));
    assert_eq!(status, 500);
    assert_eq!(world.rows.len(), 1);
    assert_eq!(world.tokens.len(), 1);
    assert_eq!(world.sent.len(), 1);
}

#[test]
fn duplicate_email_is_a_store_failure() {
    let mut world = World::default();
    let first = subscribe(&mut world, form(Some("Sanjay Sharma"), Some("sanjay_sharma@hotmail.com")));
    let second = subscribe(&mut world, form(Some("Sanjay Sharma"), Some("sanjay_sharma@hotmail.com")));
    assert_eq!(first, 200);
    assert_eq!(second, 500);
    assert_eq!(world.rows.len(), 1);
}

#[test]
fn token_store_failure_returns_500() {
    let client = email_client("http://email.example.com");
    let mut flow = SubscribeFlow::new(BASE_URL.to_string());
    assert!(matches!(
        flow.step(form(Some("Ursula"), Some("ursula@example.com")), &client),
        SubscribeAction::InsertSubscriber { .. }
    ));
    assert!(matches!(flow.step(SubscribeEvent::StepSucceeded, &client), SubscribeAction::InsertToken { .. }));
    match flow.step(SubscribeEvent::StepFailed, &client) {
        SubscribeAction::Finish(Err(e)) => {
            assert_eq!(e.status_code(), 500);
            assert_eq!(e.message(), "Failed to store token");
        }
        _ => panic!("expected a failure"),
    }
    assert_eq!(flow.stage_now(), SubscribeStage::Finished);
    assert!(matches!(flow.step(SubscribeEvent::StepSucceeded, &client), SubscribeAction::Ignore));
}

#[test]
fn subscriber_store_failure_returns_500() {
    let client = email_client("http://email.example.com");
    let mut flow = SubscribeFlow::new(BASE_URL.to_string());
    flow.step(form(Some("Ursula"), Some("ursula@example.com")), &client);
    match flow.step(SubscribeEvent::StepFailed, &client) {
        SubscribeAction::Finish(Err(e)) => assert_eq!(e.message(), "Failed to insert subscriber"),
        _ => panic!("expected a failure"),
    }
}

#[test]
fn invalid_gateway_url_fails_the_signup() {
    let client = email_client("not a url");
    let mut flow = SubscribeFlow::new(BASE_URL.to_string());
    flow.step(form(Some("Ursula"), Some("ursula@example.com")), &client);
    flow.step(SubscribeEvent::StepSucceeded, &client);
    match flow.step(SubscribeEvent::StepSucceeded, &client) {
        SubscribeAction::Finish(Err(e)) => assert_eq!(e.status_code(), 500),
        _ => panic!("expected a failure"),
    }
}

#[test]
fn events_out_of_order_are_ignored() {
    let client = email_client("http://email.example.com");
    let mut flow = SubscribeFlow::new(BASE_URL.to_string());
    assert!(matches!(flow.step(SubscribeEvent::StepSucceeded, &client), SubscribeAction::Ignore));
    assert_eq!(flow.stage_now(), SubscribeStage::AwaitingForm);
    let mut confirm_flow = ConfirmFlow::new();
    assert!(matches!(confirm_flow.step(ConfirmEvent::StepSucceeded), ConfirmAction::Ignore));
}

#[test]
fn clicking_on_confirmation_link_confirms_subscriber() {
    let mut world = World::default();
    subscribe(&mut world, form(Some("Sanjay Sharma"), Some("sanjay_sharma@hotmail.com")));
    let link = link_of_text_body(&world.sent[0].text_body);
    let token = token_of_link(&link);
    assert_eq!(confirm(&mut world, Some(&token)), 200);
    assert_eq!(world.rows[0].email, "sanjay_sharma@hotmail.com");
    assert_eq!(world.rows[0].name, "Sanjay Sharma");
    assert_eq!(world.rows[0].status, "confirmed");
}

#[test]
fn link_returned_by_subscribe_returns_200_if_called() {
    let mut world = World::default();
    subscribe(&mut world, form(Some("Sanjay Sharma"), Some("sanjay_sharma@hotmail.com")));
    let link = link_of_text_body(&world.sent[0].text_body);
    assert_eq!(confirm(&mut world, Some(&token_of_link(&link))), 200);
}

#[test]
fn confirmations_without_token_rejected_with_400() {
    let mut world = World::default();
    assert_eq!(confirm(&mut world, None), 400);
}

#[test]
fn unknown_token_is_rejected_with_401() {
    let mut world = World::default();
    subscribe(&mut world, form(Some("Sanjay Sharma"), Some("sanjay_sharma@hotmail.com")));
    assert_eq!(confirm(&mut world, Some("abcdefghijklmnopqrstuvwxy")), 401);
    assert_eq!(world.rows[0].status, "pending_confirmation");
}

#[test]
fn store_failures_during_confirmation_return_500() {
    for failing_step in 0..4 {
        let mut flow = ConfirmFlow::new();
        let mut action = flow.step(ConfirmEvent::RequestReceived { subscription_token: Some("t".to_string()) });
        for step in 0..4 {
            let event = if step == failing_step {
                ConfirmEvent::StepFailed
            } else if matches!(action, ConfirmAction::LookUpToken { .. }) {
                ConfirmEvent::TokenResolved(Some(7))
            } else {
                ConfirmEvent::StepSucceeded
            };
            action = flow.step(event);
            if step == failing_step {
                break;
            }
        }
        assert!(matches!(action, ConfirmAction::Respond { status: 500 }));
    }
}

#[test]
fn confirmation_marks_the_resolved_subscription() {
    let mut flow = ConfirmFlow::new();
    flow.step(ConfirmEvent::RequestReceived { subscription_token: Some("abc".to_string()) });
    match flow.step(ConfirmEvent::StepSucceeded) {
        ConfirmAction::LookUpToken { subscription_token } => assert_eq!(subscription_token, "abc"),
        _ => panic!("expected a lookup"),
    }
    assert!(matches!(
        flow.step(ConfirmEvent::TokenResolved(Some(42))),
        ConfirmAction::MarkConfirmed { subscription_id: 42 }
    ));
    assert!(matches!(flow.step(ConfirmEvent::StepSucceeded), ConfirmAction::Commit));
    assert!(matches!(flow.step(ConfirmEvent::StepSucceeded), ConfirmAction::Respond { status: 200 }));
}

#[test]
fn confirmation_email_carries_the_link() {
    let recipient = SubscriberEmail::parse("ursula@example.com".to_string()).unwrap();
    let client = email_client("http://localhost:1234");
    let request = send_confirmation_email(&recipient, &client, "https://my.app", "abc").ok().unwrap();
    assert_eq!(request.url, "http://localhost:1234/email");
    assert_eq!(request.timeout_millis, 200);
    assert_eq!(request.to, "ursula@example.com");
    assert_eq!(
        request.text_body,
        "Welcome to our newsletter. Click here -- https://my.app/subscriptions/confirm?subscription_token=abc"
    );
    assert_eq!(
        request.html_body,
        "Welcome to our newsletter. Click <a href=\"https://my.app/subscriptions/confirm?subscription_token=abc\">here</a>"
    );
    let bad = email_client("::not a url");
    assert_eq!(
        send_confirmation_email(&recipient, &bad, "https://my.app", "abc").err(),
        Some(EmailClientError::InvalidBaseUrl)
    );
}

#[test]
fn email_request_joins_the_email_path() {
    let recipient = SubscriberEmail::parse("ursula@example.com".to_string()).unwrap();
    let client = email_client("http://localhost:1234/");
    let request = client.email_request(&recipient, "Hi", "<p>x</p>", "x").ok().unwrap();
    assert_eq!(request.url, "http://localhost:1234/email");
    assert_eq!(request.subject, "Hi");
    assert_eq!(request.html_body, "<p>x</p>");
    assert_eq!(request.text_body, "x");
    assert_eq!(client.timeout_millis(), 200);
}

#[test]
fn confirmation_link_has_the_token_in_its_query() {
    assert_eq!(
        confirmation_link("http://127.0.0.1:8000", "tok"),
        "http://127.0.0.1:8000/subscriptions/confirm?subscription_token=tok"
    );
}

#[test]
fn generated_tokens_are_25_alphanumeric_chars() {
    for _ in 0..50 {
        let token = zero2prod::routes::token::generate_token();
        assert_eq!(token.chars().count(), 25);
        assert!(token.chars().all(|c| c.is_ascii_alphanumeric()));
    }
}

#[test]
fn error_statuses_split_bad_input_from_failures() {
    assert_eq!(SubscribeError::ValidationError("x".to_string()).status_code(), 400);
    for e in [
        SubscribeError::PoolError,
        SubscribeError::InsertSubscriberError,
        SubscribeError::TxCommitError,
        SubscribeError::StoreTokenError,
        SubscribeError::SendEmailError,
    ] {
        assert_eq!(e.status_code(), 500);
    }
    assert_eq!(SubscribeError::SendEmailError.message(), "Failed to send email");
    assert_eq!(SubscribeError::PoolError.message(), "Failed to create database pool");
    assert_eq!(SubscribeError::TxCommitError.message(), "Failed to commit transaction");
}

#[test]
fn error_chain_lists_each_cause() {
    let chain = vec!["Failed to store token".to_string(), "connection reset".to_string(), "io".to_string()];
    assert_eq!(
        error_chain_fmt(&chain),
        "Failed to store token\nCaused by \n\tconnection reset\nCaused by \n\tio\n"
    );
    assert_eq!(error_chain_fmt(&vec!["alone".to_string()]), "alone\n");
    assert_eq!(error_chain_fmt(&Vec::new()), "");
}

#[test]
fn listen_address_joins_host_and_port() {
    assert_eq!(listen_address("127.0.0.1", 8000), "127.0.0.1:8000");
    assert_eq!(listen_address("localhost", 0), "localhost:0");
    assert_eq!(listen_address("0.0.0.0", 65535), "0.0.0.0:65535");
}
