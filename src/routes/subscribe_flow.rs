use crate::domain::subscriber_email::valid_email_of;
use crate::domain::subscriber_name::is_valid_name;
use crate::domain::NewSubscriber;
use crate::email_client::{email_endpoint_of, EmailClient, EmailRequest};
use crate::routes::subscriptions::{
    new_subscription_id, send_confirmation_email, is_confirmation_email, FormData, SubscribeError,
    SubscriptionStatus,
};
use crate::routes::token::{generate_token, is_token};
use vstd::prelude::*;
use vstd::string::*;

verus! {

/// Where a signup stands.
#[derive(Clone, Copy, Debug, PartialEq, Eq, Structural)]
pub enum SubscribeStage {
    AwaitingForm,
    InsertingSubscriber,
    InsertingToken,
    SendingEmail,
    Finished,
}

/// What happened since the last action: the form arrived (a field is `None`
/// where the form lacks it), or the last action succeeded or failed.
pub enum SubscribeEvent {
    FormReceived { name: Option<String>, email: Option<String> },
    StepSucceeded,
    StepFailed,
}

/// What the caller is to do next.
pub enum SubscribeAction {
    /// Store a new subscription row.
    InsertSubscriber { id: u128, email: String, name: String, status: SubscriptionStatus },
    /// Store the token of subscription `subscription_id`.
    InsertToken { subscription_id: u128, token: String },
    /// Send this email through the gateway.
    SendEmail(EmailRequest),
    /// Answer the request: 200 on `Ok`, else the error's status.
    Finish(Result<(), SubscribeError>),
    /// The event does not fit the stage; nothing changed.
    Ignore,
}

pub open spec fn opt_view(o: Option<String>) -> Option<Seq<char>> {
    match o {
        Some(s) => Some(s@),
        None => None,
    }
}

/// The message of the validation error for a form, or `None` where the form
/// is valid.
pub open spec fn form_error(name: Option<Seq<char>>, email: Option<Seq<char>>) -> Option<Seq<char>> {
    match (name, email) {
        (None, _) => Some("missing field name"@),
        (Some(_), None) => Some("missing field email"@),
        (Some(n), Some(e)) => if !is_valid_name(n) {
            Some("Invalid subscriber name "@ + n)
        } else if !valid_email_of(e) {
            Some(e + " is not a valid email"@)
        } else {
            None
        },
    }
}

/// The signup workflow of one request: validate, store the subscriber, store
/// a fresh token, send the confirmation email, answer. Each step runs only
/// after the previous one succeeded; the first failure ends it, and nothing
/// stored before is taken back.
pub struct SubscribeFlow {
    stage: SubscribeStage,
    base_url: String,
    subscriber: Option<NewSubscriber>,
    subscription_id: u128,
    token: String,
}

impl SubscribeFlow {
    pub closed spec fn stage(&self) -> SubscribeStage {
        self.stage
    }

    pub closed spec fn base_url(&self) -> Seq<char> {
        self.base_url@
    }

    pub closed spec fn subscription_id(&self) -> u128 {
        self.subscription_id
    }

    pub closed spec fn token(&self) -> Seq<char> {
        self.token@
    }

    pub closed spec fn name(&self) -> Seq<char> {
        self.subscriber->0.name@
    }

    pub closed spec fn email(&self) -> Seq<char> {
        self.subscriber->0.email@
    }

    pub closed spec fn wf(&self) -> bool {
        &&& (self.stage == SubscribeStage::InsertingSubscriber || self.stage
            == SubscribeStage::InsertingToken) ==> self.subscriber is Some
            && self.subscriber->0.wf()
        &&& self.stage == SubscribeStage::InsertingToken ==> is_token(self.token@)
    }

    /// A workflow that waits for the form; confirmation links start with
    /// `base_url`.
    pub fn new(base_url: String) -> (r: SubscribeFlow)
        ensures
            r.wf(),
            r.stage() == SubscribeStage::AwaitingForm,
            r.base_url() == base_url@,
    {
        SubscribeFlow {
            stage: SubscribeStage::AwaitingForm,
            base_url,
            subscriber: None,
            subscription_id: 0,
            token: String::new(),
        }
    }

    pub fn stage_now(&self) -> (r: SubscribeStage)
        ensures
            r == self.stage(),
    {
        self.stage
    }

    /// Takes one event and says what to do next.
    pub fn step(&mut self, event: SubscribeEvent, email_client: &EmailClient) -> (action:
        SubscribeAction)
        requires
            old(self).wf(),
        ensures
            final(self).wf(),
            final(self).base_url() == old(self).base_url(),
            match (old(self).stage(), event) {
                (SubscribeStage::AwaitingForm, SubscribeEvent::FormReceived { name, email }) => {
                    match form_error(opt_view(name), opt_view(email)) {
                        Some(m) => {
                            &&& final(self).stage() == SubscribeStage::Finished
                            &&& action matches SubscribeAction::Finish(
                                Err(SubscribeError::ValidationError(x)),
                            ) && x@ == m
                        },
                        None => {
                            &&& final(self).stage() == SubscribeStage::InsertingSubscriber
                            &&& final(self).name() == name->0@
                            &&& final(self).email() == email->0@
                            &&& action matches SubscribeAction::InsertSubscriber {
                                id,
                                email: e,
                                name: n,
                                status,
                            } && id == final(self).subscription_id() && e@ == email->0@ && n@
                                == name->0@ && status == SubscriptionStatus::PendingConfirmation
                        },
                    }
                },
                (SubscribeStage::InsertingSubscriber, SubscribeEvent::StepSucceeded) => {
                    &&& final(self).stage() == SubscribeStage::InsertingToken
                    &&& final(self).subscription_id() == old(self).subscription_id()
                    &&& final(self).name() == old(self).name()
                    &&& final(self).email() == old(self).email()
                    &&& is_token(final(self).token())
                    &&& action matches SubscribeAction::InsertToken { subscription_id, token }
                        && subscription_id == old(self).subscription_id()
                        && token@ == final(self).token()
                },
                (SubscribeStage::InsertingSubscriber, SubscribeEvent::StepFailed) => {
                    &&& final(self).stage() == SubscribeStage::Finished
                    &&& action matches SubscribeAction::Finish(
                        Err(SubscribeError::InsertSubscriberError),
                    )
                },
                (SubscribeStage::InsertingToken, SubscribeEvent::StepSucceeded) => {
                    if email_endpoint_of(email_client.base_url_spec()) is Some {
                        &&& final(self).stage() == SubscribeStage::SendingEmail
                        &&& action matches SubscribeAction::SendEmail(q) && is_confirmation_email(
                            q,
                            *email_client,
                            old(self).email(),
                            old(self).base_url(),
                            old(self).token(),
                        )
                    } else {
                        &&& final(self).stage() == SubscribeStage::Finished
                        &&& action matches SubscribeAction::Finish(
                            Err(SubscribeError::SendEmailError),
                        )
                    }
                },
                (SubscribeStage::InsertingToken, SubscribeEvent::StepFailed) => {
                    &&& final(self).stage() == SubscribeStage::Finished
                    &&& action matches SubscribeAction::Finish(Err(SubscribeError::StoreTokenError))
                },
                (SubscribeStage::SendingEmail, SubscribeEvent::StepSucceeded) => {
                    &&& final(self).stage() == SubscribeStage::Finished
                    &&& action matches SubscribeAction::Finish(Ok(()))
                },
                (SubscribeStage::SendingEmail, SubscribeEvent::StepFailed) => {
                    &&& final(self).stage() == SubscribeStage::Finished
                    &&& action matches SubscribeAction::Finish(Err(SubscribeError::SendEmailError))
                },
                _ => {
                    &&& *final(self) == *old(self)
                    &&& action is Ignore
                },
            },
    {
        match (self.stage, event) {
            (SubscribeStage::AwaitingForm, SubscribeEvent::FormReceived { name, email }) => {
                let name = match name {
                    Some(n) => n,
                    None => {
                        self.stage = SubscribeStage::Finished;
                        return SubscribeAction::Finish(
                            Err(SubscribeError::ValidationError(String::from_str("missing field name"))),
                        );
                    },
                };
                let email = match email {
                    Some(e) => e,
                    None => {
                        self.stage = SubscribeStage::Finished;
                        return SubscribeAction::Finish(
                            Err(SubscribeError::ValidationError(String::from_str("missing field email"))),
                        );
                    },
                };
                let email_text = email.clone();
                let name_text = name.clone();
                match NewSubscriber::try_from(FormData { name, email }) {
                    Ok(subscriber) => {
                        let id = new_subscription_id();
                        self.stage = SubscribeStage::InsertingSubscriber;
                        self.subscriber = Some(subscriber);
                        self.subscription_id = id;
                        SubscribeAction::InsertSubscriber {
                            id,
                            email: email_text,
                            name: name_text,
                            status: SubscriptionStatus::PendingConfirmation,
                        }
                    },
                    Err(m) => {
                        self.stage = SubscribeStage::Finished;
                        SubscribeAction::Finish(Err(SubscribeError::ValidationError(m)))
                    },
                }
            },
            (SubscribeStage::InsertingSubscriber, SubscribeEvent::StepSucceeded) => {
                let token = generate_token();
                let action = SubscribeAction::InsertToken {
                    subscription_id: self.subscription_id,
                    token: token.clone(),
                };
                self.token = token;
                self.stage = SubscribeStage::InsertingToken;
                action
            },
            (SubscribeStage::InsertingSubscriber, SubscribeEvent::StepFailed) => {
                self.stage = SubscribeStage::Finished;
                SubscribeAction::Finish(Err(SubscribeError::InsertSubscriberError))
            },
            (SubscribeStage::InsertingToken, SubscribeEvent::StepSucceeded) => {
                let request = match &self.subscriber {
                    Some(s) => send_confirmation_email(
                        &s.email,
                        email_client,
                        self.base_url.as_str(),
                        self.token.as_str(),
                    ),
                    None => {
                        return SubscribeAction::Ignore;
                    },
                };
                match request {
                    Ok(q) => {
                        self.stage = SubscribeStage::SendingEmail;
                        SubscribeAction::SendEmail(q)
                    },
                    Err(_) => {
                        self.stage = SubscribeStage::Finished;
                        SubscribeAction::Finish(Err(SubscribeError::SendEmailError))
                    },
                }
            },
            (SubscribeStage::InsertingToken, SubscribeEvent::StepFailed) => {
                self.stage = SubscribeStage::Finished;
                SubscribeAction::Finish(Err(SubscribeError::StoreTokenError))
            },
            (SubscribeStage::SendingEmail, SubscribeEvent::StepSucceeded) => {
                self.stage = SubscribeStage::Finished;
                SubscribeAction::Finish(Ok(()))
            },
            (SubscribeStage::SendingEmail, SubscribeEvent::StepFailed) => {
                self.stage = SubscribeStage::Finished;
                SubscribeAction::Finish(Err(SubscribeError::SendEmailError))
            },
            _ => SubscribeAction::Ignore,
        }
    }
}

} // verus!
