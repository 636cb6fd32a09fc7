use vstd::prelude::*;

verus! {

/// The query of a confirmation link.
pub struct Parameters {
    pub subscription_token: String,
}

/// Where a confirmation stands.
#[derive(Clone, Copy, Debug, PartialEq, Eq, Structural)]
pub enum ConfirmStage {
    AwaitingRequest,
    OpeningTransaction,
    LookingUpToken,
    MarkingConfirmed,
    Committing,
    Finished,
}

/// What happened since the last action: the request arrived (`None` where
/// its query has no token), the token lookup answered, or the last action
/// succeeded or failed.
pub enum ConfirmEvent {
    RequestReceived { subscription_token: Option<String> },
    TokenResolved(Option<u128>),
    StepSucceeded,
    StepFailed,
}

/// What the caller is to do next. Every step from `LookUpToken` on runs in
/// the transaction that `BeginTransaction` opened; answering without a
/// `Commit` drops it, which rolls it back.
pub enum ConfirmAction {
    BeginTransaction,
    LookUpToken { subscription_token: String },
    MarkConfirmed { subscription_id: u128 },
    Commit,
    Respond { status: u16 },
    /// The event does not fit the stage; nothing changed.
    Ignore,
}

/// The confirmation workflow of one request: in one transaction, resolve the
/// token to its subscription, mark that subscription confirmed, commit.
pub struct ConfirmFlow {
    stage: ConfirmStage,
    subscription_token: String,
    subscription_id: u128,
}

impl ConfirmFlow {
    pub closed spec fn stage(&self) -> ConfirmStage {
        self.stage
    }

    pub closed spec fn subscription_token(&self) -> Seq<char> {
        self.subscription_token@
    }

    pub closed spec fn subscription_id(&self) -> u128 {
        self.subscription_id
    }

    pub fn new() -> (r: ConfirmFlow)
        ensures
            r.stage() == ConfirmStage::AwaitingRequest,
    {
        ConfirmFlow {
            stage: ConfirmStage::AwaitingRequest,
            subscription_token: String::new(),
            subscription_id: 0,
        }
    }

    pub fn stage_now(&self) -> (r: ConfirmStage)
        ensures
            r == self.stage(),
    {
        self.stage
    }

    /// Takes one event and says what to do next: 400 without a token, 401
    /// for a token that no subscription holds, 500 where the store fails,
    /// 200 once the commit succeeded.
    pub fn step(&mut self, event: ConfirmEvent) -> (action: ConfirmAction)
        ensures
            match (old(self).stage(), event) {
                (ConfirmStage::AwaitingRequest, ConfirmEvent::RequestReceived { subscription_token }) => {
                    match subscription_token {
                        None => {
                            &&& final(self).stage() == ConfirmStage::Finished
                            &&& action == (ConfirmAction::Respond { status: 400 })
                        },
                        Some(t) => {
                            &&& final(self).stage() == ConfirmStage::OpeningTransaction
                            &&& final(self).subscription_token() == t@
                            &&& action is BeginTransaction
                        },
                    }
                },
                (ConfirmStage::OpeningTransaction, ConfirmEvent::StepSucceeded) => {
                    &&& final(self).stage() == ConfirmStage::LookingUpToken
                    &&& final(self).subscription_token() == old(self).subscription_token()
                    &&& action matches ConfirmAction::LookUpToken { subscription_token }
                        && subscription_token@ == old(self).subscription_token()
                },
                (ConfirmStage::LookingUpToken, ConfirmEvent::TokenResolved(found)) => {
                    match found {
                        None => {
                            &&& final(self).stage() == ConfirmStage::Finished
                            &&& action == (ConfirmAction::Respond { status: 401 })
                        },
                        Some(id) => {
                            &&& final(self).stage() == ConfirmStage::MarkingConfirmed
                            &&& final(self).subscription_id() == id
                            &&& action == (ConfirmAction::MarkConfirmed { subscription_id: id })
                        },
                    }
                },
                (ConfirmStage::MarkingConfirmed, ConfirmEvent::StepSucceeded) => {
                    &&& final(self).stage() == ConfirmStage::Committing
                    &&& action is Commit
                },
                (ConfirmStage::Committing, ConfirmEvent::StepSucceeded) => {
                    &&& final(self).stage() == ConfirmStage::Finished
                    &&& action == (ConfirmAction::Respond { status: 200 })
                },
                (ConfirmStage::OpeningTransaction, ConfirmEvent::StepFailed)
                | (ConfirmStage::LookingUpToken, ConfirmEvent::StepFailed)
                | (ConfirmStage::MarkingConfirmed, ConfirmEvent::StepFailed)
                | (ConfirmStage::Committing, ConfirmEvent::StepFailed) => {
                    &&& final(self).stage() == ConfirmStage::Finished
                    &&& action == (ConfirmAction::Respond { status: 500 })
                },
                _ => {
                    &&& *final(self) == *old(self)
                    &&& action is Ignore
                },
            },
    {
        match (self.stage, event) {
            (ConfirmStage::AwaitingRequest, ConfirmEvent::RequestReceived { subscription_token }) => {
                match subscription_token {
                    None => {
                        self.stage = ConfirmStage::Finished;
                        ConfirmAction::Respond { status: 400 }
                    },
                    Some(t) => {
                        self.subscription_token = t;
                        self.stage = ConfirmStage::OpeningTransaction;
                        ConfirmAction::BeginTransaction
                    },
                }
            },
            (ConfirmStage::OpeningTransaction, ConfirmEvent::StepSucceeded) => {
                self.stage = ConfirmStage::LookingUpToken;
                ConfirmAction::LookUpToken { subscription_token: self.subscription_token.clone() }
            },
            (ConfirmStage::LookingUpToken, ConfirmEvent::TokenResolved(found)) => {
                match found {
                    None => {
                        self.stage = ConfirmStage::Finished;
                        ConfirmAction::Respond { status: 401 }
                    },
                    Some(id) => {
                        self.subscription_id = id;
                        self.stage = ConfirmStage::MarkingConfirmed;
                        ConfirmAction::MarkConfirmed { subscription_id: id }
                    },
                }
            },
            (ConfirmStage::MarkingConfirmed, ConfirmEvent::StepSucceeded) => {
                self.stage = ConfirmStage::Committing;
                ConfirmAction::Commit
            },
            (ConfirmStage::Committing, ConfirmEvent::StepSucceeded) => {
                self.stage = ConfirmStage::Finished;
                ConfirmAction::Respond { status: 200 }
            },
            (ConfirmStage::OpeningTransaction, ConfirmEvent::StepFailed)
            | (ConfirmStage::LookingUpToken, ConfirmEvent::StepFailed)
            | (ConfirmStage::MarkingConfirmed, ConfirmEvent::StepFailed)
            | (ConfirmStage::Committing, ConfirmEvent::StepFailed) => {
                self.stage = ConfirmStage::Finished;
                ConfirmAction::Respond { status: 500 }
            },
            _ => ConfirmAction::Ignore,
        }
    }
}

} // verus!
