//! The subscription workflow: validate, persist, then confirm.
//!
//! One workflow value walks one submission through its three steps. The
//! workflow itself only decides; the caller performs each side effect it is
//! handed — first the row to insert, then the dispatch request — and reports
//! back how it went. The contracts pin the ordering the design owes:
//! rejected input causes no side effect at all, and no dispatch request
//! exists for a subscriber that was not persisted first.

use vstd::prelude::*;

use crate::domain::FormData;
use crate::domain::NewSubscriber;
use crate::domain::SubscriberEmail;
use crate::domain::ValidationError;
use crate::domain::email_accepted;
use crate::domain::name_is_valid;
use crate::email_client::ConfirmationEmailMessage;
use crate::email_client::DispatchError;
use crate::email_client::DispatchRequest;
use crate::email_client::EmailClient;
use crate::email_client::DISPATCH_TIMEOUT_SECS;
use crate::email_client::send_email_body;

verus! {

/// The tagged result of one subscription attempt.
#[derive(Clone, Copy, Debug, PartialEq, Eq, Structural)]
pub enum SubscriptionOutcome {
    Subscribed,
    Rejected(ValidationError),
    PersistenceFailed,
    EmailFailed,
}

/// A subscriber's place in the confirmation lifecycle.
#[derive(Clone, Copy, Debug, PartialEq, Eq, Structural)]
pub enum SubscriberStatus {
    PendingConfirmation,
    Confirmed,
}

impl SubscriberStatus {
    /// The status as the persistence store spells it.
    pub fn wire_name(&self) -> (r: &'static str)
        ensures
            *self is PendingConfirmation ==> r@ == "pending-confirmation"@,
            *self is Confirmed ==> r@ == "confirmed"@,
    {
        match self {
            SubscriberStatus::PendingConfirmation => "pending-confirmation",
            SubscriberStatus::Confirmed => "confirmed",
        }
    }
}

/// One row for the persistence gateway to write.
pub struct SubscriberRecord {
    /// The subscriber's freshly drawn identity.
    pub id: u128,
    pub email: String,
    pub name: String,
    /// The submission instant, in microseconds since the Unix epoch, UTC.
    pub subscribed_at_micros: i64,
    pub status: SubscriberStatus,
}

/// Relies on `uuid::Uuid::new_v4`: a randomly drawn identifier, of which
/// nothing is promised.
#[verifier::external_body]
fn fresh_subscriber_id() -> u128 {
    uuid::Uuid::new_v4().as_u128()
}

/// Relies on `chrono::Utc::now`: the current instant, of which nothing is
/// promised.
#[verifier::external_body]
fn now_utc_micros() -> i64 {
    chrono::Utc::now().timestamp_micros()
}

/// The confirmation message's fixed HTML and text content, pointing the
/// subscriber at the (placeholder) confirmation link.
pub open spec fn confirmation_html() -> Seq<char> {
    "Welcome to newsletter subscription! click on <a href= \"https://newletter-api.com/confirmation/confirm\">HERE </a>"@
}

/// Builds one confirmation message for a recipient: the fixed welcome
/// subject, and the fixed confirmation-link content as both HTML and text.
pub fn confirmation_email(sender: &SubscriberEmail, recipient: &SubscriberEmail) -> (m:
    ConfirmationEmailMessage)
    ensures
        m.from@ == sender@,
        m.to@ == recipient@,
        m.subject@ == "Welcome"@,
        m.html_content@ == confirmation_html(),
        m.text_content@ == confirmation_html(),
{
    ConfirmationEmailMessage {
        from: sender.as_str().to_owned(),
        to: recipient.as_str().to_owned(),
        subject: String::from_str("Welcome"),
        html_content: String::from_str(
            "Welcome to newsletter subscription! click on <a href= \"https://newletter-api.com/confirmation/confirm\">HERE </a>",
        ),
        text_content: String::from_str(
            "Welcome to newsletter subscription! click on <a href= \"https://newletter-api.com/confirmation/confirm\">HERE </a>",
        ),
    }
}

/// Where one submission stands.
pub enum WorkflowState {
    /// No submission yet.
    AwaitingInput,
    /// Validated; the caller is writing the row.
    AwaitingPersistence { subscriber: NewSubscriber },
    /// Persisted; the caller is performing the dispatch.
    AwaitingDispatch { subscriber: NewSubscriber },
    /// Decided.
    Finished { outcome: SubscriptionOutcome },
}

/// One subscription attempt, from raw form to outcome.
pub struct SubscriptionWorkflow {
    pub client: EmailClient,
    pub state: WorkflowState,
}

impl SubscriptionWorkflow {
    /// Begins a workflow around the given dispatch configuration.
    pub fn new(client: EmailClient) -> (w: SubscriptionWorkflow)
        ensures
            w.client == client,
            w.state is AwaitingInput,
    {
        SubscriptionWorkflow { client, state: WorkflowState::AwaitingInput }
    }

    /// Validates one raw form. Invalid input finishes the workflow at once
    /// as `Rejected` — the name checked first — and asks for no side effect;
    /// valid input yields the one row to persist, carrying a fresh identity,
    /// the submission instant, and the pending-confirmation status.
    pub fn submit(&mut self, form: FormData) -> (row: Option<SubscriberRecord>)
        requires
            old(self).state is AwaitingInput,
        ensures
            final(self).client == old(self).client,
            !name_is_valid(form.name@) ==> (row is None && final(self).state == (
            WorkflowState::Finished {
                outcome: SubscriptionOutcome::Rejected(ValidationError::InvalidName),
            })),
            name_is_valid(form.name@) && !email_accepted(form.email@) ==> (row is None
                && final(self).state == (WorkflowState::Finished {
                outcome: SubscriptionOutcome::Rejected(ValidationError::InvalidEmail),
            })),
            name_is_valid(form.name@) && email_accepted(form.email@) ==> ({
                &&& row matches Some(r)
                &&& r.name@ == form.name@
                &&& r.email@ == form.email@
                &&& r.status == SubscriberStatus::PendingConfirmation
                &&& final(self).state matches WorkflowState::AwaitingPersistence { subscriber }
                &&& subscriber.name@ == form.name@
                &&& subscriber.email@ == form.email@
            }),
    {
        match NewSubscriber::from_form(form) {
            Err(e) => {
                self.state = WorkflowState::Finished {
                    outcome: SubscriptionOutcome::Rejected(e),
                };
                None
            },
            Ok(subscriber) => {
                let row = SubscriberRecord {
                    id: fresh_subscriber_id(),
                    email: subscriber.email.as_str().to_owned(),
                    name: subscriber.name.as_str().to_owned(),
                    subscribed_at_micros: now_utc_micros(),
                    status: SubscriberStatus::PendingConfirmation,
                };
                self.state = WorkflowState::AwaitingPersistence { subscriber };
                Some(row)
            },
        }
    }

    /// Hears how the persistence gateway fared. A failed write finishes the
    /// workflow as `PersistenceFailed` with no dispatch asked for; a
    /// successful one yields the single confirmation dispatch request for
    /// the persisted subscriber.
    pub fn record_persistence(&mut self, persisted: bool) -> (req: Option<DispatchRequest>)
        requires
            old(self).state is AwaitingPersistence,
        ensures
            final(self).client == old(self).client,
            !persisted ==> (req is None && final(self).state == (WorkflowState::Finished {
                outcome: SubscriptionOutcome::PersistenceFailed,
            })),
            persisted ==> ({
                &&& req matches Some(r)
                &&& old(self).state matches WorkflowState::AwaitingPersistence { subscriber }
                &&& r.url@ == old(self).client.base_url@ + "/email"@
                &&& r.header_name@ == "X-Postmark-Server-Token"@
                &&& r.auth_token@ == old(self).client.auth_token@
                &&& r.timeout_secs == DISPATCH_TIMEOUT_SECS
                &&& r.body@ == send_email_body(
                    old(self).client.sender@,
                    subscriber.email@,
                    "Welcome"@,
                    confirmation_html(),
                    confirmation_html(),
                )
                &&& final(self).state == (WorkflowState::AwaitingDispatch { subscriber })
            }),
    {
        let mut prev = WorkflowState::AwaitingInput;
        core::mem::swap(&mut prev, &mut self.state);
        match prev {
            WorkflowState::AwaitingPersistence { subscriber } => {
                if persisted {
                    let message = confirmation_email(self.client.sender(), &subscriber.email);
                    let req = self.client.compose_request(&message);
                    self.state = WorkflowState::AwaitingDispatch { subscriber };
                    Some(req)
                } else {
                    self.state = WorkflowState::Finished {
                        outcome: SubscriptionOutcome::PersistenceFailed,
                    };
                    None
                }
            },
            _ => unreached(),
        }
    }

    /// Hears how the dispatch fared, and decides the attempt: a delivered
    /// confirmation means `Subscribed`; any dispatch failure means
    /// `EmailFailed`, and the persisted row stays as it is — nothing is
    /// rolled back and nothing is retried.
    pub fn record_dispatch(&mut self, sent: Result<(), DispatchError>) -> (outcome:
        SubscriptionOutcome)
        requires
            old(self).state is AwaitingDispatch,
        ensures
            final(self).client == old(self).client,
            final(self).state == (WorkflowState::Finished { outcome }),
            sent is Ok ==> outcome == SubscriptionOutcome::Subscribed,
            sent is Err ==> outcome == SubscriptionOutcome::EmailFailed,
    {
        let outcome = match sent {
            Ok(()) => SubscriptionOutcome::Subscribed,
            Err(_) => SubscriptionOutcome::EmailFailed,
        };
        self.state = WorkflowState::Finished { outcome };
        outcome
    }

    /// The decided outcome, once the workflow is finished.
    pub fn outcome(&self) -> (r: Option<SubscriptionOutcome>)
        ensures
            r matches Some(o) ==> self.state == (WorkflowState::Finished { outcome: o }),
            self.state matches (WorkflowState::Finished { outcome }) ==> r == Some(outcome),
    {
        match &self.state {
            WorkflowState::Finished { outcome } => Some(*outcome),
            _ => None,
        }
    }
}

} // verus!
