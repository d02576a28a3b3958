use newsletter_api::domain::FormData;
use newsletter_api::domain::SubscriberEmail;
use newsletter_api::domain::ValidationError;
use newsletter_api::email_client::DispatchError;
use newsletter_api::email_client::EmailClient;
use newsletter_api::email_client::TransportOutcome;
use newsletter_api::email_client::evaluate_outcome;
use newsletter_api::subscription::SubscriberStatus;
use newsletter_api::subscription::SubscriptionOutcome;
use newsletter_api::subscription::SubscriptionWorkflow;

fn workflow() -> SubscriptionWorkflow {
    let sender = SubscriberEmail::parse("newsletter@example.com".to_string()).unwrap();
    let client = EmailClient::new(
        "http://localhost:8025".to_string(),
        sender,
        "fake-server-token".to_string(),
    );
    SubscriptionWorkflow::new(client)
}

fn form(name: &str, email: &str) -> FormData {
    FormData {
        name: name.to_string(),
        email: email.to_string(),
    }
}

#[test]
fn subscribe_persists_a_pending_row_and_sends_one_confirmation_email() {
    let mut w = workflow();

    // A store and a transport log, standing in for the two collaborators.
    let mut rows = Vec::new();
    let mut dispatched = Vec::new();

    let row = w
        .submit(form("jk", "newsletter-api@gmail.com"))
        .expect("a valid form must yield a row to persist");
    assert_eq!(row.name, "jk");
    assert_eq!(row.email, "newsletter-api@gmail.com");
    assert_eq!(row.status, SubscriberStatus::PendingConfirmation);
    assert_eq!(row.status.wire_name(), "pending-confirmation");
    rows.push(row);

    let request = w
        .record_persistence(true)
        .expect("a persisted row must yield one dispatch request");
    dispatched.push(request);

    let outcome = w.record_dispatch(Ok(()));
    assert_eq!(outcome, SubscriptionOutcome::Subscribed);
    assert_eq!(rows.len(), 1);
    assert_eq!(dispatched.len(), 1);
}

#[test]
fn subscribe_sends_a_confirmation_email_with_link() {
    let mut w = workflow();
    w.submit(form("jk", "newsletter-api@gmail.com")).unwrap();
    let request = w.record_persistence(true).unwrap();

    assert_eq!(request.url, "http://localhost:8025/email");
    assert_eq!(request.header_name, "X-Postmark-Server-Token");
    assert!(request.body.contains("\"From\":\"newsletter@example.com\""));
    assert!(request.body.contains("\"To\":\"newsletter-api@gmail.com\""));
    assert!(request.body.contains("\"Subject\":\"Welcome\""));
    assert!(request.body.contains("\"HtmlContent\":\""));
    assert!(request.body.contains("\"TextContent\":\""));
    assert!(request
        .body
        .contains("https://newletter-api.com/confirmation/confirm"));
}

#[test]
fn subscribe_rejects_an_empty_form_with_no_side_effects() {
    let mut w = workflow();
    let row = w.submit(form("", ""));
    assert!(row.is_none(), "a rejected form must persist nothing");
    assert_eq!(
        w.outcome(),
        Some(SubscriptionOutcome::Rejected(ValidationError::InvalidName))
    );
}

#[test]
fn subscribe_rejects_a_form_missing_the_email_address() {
    let mut w = workflow();
    let row = w.submit(form("jk", ""));
    assert!(row.is_none());
    assert_eq!(
        w.outcome(),
        Some(SubscriptionOutcome::Rejected(ValidationError::InvalidEmail))
    );
}

#[test]
fn subscribe_rejects_a_form_missing_the_name() {
    let mut w = workflow();
    let row = w.submit(form("", "newsletter-api@gmail.com"));
    assert!(row.is_none());
    assert_eq!(
        w.outcome(),
        Some(SubscriptionOutcome::Rejected(ValidationError::InvalidName))
    );
}

#[test]
fn a_persistence_failure_asks_for_no_email_dispatch() {
    let mut w = workflow();
    w.submit(form("jk", "newsletter-api@gmail.com")).unwrap();
    let request = w.record_persistence(false);
    assert!(request.is_none(), "a failed write must dispatch nothing");
    assert_eq!(w.outcome(), Some(SubscriptionOutcome::PersistenceFailed));
}

#[test]
fn an_email_timeout_leaves_the_row_pending() {
    let mut w = workflow();

    let mut rows = Vec::new();
    let row = w.submit(form("jk", "newsletter-api@gmail.com")).unwrap();
    rows.push(row);
    let _request = w.record_persistence(true).unwrap();

    // The transport reports that the provider never answered in time.
    let sent = evaluate_outcome(&TransportOutcome::TimedOut);
    assert_eq!(sent, Err(DispatchError::Timeout));
    let outcome = w.record_dispatch(sent);

    assert_eq!(outcome, SubscriptionOutcome::EmailFailed);
    assert_eq!(rows.len(), 1, "the persisted row is not rolled back");
    assert_eq!(rows[0].status, SubscriberStatus::PendingConfirmation);
    assert_eq!(rows[0].status.wire_name(), "pending-confirmation");
    assert_eq!(rows[0].email, "newsletter-api@gmail.com");
}

#[test]
fn the_generated_identities_are_fresh_per_submission() {
    let mut w1 = workflow();
    let mut w2 = workflow();
    let r1 = w1.submit(form("jk", "newsletter-api@gmail.com")).unwrap();
    let r2 = w2.submit(form("jk", "newsletter-api@gmail.com")).unwrap();
    assert_ne!(r1.id, r2.id, "two submissions drew the same identity");
}
