use newsletter_api::domain::SubscriberEmail;
use newsletter_api::email_client::ConfirmationEmailMessage;
use newsletter_api::email_client::DispatchError;
use newsletter_api::email_client::EmailClient;
use newsletter_api::email_client::TransportOutcome;
use newsletter_api::email_client::evaluate_outcome;
use newsletter_api::email_client::send_email_body_string;
use newsletter_api::email_client::DISPATCH_TIMEOUT_SECS;

fn sender() -> SubscriberEmail {
    SubscriberEmail::parse("sender@example.com".to_string()).unwrap()
}

fn message() -> ConfirmationEmailMessage {
    ConfirmationEmailMessage {
        from: "sender@example.com".to_string(),
        to: "newsletter-api@gmail.com".to_string(),
        subject: "Welcome".to_string(),
        html_content: "<p>hello</p>".to_string(),
        text_content: "hello".to_string(),
    }
}

#[test]
fn the_body_holds_the_five_provider_fields() {
    let body = send_email_body_string(&message());
    assert_eq!(
        body,
        "{\"From\":\"sender@example.com\",\"To\":\"newsletter-api@gmail.com\",\
         \"Subject\":\"Welcome\",\"HtmlContent\":\"<p>hello</p>\",\"TextContent\":\"hello\"}"
    );
}

#[test]
fn the_body_escapes_quotes_and_backslashes() {
    let mut m = message();
    m.subject = "a \"quoted\" \\ subject".to_string();
    let body = send_email_body_string(&m);
    assert!(body.contains("\"Subject\":\"a \\\"quoted\\\" \\\\ subject\""));
}

#[test]
fn the_body_escapes_control_characters() {
    let mut m = message();
    m.text_content = "line one\nline two\u{1}".to_string();
    let body = send_email_body_string(&m);
    assert!(body.contains("\"TextContent\":\"line one\\u000aline two\\u0001\""));
}

#[test]
fn a_request_posts_to_the_email_endpoint_with_the_server_token() {
    let client = EmailClient::new(
        "http://localhost:8025".to_string(),
        sender(),
        "fake-server-token".to_string(),
    );
    let request = client.compose_request(&message());
    assert_eq!(request.url, "http://localhost:8025/email");
    assert_eq!(request.header_name, "X-Postmark-Server-Token");
    assert_eq!(request.auth_token, "fake-server-token");
    assert_eq!(request.timeout_secs, DISPATCH_TIMEOUT_SECS);
    assert_eq!(request.timeout_secs, 10);
    assert!(request.body.contains("\"To\":\"newsletter-api@gmail.com\""));
}

#[test]
fn a_successful_status_is_accepted() {
    for status in [200u16, 201, 250, 299] {
        assert_eq!(evaluate_outcome(&TransportOutcome::Completed(status)), Ok(()));
    }
}

#[test]
fn should_return_http_status_code_500() {
    let judged = evaluate_outcome(&TransportOutcome::Completed(500));
    assert_eq!(judged, Err(DispatchError::ProviderRejected(500)));
}

#[test]
fn a_client_error_status_is_a_provider_rejection() {
    for status in [199u16, 300, 400, 404] {
        assert_eq!(
            evaluate_outcome(&TransportOutcome::Completed(status)),
            Err(DispatchError::ProviderRejected(status))
        );
    }
}

#[test]
fn should_time_out_if_server_takes_long_time_to_respond() {
    let judged = evaluate_outcome(&TransportOutcome::TimedOut);
    assert_eq!(judged, Err(DispatchError::Timeout));
}

#[test]
fn a_connection_failure_is_a_transport_error() {
    let judged = evaluate_outcome(&TransportOutcome::TransportFailed);
    assert_eq!(judged, Err(DispatchError::Transport));
}
