//! The email-dispatch client's computing half.
//!
//! The client owns the provider's wire contract: one `POST {base_url}/email`
//! with a JSON body of five fixed fields and a server-token header, bounded
//! by a ten-second timeout. This module builds that request and judges the
//! transport's report of the call; the transport itself lives outside the
//! library and is handed a finished `DispatchRequest`.

use vstd::prelude::*;

use crate::domain::SubscriberEmail;
use crate::json::append_json_escaped;
use crate::json::json_escaped;

verus! {

/// The bound, in seconds, on the connect-and-response time of one dispatch.
pub const DISPATCH_TIMEOUT_SECS: u64 = 10;

/// One confirmation email, built fresh per send and never retained.
pub struct ConfirmationEmailMessage {
    pub from: String,
    pub to: String,
    pub subject: String,
    pub html_content: String,
    pub text_content: String,
}

/// The provider's JSON body for one message: the five fields, in its fixed
/// order and capitalisation, each value JSON-escaped.
pub open spec fn send_email_body(
    from: Seq<char>,
    to: Seq<char>,
    subject: Seq<char>,
    html: Seq<char>,
    text: Seq<char>,
) -> Seq<char> {
    "{\"From\":\""@ + json_escaped(from) + "\",\"To\":\""@ + json_escaped(to)
        + "\",\"Subject\":\""@ + json_escaped(subject) + "\",\"HtmlContent\":\""@ + json_escaped(
        html,
    ) + "\",\"TextContent\":\""@ + json_escaped(text) + "\"}"@
}

/// Renders the provider's JSON body for one message.
pub fn send_email_body_string(message: &ConfirmationEmailMessage) -> (body: String)
    ensures
        body@ == send_email_body(
            message.from@,
            message.to@,
            message.subject@,
            message.html_content@,
            message.text_content@,
        ),
{
    let mut out = String::new();
    out.append("{\"From\":\"");
    append_json_escaped(&mut out, message.from.as_str());
    out.append("\",\"To\":\"");
    append_json_escaped(&mut out, message.to.as_str());
    out.append("\",\"Subject\":\"");
    append_json_escaped(&mut out, message.subject.as_str());
    out.append("\",\"HtmlContent\":\"");
    append_json_escaped(&mut out, message.html_content.as_str());
    out.append("\",\"TextContent\":\"");
    append_json_escaped(&mut out, message.text_content.as_str());
    out.append("\"}");
    proof {
        assert(out@ =~= send_email_body(
            message.from@,
            message.to@,
            message.subject@,
            message.html_content@,
            message.text_content@,
        ));
    }
    out
}

/// One fully prepared outbound call, for the transport to perform as given.
pub struct DispatchRequest {
    pub url: String,
    pub header_name: String,
    pub auth_token: String,
    pub body: String,
    pub timeout_secs: u64,
}

/// What one attempted call came to, as the transport reports it.
#[derive(Clone, Copy, Debug, PartialEq, Eq, Structural)]
pub enum TransportOutcome {
    /// The provider answered with this HTTP status.
    Completed(u16),
    /// The timeout bound elapsed before a response arrived.
    TimedOut,
    /// The connection itself failed.
    TransportFailed,
}

/// Why one dispatch failed.
#[derive(Clone, Copy, Debug, PartialEq, Eq, Structural)]
pub enum DispatchError {
    Timeout,
    ProviderRejected(u16),
    Transport,
}

/// The dispatch result owed for each transport report: a successful (2xx)
/// status is success, any other status is the provider's rejection, and a
/// timeout or connection failure keeps its own kind.
pub open spec fn spec_evaluate_outcome(o: TransportOutcome) -> Result<(), DispatchError> {
    match o {
        TransportOutcome::Completed(status) => if 200 <= status < 300 {
            Ok(())
        } else {
            Err(DispatchError::ProviderRejected(status))
        },
        TransportOutcome::TimedOut => Err(DispatchError::Timeout),
        TransportOutcome::TransportFailed => Err(DispatchError::Transport),
    }
}

/// Judges one transport report, exactly as `spec_evaluate_outcome` says.
pub fn evaluate_outcome(outcome: &TransportOutcome) -> (r: Result<(), DispatchError>)
    ensures
        r == spec_evaluate_outcome(*outcome),
{
    match outcome {
        TransportOutcome::Completed(status) => {
            if 200 <= *status && *status < 300 {
                Ok(())
            } else {
                Err(DispatchError::ProviderRejected(*status))
            }
        },
        TransportOutcome::TimedOut => Err(DispatchError::Timeout),
        TransportOutcome::TransportFailed => Err(DispatchError::Transport),
    }
}

/// The shared, read-only dispatch configuration: where to post, who sends,
/// and the provider credential.
pub struct EmailClient {
    pub base_url: String,
    pub sender: SubscriberEmail,
    pub auth_token: String,
}

impl EmailClient {
    /// Gathers the dispatch configuration.
    pub fn new(base_url: String, sender: SubscriberEmail, auth_token: String) -> (c: EmailClient)
        ensures
            c.base_url@ == base_url@,
            c.sender@ == sender@,
            c.auth_token@ == auth_token@,
    {
        EmailClient { base_url, sender, auth_token }
    }

    /// The configured sender address.
    pub fn sender(&self) -> (r: &SubscriberEmail)
        ensures
            r@ == self.sender@,
    {
        &self.sender
    }

    /// Prepares the single outbound call for one message: the provider's
    /// email endpoint under the configured base URL, the server-token
    /// header with the configured credential, the message's JSON body, and
    /// the fixed timeout bound.
    pub fn compose_request(&self, message: &ConfirmationEmailMessage) -> (req: DispatchRequest)
        ensures
            req.url@ == self.base_url@ + "/email"@,
            req.header_name@ == "X-Postmark-Server-Token"@,
            req.auth_token@ == self.auth_token@,
            req.timeout_secs == DISPATCH_TIMEOUT_SECS,
            req.body@ == send_email_body(
                message.from@,
                message.to@,
                message.subject@,
                message.html_content@,
                message.text_content@,
            ),
    {
        let mut url = self.base_url.clone();
        url.append("/email");
        let header_name_string = String::from_str("X-Postmark-Server-Token");
        DispatchRequest {
            url,
            header_name: header_name_string,
            auth_token: self.auth_token.clone(),
            body: send_email_body_string(message),
            timeout_secs: DISPATCH_TIMEOUT_SECS,
        }
    }
}

} // verus!
