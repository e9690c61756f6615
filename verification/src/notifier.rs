//! The alert: what is sent to the notification service, and how the outcome
//! of sending it is read.
//!
//! Sending is left to the driver. This module says what to send, and which
//! outcomes count as delivered.

use vstd::prelude::*;
use vstd::string::*;
use crate::config::Credentials;
use crate::monitor::NotifyResult;

verus! {

/// The address that alerts are posted to.
pub const PUSHOVER_URL: &'static str = "https://api.pushover.net/1/messages.json";

/// The text of every alert.
pub const ALERT_MESSAGE: &'static str = "\u{274c} Poop Monitor is offline!";

/// One field of a form: its name and its value.
#[derive(Debug)]
pub struct FormField {
    pub name: String,
    pub value: String,
}

/// A request that posts a form to an address.
#[derive(Debug)]
pub struct AlertRequest {
    /// Where the form is posted.
    pub url: String,
    /// The fields of the form, in the order in which they are sent.
    pub form: Vec<FormField>,
}

/// The fields of an alert as plain values: the token, the user and the
/// message, in this order.
pub open spec fn alert_form(token: Seq<char>, user: Seq<char>) -> Seq<(Seq<char>, Seq<char>)> {
    seq![("token"@, token), ("user"@, user), ("message"@, ALERT_MESSAGE@)]
}

impl AlertRequest {
    /// The fields of the form as pairs of name and value.
    pub open spec fn fields(&self) -> Seq<(Seq<char>, Seq<char>)> {
        Seq::new(self.form@.len(), |i: int| (self.form@[i].name@, self.form@[i].value@))
    }
}

/// The request that delivers an alert on behalf of `credentials`.
pub fn alert_request(credentials: &Credentials) -> (request: AlertRequest)
    ensures
        request.url@ == PUSHOVER_URL@,
        request.fields() == alert_form(credentials.token@, credentials.user@),
{
    let mut form: Vec<FormField> = Vec::new();
    form.push(FormField { name: String::from_str("token"), value: credentials.token.clone() });
    form.push(FormField { name: String::from_str("user"), value: credentials.user.clone() });
    form.push(
        FormField { name: String::from_str("message"), value: String::from_str(ALERT_MESSAGE) },
    );
    let request = AlertRequest { url: String::from_str(PUSHOVER_URL), form };
    assert(request.fields() =~= alert_form(credentials.token@, credentials.user@));
    request
}

/// How an attempt to post the alert ended.
#[derive(Clone, Copy, Debug, PartialEq, Eq, Structural)]
pub enum Outcome {
    /// The service answered, with this HTTP status.
    Answered { status: u16 },
    /// No answer could be had: the connection, the name lookup or the
    /// transfer failed, or it took too long.
    TransportError,
}

/// What an outcome counts as. Any answer counts as sent, whatever its status;
/// only a transport error counts as failed.
pub open spec fn result_of(outcome: Outcome) -> NotifyResult {
    match outcome {
        Outcome::Answered { .. } => NotifyResult::Sent,
        Outcome::TransportError => NotifyResult::Failed,
    }
}

/// Reads the outcome of an attempt.
pub fn notify_result(outcome: Outcome) -> (result: NotifyResult)
    ensures
        result == result_of(outcome),
        result == NotifyResult::Failed <==> outcome == Outcome::TransportError,
{
    match outcome {
        Outcome::Answered { .. } => NotifyResult::Sent,
        Outcome::TransportError => NotifyResult::Failed,
    }
}

} // verus!
