//! What the client's calls to the server are made of: the addresses that
//! it asks, and the reading of what comes back. The calls themselves are
//! made elsewhere.

use vstd::prelude::*;
use vstd::string::*;
use crate::text::{replace, replaced, text_of, text_or};

verus! {

/// The text of a field of a JSON document: the string under `key` where
/// the document is an object that holds one there, as `serde_json` reads
/// it.
pub uninterp spec fn json_text_field(text: Seq<char>, key: Seq<char>) -> Option<Seq<char>>;

/// Reads a JSON document with `serde_json::from_str`, looks a key up with
/// `serde_json::Value::get` and takes the string found there with
/// `serde_json::Value::as_str`. The contract gives the result its name:
/// nothing comes back where the text is no JSON, is no object, has no such
/// key, or holds something other than a string there.
#[verifier::external_body]
pub(crate) fn json_string_field(text: &str, key: &str) -> (field: Option<String>)
    ensures
        text_of(field) == json_text_field(text@, key@),
{
    let value: serde_json::Value = serde_json::from_str(text).ok()?;
    Some(value.get(key)?.as_str()?.to_string())
}

/// The address of the billing service for a given service address: the
/// same, with the ports of the other services replaced by its own.
pub open spec fn billing_base(base: Seq<char>) -> Seq<char> {
    replaced(replaced(base, ":3001"@, ":3003"@), ":3002"@, ":3003"@)
}

/// The message for a response that reports a failure: the server's own
/// where the response held one, else the given label with the status in
/// brackets.
pub open spec fn failure_text(found: Option<Seq<char>>, label: Seq<char>, status: Seq<char>) -> Seq<
    char,
> {
    text_or(found, label + " ("@ + status + ")"@)
}

/// The client's addresses.
#[derive(Debug)]
pub struct ApiClient {
    base_url: String,
    billing_url: String,
}

impl Clone for ApiClient {
    fn clone(&self) -> (copy: ApiClient)
        ensures
            copy.base() == self.base(),
            copy.billing() == self.billing(),
    {
        ApiClient { base_url: self.base_url.clone(), billing_url: self.billing_url.clone() }
    }
}

impl ApiClient {
    /// The address of the services.
    pub closed spec fn base(&self) -> Seq<char> {
        self.base_url@
    }

    /// The address of the billing service.
    pub closed spec fn billing(&self) -> Seq<char> {
        self.billing_url@
    }

    /// Makes a client for the services at `base_url`. The billing service
    /// is taken to listen at the same address on its own port.
    pub fn new(base_url: String) -> (client: ApiClient)
        ensures
            client.base() == base_url@,
            client.billing() == billing_base(base_url@),
    {
        let first = replace(base_url.as_str(), ":3001", ":3003");
        let billing_url = replace(first.as_str(), ":3002", ":3003");
        ApiClient { base_url, billing_url }
    }

    /// Returns the address of the services.
    pub fn base_url(&self) -> (url: &str)
        ensures
            url@ == self.base(),
    {
        self.base_url.as_str()
    }

    /// Returns the address of the billing service.
    pub fn billing_url(&self) -> (url: &str)
        ensures
            url@ == self.billing(),
    {
        self.billing_url.as_str()
    }

    /// Returns the address of a user's subscription.
    pub fn subscription_url(&self, user_id: &str) -> (url: String)
        ensures
            url@ == self.billing() + "/billing/subscriptions/"@ + user_id@,
    {
        String::from_str(self.billing_url.as_str()).concat("/billing/subscriptions/").concat(
            user_id,
        )
    }

    /// Returns the address that cancels a user's subscription.
    pub fn cancel_url(&self, user_id: &str) -> (url: String)
        ensures
            url@ == self.billing() + "/billing/subscriptions/"@ + user_id@ + "/cancel"@,
    {
        self.subscription_url(user_id).concat("/cancel")
    }

    /// Returns the address of a user's invoices.
    pub fn invoices_url(&self, user_id: &str) -> (url: String)
        ensures
            url@ == self.billing() + "/billing/invoices/"@ + user_id@,
    {
        String::from_str(self.billing_url.as_str()).concat("/billing/invoices/").concat(user_id)
    }
}

/// Makes the message for a response that reports a failure, from the
/// message that was found in the response, if any.
pub fn failure_message(found: Option<String>, label: &str, status: &str) -> (message: String)
    ensures
        message@ == failure_text(text_of(found), label@, status@),
{
    match found {
        Some(message) => message,
        None => String::from_str(label).concat(" (").concat(status).concat(")"),
    }
}

/// Reads the plan that the server names in an answer.
pub fn plan_of_answer(body: &str) -> (plan: Option<String>)
    ensures
        text_of(plan) == json_text_field(body@, "plan"@),
{
    json_string_field(body, "plan")
}

/// Reads the error that the server names in an answer.
pub fn error_of_answer(body: &str) -> (error: Option<String>)
    ensures
        text_of(error) == json_text_field(body@, "error"@),
{
    json_string_field(body, "error")
}

/// Makes the message for a plan change that the server refused: the
/// server's own error where the answer held one, else the status.
pub fn update_failure_message(status: &str, body: &str) -> (message: String)
    ensures
        message@ == failure_text(
            json_text_field(body@, "error"@),
            "Erreur serveur billing"@,
            status@,
        ),
{
    failure_message(json_string_field(body, "error"), "Erreur serveur billing", status)
}

/// Makes the message for a cancellation that the server refused: the
/// server's own error where the answer held one, else the status.
pub fn cancel_failure_message(status: &str, body: &str) -> (message: String)
    ensures
        message@ == failure_text(json_text_field(body@, "error"@), "Erreur"@, status@),
{
    failure_message(json_string_field(body, "error"), "Erreur", status)
}

/// Makes the message for a read of the subscription that the server
/// refused: the status and the answer as it came.
pub fn subscription_failure_message(status: &str, body: &str) -> (message: String)
    ensures
        message@ == "Erreur billing ("@ + status@ + "): "@ + body@,
{
    String::from_str("Erreur billing (").concat(status).concat("): ").concat(body)
}

/// Makes the message for a read of the invoices that the server refused.
pub fn invoices_failure_message(status: &str) -> (message: String)
    ensures
        message@ == "Erreur billing ("@ + status@ + ")"@,
{
    String::from_str("Erreur billing (").concat(status).concat(")")
}

/// Makes the message for a call that did not reach the server.
pub fn network_failure_message(detail: &str) -> (message: String)
    ensures
        message@ == "Erreur réseau billing: "@ + detail@,
{
    String::from_str("Erreur réseau billing: ").concat(detail)
}

} // verus!
