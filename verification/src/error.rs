//! Why a request to the rate service gave no result.

use vstd::prelude::*;
use crate::text::same_text;

verus! {

/// A refusal that the rate service reports in its error envelope.
#[derive(Debug, Clone, Copy, PartialEq, Eq, Structural)]
pub enum RequestError {
    /// One or both currency codes are unknown to the service.
    UnsupportedCurrency,
    /// The service rejected the shape of the request, or reported a code
    /// that this client does not know.
    MalformedRequest,
    /// The service rejected the API key.
    InvalidApiKey,
    /// The account behind the API key is inactive.
    InactiveAccount,
    /// The account has used up its quota.
    QuotaReached,
}

impl RequestError {
    /// The kind of refusal that a code of the service stands for. Every code
    /// outside the service's vocabulary counts as a malformed request.
    pub open spec fn for_code(code: Seq<char>) -> RequestError {
        if code == "unsupported-code"@ {
            RequestError::UnsupportedCurrency
        } else if code == "malformed-request"@ {
            RequestError::MalformedRequest
        } else if code == "invalid-key"@ {
            RequestError::InvalidApiKey
        } else if code == "inactive-account"@ {
            RequestError::InactiveAccount
        } else if code == "quota-reached"@ {
            RequestError::QuotaReached
        } else {
            RequestError::MalformedRequest
        }
    }

    /// The one-line message of each kind.
    pub open spec fn message_text(self) -> Seq<char> {
        match self {
            RequestError::UnsupportedCurrency => "Unsupported currency."@,
            RequestError::MalformedRequest => "Malformed request."@,
            RequestError::InvalidApiKey => "Invalid API key."@,
            RequestError::InactiveAccount => "Inactive account."@,
            RequestError::QuotaReached => "Quota reached."@,
        }
    }

    /// Maps a code from the service's error envelope to its kind.
    pub fn from_code(code: &str) -> (kind: RequestError)
        ensures
            kind == Self::for_code(code@),
    {
        if same_text(code, "unsupported-code") {
            RequestError::UnsupportedCurrency
        } else if same_text(code, "malformed-request") {
            RequestError::MalformedRequest
        } else if same_text(code, "invalid-key") {
            RequestError::InvalidApiKey
        } else if same_text(code, "inactive-account") {
            RequestError::InactiveAccount
        } else if same_text(code, "quota-reached") {
            RequestError::QuotaReached
        } else {
            RequestError::MalformedRequest
        }
    }

    /// The message shown to the user for this kind.
    pub fn message(&self) -> (text: String)
        ensures
            text@ == self.message_text(),
    {
        match self {
            RequestError::UnsupportedCurrency => String::from_str("Unsupported currency."),
            RequestError::MalformedRequest => String::from_str("Malformed request."),
            RequestError::InvalidApiKey => String::from_str("Invalid API key."),
            RequestError::InactiveAccount => String::from_str("Inactive account."),
            RequestError::QuotaReached => String::from_str("Quota reached."),
        }
    }
}

/// Why a command gave no result.
#[derive(Debug, Clone, Copy, PartialEq, Eq, Structural)]
pub enum Failure {
    /// The service answered with a refusal.
    Request(RequestError),
    /// The service could not be reached, or its answer could not be read.
    Transport,
    /// No API key is configured.
    Configuration,
}

impl Failure {
    /// The one-line message of each failure.
    pub open spec fn message_text(self) -> Seq<char> {
        match self {
            Failure::Request(kind) => kind.message_text(),
            Failure::Transport => "The exchange rate service gave no readable answer."@,
            Failure::Configuration => "No API key is configured."@,
        }
    }

    /// The message shown to the user for this failure.
    pub fn message(&self) -> (text: String)
        ensures
            text@ == self.message_text(),
    {
        match self {
            Failure::Request(kind) => kind.message(),
            Failure::Transport => String::from_str(
                "The exchange rate service gave no readable answer.",
            ),
            Failure::Configuration => String::from_str("No API key is configured."),
        }
    }
}

/// The five codes of the service's vocabulary each have their own kind.
pub proof fn lemma_known_codes()
    ensures
        RequestError::for_code("unsupported-code"@) == RequestError::UnsupportedCurrency,
        RequestError::for_code("malformed-request"@) == RequestError::MalformedRequest,
        RequestError::for_code("invalid-key"@) == RequestError::InvalidApiKey,
        RequestError::for_code("inactive-account"@) == RequestError::InactiveAccount,
        RequestError::for_code("quota-reached"@) == RequestError::QuotaReached,
{
    reveal_strlit("unsupported-code");
    reveal_strlit("malformed-request");
    reveal_strlit("invalid-key");
    reveal_strlit("inactive-account");
    reveal_strlit("quota-reached");
    assert("inactive-account"@[0] != "unsupported-code"@[0]);
    assert("quota-reached"@.len() != "invalid-key"@.len());
}

/// A code outside the service's vocabulary is reported as a malformed
/// request: no code is left without a kind.
pub proof fn lemma_unknown_code_is_malformed(code: Seq<char>)
    requires
        code != "unsupported-code"@,
        code != "invalid-key"@,
        code != "inactive-account"@,
        code != "quota-reached"@,
    ensures
        RequestError::for_code(code) == RequestError::MalformedRequest,
{
}

} // verus!
