//! What can go wrong, and how it is reported.

use crate::status::{is_status, status_line, status_text};
use vstd::prelude::*;
use vstd::string::*;

verus! {

/// Why a request to the usage or warm-up API failed.
#[derive(Debug, PartialEq, Eq)]
pub enum ApiError {
    /// The account signs in with an API key.
    NotChatGpt,
    /// The access token cannot be sent in a header.
    InvalidAccessToken,
    /// A GET request could not be sent.
    Get { url: String },
    /// The warm-up request of a ChatGPT account could not be sent.
    ChatGptWarmup,
    /// The warm-up request of an API key account could not be sent.
    ApiKeyWarmup,
    /// The body of a usage response could not be read.
    ReadBody,
    /// The body of a usage response is not what it should be.
    ParseUsage,
    /// The accounts check was answered with 403.
    AccountsCheckBlocked,
    /// The accounts check was answered with another error.
    AccountsCheck { status: u16, body: String },
    /// The body of an accounts check response is not what it should be.
    ParseAccountsCheck,
    /// The accounts check response lists no account.
    NoAccountEntry,
    /// The warm-up request of a ChatGPT account was answered with an error.
    ChatGptWarmupStatus { status: u16 },
    /// The warm-up request of an API key account was answered with an error.
    ApiKeyWarmupStatus { status: u16 },
    /// The tokens could not be brought up to date.
    Tokens { message: String },
}

impl ApiError {
    /// A status in the error is a status code.
    pub open spec fn well_formed(self) -> bool {
        match self {
            ApiError::AccountsCheck { status, .. } => is_status(status),
            ApiError::ChatGptWarmupStatus { status } => is_status(status),
            ApiError::ApiKeyWarmupStatus { status } => is_status(status),
            _ => true,
        }
    }

    /// The report of the error.
    pub open spec fn report(self) -> Seq<char> {
        match self {
            ApiError::NotChatGpt => "Account is not using ChatGPT OAuth"@,
            ApiError::InvalidAccessToken => "Invalid access token"@,
            ApiError::Get { url } => "Failed to send GET request to "@ + url@,
            ApiError::ChatGptWarmup => "Failed to send ChatGPT warm-up request"@,
            ApiError::ApiKeyWarmup => "Failed to send API key warm-up request"@,
            ApiError::ReadBody => "Failed to read response body"@,
            ApiError::ParseUsage => "Failed to parse usage response"@,
            ApiError::AccountsCheckBlocked => {
                "Accounts check API blocked by Cloudflare (403). This usually means your session tokens are stale. Try removing and re-adding the account."@
            },
            ApiError::AccountsCheck { status, body } => "Accounts check API error: "@ + status_line(
                status,
            ) + " - "@ + body@,
            ApiError::ParseAccountsCheck => "Failed to parse accounts check response"@,
            ApiError::NoAccountEntry => {
                "Accounts check response did not include an account entry"@
            },
            ApiError::ChatGptWarmupStatus { status } => "ChatGPT warm-up failed with status "@
                + status_line(status),
            ApiError::ApiKeyWarmupStatus { status } => "API key warm-up failed with status "@
                + status_line(status),
            ApiError::Tokens { message } => message@,
        }
    }

    /// The report of the error.
    pub fn message(&self) -> (r: String)
        requires
            self.well_formed(),
        ensures
            r@ == self.report(),
    {
        match self {
            ApiError::NotChatGpt => "Account is not using ChatGPT OAuth".to_owned(),
            ApiError::InvalidAccessToken => "Invalid access token".to_owned(),
            ApiError::Get { url } => {
                let mut out = "Failed to send GET request to ".to_owned();
                out.append(url);
                out
            },
            ApiError::ChatGptWarmup => "Failed to send ChatGPT warm-up request".to_owned(),
            ApiError::ApiKeyWarmup => "Failed to send API key warm-up request".to_owned(),
            ApiError::ReadBody => "Failed to read response body".to_owned(),
            ApiError::ParseUsage => "Failed to parse usage response".to_owned(),
            ApiError::AccountsCheckBlocked => {
                "Accounts check API blocked by Cloudflare (403). This usually means your session tokens are stale. Try removing and re-adding the account.".to_owned()
            },
            ApiError::AccountsCheck { status, body } => {
                let mut out = "Accounts check API error: ".to_owned();
                out.append(status_text(*status).as_str());
                out.append(" - ");
                out.append(body);
                out
            },
            ApiError::ParseAccountsCheck => "Failed to parse accounts check response".to_owned(),
            ApiError::NoAccountEntry => {
                "Accounts check response did not include an account entry".to_owned()
            },
            ApiError::ChatGptWarmupStatus { status } => {
                let mut out = "ChatGPT warm-up failed with status ".to_owned();
                out.append(status_text(*status).as_str());
                out
            },
            ApiError::ApiKeyWarmupStatus { status } => {
                let mut out = "API key warm-up failed with status ".to_owned();
                out.append(status_text(*status).as_str());
                out
            },
            ApiError::Tokens { message } => message.clone(),
        }
    }
}

/// Each error is reported in its own words, with the status, the body or the address it concerns.
pub proof fn api_reports(status: u16, text: String)
    ensures
        ApiError::NotChatGpt.report() == "Account is not using ChatGPT OAuth"@,
        ApiError::InvalidAccessToken.report() == "Invalid access token"@,
        (ApiError::Get { url: text }).report() == "Failed to send GET request to "@ + text@,
        ApiError::ChatGptWarmup.report() == "Failed to send ChatGPT warm-up request"@,
        ApiError::ApiKeyWarmup.report() == "Failed to send API key warm-up request"@,
        ApiError::ReadBody.report() == "Failed to read response body"@,
        ApiError::ParseUsage.report() == "Failed to parse usage response"@,
        ApiError::AccountsCheckBlocked.report()
            == "Accounts check API blocked by Cloudflare (403). This usually means your session tokens are stale. Try removing and re-adding the account."@,
        (ApiError::AccountsCheck { status, body: text }).report() == "Accounts check API error: "@
            + status_line(status) + " - "@ + text@,
        ApiError::ParseAccountsCheck.report() == "Failed to parse accounts check response"@,
        ApiError::NoAccountEntry.report()
            == "Accounts check response did not include an account entry"@,
        (ApiError::ChatGptWarmupStatus { status }).report()
            == "ChatGPT warm-up failed with status "@ + status_line(status),
        (ApiError::ApiKeyWarmupStatus { status }).report()
            == "API key warm-up failed with status "@ + status_line(status),
        (ApiError::Tokens { message: text }).report() == text@,
{
}

/// An error is well formed unless it carries a number that is no status code.
pub proof fn only_statuses_can_be_malformed(error: ApiError)
    ensures
        error.well_formed() <==> match error {
            ApiError::AccountsCheck { status, .. } => 100 <= status <= 999,
            ApiError::ChatGptWarmupStatus { status } => 100 <= status <= 999,
            ApiError::ApiKeyWarmupStatus { status } => 100 <= status <= 999,
            _ => true,
        },
{
}

} // verus!
