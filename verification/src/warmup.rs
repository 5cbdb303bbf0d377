//! Warming up an account: one small authorized request.

use crate::account::{AuthData, StoredAccount};
use crate::error::ApiError;
use crate::headers::{
    api_key_headers, bearer, bearer_is_sendable_iff_token_is, credentials_name_the_token,
    header_entries, sendable_text_has_no_controls, value_text,
};
use crate::requests::{api_key_warmup_request, warmup_payload, PostRequest, OPENAI_RESPONSES_URL};
use crate::status::{is_success, success};
use vstd::prelude::*;
use vstd::utf8::*;

verus! {

/// How an account is warmed up.
#[derive(Debug)]
pub enum WarmupPlan {
    /// With this request, authorized by the account's API key.
    ApiKey(PostRequest),
    /// With an exchange for [`Purpose::Warmup`](crate::requests::Purpose), authorized by the
    /// account's tokens.
    ChatGpt,
}

/// An account with tokens is warmed up with an exchange, one with a key with a request that the key
/// authorizes, where it can be sent.
pub open spec fn warmup_plan(r: Result<WarmupPlan, ApiError>, account: StoredAccount) -> bool {
    match account.auth_data {
        AuthData::ChatGPT { .. } => r == Ok::<_, ApiError>(WarmupPlan::ChatGpt),
        AuthData::ApiKey { key } => match r {
            Ok(plan) => {
                &&& value_text(bearer(key@))
                &&& plan matches WarmupPlan::ApiKey(request)
                &&& request.url@ == OPENAI_RESPONSES_URL@
                &&& header_entries(request.headers) == api_key_headers(key@)
                &&& request.body.tree() == warmup_payload(false, true)
            },
            Err(e) => !value_text(bearer(key@)) && e == ApiError::ApiKeyWarmup,
        },
    }
}

/// How an account is warmed up; it fails where an API key cannot be sent.
pub fn warmup_account(account: &StoredAccount) -> (r: Result<WarmupPlan, ApiError>)
    ensures
        warmup_plan(r, *account),
{
    match &account.auth_data {
        AuthData::ApiKey { key } => match api_key_warmup_request(key) {
            Ok(request) => Ok(WarmupPlan::ApiKey(request)),
            Err(e) => Err(e),
        },
        AuthData::ChatGPT { .. } => Ok(WarmupPlan::ChatGpt),
    }
}

/// Whether the warm-up of a ChatGPT account was accepted.
pub fn warmup_with_chatgpt_auth(status: u16) -> (r: Result<(), ApiError>)
    ensures
        r == (if success(status) {
            Ok(())
        } else {
            Err(ApiError::ChatGptWarmupStatus { status })
        }),
{
    if is_success(status) {
        Ok(())
    } else {
        Err(ApiError::ChatGptWarmupStatus { status })
    }
}

/// Whether the warm-up of an API key account was accepted.
pub fn warmup_with_api_key(status: u16) -> (r: Result<(), ApiError>)
    ensures
        r == (if success(status) {
            Ok(())
        } else {
            Err(ApiError::ApiKeyWarmupStatus { status })
        }),
{
    if is_success(status) {
        Ok(())
    } else {
        Err(ApiError::ApiKeyWarmupStatus { status })
    }
}

/// An account with tokens is always warmed up with an exchange. One with a key has a request of its
/// own exactly when no character of the key is a control character of ASCII but the tab: to the
/// OpenAI API, authorized by that key, answered at once and with one token.
pub proof fn warmup_goes_by_credentials(r: Result<WarmupPlan, ApiError>, account: StoredAccount)
    requires
        warmup_plan(r, account),
    ensures
        account.auth_data is ChatGPT ==> r is Ok && r->Ok_0 is ChatGpt,
        account.auth_data is ApiKey ==> {
            let key = account.auth_data->key@;
            &&& r is Ok <==> forall|i: int|
                0 <= i < key.len() ==> (#[trigger] key[i]) as int == 9 || (key[i] as int >= 32
                    && key[i] as int != 127)
            &&& r is Err ==> r->Err_0 == ApiError::ApiKeyWarmup
            &&& r is Ok ==> {
                &&& r->Ok_0 matches WarmupPlan::ApiKey(request)
                &&& request.url@ == "https://api.openai.com/v1/responses"@
                &&& header_entries(request.headers)["authorization"@] == seq![
                    encode_utf8("Bearer "@ + key),
                ]
                &&& request.body.tree() == warmup_payload(false, true)
            }
        },
{
    if account.auth_data is ApiKey {
        bearer_is_sendable_iff_token_is(account.auth_data->key@);
        sendable_text_has_no_controls(account.auth_data->key@);
        credentials_name_the_token(account.auth_data->key@);
    }
}

} // verus!
