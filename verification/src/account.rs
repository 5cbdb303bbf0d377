//! Accounts, their credentials, and the credential file of the Codex CLI.

use vstd::prelude::*;

verus! {

/// A moment in UTC: whole seconds since the Unix epoch and the nanoseconds beyond them, which pass
/// one second only during a leap second.
#[derive(Debug, Clone, Copy, PartialEq, Eq, Structural)]
pub struct Timestamp {
    pub seconds: i64,
    pub nanos: u32,
}

impl Timestamp {
    /// The moment is not before the Unix epoch and falls in no leap second, as with any moment that
    /// the clock gives.
    pub open spec fn since_epoch(self) -> bool {
        self.seconds >= 0 && self.nanos < 1_000_000_000
    }
}

/// How an account signs in.
#[derive(Debug, PartialEq, Eq)]
pub enum AuthData {
    ApiKey { key: String },
    ChatGPT {
        id_token: String,
        access_token: String,
        refresh_token: String,
        account_id: Option<String>,
    },
}

/// An account as the switcher keeps it.
#[derive(Debug, PartialEq, Eq)]
pub struct StoredAccount {
    pub id: String,
    pub name: String,
    pub email: Option<String>,
    pub plan_type: Option<String>,
    pub subscription_expires_at: Option<Timestamp>,
    pub auth_data: AuthData,
}

/// All accounts, and which of them is in use.
#[derive(Debug, PartialEq, Eq)]
pub struct AccountsStore {
    pub accounts: Vec<StoredAccount>,
    pub active_account_id: Option<String>,
}

/// The OAuth tokens in `auth.json`.
#[derive(Debug, PartialEq, Eq)]
pub struct TokenData {
    pub id_token: String,
    pub access_token: String,
    pub refresh_token: String,
    pub account_id: Option<String>,
}

/// The contents of `auth.json`.
#[derive(Debug, PartialEq, Eq)]
pub struct AuthDotJson {
    pub openai_api_key: Option<String>,
    pub tokens: Option<TokenData>,
    pub last_refresh: Option<Timestamp>,
}

/// What an id token says about its owner.
#[derive(Debug, PartialEq, Eq)]
pub struct IdTokenClaims {
    pub email: Option<String>,
    pub plan_type: Option<String>,
    pub subscription_expires_at: Option<Timestamp>,
    pub account_id: Option<String>,
}

/// New tokens for a stored account, with what their id token says.
#[derive(Debug, PartialEq, Eq)]
pub struct TokenUpdate {
    /// The stored account that is updated.
    pub account_id: String,
    pub id_token: String,
    pub access_token: String,
    pub refresh_token: String,
    pub chatgpt_account_id: Option<String>,
    pub email: Option<String>,
    pub plan_type: Option<String>,
    pub subscription_expires_at: Option<Timestamp>,
}

/// A copy of an optional string.
pub fn copy_text(text: &Option<String>) -> (r: Option<String>)
    ensures
        r == *text,
{
    match text {
        Some(s) => Some(s.clone()),
        None => None,
    }
}

/// The first of two options that holds something.
pub open spec fn first_of<T>(a: Option<T>, b: Option<T>) -> Option<T> {
    if a is Some {
        a
    } else {
        b
    }
}

impl Clone for AuthData {
    fn clone(&self) -> (r: Self)
        ensures
            r == *self,
    {
        match self {
            AuthData::ApiKey { key } => AuthData::ApiKey { key: key.clone() },
            AuthData::ChatGPT { id_token, access_token, refresh_token, account_id } =>
                AuthData::ChatGPT {
                id_token: id_token.clone(),
                access_token: access_token.clone(),
                refresh_token: refresh_token.clone(),
                account_id: copy_text(account_id),
            },
        }
    }
}

impl Clone for StoredAccount {
    fn clone(&self) -> (r: Self)
        ensures
            r == *self,
    {
        StoredAccount {
            id: self.id.clone(),
            name: self.name.clone(),
            email: copy_text(&self.email),
            plan_type: copy_text(&self.plan_type),
            subscription_expires_at: self.subscription_expires_at,
            auth_data: self.auth_data.clone(),
        }
    }
}

impl StoredAccount {
    /// An account that signs in with an API key.
    pub fn new_api_key(id: String, name: String, key: String) -> (r: StoredAccount)
        ensures
            r == (StoredAccount {
                id,
                name,
                email: None,
                plan_type: None,
                subscription_expires_at: None,
                auth_data: AuthData::ApiKey { key },
            }),
    {
        StoredAccount {
            id,
            name,
            email: None,
            plan_type: None,
            subscription_expires_at: None,
            auth_data: AuthData::ApiKey { key },
        }
    }

    /// An account that signs in with the OAuth tokens of a ChatGPT account.
    pub fn new_chatgpt(
        id: String,
        name: String,
        email: Option<String>,
        plan_type: Option<String>,
        subscription_expires_at: Option<Timestamp>,
        id_token: String,
        access_token: String,
        refresh_token: String,
        account_id: Option<String>,
    ) -> (r: StoredAccount)
        ensures
            r == (StoredAccount {
                id,
                name,
                email,
                plan_type,
                subscription_expires_at,
                auth_data: AuthData::ChatGPT { id_token, access_token, refresh_token, account_id },
            }),
    {
        StoredAccount {
            id,
            name,
            email,
            plan_type,
            subscription_expires_at,
            auth_data: AuthData::ChatGPT { id_token, access_token, refresh_token, account_id },
        }
    }
}

/// A moment of the clock is the epoch or later: its seconds are not negative, and its nanoseconds
/// are less than one more second.
pub proof fn clock_moments(moment: Timestamp)
    requires
        moment.since_epoch(),
    ensures
        0 <= moment.seconds,
        moment.nanos <= 999_999_999,
{
}

/// The first of two options is taken where it holds something, and else the second.
pub proof fn first_goes_before_second<T>(a: T, b: Option<T>)
    ensures
        first_of(Some(a), b) == Some(a),
        first_of(None, b) == b,
{
}

} // verus!
