//! Signing in: the one login that can be pending, and the steps that follow once it is done.

use crate::account::{
    AccountsStore, AuthData, AuthDotJson, IdTokenClaims, StoredAccount, TokenData, TokenUpdate,
};
use vstd::prelude::*;
use vstd::string::*;

verus! {

/// Why a login could not be completed.
#[derive(Debug, PartialEq, Eq)]
pub enum SignInError {
    /// No login was started, or it was taken up or cancelled already.
    NoPendingLogin,
    /// There is no account with this id.
    AccountNotFound { account_id: String },
    /// A login that was to replace tokens brought an API key.
    ApiKeyAccount,
    /// A step failed.
    Failed { message: String },
}

impl SignInError {
    /// The report of the error.
    pub open spec fn report(self) -> Seq<char> {
        match self {
            SignInError::NoPendingLogin => "No pending OAuth login"@,
            SignInError::AccountNotFound { account_id } => "Account not found: "@ + account_id@,
            SignInError::ApiKeyAccount => "Re-auth returned an API key account unexpectedly"@,
            SignInError::Failed { message } => message@,
        }
    }

    /// The report of the error.
    pub fn message(&self) -> (r: String)
        ensures
            r@ == self.report(),
    {
        match self {
            SignInError::NoPendingLogin => "No pending OAuth login".to_owned(),
            SignInError::AccountNotFound { account_id } => {
                let mut out = "Account not found: ".to_owned();
                out.append(account_id);
                out
            },
            SignInError::ApiKeyAccount => {
                "Re-auth returned an API key account unexpectedly".to_owned()
            },
            SignInError::Failed { message } => message.clone(),
        }
    }
}

/// The place for the login that is pending, if any.
#[derive(Debug)]
pub struct LoginSlot<P> {
    pub pending: Option<P>,
}

impl<P> LoginSlot<P> {
    /// Without a login.
    pub open spec fn empty() -> LoginSlot<P> {
        LoginSlot { pending: None }
    }

    /// With this login.
    pub open spec fn holding(login: P) -> LoginSlot<P> {
        LoginSlot { pending: Some(login) }
    }

    /// What taking up the pending login gives.
    pub open spec fn taken(self) -> Result<P, SignInError> {
        match self.pending {
            Some(login) => Ok(login),
            None => Err(SignInError::NoPendingLogin),
        }
    }

    /// What is left in the slot once a login was started: the new login, or what was there where
    /// it could not be started.
    pub open spec fn after_start<I>(self, started: Result<(I, P), String>) -> LoginSlot<P> {
        match started {
            Ok((_, login)) => LoginSlot::holding(login),
            Err(_) => self,
        }
    }

    /// A slot without a login.
    pub fn new() -> (r: LoginSlot<P>)
        ensures
            r == LoginSlot::<P>::empty(),
    {
        LoginSlot { pending: None }
    }
}

/// Empties the slot before a login is started, and hands out the login that was pending. It is to
/// be cancelled, so that it does not keep the callback port.
pub fn start_login<P>(slot: &mut LoginSlot<P>) -> (r: Option<P>)
    ensures
        r == old(slot).pending,
        *final(slot) == LoginSlot::<P>::empty(),
{
    slot.pending.take()
}

/// Keeps a login that was started; what is to be shown about it is handed on, as is a failure.
pub fn login_started<I, P>(slot: &mut LoginSlot<P>, started: Result<(I, P), String>) -> (r: Result<
    I,
    SignInError,
>)
    ensures
        *final(slot) == old(slot).after_start(started),
        r == match started {
            Ok((info, _)) => Ok::<_, SignInError>(info),
            Err(message) => Err(SignInError::Failed { message }),
        },
{
    match started {
        Ok((info, login)) => {
            slot.pending = Some(login);
            Ok(info)
        },
        Err(message) => Err(SignInError::Failed { message }),
    }
}

/// Empties the slot, and hands out the login that was pending, which is to be cancelled.
pub fn cancel_login<P>(slot: &mut LoginSlot<P>) -> (r: Option<P>)
    ensures
        r == old(slot).pending,
        *final(slot) == LoginSlot::<P>::empty(),
{
    slot.pending.take()
}

/// Account `i` is the first one with the id.
pub open spec fn first_account(accounts: Seq<StoredAccount>, id: Seq<char>, i: int) -> bool {
    &&& 0 <= i < accounts.len()
    &&& accounts[i].id@ == id
    &&& forall|j: int| 0 <= j < i ==> (#[trigger] accounts[j]).id@ != id
}

/// There is an account with the id.
pub open spec fn has_account(accounts: Seq<StoredAccount>, id: Seq<char>) -> bool {
    exists|i: int| 0 <= i < accounts.len() && (#[trigger] accounts[i]).id@ == id
}

/// The first account with the id.
fn find_account(accounts: &Vec<StoredAccount>, id: &String) -> (r: Option<usize>)
    ensures
        match r {
            Some(i) => first_account(accounts@, id@, i as int),
            None => !has_account(accounts@, id@),
        },
{
    let mut i: usize = 0;
    while i < accounts.len()
        invariant
            i <= accounts.len(),
            forall|j: int| 0 <= j < i ==> (#[trigger] accounts@[j]).id@ != id@,
        decreases accounts.len() - i,
    {
        if accounts[i].id == *id {
            return Some(i);
        }
        i += 1;
    }
    None
}

/// The name of the first account with the id, or why there is none to be found.
pub open spec fn name_found(
    r: Result<String, SignInError>,
    store: Result<AccountsStore, String>,
    account_id: String,
) -> bool {
    match store {
        Err(message) => r == Err::<String, _>(SignInError::Failed { message }),
        Ok(store) => match r {
            Ok(name) => exists|i: int| #[trigger]
                first_account(store.accounts@, account_id@, i) && name == store.accounts@[i].name,
            Err(e) => !has_account(store.accounts@, account_id@) && e
                == (SignInError::AccountNotFound { account_id }),
        },
    }
}

/// The name of the account that is to sign in anew, from the stored accounts.
pub fn reauth_account_name(store: Result<AccountsStore, String>, account_id: String) -> (r: Result<
    String,
    SignInError,
>)
    ensures
        name_found(r, store, account_id),
{
    let store = match store {
        Ok(store) => store,
        Err(message) => return Err(SignInError::Failed { message }),
    };
    match find_account(&store.accounts, &account_id) {
        Some(i) => Ok(store.accounts[i].name.clone()),
        None => Err(SignInError::AccountNotFound { account_id }),
    }
}

/// Empties the slot before a login that replaces an account's tokens is started: hands out the
/// login that was pending, to be cancelled, and the name of the account. The pending login is
/// given up also where there is no such account.
pub fn start_reauth<P>(
    slot: &mut LoginSlot<P>,
    store: Result<AccountsStore, String>,
    account_id: String,
) -> (r: (Option<P>, Result<String, SignInError>))
    ensures
        r.0 == old(slot).pending,
        *final(slot) == LoginSlot::<P>::empty(),
        name_found(r.1, store, account_id),
{
    let previous = slot.pending.take();
    (previous, reauth_account_name(store, account_id))
}

/// What happened while a login is completed.
#[derive(Debug)]
pub enum SignInEvent {
    /// The login is done and brought this account, or it failed.
    SignedIn(Result<StoredAccount, String>),
    /// The claims of an id token were read.
    Claims(IdTokenClaims),
    /// The account was stored, or could not be.
    Stored(Result<StoredAccount, String>),
    /// The credential file was read, if there is one, or could not be.
    FileRead(Result<Option<AuthDotJson>, String>),
    /// The step was taken, or failed.
    Done(Result<(), String>),
    /// The accounts were loaded, or could not be.
    Loaded(Result<AccountsStore, String>),
}

/// What is to be done next to complete a login.
#[derive(Debug)]
pub enum SignInAction {
    /// Store a new account.
    Add(StoredAccount),
    /// Read the claims of this id token.
    ReadClaims(String),
    /// Give a stored account new tokens.
    Update(TokenUpdate),
    /// Mark this account as the one in use.
    SetActive(String),
    /// Read the credential file of the Codex CLI. Tokens in it are older than those that the login
    /// has just brought and are not taken over, but a file that cannot be read is left alone.
    ReadFile,
    /// Write this account's credentials for the Codex CLI, as
    /// [`switch_to_account`](crate::switcher::switch_to_account) says.
    Write(StoredAccount),
    /// Note that this account was used.
    Touch(String),
    /// Load the accounts.
    Load,
    /// The login is completed, or could not be.
    Finish(Result<SignedIn, SignInError>),
}

/// A completed login: the account, and which account is in use.
#[derive(Debug, PartialEq, Eq)]
pub struct SignedIn {
    pub account: StoredAccount,
    pub active_account_id: Option<String>,
}

/// The step before failed.
pub open spec fn failure(event: SignInEvent) -> Option<String> {
    match event {
        SignInEvent::SignedIn(Err(message)) => Some(message),
        SignInEvent::Stored(Err(message)) => Some(message),
        SignInEvent::FileRead(Err(message)) => Some(message),
        SignInEvent::Done(Err(message)) => Some(message),
        SignInEvent::Loaded(Err(message)) => Some(message),
        _ => None,
    }
}

/// The message of a failed step.
pub open spec fn give_up(message: String) -> SignInAction {
    SignInAction::Finish(Err(SignInError::Failed { message }))
}

/// What completing a login for a new account waits for.
#[derive(Debug)]
pub enum LoginStep {
    Waiting,
    Adding,
    Activating { account: StoredAccount },
    Reading { account: StoredAccount },
    Writing { account: StoredAccount },
    Touching { account: StoredAccount },
    Loading { account: StoredAccount },
    Finished,
}

impl LoginStep {
    /// The event is of the kind that is waited for.
    pub open spec fn awaits(self, event: SignInEvent) -> bool {
        match self {
            LoginStep::Waiting => event is SignedIn,
            LoginStep::Adding => event is Stored,
            LoginStep::Activating { .. } => event is Done,
            LoginStep::Reading { .. } => event is FileRead,
            LoginStep::Writing { .. } => event is Done,
            LoginStep::Touching { .. } => event is Done,
            LoginStep::Loading { .. } => event is Loaded,
            LoginStep::Finished => false,
        }
    }

    /// How the account's credentials are written: after the credential file was read, but for an
    /// API key at once.
    pub open spec fn to_write(account: StoredAccount) -> (LoginStep, SignInAction) {
        match account.auth_data {
            AuthData::ChatGPT { .. } => (LoginStep::Reading { account }, SignInAction::ReadFile),
            AuthData::ApiKey { .. } => (
                LoginStep::Writing { account },
                SignInAction::Write(account),
            ),
        }
    }

    /// What is waited for after the event, and what is to be done: the account is stored, marked
    /// as in use, written for the Codex CLI and noted as used, and the first failure ends it all.
    pub open spec fn next(self, event: SignInEvent) -> (LoginStep, SignInAction) {
        match (self, event) {
            (LoginStep::Waiting, SignInEvent::SignedIn(Ok(account))) => (
                LoginStep::Adding,
                SignInAction::Add(account),
            ),
            (LoginStep::Adding, SignInEvent::Stored(Ok(account))) => (
                LoginStep::Activating { account },
                SignInAction::SetActive(account.id),
            ),
            (LoginStep::Activating { account }, SignInEvent::Done(Ok(_))) => LoginStep::to_write(
                account,
            ),
            (LoginStep::Reading { account }, SignInEvent::FileRead(Ok(_))) => (
                LoginStep::Writing { account },
                SignInAction::Write(account),
            ),
            (LoginStep::Writing { account }, SignInEvent::Done(Ok(_))) => (
                LoginStep::Touching { account },
                SignInAction::Touch(account.id),
            ),
            (LoginStep::Touching { account }, SignInEvent::Done(Ok(_))) => (
                LoginStep::Loading { account },
                SignInAction::Load,
            ),
            (LoginStep::Loading { account }, SignInEvent::Loaded(Ok(store))) => (
                LoginStep::Finished,
                SignInAction::Finish(
                    Ok(SignedIn { account, active_account_id: store.active_account_id }),
                ),
            ),
            (_, _) => match failure(event) {
                Some(message) => (LoginStep::Finished, give_up(message)),
                None => (
                    LoginStep::Finished,
                    SignInAction::Finish(Err(SignInError::NoPendingLogin)),
                ),
            },
        }
    }

    /// Tells whether the event is of the kind that is waited for.
    pub fn is_awaited(&self, event: &SignInEvent) -> (r: bool)
        ensures
            r == self.awaits(*event),
    {
        match (self, event) {
            (LoginStep::Waiting, SignInEvent::SignedIn(_)) => true,
            (LoginStep::Adding, SignInEvent::Stored(_)) => true,
            (LoginStep::Activating { .. }, SignInEvent::Done(_)) => true,
            (LoginStep::Reading { .. }, SignInEvent::FileRead(_)) => true,
            (LoginStep::Writing { .. }, SignInEvent::Done(_)) => true,
            (LoginStep::Touching { .. }, SignInEvent::Done(_)) => true,
            (LoginStep::Loading { .. }, SignInEvent::Loaded(_)) => true,
            (_, _) => false,
        }
    }

    /// Takes the login on: what is waited for next, and what is to be done.
    pub fn step(self, event: SignInEvent) -> (r: (LoginStep, SignInAction))
        requires
            self.awaits(event),
        ensures
            r == self.next(event),
    {
        match (self, event) {
            (LoginStep::Waiting, SignInEvent::SignedIn(Ok(account))) => (
                LoginStep::Adding,
                SignInAction::Add(account),
            ),
            (LoginStep::Adding, SignInEvent::Stored(Ok(account))) => {
                let id = account.id.clone();
                (LoginStep::Activating { account }, SignInAction::SetActive(id))
            },
            (LoginStep::Activating { account }, SignInEvent::Done(Ok(_))) => {
                if signs_in_with_tokens(&account) {
                    (LoginStep::Reading { account }, SignInAction::ReadFile)
                } else {
                    let copy = account.clone();
                    (LoginStep::Writing { account }, SignInAction::Write(copy))
                }
            },
            (LoginStep::Reading { account }, SignInEvent::FileRead(Ok(_))) => {
                let copy = account.clone();
                (LoginStep::Writing { account }, SignInAction::Write(copy))
            },
            (LoginStep::Writing { account }, SignInEvent::Done(Ok(_))) => {
                let id = account.id.clone();
                (LoginStep::Touching { account }, SignInAction::Touch(id))
            },
            (LoginStep::Touching { account }, SignInEvent::Done(Ok(_))) => (
                LoginStep::Loading { account },
                SignInAction::Load,
            ),
            (LoginStep::Loading { account }, SignInEvent::Loaded(Ok(store))) => (
                LoginStep::Finished,
                SignInAction::Finish(
                    Ok(SignedIn { account, active_account_id: store.active_account_id }),
                ),
            ),
            (_, event) => (LoginStep::Finished, SignInAction::Finish(Err(failed(event)))),
        }
    }
}

fn signs_in_with_tokens(account: &StoredAccount) -> (r: bool)
    ensures
        r == account.auth_data is ChatGPT,
{
    match &account.auth_data {
        AuthData::ChatGPT { .. } => true,
        AuthData::ApiKey { .. } => false,
    }
}

/// Why a step failed.
fn failed(event: SignInEvent) -> (r: SignInError)
    ensures
        r == match failure(event) {
            Some(message) => (SignInError::Failed { message }),
            None => SignInError::NoPendingLogin,
        },
{
    match event {
        SignInEvent::SignedIn(Err(message)) => SignInError::Failed { message },
        SignInEvent::Stored(Err(message)) => SignInError::Failed { message },
        SignInEvent::FileRead(Err(message)) => SignInError::Failed { message },
        SignInEvent::Done(Err(message)) => SignInError::Failed { message },
        SignInEvent::Loaded(Err(message)) => SignInError::Failed { message },
        _ => SignInError::NoPendingLogin,
    }
}

/// Takes up the pending login, which is to be waited for, to complete it for a new account; it
/// fails where none is pending.
pub fn complete_login<P>(slot: &mut LoginSlot<P>) -> (r: Result<(LoginStep, P), SignInError>)
    ensures
        *final(slot) == LoginSlot::<P>::empty(),
        r == match old(slot).taken() {
            Ok(login) => Ok::<_, SignInError>((LoginStep::Waiting, login)),
            Err(e) => Err(e),
        },
{
    match slot.pending.take() {
        Some(login) => Ok((LoginStep::Waiting, login)),
        None => Err(SignInError::NoPendingLogin),
    }
}

/// What completing a login that replaces an account's tokens waits for.
#[derive(Debug)]
pub enum ReauthStep {
    Waiting { account_id: String },
    ReadingClaims { account_id: String, tokens: TokenData },
    Updating { account_id: String },
    Loading { account_id: String, account: StoredAccount },
    Reading { account_id: String, account: StoredAccount, active_account_id: Option<String> },
    Writing { account_id: String, account: StoredAccount, active_account_id: Option<String> },
    Touching { account: StoredAccount, active_account_id: Option<String> },
    Finished,
}

/// The account is the one in use.
pub open spec fn is_active(active_account_id: Option<String>, account_id: String) -> bool {
    active_account_id matches Some(active) && active@ == account_id@
}

/// New tokens for the stored account, with what their id token says.
pub open spec fn replaced_tokens(
    account_id: String,
    tokens: TokenData,
    claims: IdTokenClaims,
) -> TokenUpdate {
    TokenUpdate {
        account_id,
        id_token: tokens.id_token,
        access_token: tokens.access_token,
        refresh_token: tokens.refresh_token,
        chatgpt_account_id: tokens.account_id,
        email: claims.email,
        plan_type: claims.plan_type,
        subscription_expires_at: claims.subscription_expires_at,
    }
}

/// The tokens of a ChatGPT account, as `auth.json` holds them.
pub open spec fn tokens_of(account: StoredAccount) -> TokenData
    recommends
        account.auth_data is ChatGPT,
{
    TokenData {
        id_token: account.auth_data->id_token,
        access_token: account.auth_data->access_token,
        refresh_token: account.auth_data->refresh_token,
        account_id: account.auth_data->account_id,
    }
}

impl ReauthStep {
    /// The event is of the kind that is waited for.
    pub open spec fn awaits(self, event: SignInEvent) -> bool {
        match self {
            ReauthStep::Waiting { .. } => event is SignedIn,
            ReauthStep::ReadingClaims { .. } => event is Claims,
            ReauthStep::Updating { .. } => event is Stored,
            ReauthStep::Loading { .. } => event is Loaded,
            ReauthStep::Reading { .. } => event is FileRead,
            ReauthStep::Writing { .. } => event is Done,
            ReauthStep::Touching { .. } => event is Done,
            ReauthStep::Finished => false,
        }
    }

    /// How the account's credentials are written: after the credential file was read, but for an
    /// API key at once.
    pub open spec fn to_write(
        account_id: String,
        account: StoredAccount,
        active_account_id: Option<String>,
    ) -> (ReauthStep, SignInAction) {
        match account.auth_data {
            AuthData::ChatGPT { .. } => (
                ReauthStep::Reading { account_id, account, active_account_id },
                SignInAction::ReadFile,
            ),
            AuthData::ApiKey { .. } => (
                ReauthStep::Writing { account_id, account, active_account_id },
                SignInAction::Write(account),
            ),
        }
    }

    /// What is waited for after the event, and what is to be done: the stored account gets the new
    /// tokens, they are written for the Codex CLI where the account is in use, and the account is
    /// noted as used. The first failure ends it all.
    pub open spec fn next(self, event: SignInEvent) -> (ReauthStep, SignInAction) {
        match (self, event) {
            (ReauthStep::Waiting { account_id }, SignInEvent::SignedIn(Ok(fresh))) => {
                match fresh.auth_data {
                    AuthData::ChatGPT {
                        id_token,
                        access_token,
                        refresh_token,
                        account_id: chatgpt,
                    } => (
                        ReauthStep::ReadingClaims {
                            account_id,
                            tokens: TokenData {
                                id_token,
                                access_token,
                                refresh_token,
                                account_id: chatgpt,
                            },
                        },
                        SignInAction::ReadClaims(id_token),
                    ),
                    AuthData::ApiKey { .. } => (
                        ReauthStep::Finished,
                        SignInAction::Finish(Err(SignInError::ApiKeyAccount)),
                    ),
                }
            },
            (ReauthStep::ReadingClaims { account_id, tokens }, SignInEvent::Claims(claims)) => (
                ReauthStep::Updating { account_id },
                SignInAction::Update(replaced_tokens(account_id, tokens, claims)),
            ),
            (ReauthStep::Updating { account_id }, SignInEvent::Stored(Ok(account))) => (
                ReauthStep::Loading { account_id, account },
                SignInAction::Load,
            ),
            (ReauthStep::Loading { account_id, account }, SignInEvent::Loaded(Ok(store))) => {
                if is_active(store.active_account_id, account_id) {
                    ReauthStep::to_write(account_id, account, store.active_account_id)
                } else {
                    (
                        ReauthStep::Touching {
                            account,
                            active_account_id: store.active_account_id,
                        },
                        SignInAction::Touch(account_id),
                    )
                }
            },
            (
                ReauthStep::Reading { account_id, account, active_account_id },
                SignInEvent::FileRead(Ok(_)),
            ) => (
                ReauthStep::Writing { account_id, account, active_account_id },
                SignInAction::Write(account),
            ),
            (
                ReauthStep::Writing { account_id, account, active_account_id },
                SignInEvent::Done(Ok(_)),
            ) => (
                ReauthStep::Touching { account, active_account_id },
                SignInAction::Touch(account_id),
            ),
            (
                ReauthStep::Touching { account, active_account_id },
                SignInEvent::Done(Ok(_)),
            ) => (
                ReauthStep::Finished,
                SignInAction::Finish(Ok(SignedIn { account, active_account_id })),
            ),
            (_, _) => match failure(event) {
                Some(message) => (ReauthStep::Finished, give_up(message)),
                None => (
                    ReauthStep::Finished,
                    SignInAction::Finish(Err(SignInError::NoPendingLogin)),
                ),
            },
        }
    }

    /// Tells whether the event is of the kind that is waited for.
    pub fn is_awaited(&self, event: &SignInEvent) -> (r: bool)
        ensures
            r == self.awaits(*event),
    {
        match (self, event) {
            (ReauthStep::Waiting { .. }, SignInEvent::SignedIn(_)) => true,
            (ReauthStep::ReadingClaims { .. }, SignInEvent::Claims(_)) => true,
            (ReauthStep::Updating { .. }, SignInEvent::Stored(_)) => true,
            (ReauthStep::Loading { .. }, SignInEvent::Loaded(_)) => true,
            (ReauthStep::Reading { .. }, SignInEvent::FileRead(_)) => true,
            (ReauthStep::Writing { .. }, SignInEvent::Done(_)) => true,
            (ReauthStep::Touching { .. }, SignInEvent::Done(_)) => true,
            (_, _) => false,
        }
    }

    /// Takes the login on: what is waited for next, and what is to be done.
    pub fn step(self, event: SignInEvent) -> (r: (ReauthStep, SignInAction))
        requires
            self.awaits(event),
        ensures
            r == self.next(event),
    {
        match (self, event) {
            (ReauthStep::Waiting { account_id }, SignInEvent::SignedIn(Ok(fresh))) => {
                match fresh.auth_data {
                    AuthData::ChatGPT {
                        id_token,
                        access_token,
                        refresh_token,
                        account_id: chatgpt,
                    } => {
                        let token = id_token.clone();
                        let tokens = TokenData {
                            id_token,
                            access_token,
                            refresh_token,
                            account_id: chatgpt,
                        };
                        (
                            ReauthStep::ReadingClaims { account_id, tokens },
                            SignInAction::ReadClaims(token),
                        )
                    },
                    AuthData::ApiKey { .. } => (
                        ReauthStep::Finished,
                        SignInAction::Finish(Err(SignInError::ApiKeyAccount)),
                    ),
                }
            },
            (ReauthStep::ReadingClaims { account_id, tokens }, SignInEvent::Claims(claims)) => {
                let update = TokenUpdate {
                    account_id: account_id.clone(),
                    id_token: tokens.id_token,
                    access_token: tokens.access_token,
                    refresh_token: tokens.refresh_token,
                    chatgpt_account_id: tokens.account_id,
                    email: claims.email,
                    plan_type: claims.plan_type,
                    subscription_expires_at: claims.subscription_expires_at,
                };
                (ReauthStep::Updating { account_id }, SignInAction::Update(update))
            },
            (ReauthStep::Updating { account_id }, SignInEvent::Stored(Ok(account))) => (
                ReauthStep::Loading { account_id, account },
                SignInAction::Load,
            ),
            (ReauthStep::Loading { account_id, account }, SignInEvent::Loaded(Ok(store))) => {
                let active_account_id = store.active_account_id;
                let active = match &active_account_id {
                    Some(active) => *active == account_id,
                    None => false,
                };
                if active && signs_in_with_tokens(&account) {
                    (
                        ReauthStep::Reading { account_id, account, active_account_id },
                        SignInAction::ReadFile,
                    )
                } else if active {
                    let copy = account.clone();
                    (
                        ReauthStep::Writing { account_id, account, active_account_id },
                        SignInAction::Write(copy),
                    )
                } else {
                    (
                        ReauthStep::Touching { account, active_account_id },
                        SignInAction::Touch(account_id),
                    )
                }
            },
            (
                ReauthStep::Reading { account_id, account, active_account_id },
                SignInEvent::FileRead(Ok(_)),
            ) => {
                let copy = account.clone();
                (
                    ReauthStep::Writing { account_id, account, active_account_id },
                    SignInAction::Write(copy),
                )
            },
            (
                ReauthStep::Writing { account_id, account, active_account_id },
                SignInEvent::Done(Ok(_)),
            ) => (
                ReauthStep::Touching { account, active_account_id },
                SignInAction::Touch(account_id),
            ),
            (
                ReauthStep::Touching { account, active_account_id },
                SignInEvent::Done(Ok(_)),
            ) => (
                ReauthStep::Finished,
                SignInAction::Finish(Ok(SignedIn { account, active_account_id })),
            ),
            (_, event) => (ReauthStep::Finished, SignInAction::Finish(Err(failed(event)))),
        }
    }
}

/// Takes up the pending login, which is to be waited for, to complete it for a stored account; it
/// fails where none is pending.
pub fn complete_reauth<P>(slot: &mut LoginSlot<P>, account_id: String) -> (r: Result<
    (ReauthStep, P),
    SignInError,
>)
    ensures
        *final(slot) == LoginSlot::<P>::empty(),
        r == match old(slot).taken() {
            Ok(login) => Ok::<_, SignInError>((ReauthStep::Waiting { account_id }, login)),
            Err(e) => Err(e),
        },
{
    match slot.pending.take() {
        Some(login) => Ok((ReauthStep::Waiting { account_id }, login)),
        None => Err(SignInError::NoPendingLogin),
    }
}

/// Of two logins that are started one after the other, the second is the one that is completed.
pub proof fn last_started_login_is_completed<I, P>(info: I, login: P)
    ensures
        LoginSlot::<P>::empty().after_start(Ok::<(I, P), String>((info, login))).taken()
            == Ok::<_, SignInError>(login),
{
}

/// A slot that was emptied, by completing a login or by cancelling it, has nothing to complete.
pub proof fn emptied_slot_has_no_login<P>()
    ensures
        LoginSlot::<P>::empty().taken() == Err::<P, _>(SignInError::NoPendingLogin),
{
}

/// A login that could not be started leaves nothing to complete, not even the one before it.
pub proof fn failed_start_leaves_no_login<I, P>(message: String)
    ensures
        LoginSlot::<P>::empty().after_start(Err::<(I, P), String>(message)).taken() == Err::<P, _>(
            SignInError::NoPendingLogin,
        ),
{
}

/// The first step that fails ends the login, and its message is what is reported.
pub proof fn login_stops_at_the_first_failure(step: LoginStep, event: SignInEvent, message: String)
    requires
        step.awaits(event),
        failure(event) == Some(message),
    ensures
        step.next(event) == (LoginStep::Finished, give_up(message)),
{
}

/// Where no step fails, a login stores the account, marks it as in use, reads the credential file
/// unless the account has an API key, writes the account's credentials whatever the file holds,
/// notes that the account was used and loads the accounts, in this order, and the stored account is
/// the result.
pub proof fn login_takes_all_steps(
    account: StoredAccount,
    stored: StoredAccount,
    found: Option<AuthDotJson>,
    store: AccountsStore,
)
    ensures
        ({
            let done = SignInEvent::Done(Ok::<(), String>(()));
            let (s1, a1) = LoginStep::Waiting.next(
                SignInEvent::SignedIn(Ok::<_, String>(account)),
            );
            let (s2, a2) = s1.next(SignInEvent::Stored(Ok::<_, String>(stored)));
            let (s3, a3) = s2.next(done);
            let (s4, a4) = if stored.auth_data is ChatGPT {
                s3.next(SignInEvent::FileRead(Ok::<_, String>(found)))
            } else {
                (s3, a3)
            };
            let (s5, a5) = s4.next(done);
            let (s6, a6) = s5.next(done);
            let (s7, a7) = s6.next(SignInEvent::Loaded(Ok::<_, String>(store)));
            &&& a1 == SignInAction::Add(account)
            &&& a2 == SignInAction::SetActive(stored.id)
            &&& stored.auth_data is ChatGPT ==> a3 == SignInAction::ReadFile
            &&& a4 == SignInAction::Write(stored)
            &&& a5 == SignInAction::Touch(stored.id)
            &&& a6 == SignInAction::Load
            &&& a7 == SignInAction::Finish(
                Ok::<_, SignInError>(
                    SignedIn { account: stored, active_account_id: store.active_account_id },
                ),
            )
            &&& s7 == LoginStep::Finished
        }),
{
}

/// A login writes tokens only once the credential file was read: a file that cannot be read is not
/// written over. An API key is written at once.
pub proof fn login_reads_before_it_writes(step: LoginStep, event: SignInEvent)
    requires
        step.awaits(event),
    ensures
        step.next(event).1 matches SignInAction::Write(account) ==> match step {
            LoginStep::Activating { account: stored } => account == stored
                && stored.auth_data is ApiKey,
            LoginStep::Reading { account: stored } => account == stored && (event
                matches SignInEvent::FileRead(read) && read is Ok),
            _ => false,
        },
{
}

/// The first step that fails ends the login, and its message is what is reported.
pub proof fn reauth_stops_at_the_first_failure(
    step: ReauthStep,
    event: SignInEvent,
    message: String,
)
    requires
        step.awaits(event),
        failure(event) == Some(message),
    ensures
        step.next(event) == (ReauthStep::Finished, give_up(message)),
{
}

/// A login that replaces tokens never stores a new account and never changes which account is in
/// use. It turns to the credential file only after the accounts were loaded, and only where the
/// account that has the new tokens is the one in use; then it writes that account's credentials,
/// once the file was read. A file that cannot be read is not written over.
pub proof fn reauth_changes_one_account(step: ReauthStep, event: SignInEvent)
    requires
        step.awaits(event),
    ensures
        !(step.next(event).1 is Add),
        !(step.next(event).1 is SetActive),
        step.next(event).1 is ReadFile <==> match (step, event) {
            (
                ReauthStep::Loading { account_id, account },
                SignInEvent::Loaded(Ok(store)),
            ) => is_active(store.active_account_id, account_id) && account.auth_data is ChatGPT,
            _ => false,
        },
        step.next(event).1 is Write <==> match (step, event) {
            (
                ReauthStep::Loading { account_id, account },
                SignInEvent::Loaded(Ok(store)),
            ) => is_active(store.active_account_id, account_id) && account.auth_data is ApiKey,
            (ReauthStep::Reading { .. }, SignInEvent::FileRead(Ok(_))) => true,
            _ => false,
        },
        step.next(event).1 matches SignInAction::Write(account) ==> match step {
            ReauthStep::Loading { account: updated, .. } => account == updated,
            ReauthStep::Reading { account: updated, .. } => account == updated,
            _ => false,
        },
{
}

/// Where no step fails, a login that replaces tokens gives the stored account the tokens that the
/// login brought and loads the accounts. Where the account is in use, it reads the credential file,
/// unless the store gave an API key back, and writes the account's credentials whatever the file
/// holds. Then it notes that the account was used. The updated account is the result.
pub proof fn reauth_takes_all_steps(
    account_id: String,
    fresh: StoredAccount,
    claims: IdTokenClaims,
    updated: StoredAccount,
    store: AccountsStore,
    found: Option<AuthDotJson>,
)
    requires
        fresh.auth_data is ChatGPT,
    ensures
        ({
            let done = SignInEvent::Done(Ok::<(), String>(()));
            let (s1, a1) = (ReauthStep::Waiting { account_id }).next(
                SignInEvent::SignedIn(Ok::<_, String>(fresh)),
            );
            let (s2, a2) = s1.next(SignInEvent::Claims(claims));
            let (s3, a3) = s2.next(SignInEvent::Stored(Ok::<_, String>(updated)));
            let (s4, a4) = s3.next(SignInEvent::Loaded(Ok::<_, String>(store)));
            let result = SignInAction::Finish(
                Ok::<_, SignInError>(
                    SignedIn { account: updated, active_account_id: store.active_account_id },
                ),
            );
            &&& a1 == SignInAction::ReadClaims(fresh.auth_data->id_token)
            &&& a2 == SignInAction::Update(replaced_tokens(account_id, tokens_of(fresh), claims))
            &&& a3 == SignInAction::Load
            &&& if is_active(store.active_account_id, account_id) {
                let (s5, a5) = if updated.auth_data is ChatGPT {
                    s4.next(SignInEvent::FileRead(Ok::<_, String>(found)))
                } else {
                    (s4, a4)
                };
                let (s6, a6) = s5.next(done);
                let (s7, a7) = s6.next(done);
                &&& updated.auth_data is ChatGPT ==> a4 == SignInAction::ReadFile
                &&& a5 == SignInAction::Write(updated)
                &&& a6 == SignInAction::Touch(account_id)
                &&& a7 == result
                &&& s7 == ReauthStep::Finished
            } else {
                let (s5, a5) = s4.next(done);
                &&& a4 == SignInAction::Touch(account_id)
                &&& a5 == result
                &&& s5 == ReauthStep::Finished
            }
        }),
{
}

/// The tokens that a login brought, and what their id token says, go to the stored account field by
/// field: id, access and refresh token and the ChatGPT account id are those of the login, email,
/// plan and the end of the subscription those of the claims.
pub proof fn reauth_hands_on_tokens_and_claims(
    account_id: String,
    fresh: StoredAccount,
    claims: IdTokenClaims,
)
    requires
        fresh.auth_data is ChatGPT,
    ensures
        ({
            let (reading, first) = (ReauthStep::Waiting { account_id }).next(
                SignInEvent::SignedIn(Ok::<_, String>(fresh)),
            );
            let (updating, second) = reading.next(SignInEvent::Claims(claims));
            &&& first == SignInAction::ReadClaims(fresh.auth_data->id_token)
            &&& updating == ReauthStep::Updating { account_id }
            &&& second matches SignInAction::Update(update)
            &&& update.account_id == account_id
            &&& update.id_token == fresh.auth_data->id_token
            &&& update.access_token == fresh.auth_data->access_token
            &&& update.refresh_token == fresh.auth_data->refresh_token
            &&& update.chatgpt_account_id == fresh.auth_data->account_id
            &&& update.email == claims.email
            &&& update.plan_type == claims.plan_type
            &&& update.subscription_expires_at == claims.subscription_expires_at
        }),
{
}

/// The same, from the tokens that are waiting for their claims.
pub proof fn claims_complete_the_update(
    account_id: String,
    tokens: TokenData,
    claims: IdTokenClaims,
)
    ensures
        ({
            let (step, action) = (ReauthStep::ReadingClaims { account_id, tokens }).next(
                SignInEvent::Claims(claims),
            );
            &&& step == ReauthStep::Updating { account_id }
            &&& action matches SignInAction::Update(update)
            &&& update.account_id == account_id
            &&& update.id_token == tokens.id_token
            &&& update.access_token == tokens.access_token
            &&& update.refresh_token == tokens.refresh_token
            &&& update.chatgpt_account_id == tokens.account_id
            &&& update.email == claims.email
            &&& update.plan_type == claims.plan_type
            &&& update.subscription_expires_at == claims.subscription_expires_at
        }),
{
}

/// A login that was to replace tokens and brings a key ends there, with its own error.
pub proof fn reauth_refuses_a_key(account_id: String, fresh: StoredAccount)
    requires
        fresh.auth_data is ApiKey,
    ensures
        (ReauthStep::Waiting { account_id }).next(SignInEvent::SignedIn(Ok::<_, String>(fresh)))
            == (
            ReauthStep::Finished,
            SignInAction::Finish(Err::<SignedIn, _>(SignInError::ApiKeyAccount)),
        ),
{
}

/// Once the accounts are loaded, the credential file is turned to where the id of the account in use
/// is the id of the account with the new tokens, and left alone where it is another or where none is
/// in use.
pub proof fn reauth_compares_the_ids(
    account_id: String,
    account: StoredAccount,
    store: AccountsStore,
)
    ensures
        ({
            let active_account_id = store.active_account_id;
            let after = (ReauthStep::Loading { account_id, account }).next(
                SignInEvent::Loaded(Ok::<_, String>(store)),
            );
            if active_account_id is Some && active_account_id->0@ == account_id@ {
                if account.auth_data is ChatGPT {
                    after == (
                        ReauthStep::Reading { account_id, account, active_account_id },
                        SignInAction::ReadFile,
                    )
                } else {
                    after == (
                        ReauthStep::Writing { account_id, account, active_account_id },
                        SignInAction::Write(account),
                    )
                }
            } else {
                after == (
                    ReauthStep::Touching { account, active_account_id },
                    SignInAction::Touch(account_id),
                )
            }
        }),
{
}

/// The account that the store gave back is the one that is written and that is the result, and which
/// account is in use is what the store said.
pub proof fn reauth_keeps_the_stored_account(
    account_id: String,
    account: StoredAccount,
    active_account_id: Option<String>,
    found: Option<AuthDotJson>,
)
    ensures
        (ReauthStep::Updating { account_id }).next(SignInEvent::Stored(Ok::<_, String>(account)))
            == (ReauthStep::Loading { account_id, account }, SignInAction::Load),
        (ReauthStep::Reading { account_id, account, active_account_id }).next(
            SignInEvent::FileRead(Ok::<_, String>(found)),
        ) == (
            ReauthStep::Writing { account_id, account, active_account_id },
            SignInAction::Write(account),
        ),
        (ReauthStep::Writing { account_id, account, active_account_id }).next(
            SignInEvent::Done(Ok::<(), String>(())),
        ) == (
            ReauthStep::Touching { account, active_account_id },
            SignInAction::Touch(account_id),
        ),
        (ReauthStep::Touching { account, active_account_id }).next(
            SignInEvent::Done(Ok::<(), String>(())),
        ) == (
            ReauthStep::Finished,
            SignInAction::Finish(
                Ok::<_, SignInError>(SignedIn { account, active_account_id }),
            ),
        ),
{
}

/// A step that fails ends either kind of login: nothing more is done, and the message of the step is
/// the error, letter for letter.
pub proof fn failed_steps_end_a_login(login: LoginStep, reauth: ReauthStep, message: String)
    ensures
        ({
            let over = SignInAction::Finish(Err::<SignedIn, _>(SignInError::Failed { message }));
            let signed_in = SignInEvent::SignedIn(Err::<StoredAccount, _>(message));
            let stored = SignInEvent::Stored(Err::<StoredAccount, _>(message));
            let read = SignInEvent::FileRead(Err::<Option<AuthDotJson>, _>(message));
            let done = SignInEvent::Done(Err::<(), _>(message));
            let loaded = SignInEvent::Loaded(Err::<AccountsStore, _>(message));
            &&& login.next(signed_in) == (LoginStep::Finished, over)
            &&& login.next(stored) == (LoginStep::Finished, over)
            &&& login.next(read) == (LoginStep::Finished, over)
            &&& login.next(done) == (LoginStep::Finished, over)
            &&& login.next(loaded) == (LoginStep::Finished, over)
            &&& reauth.next(signed_in) == (ReauthStep::Finished, over)
            &&& reauth.next(stored) == (ReauthStep::Finished, over)
            &&& reauth.next(read) == (ReauthStep::Finished, over)
            &&& reauth.next(done) == (ReauthStep::Finished, over)
            &&& reauth.next(loaded) == (ReauthStep::Finished, over)
        }),
{
}

/// Each state of a login takes one kind of event, and the last takes none.
pub proof fn sign_in_events_have_their_states(
    login: LoginStep,
    reauth: ReauthStep,
    event: SignInEvent,
)
    ensures
        login.awaits(event) <==> {
            ||| login is Waiting && event is SignedIn
            ||| login is Adding && event is Stored
            ||| (login is Activating || login is Writing || login is Touching) && event is Done
            ||| login is Reading && event is FileRead
            ||| login is Loading && event is Loaded
        },
        reauth.awaits(event) <==> {
            ||| reauth is Waiting && event is SignedIn
            ||| reauth is ReadingClaims && event is Claims
            ||| reauth is Updating && event is Stored
            ||| reauth is Loading && event is Loaded
            ||| reauth is Reading && event is FileRead
            ||| (reauth is Writing || reauth is Touching) && event is Done
        },
{
}

/// Each step of a login for a new account goes on with the account that the store gave back, and the
/// result tells which account the store says is in use.
pub proof fn login_keeps_the_stored_account(
    brought: StoredAccount,
    account: StoredAccount,
    found: Option<AuthDotJson>,
    store: AccountsStore,
)
    ensures
        LoginStep::Waiting.next(SignInEvent::SignedIn(Ok::<_, String>(brought))) == (
            LoginStep::Adding,
            SignInAction::Add(brought),
        ),
        LoginStep::Adding.next(SignInEvent::Stored(Ok::<_, String>(account))) == (
            LoginStep::Activating { account },
            SignInAction::SetActive(account.id),
        ),
        account.auth_data is ChatGPT ==> (LoginStep::Activating { account }).next(
            SignInEvent::Done(Ok::<(), String>(())),
        ) == (LoginStep::Reading { account }, SignInAction::ReadFile),
        account.auth_data is ApiKey ==> (LoginStep::Activating { account }).next(
            SignInEvent::Done(Ok::<(), String>(())),
        ) == (LoginStep::Writing { account }, SignInAction::Write(account)),
        (LoginStep::Reading { account }).next(SignInEvent::FileRead(Ok::<_, String>(found))) == (
            LoginStep::Writing { account },
            SignInAction::Write(account),
        ),
        (LoginStep::Writing { account }).next(SignInEvent::Done(Ok::<(), String>(()))) == (
            LoginStep::Touching { account },
            SignInAction::Touch(account.id),
        ),
        (LoginStep::Touching { account }).next(SignInEvent::Done(Ok::<(), String>(()))) == (
            LoginStep::Loading { account },
            SignInAction::Load,
        ),
        (LoginStep::Loading { account }).next(SignInEvent::Loaded(Ok::<_, String>(store))) == (
            LoginStep::Finished,
            SignInAction::Finish(
                Ok::<_, SignInError>(
                    SignedIn { account, active_account_id: store.active_account_id },
                ),
            ),
        ),
{
}

/// What is put into the slot is what is taken up, a failed start changes nothing, and from a slot
/// without a login nothing is taken.
pub proof fn slot_gives_back_what_it_holds<I, P>(
    slot: LoginSlot<P>,
    info: I,
    login: P,
    message: String,
)
    ensures
        slot.after_start(Ok::<(I, P), String>((info, login))).pending == Some(login),
        slot.after_start(Err::<(I, P), String>(message)) == slot,
        slot.pending == Some(login) ==> slot.taken() == Ok::<_, SignInError>(login),
        slot.pending is None ==> slot.taken() == Err::<P, _>(SignInError::NoPendingLogin),
        LoginSlot::<P>::empty().pending is None,
        LoginSlot::<P>::holding(login).pending == Some(login),
{
}

/// The account that is found under an id has that id, none before it has, and there is one exactly
/// when some account has the id.
pub proof fn accounts_are_found_by_id(
    accounts: Seq<StoredAccount>,
    id: Seq<char>,
    i: int,
    k: int,
)
    requires
        0 <= k < accounts.len(),
    ensures
        first_account(accounts, id, i) ==> 0 <= i < accounts.len() && accounts[i].id@ == id,
        first_account(accounts, id, i) && accounts[k].id@ == id ==> i <= k,
        first_account(accounts, id, i) ==> has_account(accounts, id),
        accounts[k].id@ == id ==> has_account(accounts, id),
        !has_account(accounts, id) ==> accounts[k].id@ != id,
{
}

/// Each error is reported in its own words.
pub proof fn sign_in_reports(account_id: String, message: String)
    ensures
        SignInError::NoPendingLogin.report() == "No pending OAuth login"@,
        (SignInError::AccountNotFound { account_id }).report() == "Account not found: "@
            + account_id@,
        SignInError::ApiKeyAccount.report() == "Re-auth returned an API key account unexpectedly"@,
        (SignInError::Failed { message }).report() == message@,
{
}

/// Where some account has the id, the name of the first such account is found; where none has, the
/// error names the id; and where the accounts could not be loaded, that is the error.
pub proof fn names_go_by_id(
    r: Result<String, SignInError>,
    store: Result<AccountsStore, String>,
    account_id: String,
    i: int,
)
    requires
        name_found(r, store, account_id),
    ensures
        store is Err ==> r is Err && r->Err_0.report() == store->Err_0@,
        store is Ok ==> {
            let accounts = store->Ok_0.accounts@;
            &&& (0 <= i < accounts.len() && accounts[i].id@ == account_id@ && forall|j: int|
                0 <= j < i ==> (#[trigger] accounts[j]).id@ != account_id@) ==> r == Ok::<
                _,
                SignInError,
            >(accounts[i].name)
            &&& (forall|j: int|
                0 <= j < accounts.len() ==> (#[trigger] accounts[j]).id@ != account_id@) ==> r
                == Err::<String, _>(SignInError::AccountNotFound { account_id })
        },
{
    if store is Ok {
        let accounts = store->Ok_0.accounts@;
        if r is Ok {
            let k = choose|k: int| #[trigger]
                first_account(accounts, account_id@, k) && r->Ok_0 == accounts[k].name;
            assert(accounts[k].id@ == account_id@);
            if 0 <= i < accounts.len() && accounts[i].id@ == account_id@ && forall|j: int|
                0 <= j < i ==> (#[trigger] accounts[j]).id@ != account_id@ {
                assert(!(k < i));
                assert(!(i < k));
            }
        } else if 0 <= i < accounts.len() && accounts[i].id@ == account_id@ {
            assert(has_account(accounts, account_id@));
        }
    }
}

} // verus!
