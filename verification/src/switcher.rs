//! Switching accounts: the credential file of the Codex CLI is written anew for the account. For a
//! stored account, tokens that the CLI has rotated in the file are taken over first; an account that
//! has just signed in is written as it is.

use crate::account::{
    copy_text, first_of, AuthData, AuthDotJson, IdTokenClaims, StoredAccount, Timestamp,
    TokenData, TokenUpdate,
};
use crate::message::views;
use std::path::PathBuf;
use vstd::prelude::*;
use vstd::string::*;

verus! {

/// The permissions of the credential file: its owner may read and write it, nobody else.
pub const AUTH_FILE_MODE: u32 = 0o600;

/// Why an `auth.json` holds no account.
#[derive(Debug, Clone, Copy, PartialEq, Eq, Structural)]
pub enum ImportError {
    /// The contents are not those of an `auth.json`.
    Malformed,
    /// There is neither a key nor tokens.
    NoCredentials,
}

impl ImportError {
    /// The report of the error.
    pub open spec fn report(self) -> Seq<char> {
        match self {
            ImportError::Malformed => "Failed to parse auth.json contents"@,
            ImportError::NoCredentials => "auth.json contains neither API key nor tokens"@,
        }
    }

    /// The report of the error.
    pub fn message(&self) -> (r: String)
        ensures
            r@ == self.report(),
    {
        match self {
            ImportError::Malformed => "Failed to parse auth.json contents".to_owned(),
            ImportError::NoCredentials => {
                "auth.json contains neither API key nor tokens".to_owned()
            },
        }
    }
}

/// Why accounts could not be switched, or an account not be read from a file.
#[derive(Debug, PartialEq, Eq)]
pub enum SwitchError {
    /// There is no home directory.
    NoHome,
    /// The directory of the Codex CLI could not be made.
    CreateHome { path: String },
    /// The credentials could not be turned into JSON.
    Serialize,
    /// The credential file could not be written.
    Write { path: String },
    /// The credential file could not be read.
    Read { path: String },
    /// The contents of the credential file are not what they should be.
    Parse { path: String },
    /// No account could be made of the contents of a file.
    Import { path: String, cause: ImportError },
    /// Something else.
    Other { message: String },
}

impl SwitchError {
    /// The report of the error.
    pub open spec fn report(self) -> Seq<char> {
        match self {
            SwitchError::NoHome => "Could not find home directory"@,
            SwitchError::CreateHome { path } => "Failed to create codex home: "@ + path@,
            SwitchError::Serialize => "Failed to serialize auth.json"@,
            SwitchError::Write { path } => "Failed to write auth.json: "@ + path@,
            SwitchError::Read { path } => "Failed to read auth.json: "@ + path@,
            SwitchError::Parse { path } => "Failed to parse auth.json: "@ + path@,
            SwitchError::Import { path, .. } => "Failed to parse auth.json: "@ + path@,
            SwitchError::Other { message } => message@,
        }
    }

    /// The report of the error.
    pub fn message(&self) -> (r: String)
        ensures
            r@ == self.report(),
    {
        match self {
            SwitchError::NoHome => "Could not find home directory".to_owned(),
            SwitchError::CreateHome { path } => join("Failed to create codex home: ", path),
            SwitchError::Serialize => "Failed to serialize auth.json".to_owned(),
            SwitchError::Write { path } => join("Failed to write auth.json: ", path),
            SwitchError::Read { path } => join("Failed to read auth.json: ", path),
            SwitchError::Parse { path } => join("Failed to parse auth.json: ", path),
            SwitchError::Import { path, .. } => join("Failed to parse auth.json: ", path),
            SwitchError::Other { message } => message.clone(),
        }
    }
}

fn join(a: &str, b: &str) -> (r: String)
    ensures
        r@ == a@ + b@,
{
    let mut out = a.to_owned();
    out.append(b);
    out
}

/// `std::path::PathBuf`, a directory as the system names it.
#[verifier::external_type_specification]
#[verifier::external_body]
pub struct ExPathBuf(std::path::PathBuf);

/// Where a path starts: in a directory that was named, or in the home directory.
#[derive(Debug, PartialEq, Eq)]
pub enum PathBase<B> {
    Named(String),
    Home(B),
}

/// A path: from its base down through the segments.
#[derive(Debug, PartialEq, Eq)]
pub struct CodexPath<B> {
    pub base: PathBase<B>,
    pub segments: Vec<String>,
}

/// The path that leads from the base down through the segments.
pub open spec fn path_is<B>(path: CodexPath<B>, base: PathBase<B>, segments: Seq<Seq<char>>) -> bool {
    path.base == base && views(path.segments@) == segments
}

/// Calls `dirs::home_dir`. Which directory it finds, if any, is the machine's affair: nothing is
/// said of it.
#[verifier::external_body]
fn home_dir() -> Option<PathBuf> {
    dirs::home_dir()
}

/// The home of the Codex CLI: the directory that is named, as it is, else `.codex` in the home
/// directory, and without either an error.
pub open spec fn home_found<B>(
    r: Result<CodexPath<B>, SwitchError>,
    codex_home: Option<String>,
    home: Option<B>,
) -> bool {
    match (codex_home, home) {
        (Some(named), _) => r matches Ok(path) && path_is(path, PathBase::Named(named), seq![]),
        (None, Some(home)) => r matches Ok(path) && path_is(
            path,
            PathBase::Home(home),
            seq![".codex"@],
        ),
        (None, None) => r == Err::<CodexPath<B>, _>(SwitchError::NoHome),
    }
}

/// The home of the Codex CLI: the directory that `CODEX_HOME` names, else `.codex` in the home
/// directory.
pub fn codex_home_under<B>(codex_home: Option<String>, home: Option<B>) -> (r: Result<
    CodexPath<B>,
    SwitchError,
>)
    ensures
        home_found(r, codex_home, home),
{
    match (codex_home, home) {
        (Some(named), _) => {
            let path = CodexPath { base: PathBase::Named(named), segments: Vec::new() };
            assert(views(path.segments@) =~= seq![]);
            Ok(path)
        },
        (None, Some(home)) => {
            let path = CodexPath {
                base: PathBase::Home(home),
                segments: vec![".codex".to_owned()],
            };
            assert(views(path.segments@) =~= seq![".codex"@]);
            Ok(path)
        },
        (None, None) => Err(SwitchError::NoHome),
    }
}

/// The home of the Codex CLI, given what `CODEX_HOME` is set to.
pub fn get_codex_home(codex_home: Option<String>) -> (r: Result<CodexPath<PathBuf>, SwitchError>)
    ensures
        match codex_home {
            Some(named) => r matches Ok(path) && path_is(path, PathBase::Named(named), seq![]),
            None => match r {
                Ok(path) => path.base is Home && path_is(path, path.base, seq![".codex"@]),
                Err(e) => e == SwitchError::NoHome,
            },
        },
{
    match codex_home {
        Some(named) => codex_home_under(Some(named), None),
        None => codex_home_under(None, home_dir()),
    }
}

/// The credential file in the home of the Codex CLI.
pub fn auth_file_in<B>(home: CodexPath<B>) -> (r: CodexPath<B>)
    ensures
        path_is(r, home.base, views(home.segments@).push("auth.json"@)),
{
    let mut segments = home.segments;
    segments.push("auth.json".to_owned());
    assert(views(segments@) =~= views(home.segments@).push("auth.json"@));
    CodexPath { base: home.base, segments }
}

/// The credential file of the Codex CLI, given what `CODEX_HOME` is set to.
pub fn get_codex_auth_file(codex_home: Option<String>) -> (r: Result<
    CodexPath<PathBuf>,
    SwitchError,
>)
    ensures
        match codex_home {
            Some(named) => r matches Ok(path) && path_is(
                path,
                PathBase::Named(named),
                seq!["auth.json"@],
            ),
            None => match r {
                Ok(path) => path.base is Home && path_is(
                    path,
                    path.base,
                    seq![".codex"@, "auth.json"@],
                ),
                Err(e) => e == SwitchError::NoHome,
            },
        },
{
    match get_codex_home(codex_home) {
        Ok(home) => {
            let file = auth_file_in(home);
            assert(Seq::<Seq<char>>::empty().push("auth.json"@) =~= seq!["auth.json"@]);
            assert(seq![".codex"@].push("auth.json"@) =~= seq![".codex"@, "auth.json"@]);
            Ok(file)
        },
        Err(e) => Err(e),
    }
}

/// Calls `chrono::Utc::now`: a moment after the Unix epoch, with less than a second in
/// nanoseconds. Which moment it is, is not said. A clock that is set before the epoch makes the
/// call panic.
#[verifier::external_body]
fn now() -> (r: Timestamp)
    ensures
        r.seconds >= 0,
        r.nanos < 1_000_000_000,
{
    let now = chrono::Utc::now();
    Timestamp { seconds: now.timestamp(), nanos: now.timestamp_subsec_nanos() }
}

/// The credential file for an account, written at this moment.
pub open spec fn auth_json_at(account: StoredAccount, now: Timestamp) -> AuthDotJson {
    match account.auth_data {
        AuthData::ApiKey { key } => AuthDotJson {
            openai_api_key: Some(key),
            tokens: None,
            last_refresh: None,
        },
        AuthData::ChatGPT { id_token, access_token, refresh_token, account_id } => AuthDotJson {
            openai_api_key: None,
            tokens: Some(TokenData { id_token, access_token, refresh_token, account_id }),
            last_refresh: Some(now),
        },
    }
}

/// The credential file for an account, written at this moment.
pub fn create_auth_json_at(account: &StoredAccount, now: Timestamp) -> (r: AuthDotJson)
    ensures
        r == auth_json_at(*account, now),
{
    match &account.auth_data {
        AuthData::ApiKey { key } => AuthDotJson {
            openai_api_key: Some(key.clone()),
            tokens: None,
            last_refresh: None,
        },
        AuthData::ChatGPT { id_token, access_token, refresh_token, account_id } => AuthDotJson {
            openai_api_key: None,
            tokens: Some(
                TokenData {
                    id_token: id_token.clone(),
                    access_token: access_token.clone(),
                    refresh_token: refresh_token.clone(),
                    account_id: copy_text(account_id),
                },
            ),
            last_refresh: Some(now),
        },
    }
}

/// The credential file for an account, written now.
pub fn create_auth_json(account: &StoredAccount) -> (r: AuthDotJson)
    ensures
        exists|now: Timestamp|
            now.since_epoch() && r == #[trigger] auth_json_at(*account, now),
{
    create_auth_json_at(account, now())
}

/// What is written when an account is switched to.
#[derive(Debug, PartialEq, Eq)]
pub struct AuthWrite<B> {
    /// The directory, which is made where it does not exist.
    pub directory: CodexPath<B>,
    /// The file in it.
    pub file_name: String,
    pub contents: AuthDotJson,
    /// The permissions of the file.
    pub mode: u32,
}

/// `write` puts the account's credentials of this moment into `auth.json` in the directory, for
/// its owner alone.
pub open spec fn writes_account<B>(
    write: AuthWrite<B>,
    account: StoredAccount,
    directory: CodexPath<B>,
    now: Timestamp,
) -> bool {
    &&& write.directory == directory
    &&& write.file_name@ == "auth.json"@
    &&& write.contents == auth_json_at(account, now)
    &&& write.mode == AUTH_FILE_MODE
}

/// What is written for an account into the home of the Codex CLI, at this moment.
pub fn auth_write<B>(account: &StoredAccount, home: CodexPath<B>, now: Timestamp) -> (r: AuthWrite<
    B,
>)
    ensures
        writes_account(r, *account, home, now),
{
    AuthWrite {
        directory: home,
        file_name: "auth.json".to_owned(),
        contents: create_auth_json_at(account, now),
        mode: AUTH_FILE_MODE,
    }
}

/// What is written now to switch to an account, given what `CODEX_HOME` is set to. The account is
/// one that [`Switch`] has brought up to date, or one whose tokens a login has just brought; nothing
/// is taken over here.
pub fn switch_to_account(account: &StoredAccount, codex_home: Option<String>) -> (r: Result<
    AuthWrite<PathBuf>,
    SwitchError,
>)
    ensures
        codex_home is Some ==> r is Ok,
        match r {
            Ok(write) => {
                &&& exists|now: Timestamp|
                    now.since_epoch() && #[trigger] writes_account(
                        write,
                        *account,
                        write.directory,
                        now,
                    )
                &&& match codex_home {
                    Some(named) => path_is(write.directory, PathBase::Named(named), seq![]),
                    None => write.directory.base is Home && path_is(
                        write.directory,
                        write.directory.base,
                        seq![".codex"@],
                    ),
                }
            },
            Err(e) => e == SwitchError::NoHome,
        },
{
    match get_codex_home(codex_home) {
        Ok(home) => Ok(auth_write(account, home, now())),
        Err(e) => Err(e),
    }
}

/// The credential file as it was found.
#[derive(Debug, PartialEq, Eq)]
pub enum AuthFile {
    Missing,
    Unreadable,
    Malformed,
    Present(AuthDotJson),
}

/// What reading the credential file gives: nothing where there is no file, and else the credentials
/// in it or why they could not be read.
pub open spec fn current_credentials(
    r: Result<Option<AuthDotJson>, SwitchError>,
    path: Seq<char>,
    file: AuthFile,
) -> bool {
    match file {
        AuthFile::Missing => r == Ok::<_, SwitchError>(None::<AuthDotJson>),
        AuthFile::Unreadable => r matches Err(SwitchError::Read { path: p }) && p@ == path,
        AuthFile::Malformed => r matches Err(SwitchError::Parse { path: p }) && p@ == path,
        AuthFile::Present(auth) => r == Ok::<_, SwitchError>(Some(auth)),
    }
}

/// The credentials in the file; `None` where there is no file.
pub fn read_current_auth(path: &str, file: AuthFile) -> (r: Result<
    Option<AuthDotJson>,
    SwitchError,
>)
    ensures
        current_credentials(r, path@, file),
{
    match file {
        AuthFile::Missing => Ok(None),
        AuthFile::Unreadable => Err(SwitchError::Read { path: path.to_owned() }),
        AuthFile::Malformed => Err(SwitchError::Parse { path: path.to_owned() }),
        AuthFile::Present(auth) => Ok(Some(auth)),
    }
}

/// There are credentials of either kind.
pub open spec fn logged_in(auth: Option<AuthDotJson>) -> bool {
    match auth {
        Some(auth) => auth.openai_api_key is Some || auth.tokens is Some,
        None => false,
    }
}

/// Tells whether the Codex CLI is logged in, given the credentials that it has; an error in
/// reading them is handed on.
pub fn has_active_login(current: Result<Option<AuthDotJson>, SwitchError>) -> (r: Result<
    bool,
    SwitchError,
>)
    ensures
        r == match current {
            Ok(auth) => Ok::<_, SwitchError>(logged_in(auth)),
            Err(e) => Err(e),
        },
{
    match current {
        Ok(Some(auth)) => Ok(auth.openai_api_key.is_some() || auth.tokens.is_some()),
        Ok(None) => Ok(false),
        Err(e) => Err(e),
    }
}

/// The account that an `auth.json` makes, with the claims of its id token: a key goes before
/// tokens, and an account id in the claims before one beside the tokens.
pub open spec fn imported(
    auth: AuthDotJson,
    claims: IdTokenClaims,
    id: String,
    name: String,
) -> Result<StoredAccount, ImportError> {
    match (auth.openai_api_key, auth.tokens) {
        (Some(key), _) => Ok(
            StoredAccount {
                id,
                name,
                email: None,
                plan_type: None,
                subscription_expires_at: None,
                auth_data: AuthData::ApiKey { key },
            },
        ),
        (None, Some(tokens)) => Ok(
            StoredAccount {
                id,
                name,
                email: claims.email,
                plan_type: claims.plan_type,
                subscription_expires_at: claims.subscription_expires_at,
                auth_data: AuthData::ChatGPT {
                    id_token: tokens.id_token,
                    access_token: tokens.access_token,
                    refresh_token: tokens.refresh_token,
                    account_id: first_of(claims.account_id, tokens.account_id),
                },
            },
        ),
        (None, None) => Err(ImportError::NoCredentials),
    }
}

/// The account that the contents of an `auth.json` make, if contents could be read in it. `claims`
/// are those of the id token, if there is one; `id` is the id that the new account gets.
pub fn import_from_auth_json_contents(
    contents: Option<AuthDotJson>,
    claims: IdTokenClaims,
    id: String,
    account_name: String,
) -> (r: Result<StoredAccount, ImportError>)
    ensures
        r == match contents {
            Some(auth) => imported(auth, claims, id, account_name),
            None => Err(ImportError::Malformed),
        },
{
    let auth = match contents {
        Some(auth) => auth,
        None => return Err(ImportError::Malformed),
    };
    if let Some(key) = auth.openai_api_key {
        Ok(StoredAccount::new_api_key(id, account_name, key))
    } else if let Some(tokens) = auth.tokens {
        let account_id = match claims.account_id {
            Some(account_id) => Some(account_id),
            None => tokens.account_id,
        };
        Ok(
            StoredAccount::new_chatgpt(
                id,
                account_name,
                claims.email,
                claims.plan_type,
                claims.subscription_expires_at,
                tokens.id_token,
                tokens.access_token,
                tokens.refresh_token,
                account_id,
            ),
        )
    } else {
        Err(ImportError::NoCredentials)
    }
}

/// What importing a file gives: the account that its contents make, or an error that names the file.
pub open spec fn import_result(
    r: Result<StoredAccount, SwitchError>,
    path: Seq<char>,
    file: Option<(Option<AuthDotJson>, IdTokenClaims)>,
    id: String,
    account_name: String,
) -> bool {
    match file {
        None => r matches Err(SwitchError::Read { path: p }) && p@ == path,
        Some((None, _)) => r matches Err(SwitchError::Import { path: p, cause }) && p@ == path
            && cause == ImportError::Malformed,
        Some((Some(auth), claims)) => match imported(auth, claims, id, account_name) {
            Ok(account) => r == Ok::<_, SwitchError>(account),
            Err(why) => r matches Err(SwitchError::Import { path: p, cause }) && p@ == path && cause
                == why,
        },
    }
}

/// The account that a file makes, if it could be read: `file` is `None` where it could not, and
/// else what was read in it with the claims of the id token.
pub fn import_from_auth_json(
    path: &str,
    file: Option<(Option<AuthDotJson>, IdTokenClaims)>,
    id: String,
    account_name: String,
) -> (r: Result<StoredAccount, SwitchError>)
    ensures
        import_result(r, path@, file, id, account_name),
{
    match file {
        None => Err(SwitchError::Read { path: path.to_owned() }),
        Some((contents, claims)) => match import_from_auth_json_contents(
            contents,
            claims,
            id,
            account_name,
        ) {
            Ok(account) => Ok(account),
            Err(cause) => Err(SwitchError::Import { path: path.to_owned(), cause }),
        },
    }
}

/// What is done with the tokens in the credential file before an account is switched to.
#[derive(Debug, PartialEq, Eq)]
pub enum SyncDecision {
    /// The account is used as it is stored.
    Keep,
    /// The stored account gets the tokens of the file first.
    Absorb(TokenUpdate),
}

/// The ChatGPT account that the tokens in the file are for: as named beside them, else in their
/// id token.
pub open spec fn disk_account(tokens: TokenData, claims: IdTokenClaims) -> Option<String> {
    first_of(tokens.account_id, claims.account_id)
}

/// The tokens in the file are for the stored account: the account ids agree, or, where one is
/// missing, the refresh tokens.
pub open spec fn same_account(
    stored_account_id: Option<String>,
    stored_refresh_token: String,
    tokens: TokenData,
    claims: IdTokenClaims,
) -> bool {
    match (stored_account_id, disk_account(tokens, claims)) {
        (Some(stored), Some(disk)) => stored@ == disk@,
        _ => tokens.refresh_token@ == stored_refresh_token@,
    }
}

/// The tokens in the file as an update of the stored account.
pub open spec fn update_from_disk(
    account: StoredAccount,
    tokens: TokenData,
    claims: IdTokenClaims,
) -> TokenUpdate {
    TokenUpdate {
        account_id: account.id,
        id_token: tokens.id_token,
        access_token: tokens.access_token,
        refresh_token: tokens.refresh_token,
        chatgpt_account_id: disk_account(tokens, claims),
        email: claims.email,
        plan_type: claims.plan_type,
        subscription_expires_at: claims.subscription_expires_at,
    }
}

/// Tokens for the same account that are not the stored ones are taken over; everything else is
/// left alone.
pub open spec fn sync_decision(
    account: StoredAccount,
    auth: Option<AuthDotJson>,
    claims: IdTokenClaims,
) -> SyncDecision {
    match (account.auth_data, auth) {
        (
            AuthData::ChatGPT { access_token, refresh_token, account_id, .. },
            Some(AuthDotJson { tokens: Some(tokens), .. }),
        ) => if same_account(account_id, refresh_token, tokens, claims) && !(tokens.refresh_token@
            == refresh_token@ && tokens.access_token@ == access_token@) {
            SyncDecision::Absorb(update_from_disk(account, tokens, claims))
        } else {
            SyncDecision::Keep
        },
        _ => SyncDecision::Keep,
    }
}

/// What the tokens in the credential file mean for the switch: nothing for an account with a key, for
/// one with tokens a decision, and none where the file could not be read.
pub open spec fn sync_result(
    account: StoredAccount,
    current: Result<Option<AuthDotJson>, SwitchError>,
    claims: IdTokenClaims,
) -> Result<SyncDecision, SwitchError> {
    match (account.auth_data, current) {
        (AuthData::ApiKey { .. }, _) => Ok(SyncDecision::Keep),
        (AuthData::ChatGPT { .. }, Err(e)) => Err(e),
        (AuthData::ChatGPT { .. }, Ok(auth)) => Ok(sync_decision(account, auth, claims)),
    }
}

/// What is done with the tokens in the credential file before an account is switched to.
///
/// The Codex CLI rotates the tokens in its file; to write older ones back would make it use a
/// refresh token twice. `current` is what reading the file gave and matters only for a ChatGPT
/// account; `claims` are those of the id token in it, if there is one. The store carries out the
/// update: what account comes of it is not said here.
pub fn sync_tokens_from_auth_json(
    account: &StoredAccount,
    current: Result<Option<AuthDotJson>, SwitchError>,
    claims: IdTokenClaims,
) -> (r: Result<SyncDecision, SwitchError>)
    ensures
        r == sync_result(*account, current, claims),
{
    let (stored_access_token, stored_refresh_token, stored_account_id) = match &account.auth_data {
        AuthData::ChatGPT { access_token, refresh_token, account_id, .. } => (
            access_token,
            refresh_token,
            account_id,
        ),
        AuthData::ApiKey { .. } => return Ok(SyncDecision::Keep),
    };
    let auth = match current {
        Ok(Some(auth)) => auth,
        Ok(None) => return Ok(SyncDecision::Keep),
        Err(e) => return Err(e),
    };
    let tokens = match auth.tokens {
        Some(tokens) => tokens,
        None => return Ok(SyncDecision::Keep),
    };
    let disk_account_id = match &tokens.account_id {
        Some(id) => Some(id.clone()),
        None => claims.account_id,
    };
    let same_account = match (stored_account_id, &disk_account_id) {
        (Some(stored), Some(disk)) => *stored == *disk,
        _ => tokens.refresh_token == *stored_refresh_token,
    };
    if !same_account {
        return Ok(SyncDecision::Keep);
    }
    if tokens.refresh_token == *stored_refresh_token && tokens.access_token
        == *stored_access_token {
        return Ok(SyncDecision::Keep);
    }
    Ok(
        SyncDecision::Absorb(
            TokenUpdate {
                account_id: account.id.clone(),
                id_token: tokens.id_token,
                access_token: tokens.access_token,
                refresh_token: tokens.refresh_token,
                chatgpt_account_id: disk_account_id,
                email: claims.email,
                plan_type: claims.plan_type,
                subscription_expires_at: claims.subscription_expires_at,
            },
        ),
    )
}

/// What switching to an account waits for.
#[derive(Debug)]
pub enum Switch {
    /// The credential file, as it was found.
    Reading { account: StoredAccount },
    /// The stored account, with the tokens of the file.
    Updating,
    /// Nothing more.
    Finished,
}

/// What happened while an account is switched to.
#[derive(Debug)]
pub enum SwitchEvent {
    /// The credential file was read, and the claims of the id token in it, or it could not be.
    Current { current: Result<Option<AuthDotJson>, SwitchError>, claims: IdTokenClaims },
    /// The stored account was updated, or could not be.
    Updated(Result<StoredAccount, String>),
}

/// What is to be done next to switch to an account.
#[derive(Debug)]
pub enum SwitchAction {
    /// Read the credential file.
    ReadFile,
    /// Give the stored account these tokens.
    Update(TokenUpdate),
    /// Write this account's credentials, as [`switch_to_account`] says.
    Write(StoredAccount),
    /// Give up.
    Fail(SwitchError),
}

impl Switch {
    /// The credential file is read for an account with tokens only.
    pub open spec fn well_formed(self) -> bool {
        self matches Switch::Reading { account } ==> account.auth_data is ChatGPT
    }

    /// How switching begins: the credential file is read, but for an API key there is nothing to
    /// be found in it.
    pub open spec fn begun(account: StoredAccount) -> (Switch, SwitchAction) {
        match account.auth_data {
            AuthData::ChatGPT { .. } => (Switch::Reading { account }, SwitchAction::ReadFile),
            AuthData::ApiKey { .. } => (Switch::Finished, SwitchAction::Write(account)),
        }
    }

    /// The event is of the kind that is waited for.
    pub open spec fn awaits(self, event: SwitchEvent) -> bool {
        match self {
            Switch::Reading { .. } => event is Current,
            Switch::Updating => event is Updated,
            Switch::Finished => false,
        }
    }

    /// What is waited for after the event, and what is to be done. The first failure ends it all,
    /// with nothing written.
    pub open spec fn next(self, event: SwitchEvent) -> (Switch, SwitchAction) {
        match (self, event) {
            (Switch::Reading { account }, SwitchEvent::Current { current: Ok(auth), claims }) => {
                match sync_decision(account, auth, claims) {
                    SyncDecision::Keep => (Switch::Finished, SwitchAction::Write(account)),
                    SyncDecision::Absorb(update) => (
                        Switch::Updating,
                        SwitchAction::Update(update),
                    ),
                }
            },
            (Switch::Updating, SwitchEvent::Updated(Ok(account))) => (
                Switch::Finished,
                SwitchAction::Write(account),
            ),
            (_, SwitchEvent::Current { current: Err(e), .. }) => (
                Switch::Finished,
                SwitchAction::Fail(e),
            ),
            (_, SwitchEvent::Updated(Err(message))) => (
                Switch::Finished,
                SwitchAction::Fail(SwitchError::Other { message }),
            ),
            (_, _) => (Switch::Finished, SwitchAction::Fail(SwitchError::NoHome)),
        }
    }

    /// Begins to switch to an account.
    pub fn begin(account: &StoredAccount) -> (r: (Switch, SwitchAction))
        ensures
            r == Switch::begun(*account),
            r.0.well_formed(),
    {
        match &account.auth_data {
            AuthData::ChatGPT { .. } => (
                Switch::Reading { account: account.clone() },
                SwitchAction::ReadFile,
            ),
            AuthData::ApiKey { .. } => (Switch::Finished, SwitchAction::Write(account.clone())),
        }
    }

    /// Tells whether the event is of the kind that is waited for.
    pub fn is_awaited(&self, event: &SwitchEvent) -> (r: bool)
        ensures
            r == self.awaits(*event),
    {
        match (self, event) {
            (Switch::Reading { .. }, SwitchEvent::Current { .. }) => true,
            (Switch::Updating, SwitchEvent::Updated(_)) => true,
            (_, _) => false,
        }
    }

    /// Takes the switch on: what is waited for next, and what is to be done.
    pub fn step(self, event: SwitchEvent) -> (r: (Switch, SwitchAction))
        requires
            self.well_formed(),
            self.awaits(event),
        ensures
            r == self.next(event),
            r.0.well_formed(),
    {
        match (self, event) {
            (Switch::Reading { account }, SwitchEvent::Current { current, claims }) => {
                match sync_tokens_from_auth_json(&account, current, claims) {
                    Ok(SyncDecision::Keep) => (Switch::Finished, SwitchAction::Write(account)),
                    Ok(SyncDecision::Absorb(update)) => (
                        Switch::Updating,
                        SwitchAction::Update(update),
                    ),
                    Err(e) => (Switch::Finished, SwitchAction::Fail(e)),
                }
            },
            (Switch::Updating, SwitchEvent::Updated(Ok(account))) => (
                Switch::Finished,
                SwitchAction::Write(account),
            ),
            (Switch::Updating, SwitchEvent::Updated(Err(message))) => (
                Switch::Finished,
                SwitchAction::Fail(SwitchError::Other { message }),
            ),
            (_, _) => (Switch::Finished, SwitchAction::Fail(SwitchError::NoHome)),
        }
    }
}

/// The account carries the tokens of the update.
pub open spec fn carries(account: StoredAccount, update: TokenUpdate) -> bool {
    match account.auth_data {
        AuthData::ChatGPT { id_token, access_token, refresh_token, .. } => {
            &&& id_token == update.id_token
            &&& access_token == update.access_token
            &&& refresh_token == update.refresh_token
        },
        AuthData::ApiKey { .. } => false,
    }
}

/// What is written in the end, once the credential file was found with `auth` in it and, where the
/// stored account was to be updated, `updated` came of that.
pub open spec fn last_action(
    account: StoredAccount,
    auth: Option<AuthDotJson>,
    claims: IdTokenClaims,
    updated: StoredAccount,
) -> SwitchAction {
    let (state, action) = (Switch::Reading { account }).next(
        SwitchEvent::Current { current: Ok(auth), claims },
    );
    if action is Update {
        state.next(SwitchEvent::Updated(Ok(updated))).1
    } else {
        action
    }
}

/// Where the credential file holds tokens for a stored account that is switched to, the switch
/// writes those same tokens back and never older ones. The id token is the file's too where its
/// tokens were taken over; where access and refresh token are the stored ones, nothing is.
pub proof fn switch_never_writes_stale_tokens(
    account: StoredAccount,
    auth: AuthDotJson,
    tokens: TokenData,
    claims: IdTokenClaims,
    updated: StoredAccount,
    now: Timestamp,
)
    requires
        auth.tokens == Some(tokens),
        account.auth_data matches AuthData::ChatGPT { refresh_token, account_id, .. }
            && same_account(account_id, refresh_token, tokens, claims),
        carries(updated, update_from_disk(account, tokens, claims)),
    ensures
        last_action(account, Some(auth), claims, updated) matches SwitchAction::Write(last)
            && auth_json_at(last, now).tokens matches Some(written) && written.refresh_token@
            == tokens.refresh_token@ && written.access_token@ == tokens.access_token@ && (
        sync_decision(account, Some(auth), claims) is Absorb ==> written.id_token@
            == tokens.id_token@),
{
}

/// An account is written as it is stored where the credential file has no tokens for it.
pub proof fn switch_writes_the_stored_account(
    account: StoredAccount,
    auth: Option<AuthDotJson>,
    claims: IdTokenClaims,
    updated: StoredAccount,
)
    requires
        account.auth_data matches AuthData::ChatGPT { refresh_token, account_id, .. } && (auth
            matches Some(AuthDotJson { tokens: Some(tokens), .. }) ==> !same_account(
            account_id,
            refresh_token,
            tokens,
            claims,
        )),
    ensures
        last_action(account, auth, claims, updated) == SwitchAction::Write(account),
{
}

/// The first step that fails ends the switch, and its error is what is reported: nothing is
/// written.
pub proof fn switch_stops_at_the_first_failure(step: Switch, event: SwitchEvent)
    requires
        step.awaits(event),
    ensures
        event matches SwitchEvent::Current { current: Err(e), .. } ==> step.next(event) == (
            Switch::Finished,
            SwitchAction::Fail(e),
        ),
        event matches SwitchEvent::Updated(Err(message)) ==> step.next(event) == (
            Switch::Finished,
            SwitchAction::Fail(SwitchError::Other { message }),
        ),
{
}

/// Tokens for another account are never taken over.
pub proof fn sync_leaves_other_accounts_alone(
    account: StoredAccount,
    auth: AuthDotJson,
    tokens: TokenData,
    claims: IdTokenClaims,
)
    requires
        auth.tokens == Some(tokens),
        account.auth_data matches AuthData::ChatGPT { refresh_token, account_id, .. }
            && !same_account(account_id, refresh_token, tokens, claims),
    ensures
        sync_decision(account, Some(auth), claims) == SyncDecision::Keep,
{
}

/// What a switch has written needs no taking over: to switch to the same account again keeps it.
pub proof fn sync_after_switch_keeps(account: StoredAccount, claims: IdTokenClaims, now: Timestamp)
    ensures
        sync_decision(account, Some(auth_json_at(account, now)), claims) == SyncDecision::Keep,
{
}

/// Tokens are taken over once: for an account that has them, with the credential file unchanged,
/// the next switch asks for no update and writes the account as it is. What the store makes of an
/// update is its own affair; all that is asked of it is that the access and the refresh token are
/// those of the update.
pub proof fn sync_is_idempotent(
    account: StoredAccount,
    auth: Option<AuthDotJson>,
    claims: IdTokenClaims,
    synced: StoredAccount,
)
    requires
        account.auth_data is ChatGPT,
        match sync_decision(account, auth, claims) {
            SyncDecision::Keep => synced == account,
            SyncDecision::Absorb(update) => synced.auth_data is ChatGPT
                && synced.auth_data->access_token@ == update.access_token@
                && synced.auth_data->refresh_token@ == update.refresh_token@,
        },
    ensures
        sync_decision(synced, auth, claims) == SyncDecision::Keep,
        (Switch::Reading { account: synced }).next(
            SwitchEvent::Current { current: Ok::<_, SwitchError>(auth), claims },
        ) == (Switch::Finished, SwitchAction::Write(synced)),
{
}

/// An `auth.json` makes an account exactly when it counts as a login.
pub proof fn import_succeeds_iff_logged_in(
    auth: AuthDotJson,
    claims: IdTokenClaims,
    id: String,
    name: String,
)
    ensures
        imported(auth, claims, id, name) is Ok <==> logged_in(Some(auth)),
{
}

/// What a switch has written counts as a login.
pub proof fn written_file_is_a_login(account: StoredAccount, now: Timestamp)
    ensures
        logged_in(Some(auth_json_at(account, now))),
{
}

/// An account that is imported from what a switch has written has the credentials of the account
/// that was written. Only an account id that the claims give otherwise takes the place of the
/// stored one.
pub proof fn import_reads_back_what_was_written(
    account: StoredAccount,
    claims: IdTokenClaims,
    now: Timestamp,
    id: String,
    name: String,
)
    ensures
        imported(auth_json_at(account, now), claims, id, name) matches Ok(back) && back.id == id
            && back.name == name && match account.auth_data {
            AuthData::ApiKey { .. } => back.auth_data == account.auth_data,
            AuthData::ChatGPT { id_token, access_token, refresh_token, account_id } => {
                &&& back.auth_data == AuthData::ChatGPT {
                    id_token,
                    access_token,
                    refresh_token,
                    account_id: first_of(claims.account_id, account_id),
                }
                &&& (claims.account_id is None || claims.account_id == account_id)
                    ==> back.auth_data == account.auth_data
            },
        },
{
}

/// Account ids decide where both are known: the one that is stored, and the one that the tokens in
/// the credential file name beside them, else in their id token. Where they differ, the stored
/// account is written with its own tokens, whatever else the file and the claims hold. Where they
/// agree, the store gets the tokens of the file if one of them is another than the stored one, with
/// what their id token says.
pub proof fn known_account_ids_decide(
    account: StoredAccount,
    auth: AuthDotJson,
    tokens: TokenData,
    claims: IdTokenClaims,
    stored_id: String,
    disk_id: String,
)
    requires
        account.auth_data is ChatGPT,
        account.auth_data->account_id == Some(stored_id),
        auth.tokens == Some(tokens),
        tokens.account_id == Some(disk_id) || (tokens.account_id is None && claims.account_id
            == Some(disk_id)),
    ensures
        ({
            let event = SwitchEvent::Current { current: Ok::<_, SwitchError>(Some(auth)), claims };
            let after = (Switch::Reading { account }).next(event);
            let decision = sync_decision(account, Some(auth), claims);
            let same_tokens = tokens.refresh_token@ == account.auth_data->refresh_token@
                && tokens.access_token@ == account.auth_data->access_token@;
            if stored_id@ != disk_id@ || same_tokens {
                &&& decision == SyncDecision::Keep
                &&& after == (Switch::Finished, SwitchAction::Write(account))
            } else {
                &&& decision matches SyncDecision::Absorb(update)
                &&& after == (Switch::Updating, SwitchAction::Update(update))
                &&& update.account_id == account.id
                &&& update.id_token == tokens.id_token
                &&& update.access_token == tokens.access_token
                &&& update.refresh_token == tokens.refresh_token
                &&& update.chatgpt_account_id == Some(disk_id)
                &&& update.email == claims.email
                &&& update.plan_type == claims.plan_type
                &&& update.subscription_expires_at == claims.subscription_expires_at
            }
        }),
{
}

/// Where an account id is missing, in the store or for the tokens in the credential file, the
/// refresh tokens decide: the tokens of the file are taken over only with the stored refresh token
/// and another access token.
pub proof fn refresh_tokens_decide_without_account_ids(
    account: StoredAccount,
    auth: AuthDotJson,
    tokens: TokenData,
    claims: IdTokenClaims,
)
    requires
        account.auth_data is ChatGPT,
        auth.tokens == Some(tokens),
        account.auth_data->account_id is None || (tokens.account_id is None
            && claims.account_id is None),
    ensures
        ({
            let event = SwitchEvent::Current { current: Ok::<_, SwitchError>(Some(auth)), claims };
            let after = (Switch::Reading { account }).next(event);
            let decision = sync_decision(account, Some(auth), claims);
            if tokens.refresh_token@ == account.auth_data->refresh_token@ && tokens.access_token@
                != account.auth_data->access_token@ {
                &&& decision matches SyncDecision::Absorb(update)
                &&& after == (Switch::Updating, SwitchAction::Update(update))
                &&& update.account_id == account.id
                &&& update.id_token == tokens.id_token
                &&& update.access_token == tokens.access_token
                &&& update.refresh_token == tokens.refresh_token
                &&& tokens.account_id is Some ==> update.chatgpt_account_id == tokens.account_id
                &&& tokens.account_id is None ==> update.chatgpt_account_id == claims.account_id
                &&& update.email == claims.email
                &&& update.plan_type == claims.plan_type
                &&& update.subscription_expires_at == claims.subscription_expires_at
            } else {
                &&& decision == SyncDecision::Keep
                &&& after == (Switch::Finished, SwitchAction::Write(account))
            }
        }),
{
}

/// An account is written as it is stored where the credential file is missing or holds no tokens,
/// and an account with an API key is so at once.
pub proof fn without_tokens_nothing_is_taken_over(
    account: StoredAccount,
    auth: Option<AuthDotJson>,
    claims: IdTokenClaims,
)
    ensures
        auth is None || auth->0.tokens is None || account.auth_data is ApiKey ==> sync_decision(
            account,
            auth,
            claims,
        ) == SyncDecision::Keep,
        auth is None || auth->0.tokens is None ==> (Switch::Reading { account }).next(
            SwitchEvent::Current { current: Ok::<_, SwitchError>(auth), claims },
        ) == (Switch::Finished, SwitchAction::Write(account)),
        account.auth_data is ApiKey ==> Switch::begun(account) == (
            Switch::Finished,
            SwitchAction::Write(account),
        ),
        account.auth_data is ChatGPT ==> Switch::begun(account) == (
            Switch::Reading { account },
            SwitchAction::ReadFile,
        ),
{
}

/// An account that the store has updated is written as the store gave it back.
pub proof fn updated_account_is_written(account: StoredAccount)
    ensures
        Switch::Updating.next(SwitchEvent::Updated(Ok::<_, String>(account))) == (
            Switch::Finished,
            SwitchAction::Write(account),
        ),
{
}

/// A switch takes each kind of event in its own state alone, and none once it is over.
pub proof fn switch_events_have_their_states(state: Switch, event: SwitchEvent)
    ensures
        state.awaits(event) <==> (state is Reading && event is Current) || (state is Updating
            && event is Updated),
{
}

/// The credential file for an API key holds that key and nothing else; for tokens it holds those
/// tokens, the account id beside them and the moment, and no key.
pub proof fn written_file_holds_the_credentials(account: StoredAccount, now: Timestamp)
    ensures
        account.auth_data is ApiKey ==> {
            &&& auth_json_at(account, now).openai_api_key == Some(account.auth_data->key)
            &&& auth_json_at(account, now).tokens is None
            &&& auth_json_at(account, now).last_refresh is None
        },
        account.auth_data is ChatGPT ==> {
            &&& auth_json_at(account, now).openai_api_key is None
            &&& auth_json_at(account, now).last_refresh == Some(now)
            &&& auth_json_at(account, now).tokens matches Some(tokens)
            &&& tokens.id_token == account.auth_data->id_token
            &&& tokens.access_token == account.auth_data->access_token
            &&& tokens.refresh_token == account.auth_data->refresh_token
            &&& tokens.account_id == account.auth_data->account_id
        },
{
}

/// What is written goes to `auth.json` in the given directory, readable by its owner alone, and is
/// a key exactly when the account signs in with one.
pub proof fn write_goes_to_the_file<B>(
    write: AuthWrite<B>,
    account: StoredAccount,
    directory: CodexPath<B>,
    now: Timestamp,
)
    requires
        writes_account(write, account, directory, now),
    ensures
        write.directory == directory,
        write.file_name@ == "auth.json"@,
        write.mode == 0o600,
        account.auth_data is ApiKey ==> write.contents.openai_api_key == Some(
            account.auth_data->key,
        ) && write.contents.tokens is None && write.contents.last_refresh is None,
        account.auth_data is ChatGPT ==> {
            &&& write.contents.openai_api_key is None
            &&& write.contents.last_refresh == Some(now)
            &&& write.contents.tokens matches Some(tokens)
            &&& tokens.id_token == account.auth_data->id_token
            &&& tokens.access_token == account.auth_data->access_token
            &&& tokens.refresh_token == account.auth_data->refresh_token
            &&& tokens.account_id == account.auth_data->account_id
        },
{
}

/// A path has the given base and as many segments as are given, each with its characters.
pub proof fn path_has_its_segments<B>(
    path: CodexPath<B>,
    base: PathBase<B>,
    segments: Seq<Seq<char>>,
)
    ensures
        path_is(path, base, segments) <==> path.base == base && path.segments.len()
            == segments.len() && forall|i: int|
            0 <= i < segments.len() ==> (#[trigger] path.segments@[i])@ == segments[i],
{
    if path.base == base && path.segments.len() == segments.len() && forall|i: int|
        0 <= i < segments.len() ==> (#[trigger] path.segments@[i])@ == segments[i] {
        assert(views(path.segments@) =~= segments);
    }
    if path_is(path, base, segments) {
        assert forall|i: int| 0 <= i < segments.len() implies (#[trigger] path.segments@[i])@
            == segments[i] by {
            assert(views(path.segments@)[i] == path.segments@[i]@);
        }
    }
}

/// A key in an `auth.json` makes an account of that key, whatever else is there.
pub proof fn imported_key_makes_a_key_account(
    auth: AuthDotJson,
    claims: IdTokenClaims,
    id: String,
    name: String,
    key: String,
)
    requires
        auth.openai_api_key == Some(key),
    ensures
        ({
            &&& imported(auth, claims, id, name) matches Ok(account)
            &&& account.id == id
            &&& account.name == name
            &&& account.email is None
            &&& account.plan_type is None
            &&& account.subscription_expires_at is None
            &&& account.auth_data is ApiKey
            &&& account.auth_data->key == key
        }),
{
}

/// Tokens in an `auth.json` without a key make an account with those tokens. Email, plan and the end
/// of the subscription are those of the claims, and so is the account id; without one in the claims
/// it is the one beside the tokens.
pub proof fn imported_tokens_come_with_their_claims(
    auth: AuthDotJson,
    claims: IdTokenClaims,
    id: String,
    name: String,
    tokens: TokenData,
)
    requires
        auth.openai_api_key is None,
        auth.tokens == Some(tokens),
    ensures
        ({
            &&& imported(auth, claims, id, name) matches Ok(account)
            &&& account.id == id
            &&& account.name == name
            &&& account.email == claims.email
            &&& account.plan_type == claims.plan_type
            &&& account.subscription_expires_at == claims.subscription_expires_at
            &&& account.auth_data is ChatGPT
            &&& account.auth_data->id_token == tokens.id_token
            &&& account.auth_data->access_token == tokens.access_token
            &&& account.auth_data->refresh_token == tokens.refresh_token
            &&& claims.account_id is Some ==> account.auth_data->account_id == claims.account_id
            &&& claims.account_id is None ==> account.auth_data->account_id == tokens.account_id
        }),
{
}

/// Without a key and without tokens there is nothing to import, and that is the error.
pub proof fn empty_file_is_not_imported(
    auth: AuthDotJson,
    claims: IdTokenClaims,
    id: String,
    name: String,
)
    requires
        auth.openai_api_key is None,
        auth.tokens is None,
    ensures
        imported(auth, claims, id, name) == Err::<StoredAccount, _>(ImportError::NoCredentials),
{
}

/// When the tokens were refreshed last makes no difference to the account that is imported.
pub proof fn import_ignores_the_refresh_time(
    auth: AuthDotJson,
    other: AuthDotJson,
    claims: IdTokenClaims,
    id: String,
    name: String,
)
    requires
        auth.openai_api_key == other.openai_api_key,
        auth.tokens == other.tokens,
    ensures
        imported(auth, claims, id, name) == imported(other, claims, id, name),
{
}

/// Either kind of credentials counts as a login, and nothing else does.
pub proof fn credentials_are_a_login(auth: AuthDotJson)
    ensures
        !logged_in(None),
        auth.openai_api_key is Some ==> logged_in(Some(auth)),
        auth.tokens is Some ==> logged_in(Some(auth)),
        auth.openai_api_key is None && auth.tokens is None ==> !logged_in(Some(auth)),
{
}

/// Each error is reported in its own words, with the path that it concerns.
pub proof fn switch_reports(path: String, message: String, cause: ImportError)
    ensures
        ImportError::Malformed.report() == "Failed to parse auth.json contents"@,
        ImportError::NoCredentials.report() == "auth.json contains neither API key nor tokens"@,
        SwitchError::NoHome.report() == "Could not find home directory"@,
        SwitchError::Serialize.report() == "Failed to serialize auth.json"@,
        (SwitchError::CreateHome { path }).report() == "Failed to create codex home: "@ + path@,
        (SwitchError::Write { path }).report() == "Failed to write auth.json: "@ + path@,
        (SwitchError::Read { path }).report() == "Failed to read auth.json: "@ + path@,
        (SwitchError::Parse { path }).report() == "Failed to parse auth.json: "@ + path@,
        (SwitchError::Import { path, cause }).report() == "Failed to parse auth.json: "@ + path@,
        (SwitchError::Other { message }).report() == message@,
{
}

/// A directory that was named is the home as it is, whatever the home directory; without one the
/// home is `.codex` in the home directory, and without that there is none.
pub proof fn named_home_comes_first<B>(
    r: Result<CodexPath<B>, SwitchError>,
    codex_home: Option<String>,
    home: Option<B>,
)
    requires
        home_found(r, codex_home, home),
    ensures
        codex_home is Some ==> r is Ok && r->Ok_0.base == PathBase::<B>::Named(codex_home->0)
            && r->Ok_0.segments.len() == 0,
        codex_home is None && home is Some ==> r is Ok && r->Ok_0.base == PathBase::Home(home->0)
            && r->Ok_0.segments.len() == 1 && r->Ok_0.segments@[0]@ == ".codex"@,
        codex_home is None && home is None ==> r == Err::<CodexPath<B>, _>(SwitchError::NoHome),
{
    if codex_home is Some {
        path_has_its_segments(r->Ok_0, PathBase::Named(codex_home->0), seq![]);
    } else if home is Some {
        path_has_its_segments(r->Ok_0, PathBase::Home(home->0), seq![".codex"@]);
    }
}

/// Only a file that is there can fail to be read. Where it is read, its credentials are what comes of
/// it, unchanged, and each failure names the file.
pub proof fn missing_file_is_no_error(
    r: Result<Option<AuthDotJson>, SwitchError>,
    path: Seq<char>,
    file: AuthFile,
)
    requires
        current_credentials(r, path, file),
    ensures
        file is Missing ==> r is Ok && r->Ok_0 is None,
        file is Present ==> r is Ok && r->Ok_0 == Some(file->Present_0),
        file is Unreadable ==> r is Err && r->Err_0 is Read && r->Err_0.report()
            == "Failed to read auth.json: "@ + path,
        file is Malformed ==> r is Err && r->Err_0 is Parse && r->Err_0.report()
            == "Failed to parse auth.json: "@ + path,
{
}

/// A file that cannot be read, or holds no credentials, gives an error that names it; any other makes
/// the same account as its contents do, with the claims of its id token.
pub proof fn import_names_the_file(
    r: Result<StoredAccount, SwitchError>,
    path: Seq<char>,
    file: Option<(Option<AuthDotJson>, IdTokenClaims)>,
    id: String,
    name: String,
)
    requires
        import_result(r, path, file, id, name),
    ensures
        file is None ==> r is Err && r->Err_0.report() == "Failed to read auth.json: "@ + path,
        file is Some && r is Err ==> r->Err_0.report() == "Failed to parse auth.json: "@ + path,
        file is Some && (file->0).0 is None ==> r is Err,
        file is Some && (file->0).0 is Some ==> {
            let auth = (file->0).0->0;
            let claims = (file->0).1;
            &&& r is Ok <==> auth.openai_api_key is Some || auth.tokens is Some
            &&& r is Ok ==> r->Ok_0.id == id && r->Ok_0.name == name
            &&& auth.openai_api_key is Some ==> r->Ok_0.auth_data == (AuthData::ApiKey {
                key: auth.openai_api_key->0,
            })
            &&& auth.openai_api_key is None && auth.tokens is Some ==> {
                &&& r->Ok_0.email == claims.email
                &&& r->Ok_0.plan_type == claims.plan_type
                &&& r->Ok_0.subscription_expires_at == claims.subscription_expires_at
                &&& r->Ok_0.auth_data is ChatGPT
                &&& r->Ok_0.auth_data->id_token == auth.tokens->0.id_token
                &&& r->Ok_0.auth_data->access_token == auth.tokens->0.access_token
                &&& r->Ok_0.auth_data->refresh_token == auth.tokens->0.refresh_token
            }
        },
{
}

/// An account with a key is kept whatever became of the file. For one with tokens, a file that could
/// not be read is the error it was, and tokens under another account id than the stored one are left
/// alone.
pub proof fn sync_answers(
    account: StoredAccount,
    current: Result<Option<AuthDotJson>, SwitchError>,
    claims: IdTokenClaims,
)
    ensures
        account.auth_data is ApiKey ==> sync_result(account, current, claims) == Ok::<
            _,
            SwitchError,
        >(SyncDecision::Keep),
        account.auth_data is ChatGPT && current is Err ==> sync_result(account, current, claims)
            == Err::<SyncDecision, _>(current->Err_0),
        account.auth_data is ChatGPT && current is Ok ==> sync_result(account, current, claims)
            == Ok::<_, SwitchError>(sync_decision(account, current->Ok_0, claims)),
        account.auth_data is ChatGPT && current is Ok && current->Ok_0 is Some
            && current->Ok_0->0.tokens is Some && account.auth_data->account_id is Some
            && current->Ok_0->0.tokens->0.account_id is Some && account.auth_data->account_id->0@
            != current->Ok_0->0.tokens->0.account_id->0@ ==> sync_result(account, current, claims)
            == Ok::<_, SwitchError>(SyncDecision::Keep),
{
}

} // verus!
