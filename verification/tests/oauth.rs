use codex_switcher::account::{
    AccountsStore, AuthData, AuthDotJson, IdTokenClaims, StoredAccount, TokenData, TokenUpdate,
};
use codex_switcher::oauth::{
    cancel_login, complete_login, complete_reauth, login_started, reauth_account_name, start_login,
    start_reauth, LoginSlot, LoginStep, ReauthStep, SignInAction, SignInError, SignInEvent,
    SignedIn,
};
use codex_switcher::switcher::switch_to_account;

fn key_account(id: &str) -> StoredAccount {
    StoredAccount::new_api_key(id.to_string(), format!("name of {id}"), "sk".to_string())
}

fn chatgpt_account(id: &str) -> StoredAccount {
    StoredAccount::new_chatgpt(
        id.to_string(),
        format!("name of {id}"),
        None,
        None,
        None,
        "i".to_string(),
        "a".to_string(),
        "r".to_string(),
        Some("acc".to_string()),
    )
}

fn store(active: Option<&str>) -> AccountsStore {
    AccountsStore {
        accounts: vec![key_account("one"), chatgpt_account("two")],
        active_account_id: active.map(|id| id.to_string()),
    }
}

fn claims() -> IdTokenClaims {
    IdTokenClaims {
        email: Some("a@b.c".to_string()),
        plan_type: Some("plus".to_string()),
        subscription_expires_at: None,
        account_id: Some("claimed".to_string()),
    }
}

fn done() -> SignInEvent {
    SignInEvent::Done(Ok(()))
}

fn read() -> SignInEvent {
    SignInEvent::FileRead(Ok(None))
}

fn describe(action: SignInAction) -> String {
    match action {
        SignInAction::Add(account) => format!("add {}", account.id),
        SignInAction::ReadClaims(token) => format!("claims {token}"),
        SignInAction::Update(update) => format!("update {}", update.account_id),
        SignInAction::SetActive(id) => format!("activate {id}"),
        SignInAction::ReadFile => "read".to_string(),
        SignInAction::Write(account) => format!("write {}", account.id),
        SignInAction::Touch(id) => format!("touch {id}"),
        SignInAction::Load => "load".to_string(),
        SignInAction::Finish(Ok(SignedIn { account, active_account_id })) => {
            format!("done {} {:?}", account.id, active_account_id)
        }
        SignInAction::Finish(Err(e)) => format!("failed: {}", e.message()),
    }
}

fn run_login(events: Vec<SignInEvent>) -> Vec<String> {
    let mut slot = LoginSlot { pending: Some(1) };
    let (mut step, login) = complete_login(&mut slot).unwrap();
    assert_eq!(login, 1);
    let mut seen = Vec::new();
    for event in events {
        assert!(step.is_awaited(&event));
        let (next, action) = step.step(event);
        step = next;
        seen.push(describe(action));
    }
    seen
}

fn run_reauth(events: Vec<SignInEvent>) -> Vec<String> {
    let mut slot = LoginSlot { pending: Some(1) };
    let (mut step, _) = complete_reauth(&mut slot, "two".to_string()).unwrap();
    let mut seen = Vec::new();
    for event in events {
        assert!(step.is_awaited(&event));
        let (next, action) = step.step(event);
        step = next;
        seen.push(describe(action));
    }
    seen
}

#[test]
fn a_new_login_displaces_the_pending_one() {
    let mut slot = LoginSlot::new();
    assert_eq!(start_login(&mut slot), None);
    assert_eq!(login_started(&mut slot, Ok(("info", 1))), Ok("info"));
    assert_eq!(start_login(&mut slot), Some(1));
    assert!(slot.pending.is_none());
    assert_eq!(login_started(&mut slot, Ok(("info", 2))), Ok("info"));
    assert_eq!(complete_login(&mut slot).unwrap().1, 2);
}

#[test]
fn a_login_that_cannot_be_started_is_not_pending() {
    let mut slot: LoginSlot<i32> = LoginSlot { pending: Some(1) };
    assert_eq!(start_login(&mut slot), Some(1));
    let started: Result<(&str, i32), String> = Err("port in use".to_string());
    assert_eq!(
        login_started(&mut slot, started).map_err(|e| e.message()),
        Err("port in use".to_string())
    );
    assert!(complete_login(&mut slot).is_err());
}

#[test]
fn a_login_is_completed_once() {
    let mut slot = LoginSlot { pending: Some(1) };
    assert!(complete_login(&mut slot).is_ok());
    assert_eq!(
        complete_login(&mut slot).err().map(|e| e.message()),
        Some("No pending OAuth login".to_string())
    );
    assert!(matches!(
        complete_reauth(&mut slot, "two".to_string()),
        Err(SignInError::NoPendingLogin)
    ));
}

#[test]
fn a_cancelled_login_cannot_be_completed() {
    let mut slot = LoginSlot { pending: Some(1) };
    assert_eq!(cancel_login(&mut slot), Some(1));
    assert_eq!(cancel_login(&mut slot), None);
    assert!(complete_login(&mut slot).is_err());
}

#[test]
fn a_reauth_starts_with_the_name_of_the_account() {
    let mut slot = LoginSlot { pending: Some(1) };
    assert_eq!(
        start_reauth(&mut slot, Ok(store(None)), "two".to_string()),
        (Some(1), Ok("name of two".to_string()))
    );
    assert!(slot.pending.is_none());
    assert_eq!(
        reauth_account_name(Ok(store(None)), "one".to_string()),
        Ok("name of one".to_string())
    );
}

#[test]
fn a_reauth_of_an_unknown_account_gives_up_the_pending_login() {
    let mut slot = LoginSlot { pending: Some(1) };
    let (previous, name) = start_reauth(&mut slot, Ok(store(None)), "three".to_string());
    assert_eq!(previous, Some(1));
    assert_eq!(name.map_err(|e| e.message()), Err("Account not found: three".to_string()));
    assert!(slot.pending.is_none());
    assert_eq!(
        reauth_account_name(Err("locked".to_string()), "one".to_string()),
        Err(SignInError::Failed { message: "locked".to_string() })
    );
}

#[test]
fn a_login_takes_all_steps() {
    assert_eq!(
        run_login(vec![
            SignInEvent::SignedIn(Ok(chatgpt_account("new"))),
            SignInEvent::Stored(Ok(chatgpt_account("stored"))),
            done(),
            read(),
            done(),
            done(),
            SignInEvent::Loaded(Ok(store(Some("stored")))),
        ]),
        [
            "add new",
            "activate stored",
            "read",
            "write stored",
            "touch stored",
            "load",
            "done stored Some(\"stored\")"
        ]
    );
}

#[test]
fn a_login_stops_at_the_first_failure() {
    assert_eq!(
        run_login(vec![SignInEvent::SignedIn(Err("denied".to_string()))]),
        ["failed: denied"]
    );
    assert_eq!(
        run_login(vec![
            SignInEvent::SignedIn(Ok(chatgpt_account("new"))),
            SignInEvent::Stored(Err("duplicate".to_string())),
        ]),
        ["add new", "failed: duplicate"]
    );
    assert_eq!(
        run_login(vec![
            SignInEvent::SignedIn(Ok(chatgpt_account("new"))),
            SignInEvent::Stored(Ok(chatgpt_account("stored"))),
            done(),
            read(),
            SignInEvent::Done(Err("no home".to_string())),
        ]),
        ["add new", "activate stored", "read", "write stored", "failed: no home"]
    );
    assert_eq!(
        run_login(vec![
            SignInEvent::SignedIn(Ok(chatgpt_account("new"))),
            SignInEvent::Stored(Ok(chatgpt_account("stored"))),
            done(),
            read(),
            done(),
            done(),
            SignInEvent::Loaded(Err("gone".to_string())),
        ])
        .last()
        .unwrap(),
        "failed: gone"
    );
}

#[test]
fn a_reauth_of_the_account_in_use_is_written() {
    assert_eq!(
        run_reauth(vec![
            SignInEvent::SignedIn(Ok(chatgpt_account("fresh"))),
            SignInEvent::Claims(claims()),
            SignInEvent::Stored(Ok(chatgpt_account("two"))),
            SignInEvent::Loaded(Ok(store(Some("two")))),
            read(),
            done(),
            done(),
        ]),
        [
            "claims i",
            "update two",
            "load",
            "read",
            "write two",
            "touch two",
            "done two Some(\"two\")"
        ]
    );
}

#[test]
fn a_reauth_of_another_account_is_not_written() {
    for active in [None, Some("one")] {
        let seen = run_reauth(vec![
            SignInEvent::SignedIn(Ok(chatgpt_account("fresh"))),
            SignInEvent::Claims(claims()),
            SignInEvent::Stored(Ok(chatgpt_account("two"))),
            SignInEvent::Loaded(Ok(store(active))),
            done(),
        ]);
        assert_eq!(seen[..4], ["claims i", "update two", "load", "touch two"]);
        assert!(seen[4].starts_with("done two"));
    }
}

#[test]
fn a_reauth_updates_the_stored_account() {
    let mut slot = LoginSlot { pending: Some(()) };
    let (step, _) = complete_reauth(&mut slot, "two".to_string()).unwrap();
    let (step, _) = step.step(SignInEvent::SignedIn(Ok(chatgpt_account("fresh"))));
    let (_, action) = step.step(SignInEvent::Claims(claims()));
    match action {
        SignInAction::Update(update) => assert_eq!(
            update,
            TokenUpdate {
                account_id: "two".to_string(),
                id_token: "i".to_string(),
                access_token: "a".to_string(),
                refresh_token: "r".to_string(),
                chatgpt_account_id: Some("acc".to_string()),
                email: Some("a@b.c".to_string()),
                plan_type: Some("plus".to_string()),
                subscription_expires_at: None,
            }
        ),
        _ => panic!("an update"),
    }
}

#[test]
fn a_reauth_with_an_api_key_fails() {
    assert_eq!(
        run_reauth(vec![SignInEvent::SignedIn(Ok(key_account("fresh")))]),
        ["failed: Re-auth returned an API key account unexpectedly"]
    );
}

#[test]
fn a_reauth_stops_at_the_first_failure() {
    assert_eq!(
        run_reauth(vec![
            SignInEvent::SignedIn(Ok(chatgpt_account("fresh"))),
            SignInEvent::Claims(claims()),
            SignInEvent::Stored(Err("no such account".to_string())),
        ]),
        ["claims i", "update two", "failed: no such account"]
    );
    assert_eq!(
        run_reauth(vec![
            SignInEvent::SignedIn(Ok(chatgpt_account("fresh"))),
            SignInEvent::Claims(claims()),
            SignInEvent::Stored(Ok(chatgpt_account("two"))),
            SignInEvent::Loaded(Ok(store(Some("two")))),
            read(),
            SignInEvent::Done(Err("no home".to_string())),
        ])
        .last()
        .unwrap(),
        "failed: no home"
    );
}

#[test]
fn only_the_awaited_kind_of_step_is_taken() {
    assert!(LoginStep::Waiting.is_awaited(&SignInEvent::SignedIn(Err("x".to_string()))));
    assert!(!LoginStep::Waiting.is_awaited(&done()));
    assert!(!LoginStep::Finished.is_awaited(&done()));
    assert!(!ReauthStep::Finished.is_awaited(&done()));
}

/// The stored accounts and the credential file, as the actions leave them. Without a file there is
/// one that cannot be read.
struct World {
    store: AccountsStore,
    file: Option<AuthDotJson>,
}

impl World {
    /// Carries out an action, or hands out the result.
    fn perform(&mut self, action: SignInAction) -> Result<SignInEvent, bool> {
        Ok(match action {
            SignInAction::Add(account) => {
                self.store.accounts.push(account.clone());
                SignInEvent::Stored(Ok(account))
            }
            SignInAction::ReadClaims(_) => SignInEvent::Claims(claims()),
            SignInAction::Update(update) => {
                let account =
                    self.store.accounts.iter_mut().find(|a| a.id == update.account_id).unwrap();
                account.auth_data = AuthData::ChatGPT {
                    id_token: update.id_token,
                    access_token: update.access_token,
                    refresh_token: update.refresh_token,
                    account_id: update.chatgpt_account_id,
                };
                SignInEvent::Stored(Ok(account.clone()))
            }
            SignInAction::SetActive(id) => {
                self.store.active_account_id = Some(id);
                done()
            }
            SignInAction::ReadFile => match &self.file {
                Some(file) => SignInEvent::FileRead(Ok(Some(AuthDotJson {
                    openai_api_key: None,
                    tokens: file.tokens.as_ref().map(|t| TokenData {
                        id_token: t.id_token.clone(),
                        access_token: t.access_token.clone(),
                        refresh_token: t.refresh_token.clone(),
                        account_id: t.account_id.clone(),
                    }),
                    last_refresh: None,
                }))),
                None => SignInEvent::FileRead(Err("Failed to parse auth.json: /x".to_string())),
            },
            SignInAction::Write(account) => {
                let write = switch_to_account(&account, Some("/x".to_string())).unwrap();
                self.file = Some(write.contents);
                done()
            }
            SignInAction::Touch(_) => done(),
            SignInAction::Load => SignInEvent::Loaded(Ok(AccountsStore {
                accounts: self.store.accounts.clone(),
                active_account_id: self.store.active_account_id.clone(),
            })),
            SignInAction::Finish(result) => return Err(result.is_ok()),
        })
    }
}

fn signed_in(id: &str, n: &str) -> StoredAccount {
    StoredAccount::new_chatgpt(
        id.to_string(),
        "name".to_string(),
        None,
        None,
        None,
        format!("id{n}"),
        format!("at{n}"),
        format!("rt{n}"),
        Some("acc".to_string()),
    )
}

/// Account `two` is in use, and the file holds its old tokens.
fn stale_world() -> World {
    World {
        store: AccountsStore {
            accounts: vec![key_account("one"), signed_in("two", "_old")],
            active_account_id: Some("two".to_string()),
        },
        file: Some(AuthDotJson {
            openai_api_key: None,
            tokens: Some(tokens("_old")),
            last_refresh: None,
        }),
    }
}

fn tokens(n: &str) -> TokenData {
    TokenData {
        id_token: format!("id{n}"),
        access_token: format!("at{n}"),
        refresh_token: format!("rt{n}"),
        account_id: Some("acc".to_string()),
    }
}

fn login_in(world: &mut World, account: StoredAccount) -> bool {
    let mut slot = LoginSlot { pending: Some(()) };
    let (mut step, _) = complete_login(&mut slot).unwrap();
    let mut event = SignInEvent::SignedIn(Ok(account));
    loop {
        assert!(step.is_awaited(&event));
        let (next, action) = step.step(event);
        step = next;
        event = match world.perform(action) {
            Ok(event) => event,
            Err(ok) => return ok,
        };
    }
}

fn reauth_in(world: &mut World, account_id: &str, account: StoredAccount) -> bool {
    let mut slot = LoginSlot { pending: Some(()) };
    let (mut step, _) = complete_reauth(&mut slot, account_id.to_string()).unwrap();
    let mut event = SignInEvent::SignedIn(Ok(account));
    loop {
        assert!(step.is_awaited(&event));
        let (next, action) = step.step(event);
        step = next;
        event = match world.perform(action) {
            Ok(event) => event,
            Err(ok) => return ok,
        };
    }
}

#[test]
fn a_reauth_replaces_stale_tokens_in_both_places() {
    let mut world = stale_world();
    assert!(reauth_in(&mut world, "two", signed_in("fresh", "1")));
    assert_eq!(world.file.unwrap().tokens, Some(tokens("1")));
    assert_eq!(world.store.accounts.len(), 2);
    assert_eq!(world.store.accounts[1].auth_data, signed_in("two", "1").auth_data);
    assert_eq!(world.store.accounts[0], key_account("one"));
}

#[test]
fn a_login_for_the_account_in_the_file_writes_its_new_tokens() {
    let mut world = stale_world();
    assert!(login_in(&mut world, signed_in("new", "1")));
    assert_eq!(world.file.unwrap().tokens, Some(tokens("1")));
    assert_eq!(world.store.accounts[2], signed_in("new", "1"));
    assert_eq!(world.store.active_account_id.as_deref(), Some("new"));
}

#[test]
fn a_file_that_cannot_be_read_is_not_written_over() {
    let mut world = stale_world();
    world.file = None;
    assert!(!reauth_in(&mut world, "two", signed_in("fresh", "1")));
    assert!(world.file.is_none());

    let mut world = stale_world();
    world.file = None;
    assert!(!login_in(&mut world, signed_in("new", "1")));
    assert!(world.file.is_none());
}

#[test]
fn a_key_is_written_without_reading_the_file() {
    let mut world = stale_world();
    world.file = None;
    assert!(login_in(&mut world, key_account("new")));
    assert_eq!(world.file.unwrap().openai_api_key.as_deref(), Some("sk"));
}

#[test]
fn an_unreadable_file_is_reported() {
    assert_eq!(
        run_login(vec![
            SignInEvent::SignedIn(Ok(chatgpt_account("new"))),
            SignInEvent::Stored(Ok(chatgpt_account("stored"))),
            done(),
            SignInEvent::FileRead(Err("Failed to read auth.json: /p".to_string())),
        ]),
        ["add new", "activate stored", "read", "failed: Failed to read auth.json: /p"]
    );
    assert_eq!(
        run_reauth(vec![
            SignInEvent::SignedIn(Ok(chatgpt_account("fresh"))),
            SignInEvent::Claims(claims()),
            SignInEvent::Stored(Ok(chatgpt_account("two"))),
            SignInEvent::Loaded(Ok(store(Some("two")))),
            SignInEvent::FileRead(Err("Failed to parse auth.json: /p".to_string())),
        ]),
        ["claims i", "update two", "load", "read", "failed: Failed to parse auth.json: /p"]
    );
}
