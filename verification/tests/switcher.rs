use codex_switcher::account::{
    AuthData, AuthDotJson, IdTokenClaims, StoredAccount, Timestamp, TokenData, TokenUpdate,
};
use codex_switcher::switcher::{
    auth_file_in, auth_write, codex_home_under, create_auth_json, create_auth_json_at,
    get_codex_auth_file, get_codex_home, has_active_login, import_from_auth_json,
    import_from_auth_json_contents, read_current_auth, switch_to_account,
    sync_tokens_from_auth_json, AuthFile, CodexPath, ImportError, PathBase, Switch, SwitchAction,
    SwitchError, SwitchEvent, SyncDecision, AUTH_FILE_MODE,
};

const NOW: Timestamp = Timestamp { seconds: 1_700_000_000, nanos: 1 };

fn some(s: &str) -> Option<String> {
    Some(s.to_string())
}

fn key_account() -> StoredAccount {
    StoredAccount::new_api_key("id-1".to_string(), "work".to_string(), "sk-1".to_string())
}

fn chatgpt_account(access: &str, refresh: &str, account_id: Option<&str>) -> StoredAccount {
    StoredAccount::new_chatgpt(
        "id-2".to_string(),
        "home".to_string(),
        None,
        None,
        None,
        "idt".to_string(),
        access.to_string(),
        refresh.to_string(),
        account_id.map(|id| id.to_string()),
    )
}

fn no_claims() -> IdTokenClaims {
    IdTokenClaims { email: None, plan_type: None, subscription_expires_at: None, account_id: None }
}

fn claims(account_id: &str) -> IdTokenClaims {
    IdTokenClaims {
        email: some("a@b.c"),
        plan_type: some("plus"),
        subscription_expires_at: Some(NOW),
        account_id: some(account_id),
    }
}

fn tokens(access: &str, refresh: &str, account_id: Option<&str>) -> AuthDotJson {
    AuthDotJson {
        openai_api_key: None,
        tokens: Some(TokenData {
            id_token: "disk-idt".to_string(),
            access_token: access.to_string(),
            refresh_token: refresh.to_string(),
            account_id: account_id.map(|id| id.to_string()),
        }),
        last_refresh: None,
    }
}

#[test]
fn the_home_can_be_named() {
    assert_eq!(
        codex_home_under(some("/x"), Some("/home/me")),
        Ok(CodexPath { base: PathBase::Named("/x".to_string()), segments: vec![] })
    );
    assert_eq!(
        get_codex_home(some("/x")),
        Ok(CodexPath { base: PathBase::Named("/x".to_string()), segments: vec![] })
    );
    assert_eq!(
        get_codex_auth_file(some("/x")).unwrap().segments,
        vec!["auth.json".to_string()]
    );
}

#[test]
fn the_home_is_else_in_the_home_directory() {
    assert_eq!(
        codex_home_under(None, Some("/home/me")),
        Ok(CodexPath { base: PathBase::Home("/home/me"), segments: vec![".codex".to_string()] })
    );
    match get_codex_auth_file(None) {
        Ok(path) => {
            assert_eq!(path.segments, vec![".codex".to_string(), "auth.json".to_string()]);
            assert!(matches!(path.base, PathBase::Home(_)));
        }
        Err(e) => assert_eq!(e, SwitchError::NoHome),
    }
}

#[test]
fn the_home_directory_is_asked_for() {
    match get_codex_home(None) {
        Ok(path) => match path.base {
            PathBase::Home(home) => assert_eq!(Some(home), dirs::home_dir()),
            PathBase::Named(_) => panic!("nothing was named"),
        },
        Err(_) => assert_eq!(dirs::home_dir(), None),
    }
}

#[test]
fn without_any_home_there_is_an_error() {
    let none: Option<&str> = None;
    assert_eq!(codex_home_under(None, none), Err(SwitchError::NoHome));
}

#[test]
fn the_credential_file_lies_in_the_home() {
    let home = CodexPath { base: PathBase::Home(7), segments: vec![".codex".to_string()] };
    assert_eq!(
        auth_file_in(home),
        CodexPath {
            base: PathBase::Home(7),
            segments: vec![".codex".to_string(), "auth.json".to_string()],
        }
    );
}

#[test]
fn a_key_is_written_alone() {
    assert_eq!(
        create_auth_json_at(&key_account(), NOW),
        AuthDotJson { openai_api_key: some("sk-1"), tokens: None, last_refresh: None }
    );
    assert_eq!(create_auth_json(&key_account()), create_auth_json_at(&key_account(), NOW));
}

#[test]
fn tokens_are_written_with_the_time() {
    assert_eq!(
        create_auth_json_at(&chatgpt_account("a", "r", Some("acc")), NOW),
        AuthDotJson {
            openai_api_key: None,
            tokens: Some(TokenData {
                id_token: "idt".to_string(),
                access_token: "a".to_string(),
                refresh_token: "r".to_string(),
                account_id: some("acc"),
            }),
            last_refresh: Some(NOW),
        }
    );
}

#[test]
fn the_time_is_the_present() {
    let before = chrono::Utc::now().timestamp();
    let auth = create_auth_json(&chatgpt_account("a", "r", None));
    let after = chrono::Utc::now().timestamp();
    let written = auth.last_refresh.unwrap();
    assert!(before <= written.seconds && written.seconds <= after);
    assert!(written.nanos < 1_000_000_000);
}

#[test]
fn a_switch_writes_the_file_for_its_owner() {
    let home = CodexPath { base: PathBase::Home(0), segments: vec![".codex".to_string()] };
    let write = auth_write(&key_account(), home, NOW);
    assert_eq!(write.file_name, "auth.json");
    assert_eq!(write.mode, 0o600);
    assert_eq!(AUTH_FILE_MODE, 384);
    assert_eq!(write.contents.openai_api_key.as_deref(), Some("sk-1"));

    let write = switch_to_account(&key_account(), some("/x")).unwrap();
    assert_eq!(write.directory.base, PathBase::Named("/x".to_string()));
    assert_eq!(write.contents, create_auth_json_at(&key_account(), NOW));
}

#[test]
fn a_credential_file_is_read() {
    assert_eq!(read_current_auth("/p", AuthFile::Missing), Ok(None));
    assert_eq!(
        read_current_auth("/p", AuthFile::Present(tokens("a", "r", None))),
        Ok(Some(tokens("a", "r", None)))
    );
    assert_eq!(
        read_current_auth("/p", AuthFile::Unreadable).map_err(|e| e.message()),
        Err("Failed to read auth.json: /p".to_string())
    );
    assert_eq!(
        read_current_auth("/p", AuthFile::Malformed).map_err(|e| e.message()),
        Err("Failed to parse auth.json: /p".to_string())
    );
}

#[test]
fn credentials_of_either_kind_are_a_login() {
    let empty = AuthDotJson { openai_api_key: None, tokens: None, last_refresh: Some(NOW) };
    assert_eq!(has_active_login(Ok(Some(empty))), Ok(false));
    assert_eq!(has_active_login(Ok(None)), Ok(false));
    assert_eq!(has_active_login(Ok(Some(tokens("a", "r", None)))), Ok(true));
    assert_eq!(has_active_login(Ok(Some(create_auth_json(&key_account())))), Ok(true));
    assert_eq!(has_active_login(Err(SwitchError::NoHome)), Err(SwitchError::NoHome));
}

#[test]
fn a_key_is_imported_before_tokens() {
    let mut auth = tokens("a", "r", None);
    auth.openai_api_key = some("sk-9");
    let account = import_from_auth_json_contents(
        Some(auth),
        claims("acc"),
        "new".to_string(),
        "n".to_string(),
    );
    assert_eq!(
        account,
        Ok(StoredAccount::new_api_key("new".to_string(), "n".to_string(), "sk-9".to_string()))
    );
}

#[test]
fn tokens_are_imported_with_their_claims() {
    let account = import_from_auth_json_contents(
        Some(tokens("a", "r", Some("beside"))),
        claims("claimed"),
        "new".to_string(),
        "n".to_string(),
    )
    .unwrap();
    assert_eq!(account.email.as_deref(), Some("a@b.c"));
    assert_eq!(account.plan_type.as_deref(), Some("plus"));
    assert_eq!(account.subscription_expires_at, Some(NOW));
    assert_eq!(
        account.auth_data,
        AuthData::ChatGPT {
            id_token: "disk-idt".to_string(),
            access_token: "a".to_string(),
            refresh_token: "r".to_string(),
            account_id: some("claimed"),
        }
    );
    let account = import_from_auth_json_contents(
        Some(tokens("a", "r", Some("beside"))),
        no_claims(),
        "new".to_string(),
        "n".to_string(),
    )
    .unwrap();
    assert!(matches!(
        account.auth_data,
        AuthData::ChatGPT { account_id: Some(id), .. } if id == "beside"
    ));
}

#[test]
fn nothing_to_import_is_an_error() {
    let empty = AuthDotJson { openai_api_key: None, tokens: None, last_refresh: None };
    let result = import_from_auth_json_contents(
        Some(empty),
        no_claims(),
        "new".to_string(),
        "n".to_string(),
    );
    assert_eq!(result, Err(ImportError::NoCredentials));
    assert_eq!(
        ImportError::NoCredentials.message(),
        "auth.json contains neither API key nor tokens"
    );
    let result =
        import_from_auth_json_contents(None, no_claims(), "new".to_string(), "n".to_string());
    assert_eq!(result, Err(ImportError::Malformed));
    assert_eq!(ImportError::Malformed.message(), "Failed to parse auth.json contents");
}

#[test]
fn an_import_from_a_file_names_the_file() {
    let import = |file| import_from_auth_json("/f", file, "new".to_string(), "n".to_string());
    assert_eq!(
        import(None).map_err(|e| e.message()),
        Err("Failed to read auth.json: /f".to_string())
    );
    let error = import(Some((None, no_claims()))).unwrap_err();
    assert_eq!(
        error,
        SwitchError::Import { path: "/f".to_string(), cause: ImportError::Malformed }
    );
    assert_eq!(error.message(), "Failed to parse auth.json: /f");
    let empty = AuthDotJson { openai_api_key: None, tokens: None, last_refresh: None };
    assert_eq!(
        import(Some((Some(empty), no_claims()))),
        Err(SwitchError::Import { path: "/f".to_string(), cause: ImportError::NoCredentials })
    );
    assert!(import(Some((Some(tokens("a", "r", None)), no_claims()))).is_ok());
}

#[test]
fn an_import_reads_back_what_was_written() {
    for account in [key_account(), chatgpt_account("a", "r", Some("acc"))] {
        let back = import_from_auth_json_contents(
            Some(create_auth_json(&account)),
            no_claims(),
            "new".to_string(),
            "n".to_string(),
        )
        .unwrap();
        assert_eq!(back.auth_data, account.auth_data);
    }
}

fn sync(
    account: &StoredAccount,
    auth: Option<AuthDotJson>,
    claims: IdTokenClaims,
) -> SyncDecision {
    sync_tokens_from_auth_json(account, Ok(auth), claims).unwrap()
}

#[test]
fn rotated_tokens_of_the_same_account_are_taken_over() {
    let account = chatgpt_account("a1", "r1", Some("acc"));
    assert_eq!(
        sync(&account, Some(tokens("a2", "r2", Some("acc"))), claims("ignored")),
        SyncDecision::Absorb(TokenUpdate {
            account_id: "id-2".to_string(),
            id_token: "disk-idt".to_string(),
            access_token: "a2".to_string(),
            refresh_token: "r2".to_string(),
            chatgpt_account_id: some("acc"),
            email: some("a@b.c"),
            plan_type: some("plus"),
            subscription_expires_at: Some(NOW),
        })
    );
}

#[test]
fn the_id_token_can_name_the_account() {
    let account = chatgpt_account("a1", "r1", Some("acc"));
    match sync(&account, Some(tokens("a1", "r2", None)), claims("acc")) {
        SyncDecision::Absorb(update) => {
            assert_eq!(update.chatgpt_account_id.as_deref(), Some("acc"))
        }
        SyncDecision::Keep => panic!("the refresh token was rotated"),
    }
}

#[test]
fn tokens_of_another_account_are_left_alone() {
    let account = chatgpt_account("a1", "r1", Some("acc"));
    assert_eq!(
        sync(&account, Some(tokens("a2", "r1", Some("other"))), no_claims()),
        SyncDecision::Keep
    );
}

#[test]
fn without_account_ids_the_refresh_tokens_decide() {
    let account = chatgpt_account("a1", "r1", None);
    assert_eq!(
        sync(&account, Some(tokens("a2", "r2", Some("acc"))), no_claims()),
        SyncDecision::Keep
    );
    assert!(matches!(
        sync(&account, Some(tokens("a2", "r1", Some("acc"))), no_claims()),
        SyncDecision::Absorb(_)
    ));
    let account = chatgpt_account("a1", "r1", Some("acc"));
    assert!(matches!(
        sync(&account, Some(tokens("a2", "r1", None)), no_claims()),
        SyncDecision::Absorb(_)
    ));
}

#[test]
fn identical_tokens_are_kept() {
    let account = chatgpt_account("a1", "r1", Some("acc"));
    assert_eq!(
        sync(&account, Some(tokens("a1", "r1", Some("acc"))), no_claims()),
        SyncDecision::Keep
    );
    assert_eq!(sync(&account, Some(create_auth_json(&account)), no_claims()), SyncDecision::Keep);
}

#[test]
fn without_tokens_in_the_file_the_account_is_kept() {
    let account = chatgpt_account("a1", "r1", Some("acc"));
    assert_eq!(sync(&account, None, no_claims()), SyncDecision::Keep);
    assert_eq!(
        sync(&account, Some(create_auth_json(&key_account())), no_claims()),
        SyncDecision::Keep
    );
}

#[test]
fn a_file_that_cannot_be_read_stops_a_chatgpt_switch_only() {
    let failed = || Err(SwitchError::Read { path: "/p".to_string() });
    assert_eq!(
        sync_tokens_from_auth_json(&chatgpt_account("a", "r", None), failed(), no_claims()),
        Err(SwitchError::Read { path: "/p".to_string() })
    );
    assert_eq!(
        sync_tokens_from_auth_json(&key_account(), failed(), no_claims()),
        Ok(SyncDecision::Keep)
    );
}

fn updated(account: &StoredAccount, update: TokenUpdate) -> StoredAccount {
    StoredAccount::new_chatgpt(
        update.account_id,
        account.name.clone(),
        update.email,
        update.plan_type,
        update.subscription_expires_at,
        update.id_token,
        update.access_token,
        update.refresh_token,
        update.chatgpt_account_id,
    )
}

/// The account that is written in the end.
fn switch(account: &StoredAccount, auth: Option<AuthDotJson>) -> StoredAccount {
    let (state, action) = Switch::begin(account);
    assert!(matches!(action, SwitchAction::ReadFile));
    let event = SwitchEvent::Current { current: Ok(auth), claims: no_claims() };
    assert!(state.is_awaited(&event));
    let (state, action) = state.step(event);
    let (state, action) = match action {
        SwitchAction::Update(update) => {
            let event = SwitchEvent::Updated(Ok(updated(account, update)));
            assert!(state.is_awaited(&event));
            state.step(event)
        }
        action => (state, action),
    };
    assert!(matches!(state, Switch::Finished));
    match action {
        SwitchAction::Write(account) => account,
        _ => panic!("nothing failed"),
    }
}

#[test]
fn the_tokens_on_disk_are_written_back() {
    let account = chatgpt_account("a1", "r1", Some("acc"));
    let synced = switch(&account, Some(tokens("a2", "r2", Some("acc"))));
    let written = create_auth_json(&synced).tokens.unwrap();
    assert_eq!((written.access_token.as_str(), written.refresh_token.as_str()), ("a2", "r2"));
    assert_eq!(written.id_token, "disk-idt");
    assert_eq!(switch(&synced, Some(tokens("a2", "r2", Some("acc")))), synced);
    assert_eq!(
        sync(&synced, Some(tokens("a2", "r2", Some("acc"))), no_claims()),
        SyncDecision::Keep
    );
}

#[test]
fn an_account_without_tokens_on_disk_is_written_as_stored() {
    let account = chatgpt_account("a1", "r1", Some("acc"));
    assert_eq!(switch(&account, None), account);
    assert_eq!(switch(&account, Some(tokens("a2", "r2", Some("other")))), account);
}

#[test]
fn a_switch_to_a_key_reads_no_file() {
    match Switch::begin(&key_account()) {
        (Switch::Finished, SwitchAction::Write(account)) => assert_eq!(account, key_account()),
        _ => panic!("the key is written"),
    }
}

#[test]
fn a_failed_step_of_a_switch_writes_nothing() {
    let account = chatgpt_account("a1", "r1", Some("acc"));
    let (state, _) = Switch::begin(&account);
    let (state, action) = state.step(SwitchEvent::Current {
        current: Err(SwitchError::NoHome),
        claims: no_claims(),
    });
    assert!(matches!(state, Switch::Finished));
    assert!(matches!(action, SwitchAction::Fail(SwitchError::NoHome)));

    let (state, _) = Switch::begin(&account);
    let (state, _) = state.step(SwitchEvent::Current {
        current: Ok(Some(tokens("a2", "r2", Some("acc")))),
        claims: no_claims(),
    });
    let (_, action) = state.step(SwitchEvent::Updated(Err("no such account".to_string())));
    match action {
        SwitchAction::Fail(e) => assert_eq!(e.message(), "no such account"),
        _ => panic!("the update failed"),
    }
}

#[test]
fn only_the_awaited_kind_of_switch_event_is_taken() {
    let (state, _) = Switch::begin(&chatgpt_account("a1", "r1", None));
    assert!(!state.is_awaited(&SwitchEvent::Updated(Err("x".to_string()))));
    assert!(!Switch::Finished.is_awaited(&SwitchEvent::Updated(Err("x".to_string()))));
}

#[test]
fn switch_errors_are_reported_in_words() {
    let path = || "/p".to_string();
    let reports = [
        (SwitchError::NoHome, "Could not find home directory"),
        (SwitchError::CreateHome { path: path() }, "Failed to create codex home: /p"),
        (SwitchError::Serialize, "Failed to serialize auth.json"),
        (SwitchError::Write { path: path() }, "Failed to write auth.json: /p"),
        (SwitchError::Other { message: "disk full".to_string() }, "disk full"),
    ];
    for (error, report) in reports {
        assert_eq!(error.message(), report);
    }
}
