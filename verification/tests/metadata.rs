use codex_switcher::account::{StoredAccount, Timestamp};
use codex_switcher::error::ApiError;
use codex_switcher::metadata::{
    accounts_check_request, fetch_chatgpt_account_metadata, select_entry, AccountsCheckAccount,
    AccountsCheckEntitlement, AccountsCheckEntry, AccountsCheckResponse, ChatGptAccountMetadata,
};

const EXPIRY: Timestamp = Timestamp { seconds: 1_800_000_000, nanos: 5 };

fn entry(plan: &str) -> AccountsCheckEntry {
    AccountsCheckEntry {
        account: Some(AccountsCheckAccount { plan_type: Some(plan.to_string()) }),
        entitlement: Some(AccountsCheckEntitlement { expires_at: Some(EXPIRY) }),
    }
}

fn accounts(names: &[&str]) -> Vec<(String, AccountsCheckEntry)> {
    names.iter().map(|name| (name.to_string(), entry(name))).collect()
}

fn plan_of(names: &[&str], id: Option<&str>) -> Option<String> {
    let response = AccountsCheckResponse { accounts: accounts(names) };
    fetch_chatgpt_account_metadata(200, "", Some(response), id).unwrap().plan_type
}

#[test]
fn the_entry_of_the_account_goes_first() {
    assert_eq!(plan_of(&["other", "default", "acc"], Some("acc")).as_deref(), Some("acc"));
    assert_eq!(plan_of(&["acc", "default", "other"], Some("acc")).as_deref(), Some("acc"));
    assert_eq!(select_entry(&accounts(&["x", "acc"]), Some("acc")), Some(1));
}

#[test]
fn the_default_entry_goes_second() {
    assert_eq!(plan_of(&["other", "default"], Some("acc")).as_deref(), Some("default"));
    assert_eq!(plan_of(&["other", "default"], None).as_deref(), Some("default"));
}

#[test]
fn any_entry_goes_last() {
    assert_eq!(plan_of(&["one", "two"], Some("acc")).as_deref(), Some("one"));
    assert_eq!(plan_of(&["one"], None).as_deref(), Some("one"));
}

#[test]
fn an_entry_tells_plan_and_expiry() {
    let response = AccountsCheckResponse { accounts: accounts(&["plus"]) };
    assert_eq!(
        fetch_chatgpt_account_metadata(200, "", Some(response), None),
        Ok(ChatGptAccountMetadata {
            plan_type: Some("plus".to_string()),
            subscription_expires_at: Some(EXPIRY),
        })
    );
}

#[test]
fn an_empty_entry_tells_nothing() {
    let response = AccountsCheckResponse {
        accounts: vec![(
            "acc".to_string(),
            AccountsCheckEntry { account: None, entitlement: None },
        )],
    };
    assert_eq!(
        fetch_chatgpt_account_metadata(200, "", Some(response), Some("acc")),
        Ok(ChatGptAccountMetadata { plan_type: None, subscription_expires_at: None })
    );
}

#[test]
fn no_entry_is_an_error() {
    let response = AccountsCheckResponse { accounts: Vec::new() };
    assert_eq!(
        fetch_chatgpt_account_metadata(200, "", Some(response), Some("acc")),
        Err(ApiError::NoAccountEntry)
    );
    assert_eq!(select_entry(&Vec::new(), None), None);
}

#[test]
fn a_body_that_cannot_be_read_is_an_error() {
    assert_eq!(
        fetch_chatgpt_account_metadata(200, "<html>", None, None),
        Err(ApiError::ParseAccountsCheck)
    );
}

#[test]
fn a_refused_check_is_reported_with_advice() {
    assert_eq!(
        fetch_chatgpt_account_metadata(403, "<html>", None, None),
        Err(ApiError::AccountsCheckBlocked)
    );
}

#[test]
fn a_failed_check_is_reported_with_its_body() {
    let response = AccountsCheckResponse { accounts: accounts(&["plus"]) };
    assert_eq!(
        fetch_chatgpt_account_metadata(502, "bad gateway", Some(response), None)
            .map_err(|e| e.message()),
        Err("Accounts check API error: 502 Bad Gateway - bad gateway".to_string())
    );
}

#[test]
fn the_check_is_asked_of_the_backend() {
    let account = StoredAccount::new_chatgpt(
        "id".to_string(),
        "name".to_string(),
        None,
        None,
        None,
        "i".to_string(),
        "tok".to_string(),
        "r".to_string(),
        Some("acc".to_string()),
    );
    let request = accounts_check_request(&account).unwrap();
    assert_eq!(
        request.url,
        "https://chatgpt.com/backend-api/accounts/check/v4-2023-04-27"
    );
    assert_eq!(request.headers.get("chatgpt-account-id").unwrap(), "acc");
    let key =
        StoredAccount::new_api_key("id".to_string(), "name".to_string(), "sk".to_string());
    assert_eq!(accounts_check_request(&key).err(), Some(ApiError::NotChatGpt));
}
