use codex_switcher::account::StoredAccount;
use codex_switcher::error::ApiError;
use codex_switcher::exchange::{Exchange, ExchangeAction, ExchangeEvent};

fn account(token: &str) -> StoredAccount {
    StoredAccount::new_chatgpt(
        "id".to_string(),
        "name".to_string(),
        None,
        None,
        None,
        "i".to_string(),
        token.to_string(),
        "r".to_string(),
        Some("acc".to_string()),
    )
}

fn key_account() -> StoredAccount {
    StoredAccount::new_api_key("id".to_string(), "name".to_string(), "sk".to_string())
}

fn run(events: Vec<ExchangeEvent>) -> Vec<String> {
    let (mut state, action) = Exchange::begin();
    let mut seen = vec![describe(action)];
    for event in events {
        assert!(state.is_awaited(&event));
        let (next, action) = state.step(event);
        state = next;
        seen.push(describe(action));
    }
    assert!(!matches!(state, Exchange::Finished) || !state.is_awaited(&response(200)));
    seen
}

fn describe(action: ExchangeAction) -> String {
    match action {
        ExchangeAction::EnsureFresh => "fresh".to_string(),
        ExchangeAction::Send { access_token, chatgpt_account_id } => {
            format!("send {access_token} {}", chatgpt_account_id.unwrap())
        }
        ExchangeAction::Refresh { account } => format!("refresh {}", account.id),
        ExchangeAction::Deliver { account, status } => format!("deliver {} {status}", account.id),
        ExchangeAction::Fail(e) => format!("fail {}", e.message()),
    }
}

fn tokens(token: &str) -> ExchangeEvent {
    ExchangeEvent::Tokens(Ok(account(token)))
}

fn response(status: u16) -> ExchangeEvent {
    ExchangeEvent::Response(Ok(status))
}

#[test]
fn an_accepted_request_is_sent_once() {
    assert_eq!(
        run(vec![tokens("t1"), response(200)]),
        ["fresh", "send t1 acc", "deliver id 200"]
    );
}

#[test]
fn an_unauthorized_request_is_retried_with_new_tokens() {
    assert_eq!(
        run(vec![tokens("t1"), response(401), tokens("t2"), response(200)]),
        ["fresh", "send t1 acc", "refresh id", "send t2 acc", "deliver id 200"]
    );
}

#[test]
fn a_second_refusal_is_delivered() {
    assert_eq!(
        run(vec![tokens("t1"), response(401), tokens("t2"), response(401)]),
        ["fresh", "send t1 acc", "refresh id", "send t2 acc", "deliver id 401"]
    );
}

#[test]
fn a_challenge_spends_no_refresh_token() {
    assert_eq!(
        run(vec![tokens("t1"), response(403)]),
        ["fresh", "send t1 acc", "deliver id 403"]
    );
}

#[test]
fn tokens_that_cannot_be_had_end_the_exchange() {
    assert_eq!(
        run(vec![ExchangeEvent::Tokens(Err("expired".to_string()))]),
        ["fresh", "fail expired"]
    );
    assert_eq!(
        run(vec![
            tokens("t1"),
            response(401),
            ExchangeEvent::Tokens(Err("refresh_token_reused".to_string())),
        ]),
        ["fresh", "send t1 acc", "refresh id", "fail refresh_token_reused"]
    );
}

#[test]
fn a_request_that_cannot_be_sent_ends_the_exchange() {
    assert_eq!(
        run(vec![tokens("t1"), ExchangeEvent::Response(Err(ApiError::InvalidAccessToken))]),
        ["fresh", "send t1 acc", "fail Invalid access token"]
    );
    assert_eq!(
        run(vec![
            tokens("t1"),
            response(401),
            tokens("t2"),
            ExchangeEvent::Response(Err(ApiError::ChatGptWarmup)),
        ]),
        [
            "fresh",
            "send t1 acc",
            "refresh id",
            "send t2 acc",
            "fail Failed to send ChatGPT warm-up request"
        ]
    );
}

#[test]
fn an_api_key_account_ends_the_exchange() {
    assert_eq!(
        run(vec![ExchangeEvent::Tokens(Ok(key_account()))]),
        ["fresh", "fail Account is not using ChatGPT OAuth"]
    );
}

#[test]
fn only_the_awaited_kind_of_event_is_taken() {
    let (state, _) = Exchange::begin();
    assert!(state.is_awaited(&tokens("t")));
    assert!(!state.is_awaited(&response(200)));
}
