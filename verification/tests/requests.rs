use codex_switcher::account::StoredAccount;
use codex_switcher::error::ApiError;
use codex_switcher::headers::{build_api_key_headers, build_chatgpt_headers, BROWSER_USER_AGENT};
use codex_switcher::json::Json;
use codex_switcher::message::extract_last_text_from_value;
use codex_switcher::requests::{
    api_key_warmup_request, build_warmup_payload, chatgpt_get_request, chatgpt_usage_request,
    chatgpt_warmup_request, exchange_request, extract_chatgpt_auth, ExchangeRequest, Purpose,
};
use codex_switcher::status::is_success;
use codex_switcher::warmup::{
    warmup_account, warmup_with_api_key, warmup_with_chatgpt_auth, WarmupPlan,
};
use serde_json::Value;

fn api_key_account(key: &str) -> StoredAccount {
    StoredAccount::new_api_key("id-1".to_string(), "work".to_string(), key.to_string())
}

fn chatgpt_account(account_id: Option<&str>) -> StoredAccount {
    StoredAccount::new_chatgpt(
        "id-2".to_string(),
        "home".to_string(),
        None,
        None,
        None,
        "id-token".to_string(),
        "access".to_string(),
        "refresh".to_string(),
        account_id.map(|id| id.to_string()),
    )
}

fn to_value(json: &Json) -> Value {
    match json {
        Json::Null => Value::Null,
        Json::Bool(b) => Value::Bool(*b),
        Json::Number(n) => serde_json::from_str(n).unwrap(),
        Json::Text(s) => Value::String(s.clone()),
        Json::Array(items) => Value::Array(items.iter().map(to_value).collect()),
        Json::Object(members) => {
            Value::Object(members.iter().map(|(name, v)| (name.clone(), to_value(v))).collect())
        }
    }
}

fn header<'a>(headers: &'a reqwest::header::HeaderMap, name: &str) -> &'a str {
    headers.get(name).unwrap().to_str().unwrap()
}

#[test]
fn chatgpt_headers_look_like_those_of_a_browser() {
    let headers = build_chatgpt_headers("tok", Some("acc-1")).unwrap();
    assert_eq!(headers.len(), 10);
    assert_eq!(
        header(&headers, "user-agent"),
        "Mozilla/5.0 (Windows NT 10.0; Win64; x64) AppleWebKit/537.36 (KHTML, like Gecko) \
         Chrome/136.0.0.0 Safari/537.36"
    );
    assert_eq!(header(&headers, "authorization"), "Bearer tok");
    assert_eq!(header(&headers, "accept"), "application/json, text/plain, */*");
    assert_eq!(header(&headers, "accept-language"), "en-US,en;q=0.9");
    assert_eq!(header(&headers, "origin"), "https://chatgpt.com");
    assert_eq!(header(&headers, "referer"), "https://chatgpt.com");
    assert_eq!(header(&headers, "sec-fetch-dest"), "empty");
    assert_eq!(header(&headers, "sec-fetch-mode"), "cors");
    assert_eq!(header(&headers, "sec-fetch-site"), "same-origin");
    assert_eq!(header(&headers, "chatgpt-account-id"), "acc-1");
}

#[test]
fn without_an_account_id_no_header_carries_one() {
    let headers = build_chatgpt_headers("tok", None).unwrap();
    assert_eq!(headers.len(), 9);
    assert!(!headers.contains_key("chatgpt-account-id"));
}

#[test]
fn an_account_id_that_cannot_be_sent_is_left_out() {
    let headers = build_chatgpt_headers("tok", Some("a\nb")).unwrap();
    assert_eq!(headers.len(), 9);
    assert!(!headers.contains_key("chatgpt-account-id"));
    assert_eq!(header(&headers, "authorization"), "Bearer tok");
}

#[test]
fn a_token_that_cannot_be_sent_is_an_error() {
    for token in ["a\nb", "\u{7f}", "\0", "a\r"] {
        assert_eq!(
            build_chatgpt_headers(token, None).err(),
            Some(ApiError::InvalidAccessToken)
        );
        assert!(build_api_key_headers(token).is_none());
    }
}

#[test]
fn tabs_and_other_alphabets_can_be_sent() {
    let headers = build_chatgpt_headers("a\tb", Some("\u{e9}")).unwrap();
    assert_eq!(headers.get("authorization").unwrap().as_bytes(), b"Bearer a\tb");
    assert_eq!(headers.get("chatgpt-account-id").unwrap().as_bytes(), "\u{e9}".as_bytes());
    assert!(build_chatgpt_headers("", None).is_ok());
}

#[test]
fn api_key_headers_carry_the_key() {
    let headers = build_api_key_headers("sk-1").unwrap();
    assert_eq!(headers.len(), 2);
    assert_eq!(header(&headers, "user-agent"), BROWSER_USER_AGENT);
    assert_eq!(header(&headers, "authorization"), "Bearer sk-1");
}

#[test]
fn chatgpt_accounts_have_a_token_to_send() {
    assert_eq!(
        extract_chatgpt_auth(&chatgpt_account(Some("acc"))),
        Ok(("access", Some("acc")))
    );
    assert_eq!(extract_chatgpt_auth(&chatgpt_account(None)), Ok(("access", None)));
}

#[test]
fn api_key_accounts_have_no_token_to_send() {
    assert_eq!(extract_chatgpt_auth(&api_key_account("sk-1")), Err(ApiError::NotChatGpt));
}

#[test]
fn usage_is_asked_of_the_backend() {
    let request = chatgpt_usage_request("tok", Some("acc")).unwrap();
    assert_eq!(request.url, "https://chatgpt.com/backend-api/wham/usage");
    assert_eq!(header(&request.headers, "authorization"), "Bearer tok");
    assert_eq!(header(&request.headers, "chatgpt-account-id"), "acc");
    assert_eq!(chatgpt_usage_request("\n", None).err(), Some(ApiError::InvalidAccessToken));
}

#[test]
fn get_requests_go_where_they_are_sent() {
    let request = chatgpt_get_request("https://example.org/x", "tok", None).unwrap();
    assert_eq!(request.url, "https://example.org/x");
    assert_eq!(request.headers.len(), 9);
}

#[test]
fn the_warmup_payload_greets_a_small_model() {
    let expected: Value = serde_json::from_str(
        r#"{
            "model": "gpt-5.4-mini",
            "instructions": "You are Codex.",
            "input": [{
                "type": "message",
                "role": "user",
                "content": [{"type": "input_text", "text": "Hi"}]
            }],
            "tools": [],
            "tool_choice": "auto",
            "parallel_tool_calls": false,
            "reasoning": {"effort": "low"},
            "store": false,
            "stream": true
        }"#,
    )
    .unwrap();
    assert_eq!(to_value(&build_warmup_payload(true, false)), expected);

    let mut limited = expected.clone();
    limited["stream"] = Value::Bool(false);
    limited["max_output_tokens"] = Value::from(1);
    assert_eq!(to_value(&build_warmup_payload(false, true)), limited);
}

#[test]
fn the_greeting_is_the_text_of_the_payload() {
    assert_eq!(
        extract_last_text_from_value(&build_warmup_payload(true, true)).as_deref(),
        Some("Hi")
    );
}

#[test]
fn chatgpt_accounts_are_warmed_up_with_a_stream() {
    let request = chatgpt_warmup_request("tok", None, true).unwrap();
    assert_eq!(request.url, "https://chatgpt.com/backend-api/codex/responses");
    assert_eq!(request.headers.len(), 9);
    let body = to_value(&request.body);
    assert_eq!(body["stream"], Value::Bool(true));
    assert!(body.get("max_output_tokens").is_none());
    assert_eq!(
        chatgpt_warmup_request("\n", None, true).err(),
        Some(ApiError::InvalidAccessToken)
    );
}

#[test]
fn api_key_accounts_are_warmed_up_with_one_token() {
    let request = api_key_warmup_request("sk-1").unwrap();
    assert_eq!(request.url, "https://api.openai.com/v1/responses");
    assert_eq!(header(&request.headers, "authorization"), "Bearer sk-1");
    let body = to_value(&request.body);
    assert_eq!(body["stream"], Value::Bool(false));
    assert_eq!(body["max_output_tokens"], Value::from(1));
    assert_eq!(api_key_warmup_request("\n").err(), Some(ApiError::ApiKeyWarmup));
}

#[test]
fn the_kind_of_account_decides_the_warmup() {
    assert!(matches!(warmup_account(&chatgpt_account(None)), Ok(WarmupPlan::ChatGpt)));
    match warmup_account(&api_key_account("sk-1")) {
        Ok(WarmupPlan::ApiKey(request)) => {
            assert_eq!(header(&request.headers, "authorization"), "Bearer sk-1")
        }
        _ => panic!("a request with the key"),
    }
    assert!(matches!(warmup_account(&api_key_account("\n")), Err(ApiError::ApiKeyWarmup)));
}

#[test]
fn a_warmup_that_is_not_accepted_is_an_error() {
    assert_eq!(warmup_with_chatgpt_auth(200), Ok(()));
    assert_eq!(
        warmup_with_chatgpt_auth(403).map_err(|e| e.message()),
        Err("ChatGPT warm-up failed with status 403 Forbidden".to_string())
    );
    assert_eq!(warmup_with_api_key(204), Ok(()));
    assert_eq!(
        warmup_with_api_key(500).map_err(|e| e.message()),
        Err("API key warm-up failed with status 500 Internal Server Error".to_string())
    );
}

#[test]
fn success_is_a_matter_of_the_status() {
    assert!(is_success(200) && is_success(299));
    assert!(!is_success(199) && !is_success(300) && !is_success(401));
}

#[test]
fn errors_are_reported_in_words() {
    let reports = [
        (ApiError::NotChatGpt, "Account is not using ChatGPT OAuth"),
        (ApiError::InvalidAccessToken, "Invalid access token"),
        (
            ApiError::Get { url: "https://x".to_string() },
            "Failed to send GET request to https://x",
        ),
        (ApiError::ChatGptWarmup, "Failed to send ChatGPT warm-up request"),
        (ApiError::ApiKeyWarmup, "Failed to send API key warm-up request"),
        (ApiError::ReadBody, "Failed to read response body"),
        (ApiError::ParseUsage, "Failed to parse usage response"),
        (
            ApiError::AccountsCheckBlocked,
            "Accounts check API blocked by Cloudflare (403). \
             This usually means your session tokens are stale. \
             Try removing and re-adding the account.",
        ),
        (
            ApiError::AccountsCheck { status: 500, body: "oops".to_string() },
            "Accounts check API error: 500 Internal Server Error - oops",
        ),
        (ApiError::ParseAccountsCheck, "Failed to parse accounts check response"),
        (
            ApiError::NoAccountEntry,
            "Accounts check response did not include an account entry",
        ),
        (
            ApiError::ChatGptWarmupStatus { status: 429 },
            "ChatGPT warm-up failed with status 429 Too Many Requests",
        ),
        (
            ApiError::ApiKeyWarmupStatus { status: 401 },
            "API key warm-up failed with status 401 Unauthorized",
        ),
        (ApiError::Tokens { message: "no refresh".to_string() }, "no refresh"),
    ];
    for (error, report) in reports {
        assert_eq!(error.message(), report);
    }
}

#[test]
fn an_exchange_sends_what_it_is_for() {
    match exchange_request(Purpose::Usage, "tok", Some("acc")) {
        Ok(ExchangeRequest::Get(request)) => {
            assert_eq!(request.url, "https://chatgpt.com/backend-api/wham/usage");
            assert_eq!(header(&request.headers, "authorization"), "Bearer tok");
            assert_eq!(header(&request.headers, "chatgpt-account-id"), "acc");
        }
        _ => panic!("usage is read with a GET request"),
    }
    match exchange_request(Purpose::Warmup, "tok", None) {
        Ok(ExchangeRequest::Post(request)) => {
            assert_eq!(request.url, "https://chatgpt.com/backend-api/codex/responses");
            assert_eq!(request.headers.len(), 9);
            assert_eq!(
                to_value(&request.body),
                to_value(&build_warmup_payload(true, false))
            );
        }
        _ => panic!("an account is warmed up with a POST request"),
    }
    for purpose in [Purpose::Usage, Purpose::Warmup] {
        assert_eq!(
            exchange_request(purpose, "a\nb", None).err(),
            Some(ApiError::InvalidAccessToken)
        );
    }
}
