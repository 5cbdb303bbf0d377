use codex_switcher::account::StoredAccount;
use codex_switcher::error::ApiError;
use codex_switcher::usage::{
    convert_payload_to_usage_info, extract_credits, extract_rate_limits, get_account_usage,
    is_session_window, is_weekly_window, parse_usage_response, refresh_all_usage,
    refresh_concurrency, to_minutes, usage_or_error, CreditStatusDetails, RateLimitDetails,
    RateLimitStatusPayload, RateLimitWindow, UsageBody, UsageInfo, UsageSource,
    SESSION_WINDOW_SECONDS, WEEKLY_WINDOW_SECONDS,
};

fn rate_limit_window(used_percent: f64, window_seconds: i32) -> RateLimitWindow<f64> {
    RateLimitWindow {
        used_percent,
        limit_window_seconds: Some(window_seconds),
        reset_at: Some(1_800_000_000),
    }
}

fn api_key_account() -> StoredAccount {
    StoredAccount::new_api_key("id-1".to_string(), "work".to_string(), "sk-1".to_string())
}

fn chatgpt_account() -> StoredAccount {
    StoredAccount::new_chatgpt(
        "id-2".to_string(),
        "home".to_string(),
        None,
        None,
        None,
        "id-token".to_string(),
        "access".to_string(),
        "refresh".to_string(),
        Some("acc".to_string()),
    )
}

fn payload() -> RateLimitStatusPayload<f64> {
    RateLimitStatusPayload {
        plan_type: "plus".to_string(),
        rate_limit: Some(RateLimitDetails {
            primary_window: Some(rate_limit_window(82.0, WEEKLY_WINDOW_SECONDS)),
            secondary_window: Some(rate_limit_window(27.5, SESSION_WINDOW_SECONDS)),
        }),
        credits: Some(CreditStatusDetails {
            has_credits: true,
            unlimited: false,
            balance: Some("12.50".to_string()),
        }),
    }
}

#[test]
fn keeps_legacy_session_and_weekly_windows_in_place() {
    let (session, weekly) = extract_rate_limits(Some(RateLimitDetails {
        primary_window: Some(rate_limit_window(27.0, SESSION_WINDOW_SECONDS)),
        secondary_window: Some(rate_limit_window(82.0, WEEKLY_WINDOW_SECONDS)),
    }));

    assert_eq!(
        session.and_then(|window| window.limit_window_seconds),
        Some(SESSION_WINDOW_SECONDS)
    );
    assert_eq!(
        weekly.and_then(|window| window.limit_window_seconds),
        Some(WEEKLY_WINDOW_SECONDS)
    );
}

#[test]
fn moves_weekly_only_primary_window_to_weekly_slot() {
    let (session, weekly) = extract_rate_limits(Some(RateLimitDetails {
        primary_window: Some(rate_limit_window(35.0, WEEKLY_WINDOW_SECONDS)),
        secondary_window: None,
    }));

    assert!(session.is_none());
    assert_eq!(weekly.map(|window| window.used_percent), Some(35.0));
}

#[test]
fn restores_semantic_order_if_backend_reverses_windows() {
    let (session, weekly) = extract_rate_limits(Some(RateLimitDetails {
        primary_window: Some(rate_limit_window(82.0, WEEKLY_WINDOW_SECONDS)),
        secondary_window: Some(rate_limit_window(27.0, SESSION_WINDOW_SECONDS)),
    }));

    assert_eq!(session.map(|window| window.used_percent), Some(27.0));
    assert_eq!(weekly.map(|window| window.used_percent), Some(82.0));
}

#[test]
fn preserves_unknown_windows_by_backend_position() {
    let (primary, secondary) = extract_rate_limits(Some(RateLimitDetails {
        primary_window: Some(rate_limit_window(11.0, 60 * 60)),
        secondary_window: Some(rate_limit_window(22.0, 30 * 24 * 60 * 60)),
    }));

    assert_eq!(primary.map(|window| window.used_percent), Some(11.0));
    assert_eq!(secondary.map(|window| window.used_percent), Some(22.0));
}

#[test]
fn moves_session_only_secondary_window_to_session_slot() {
    let (session, weekly) = extract_rate_limits(Some(RateLimitDetails {
        primary_window: None,
        secondary_window: Some(rate_limit_window(5.0, SESSION_WINDOW_SECONDS)),
    }));
    assert_eq!(session.map(|window| window.used_percent), Some(5.0));
    assert!(weekly.is_none());
}

#[test]
fn a_weekly_window_beside_an_unknown_one_stays() {
    let (primary, secondary) = extract_rate_limits(Some(RateLimitDetails {
        primary_window: Some(rate_limit_window(1.0, WEEKLY_WINDOW_SECONDS)),
        secondary_window: Some(rate_limit_window(2.0, 60)),
    }));
    assert_eq!(primary.map(|window| window.used_percent), Some(1.0));
    assert_eq!(secondary.map(|window| window.used_percent), Some(2.0));
}

#[test]
fn placing_twice_changes_nothing_more() {
    let (session, weekly) = extract_rate_limits(payload().rate_limit);
    let (again_session, again_weekly) = extract_rate_limits(Some(RateLimitDetails {
        primary_window: session,
        secondary_window: weekly,
    }));
    assert_eq!(again_session.map(|w| w.used_percent), Some(27.5));
    assert_eq!(again_weekly.map(|w| w.used_percent), Some(82.0));
}

#[test]
fn no_rate_limit_gives_no_windows() {
    assert_eq!(extract_rate_limits::<f64>(None), (None, None));
}

#[test]
fn windows_are_told_apart_by_their_length() {
    assert_eq!(SESSION_WINDOW_SECONDS, 5 * 60 * 60);
    assert_eq!(WEEKLY_WINDOW_SECONDS, 7 * 24 * 60 * 60);
    assert!(is_session_window(&rate_limit_window(0.0, 18000)));
    assert!(!is_session_window(&rate_limit_window(0.0, 18001)));
    assert!(is_weekly_window(&rate_limit_window(0.0, 604800)));
    assert!(!is_weekly_window(&rate_limit_window(0.0, 18000)));
    let open = RateLimitWindow { used_percent: 0.0, limit_window_seconds: None, reset_at: None };
    assert!(!is_session_window(&open));
    assert!(!is_weekly_window(&open));
}

#[test]
fn minutes_are_rounded_up() {
    assert_eq!(to_minutes(0), 0);
    assert_eq!(to_minutes(1), 1);
    assert_eq!(to_minutes(60), 1);
    assert_eq!(to_minutes(61), 2);
    assert_eq!(to_minutes(SESSION_WINDOW_SECONDS), 300);
    assert_eq!(to_minutes(-59), 0);
    assert_eq!(to_minutes(-60), 0);
    assert_eq!(to_minutes(-119), -1);
    for seconds in [i32::MIN, -1000, -61, -1, 59, 3599, i32::MAX] {
        assert_eq!(to_minutes(seconds), (i64::from(seconds) + 59) / 60);
    }
}

#[test]
fn an_answer_becomes_a_usage() {
    let info = convert_payload_to_usage_info("id-2", payload());
    assert_eq!(
        info,
        UsageInfo {
            account_id: "id-2".to_string(),
            plan_type: Some("plus".to_string()),
            primary_used_percent: Some(27.5),
            primary_window_minutes: Some(300),
            primary_resets_at: Some(1_800_000_000),
            secondary_used_percent: Some(82.0),
            secondary_window_minutes: Some(10080),
            secondary_resets_at: Some(1_800_000_000),
            has_credits: Some(true),
            unlimited_credits: Some(false),
            credits_balance: Some("12.50".to_string()),
            error: None,
        }
    );
}

#[test]
fn an_answer_without_details_becomes_a_bare_usage() {
    let info: UsageInfo<f64> = convert_payload_to_usage_info(
        "id-2",
        RateLimitStatusPayload { plan_type: "free".to_string(), rate_limit: None, credits: None },
    );
    assert_eq!(info.plan_type.as_deref(), Some("free"));
    assert_eq!(info.primary_used_percent, None);
    assert_eq!(info.secondary_window_minutes, None);
    assert_eq!(info.has_credits, None);
    assert_eq!(info.credits_balance, None);
    assert_eq!(info.error, None);
}

#[test]
fn credits_are_handed_on() {
    let credits =
        CreditStatusDetails { has_credits: false, unlimited: true, balance: None };
    assert_eq!(
        extract_credits(Some(credits)),
        Some(CreditStatusDetails { has_credits: false, unlimited: true, balance: None })
    );
    assert_eq!(extract_credits(None), None);
}

#[test]
fn a_successful_response_is_read() {
    let info = parse_usage_response("id-2", 200, UsageBody::Payload(payload())).unwrap();
    assert_eq!(info.primary_used_percent, Some(27.5));
    assert_eq!(info.error, None);
}

#[test]
fn an_error_response_becomes_a_usage_with_an_error() {
    let info = parse_usage_response("id-2", 404, UsageBody::Payload(payload())).unwrap();
    assert_eq!(
        info,
        UsageInfo::error("id-2".to_string(), "API error: 404 Not Found".to_string())
    );
    let info = parse_usage_response::<f64>("id-2", 599, UsageBody::Unreadable).unwrap();
    assert_eq!(info.error.as_deref(), Some("API error: 599 <unknown status code>"));
    let info = parse_usage_response::<f64>("id-2", 401, UsageBody::Malformed).unwrap();
    assert_eq!(info.error.as_deref(), Some("API error: 401 Unauthorized"));
}

#[test]
fn an_unreadable_body_is_an_error() {
    assert_eq!(
        parse_usage_response::<f64>("id-2", 200, UsageBody::Unreadable),
        Err(ApiError::ReadBody)
    );
    assert_eq!(
        parse_usage_response::<f64>("id-2", 299, UsageBody::Malformed),
        Err(ApiError::ParseUsage)
    );
}

#[test]
fn api_key_accounts_have_no_usage() {
    match get_account_usage::<f64>(&api_key_account()) {
        UsageSource::Known(info) => {
            assert_eq!(info.account_id, "id-1");
            assert_eq!(info.plan_type.as_deref(), Some("api_key"));
            assert_eq!(
                info.error.as_deref(),
                Some("Usage info not available for API key accounts")
            );
            assert_eq!(info.primary_used_percent, None);
        }
        UsageSource::Backend => panic!("the backend has no usage for an API key"),
    }
}

#[test]
fn chatgpt_accounts_ask_the_backend() {
    assert_eq!(get_account_usage::<f64>(&chatgpt_account()), UsageSource::Backend);
}

#[test]
fn at_most_ten_accounts_are_asked_at_once() {
    assert_eq!(refresh_concurrency(0), 1);
    assert_eq!(refresh_concurrency(1), 1);
    assert_eq!(refresh_concurrency(7), 7);
    assert_eq!(refresh_concurrency(10), 10);
    assert_eq!(refresh_concurrency(11), 10);
    assert_eq!(refresh_concurrency(usize::MAX), 10);
}

#[test]
fn a_failure_is_shown_for_its_account() {
    let info = usage_or_error::<f64>(&chatgpt_account(), Err(ApiError::ReadBody));
    assert_eq!(
        info,
        UsageInfo::error("id-2".to_string(), "Failed to read response body".to_string())
    );
    let ok = convert_payload_to_usage_info("id-2", payload());
    let same = convert_payload_to_usage_info("id-2", payload());
    assert_eq!(usage_or_error(&chatgpt_account(), Ok(ok)), same);
}

#[test]
fn one_failure_does_not_fail_the_others() {
    let ok = convert_payload_to_usage_info("id-2", payload());
    let results = refresh_all_usage(vec![
        (api_key_account(), Err(ApiError::Tokens { message: "expired".to_string() })),
        (chatgpt_account(), Ok(ok)),
    ]);
    assert_eq!(results.len(), 2);
    assert_eq!(results[0].account_id, "id-1");
    assert_eq!(results[0].error.as_deref(), Some("expired"));
    assert_eq!(results[1].account_id, "id-2");
    assert_eq!(results[1].error, None);
}
