//! Rate limits and credits of an account.

use crate::account::{AuthData, StoredAccount};
use crate::error::ApiError;
use crate::status::{is_status, is_success, status_line, status_text, success};
use vstd::prelude::*;
use vstd::string::*;

verus! {

/// The length of the session window: five hours.
pub const SESSION_WINDOW_SECONDS: i32 = 18_000;

/// The length of the weekly window: seven days.
pub const WEEKLY_WINDOW_SECONDS: i32 = 604_800;

/// How many accounts are asked for their usage at the same time, at most.
pub const MAX_CONCURRENT_REQUESTS: usize = 10;

/// One rate-limit window. The share used is carried as it comes, in whatever number type `P`.
#[derive(Debug, PartialEq)]
pub struct RateLimitWindow<P> {
    pub used_percent: P,
    pub limit_window_seconds: Option<i32>,
    pub reset_at: Option<i64>,
}

/// The two windows as the backend places them.
#[derive(Debug, PartialEq)]
pub struct RateLimitDetails<P> {
    pub primary_window: Option<RateLimitWindow<P>>,
    pub secondary_window: Option<RateLimitWindow<P>>,
}

/// The credits of an account.
#[derive(Debug, PartialEq, Eq)]
pub struct CreditStatusDetails {
    pub has_credits: bool,
    pub unlimited: bool,
    pub balance: Option<String>,
}

/// The backend's answer to a usage request.
#[derive(Debug, PartialEq)]
pub struct RateLimitStatusPayload<P> {
    pub plan_type: String,
    pub rate_limit: Option<RateLimitDetails<P>>,
    pub credits: Option<CreditStatusDetails>,
}

/// The usage of an account, as it is shown: `primary` is the session window, `secondary` the weekly
/// one.
#[derive(Debug, PartialEq)]
pub struct UsageInfo<P> {
    pub account_id: String,
    pub plan_type: Option<String>,
    pub primary_used_percent: Option<P>,
    pub primary_window_minutes: Option<i64>,
    pub primary_resets_at: Option<i64>,
    pub secondary_used_percent: Option<P>,
    pub secondary_window_minutes: Option<i64>,
    pub secondary_resets_at: Option<i64>,
    pub has_credits: Option<bool>,
    pub unlimited_credits: Option<bool>,
    pub credits_balance: Option<String>,
    pub error: Option<String>,
}

/// The body of a usage response, as far as it could be read.
#[derive(Debug, PartialEq)]
pub enum UsageBody<P> {
    Unreadable,
    Malformed,
    Payload(RateLimitStatusPayload<P>),
}

/// Where an account's usage comes from.
#[derive(Debug, PartialEq)]
pub enum UsageSource<P> {
    /// It is known without a request.
    Known(UsageInfo<P>),
    /// The backend has to be asked.
    Backend,
}

/// Nothing is known but what account it is.
pub open spec fn nothing_known<P>(info: UsageInfo<P>) -> bool {
    &&& info.primary_used_percent is None
    &&& info.primary_window_minutes is None
    &&& info.primary_resets_at is None
    &&& info.secondary_used_percent is None
    &&& info.secondary_window_minutes is None
    &&& info.secondary_resets_at is None
    &&& info.has_credits is None
    &&& info.unlimited_credits is None
    &&& info.credits_balance is None
}

/// The usage of an account that could not be read, with the reason.
pub open spec fn failed_usage<P>(
    info: UsageInfo<P>,
    account_id: Seq<char>,
    reason: Seq<char>,
) -> bool {
    &&& nothing_known(info)
    &&& info.account_id@ == account_id
    &&& info.plan_type is None
    &&& info.error matches Some(error) && error@ == reason
}

impl<P> UsageInfo<P> {
    /// The usage of an account that could not be read, with the reason.
    pub fn error(account_id: String, error: String) -> (r: UsageInfo<P>)
        ensures
            failed_usage(r, account_id@, error@),
            r.account_id == account_id,
            r.error == Some(error),
    {
        UsageInfo {
            account_id,
            plan_type: None,
            primary_used_percent: None,
            primary_window_minutes: None,
            primary_resets_at: None,
            secondary_used_percent: None,
            secondary_window_minutes: None,
            secondary_resets_at: None,
            has_credits: None,
            unlimited_credits: None,
            credits_balance: None,
            error: Some(error),
        }
    }
}

/// A window of the length of a session.
pub open spec fn session_window<P>(window: RateLimitWindow<P>) -> bool {
    window.limit_window_seconds == Some(SESSION_WINDOW_SECONDS)
}

/// A window of the length of a week.
pub open spec fn weekly_window<P>(window: RateLimitWindow<P>) -> bool {
    window.limit_window_seconds == Some(WEEKLY_WINDOW_SECONDS)
}

/// The windows stand in each other's place: the only one is a weekly window in the first place or
/// a session window in the second, or both are there the wrong way round.
pub open spec fn misplaced<P>(
    primary: Option<RateLimitWindow<P>>,
    secondary: Option<RateLimitWindow<P>>,
) -> bool {
    match (primary, secondary) {
        (Some(p), None) => weekly_window(p),
        (None, Some(s)) => session_window(s),
        (Some(p), Some(s)) => weekly_window(p) && session_window(s),
        (None, None) => false,
    }
}

/// The windows in the places where they are shown.
pub open spec fn placed<P>(
    primary: Option<RateLimitWindow<P>>,
    secondary: Option<RateLimitWindow<P>>,
) -> (Option<RateLimitWindow<P>>, Option<RateLimitWindow<P>>) {
    if misplaced(primary, secondary) {
        (secondary, primary)
    } else {
        (primary, secondary)
    }
}

/// The session and the weekly window of a usage answer.
pub open spec fn rate_limits<P>(rate_limit: Option<RateLimitDetails<P>>) -> (
    Option<RateLimitWindow<P>>,
    Option<RateLimitWindow<P>>,
) {
    match rate_limit {
        Some(details) => placed(details.primary_window, details.secondary_window),
        None => (None, None),
    }
}

/// Whole minutes for a number of seconds, rounded up; below zero toward zero.
pub open spec fn window_minutes(seconds: i32) -> int {
    if seconds >= -59 {
        (seconds + 59) / 60
    } else {
        -((-(seconds + 59)) / 60)
    }
}

/// The share of a window that is used.
pub open spec fn used_of<P>(window: Option<RateLimitWindow<P>>) -> Option<P> {
    match window {
        Some(w) => Some(w.used_percent),
        None => None,
    }
}

/// The length of a window in minutes, where it is given.
pub open spec fn minutes_of<P>(window: Option<RateLimitWindow<P>>) -> Option<int> {
    match window {
        Some(w) => match w.limit_window_seconds {
            Some(seconds) => Some(window_minutes(seconds)),
            None => None,
        },
        None => None,
    }
}

/// When a window starts anew, where it is given.
pub open spec fn reset_of<P>(window: Option<RateLimitWindow<P>>) -> Option<i64> {
    match window {
        Some(w) => w.reset_at,
        None => None,
    }
}

/// An optional number without its machine type.
pub open spec fn opt_int(n: Option<i64>) -> Option<int> {
    match n {
        Some(n) => Some(n as int),
        None => None,
    }
}

/// `info` is the usage that the backend's answer reports for the account.
pub open spec fn reported_usage<P>(
    info: UsageInfo<P>,
    account_id: Seq<char>,
    payload: RateLimitStatusPayload<P>,
) -> bool {
    let (session, weekly) = rate_limits(payload.rate_limit);
    &&& info.account_id@ == account_id
    &&& info.plan_type == Some(payload.plan_type)
    &&& info.primary_used_percent == used_of(session)
    &&& opt_int(info.primary_window_minutes) == minutes_of(session)
    &&& info.primary_resets_at == reset_of(session)
    &&& info.secondary_used_percent == used_of(weekly)
    &&& opt_int(info.secondary_window_minutes) == minutes_of(weekly)
    &&& info.secondary_resets_at == reset_of(weekly)
    &&& match payload.credits {
        Some(credits) => {
            &&& info.has_credits == Some(credits.has_credits)
            &&& info.unlimited_credits == Some(credits.unlimited)
            &&& info.credits_balance == credits.balance
        },
        None => {
            &&& info.has_credits is None
            &&& info.unlimited_credits is None
            &&& info.credits_balance is None
        },
    }
    &&& info.error is None
}

/// Tests for a window of the length of a session.
pub fn is_session_window<P>(window: &RateLimitWindow<P>) -> (r: bool)
    ensures
        r == session_window(*window),
{
    match window.limit_window_seconds {
        Some(seconds) => seconds == SESSION_WINDOW_SECONDS,
        None => false,
    }
}

/// Tests for a window of the length of a week.
pub fn is_weekly_window<P>(window: &RateLimitWindow<P>) -> (r: bool)
    ensures
        r == weekly_window(*window),
{
    match window.limit_window_seconds {
        Some(seconds) => seconds == WEEKLY_WINDOW_SECONDS,
        None => false,
    }
}

/// The session and the weekly window of a usage answer.
///
/// The backend can leave out the session window and put the weekly one in the first place; here
/// the first place is the session's, the second the week's. Windows of other lengths stay where
/// the backend put them.
pub fn extract_rate_limits<P>(rate_limit: Option<RateLimitDetails<P>>) -> (r: (
    Option<RateLimitWindow<P>>,
    Option<RateLimitWindow<P>>,
))
    ensures
        r == rate_limits(rate_limit),
{
    let details = match rate_limit {
        Some(details) => details,
        None => return (None, None),
    };
    let swap = match (&details.primary_window, &details.secondary_window) {
        (Some(primary), None) => is_weekly_window(primary),
        (None, Some(secondary)) => is_session_window(secondary),
        (Some(primary), Some(secondary)) => is_weekly_window(primary) && is_session_window(
            secondary,
        ),
        (None, None) => false,
    };
    if swap {
        (details.secondary_window, details.primary_window)
    } else {
        (details.primary_window, details.secondary_window)
    }
}

/// The credits of a usage answer.
pub fn extract_credits(credits: Option<CreditStatusDetails>) -> (r: Option<CreditStatusDetails>)
    ensures
        r == credits,
{
    credits
}

/// Whole minutes for a number of seconds, rounded up; below zero toward zero.
pub fn to_minutes(seconds: i32) -> (r: i64)
    ensures
        r == window_minutes(seconds),
{
    (seconds as i64 + 59) / 60
}

/// What is shown of a window: the share used, its length in minutes, and when it starts anew.
fn split_window<P>(window: Option<RateLimitWindow<P>>) -> (r: (
    Option<P>,
    Option<i64>,
    Option<i64>,
))
    ensures
        r.0 == used_of(window),
        opt_int(r.1) == minutes_of(window),
        r.2 == reset_of(window),
{
    match window {
        Some(w) => {
            let minutes = match w.limit_window_seconds {
                Some(seconds) => Some(to_minutes(seconds)),
                None => None,
            };
            (Some(w.used_percent), minutes, w.reset_at)
        },
        None => (None, None, None),
    }
}

/// The usage that the backend's answer reports.
pub fn convert_payload_to_usage_info<P>(
    account_id: &str,
    payload: RateLimitStatusPayload<P>,
) -> (r: UsageInfo<P>)
    ensures
        reported_usage(r, account_id@, payload),
{
    let RateLimitStatusPayload { plan_type, rate_limit, credits } = payload;
    let (primary, secondary) = extract_rate_limits(rate_limit);
    let credits = extract_credits(credits);
    let (primary_used_percent, primary_window_minutes, primary_resets_at) = split_window(primary);
    let (secondary_used_percent, secondary_window_minutes, secondary_resets_at) = split_window(
        secondary,
    );
    let (has_credits, unlimited_credits, credits_balance) = match credits {
        Some(c) => (Some(c.has_credits), Some(c.unlimited), c.balance),
        None => (None, None, None),
    };
    UsageInfo {
        account_id: account_id.to_owned(),
        plan_type: Some(plan_type),
        primary_used_percent,
        primary_window_minutes,
        primary_resets_at,
        secondary_used_percent,
        secondary_window_minutes,
        secondary_resets_at,
        has_credits,
        unlimited_credits,
        credits_balance,
        error: None,
    }
}

/// What becomes of a response of the backend: of one that reports no success a usage with an error,
/// of any other the usage in its body, where that can be read.
pub open spec fn usage_answer<P>(
    r: Result<UsageInfo<P>, ApiError>,
    account_id: Seq<char>,
    status: u16,
    body: UsageBody<P>,
) -> bool {
    &&& !success(status) ==> (r matches Ok(info) && failed_usage(
        info,
        account_id,
        "API error: "@ + status_line(status),
    ))
    &&& success(status) ==> match body {
        UsageBody::Unreadable => r == Err::<UsageInfo<P>, _>(ApiError::ReadBody),
        UsageBody::Malformed => r == Err::<UsageInfo<P>, _>(ApiError::ParseUsage),
        UsageBody::Payload(payload) => r matches Ok(info) && reported_usage(
            info,
            account_id,
            payload,
        ),
    }
}

/// The usage in a response of the backend. A response that reports no success becomes a usage with
/// an error, whatever its body; of any other the body has to be readable.
pub fn parse_usage_response<P>(account_id: &str, status: u16, body: UsageBody<P>) -> (r: Result<
    UsageInfo<P>,
    ApiError,
>)
    requires
        is_status(status),
    ensures
        usage_answer(r, account_id@, status, body),
{
    if !is_success(status) {
        let mut reason = "API error: ".to_owned();
        reason.append(status_text(status).as_str());
        return Ok(UsageInfo::error(account_id.to_owned(), reason));
    }
    match body {
        UsageBody::Unreadable => Err(ApiError::ReadBody),
        UsageBody::Malformed => Err(ApiError::ParseUsage),
        UsageBody::Payload(payload) => Ok(convert_payload_to_usage_info(account_id, payload)),
    }
}

/// Of an API key account nothing is known but that there is no usage to show, for a ChatGPT account
/// the backend is asked.
pub open spec fn usage_source<P>(r: UsageSource<P>, account: StoredAccount) -> bool {
    match account.auth_data {
        AuthData::ApiKey { .. } => {
            &&& r matches UsageSource::Known(info)
            &&& nothing_known(info)
            &&& info.account_id == account.id
            &&& info.plan_type matches Some(plan) && plan@ == "api_key"@
            &&& info.error matches Some(error) && error@
                == "Usage info not available for API key accounts"@
        },
        AuthData::ChatGPT { .. } => r is Backend,
    }
}

/// Where an account's usage comes from: of an API key account nothing is known but that there is
/// no usage to show, for a ChatGPT account the backend is asked.
pub fn get_account_usage<P>(account: &StoredAccount) -> (r: UsageSource<P>)
    ensures
        usage_source(r, *account),
{
    match &account.auth_data {
        AuthData::ApiKey { .. } => UsageSource::Known(
            UsageInfo {
                account_id: account.id.clone(),
                plan_type: Some("api_key".to_owned()),
                primary_used_percent: None,
                primary_window_minutes: None,
                primary_resets_at: None,
                secondary_used_percent: None,
                secondary_window_minutes: None,
                secondary_resets_at: None,
                has_credits: None,
                unlimited_credits: None,
                credits_balance: None,
                error: Some("Usage info not available for API key accounts".to_owned()),
            },
        ),
        AuthData::ChatGPT { .. } => UsageSource::Backend,
    }
}

/// How many accounts are asked at the same time: all of them, up to a limit, and never none.
pub fn refresh_concurrency(accounts: usize) -> (r: usize)
    ensures
        r == (if accounts == 0 {
            1
        } else if accounts > MAX_CONCURRENT_REQUESTS {
            MAX_CONCURRENT_REQUESTS as int
        } else {
            accounts as int
        }),
        1 <= r <= 10,
        1 <= accounts <= 10 ==> r == accounts,
        accounts > 10 ==> r == 10,
{
    let bounded = if accounts > MAX_CONCURRENT_REQUESTS {
        MAX_CONCURRENT_REQUESTS
    } else {
        accounts
    };
    if bounded < 1 {
        1
    } else {
        bounded
    }
}

/// What is shown for an account when all are refreshed: its usage, or why there is none.
pub open spec fn shown_for<P>(
    r: UsageInfo<P>,
    account: StoredAccount,
    outcome: Result<UsageInfo<P>, ApiError>,
) -> bool {
    match outcome {
        Ok(info) => r == info,
        Err(e) => failed_usage(r, account.id@, e.report()),
    }
}

/// What is shown for an account when all are refreshed: its usage, or why there is none. One
/// account's failure does not fail the others.
pub fn usage_or_error<P>(account: &StoredAccount, outcome: Result<UsageInfo<P>, ApiError>) -> (r:
    UsageInfo<P>)
    requires
        outcome matches Err(e) ==> e.well_formed(),
    ensures
        shown_for(r, *account, outcome),
{
    match outcome {
        Ok(info) => info,
        Err(e) => UsageInfo::error(account.id.clone(), e.message()),
    }
}

/// What is shown when all accounts are refreshed: for each account that was asked its usage, or why
/// there is none, in the order in which the answers came.
pub fn refresh_all_usage<P>(
    outcomes: Vec<(StoredAccount, Result<UsageInfo<P>, ApiError>)>,
) -> (r: Vec<UsageInfo<P>>)
    requires
        forall|i: int|
            0 <= i < outcomes.len() ==> ((#[trigger] outcomes[i]).1 matches Err(e)
                ==> e.well_formed()),
    ensures
        r.len() == outcomes.len(),
        forall|i: int|
            #![trigger outcomes[i]]
            #![trigger r[i]]
            0 <= i < outcomes.len() ==> shown_for(r[i], outcomes[i].0, outcomes[i].1),
{
    let mut results: Vec<UsageInfo<P>> = Vec::new();
    for outcome in it: outcomes
        invariant
            it.seq() == outcomes@,
            results.len() == it.index(),
            forall|i: int|
                0 <= i < outcomes.len() ==> ((#[trigger] outcomes[i]).1 matches Err(e)
                    ==> e.well_formed()),
            forall|i: int|
                #![trigger outcomes[i]]
                #![trigger results[i]]
                0 <= i < results.len() ==> shown_for(results[i], outcomes[i].0, outcomes[i].1),
    {
        let (account, outcome) = outcome;
        assert(outcomes[it.index() as int] == (account, outcome));
        results.push(usage_or_error(&account, outcome));
    }
    results
}

/// A window that has a place of its own.
pub open spec fn known_window<P>(window: RateLimitWindow<P>) -> bool {
    session_window(window) || weekly_window(window)
}

/// At most one session window and one weekly window, and no other.
pub open spec fn known_pair<P>(
    primary: Option<RateLimitWindow<P>>,
    secondary: Option<RateLimitWindow<P>>,
) -> bool {
    &&& primary matches Some(p) ==> known_window(p)
    &&& secondary matches Some(s) ==> known_window(s)
    &&& match (primary, secondary) {
        (Some(p), Some(s)) => session_window(p) != session_window(s),
        _ => true,
    }
}

/// No window is lost, made up or changed.
pub proof fn placing_keeps_the_windows<P>(
    primary: Option<RateLimitWindow<P>>,
    secondary: Option<RateLimitWindow<P>>,
)
    ensures
        placed(primary, secondary) == (primary, secondary) || placed(primary, secondary) == (
            secondary,
            primary,
        ),
{
}

/// Windows in their places stay there.
pub proof fn placing_is_idempotent<P>(
    primary: Option<RateLimitWindow<P>>,
    secondary: Option<RateLimitWindow<P>>,
)
    ensures
        ({
            let (a, b) = placed(primary, secondary);
            placed(a, b) == (a, b)
        }),
{
}

/// A session window comes first and a weekly window second, wherever the backend put them.
pub proof fn known_windows_take_their_places<P>(
    primary: Option<RateLimitWindow<P>>,
    secondary: Option<RateLimitWindow<P>>,
)
    requires
        known_pair(primary, secondary),
    ensures
        ({
            let (session, weekly) = placed(primary, secondary);
            &&& session matches Some(w) ==> session_window(w)
            &&& weekly matches Some(w) ==> weekly_window(w)
        }),
        placed(primary, secondary) == placed(secondary, primary),
{
}

/// Windows of other lengths stay where the backend put them.
pub proof fn unknown_windows_stay<P>(
    primary: Option<RateLimitWindow<P>>,
    secondary: Option<RateLimitWindow<P>>,
)
    requires
        primary matches Some(p) ==> !known_window(p),
        secondary matches Some(s) ==> !known_window(s),
    ensures
        placed(primary, secondary) == (primary, secondary),
{
}

/// A length in minutes covers the seconds, with less than a minute to spare.
pub proof fn minutes_round_up(seconds: i32)
    requires
        seconds >= 0,
    ensures
        60 * (window_minutes(seconds) - 1) < seconds <= 60 * window_minutes(seconds),
{
}

/// Share, minutes and reset time are shown of this window, all three of the same one; without a
/// window none of them is shown. Seconds are rounded up to whole minutes, below zero toward zero.
pub open spec fn window_shown<P>(
    window: Option<RateLimitWindow<P>>,
    percent: Option<P>,
    minutes: Option<i64>,
    resets_at: Option<i64>,
) -> bool {
    match window {
        None => percent is None && minutes is None && resets_at is None,
        Some(w) => {
            &&& percent == Some(w.used_percent)
            &&& resets_at == w.reset_at
            &&& w.limit_window_seconds is None ==> minutes is None
            &&& w.limit_window_seconds matches Some(seconds) ==> {
                &&& minutes matches Some(m)
                &&& seconds >= -59 ==> 60 * m <= seconds + 59 < 60 * m + 60
                &&& seconds < -59 ==> 60 * m - 60 < seconds + 59 <= 60 * m
            }
        },
    }
}

/// A window of seven days that stands alone is the weekly one, and a window of five hours that
/// stands alone the session's, in whichever place the backend put them.
pub proof fn lone_windows_go_by_their_length<P>(window: RateLimitWindow<P>)
    ensures
        window.limit_window_seconds == Some(604_800i32) ==> rate_limits(
            Some(RateLimitDetails { primary_window: Some(window), secondary_window: None }),
        ) == (None::<RateLimitWindow<P>>, Some(window)) && rate_limits(
            Some(RateLimitDetails { primary_window: None, secondary_window: Some(window) }),
        ) == (None::<RateLimitWindow<P>>, Some(window)),
        window.limit_window_seconds == Some(18_000i32) ==> rate_limits(
            Some(RateLimitDetails { primary_window: Some(window), secondary_window: None }),
        ) == (Some(window), None::<RateLimitWindow<P>>) && rate_limits(
            Some(RateLimitDetails { primary_window: None, secondary_window: Some(window) }),
        ) == (Some(window), None::<RateLimitWindow<P>>),
        window.limit_window_seconds != Some(604_800i32) ==> rate_limits(
            Some(RateLimitDetails { primary_window: Some(window), secondary_window: None }),
        ) == (Some(window), None::<RateLimitWindow<P>>),
        window.limit_window_seconds != Some(18_000i32) ==> rate_limits(
            Some(RateLimitDetails { primary_window: None, secondary_window: Some(window) }),
        ) == (None::<RateLimitWindow<P>>, Some(window)),
{
}

/// Of two windows the one of five hours comes first where the other is one of seven days, in either
/// order; any other two stay where the backend put them.
pub proof fn two_windows_go_by_their_lengths<P>(a: RateLimitWindow<P>, b: RateLimitWindow<P>)
    ensures
        a.limit_window_seconds == Some(18_000i32) && b.limit_window_seconds == Some(604_800i32)
            ==> rate_limits(
            Some(RateLimitDetails { primary_window: Some(a), secondary_window: Some(b) }),
        ) == (Some(a), Some(b)) && rate_limits(
            Some(RateLimitDetails { primary_window: Some(b), secondary_window: Some(a) }),
        ) == (Some(a), Some(b)),
        a.limit_window_seconds != Some(604_800i32) || b.limit_window_seconds != Some(18_000i32)
            ==> rate_limits(
            Some(RateLimitDetails { primary_window: Some(a), secondary_window: Some(b) }),
        ) == (Some(a), Some(b)),
{
}

/// Without rate limits in the answer, and without windows in them, there are no windows.
pub proof fn no_windows_stay_none<P>()
    ensures
        rate_limits(None::<RateLimitDetails<P>>) == (
            None::<RateLimitWindow<P>>,
            None::<RateLimitWindow<P>>,
        ),
        rate_limits(
            Some(
                RateLimitDetails {
                    primary_window: None::<RateLimitWindow<P>>,
                    secondary_window: None,
                },
            ),
        ) == (None::<RateLimitWindow<P>>, None::<RateLimitWindow<P>>),
{
}

/// Whatever is shown first comes of one window of the answer, and whatever is shown second of the
/// other: share, minutes and reset time are never mixed.
pub proof fn usage_never_mixes_windows<P>(
    info: UsageInfo<P>,
    account_id: Seq<char>,
    payload: RateLimitStatusPayload<P>,
    details: RateLimitDetails<P>,
)
    requires
        reported_usage(info, account_id, payload),
        payload.rate_limit == Some(details),
    ensures
        ({
            ||| {
                &&& window_shown(
                    details.primary_window,
                    info.primary_used_percent,
                    info.primary_window_minutes,
                    info.primary_resets_at,
                )
                &&& window_shown(
                    details.secondary_window,
                    info.secondary_used_percent,
                    info.secondary_window_minutes,
                    info.secondary_resets_at,
                )
            }
            ||| {
                &&& window_shown(
                    details.secondary_window,
                    info.primary_used_percent,
                    info.primary_window_minutes,
                    info.primary_resets_at,
                )
                &&& window_shown(
                    details.primary_window,
                    info.secondary_used_percent,
                    info.secondary_window_minutes,
                    info.secondary_resets_at,
                )
            }
        }),
{
}

/// A window of seven days is shown second and one of five hours first, each with its own share,
/// minutes and reset time, where they are the windows of the answer: both in either order, or one
/// alone in either place.
pub proof fn usage_shows_session_and_week<P>(
    info: UsageInfo<P>,
    account_id: Seq<char>,
    payload: RateLimitStatusPayload<P>,
    session: Option<RateLimitWindow<P>>,
    weekly: Option<RateLimitWindow<P>>,
)
    requires
        reported_usage(info, account_id, payload),
        session matches Some(w) ==> w.limit_window_seconds == Some(18_000i32),
        weekly matches Some(w) ==> w.limit_window_seconds == Some(604_800i32),
        payload.rate_limit == Some(
            RateLimitDetails { primary_window: session, secondary_window: weekly },
        ) || payload.rate_limit == Some(
            RateLimitDetails { primary_window: weekly, secondary_window: session },
        ),
    ensures
        info.primary_used_percent == match session {
            Some(w) => Some(w.used_percent),
            None => None,
        },
        info.primary_window_minutes == (if session is Some {
            Some(300i64)
        } else {
            None
        }),
        info.primary_resets_at == match session {
            Some(w) => w.reset_at,
            None => None,
        },
        info.secondary_used_percent == match weekly {
            Some(w) => Some(w.used_percent),
            None => None,
        },
        info.secondary_window_minutes == (if weekly is Some {
            Some(10_080i64)
        } else {
            None
        }),
        info.secondary_resets_at == match weekly {
            Some(w) => w.reset_at,
            None => None,
        },
{
}

/// Windows that are not a week in the first place or a session in the second are shown where the
/// backend put them.
pub proof fn usage_shows_other_windows_in_place<P>(
    info: UsageInfo<P>,
    account_id: Seq<char>,
    payload: RateLimitStatusPayload<P>,
    details: RateLimitDetails<P>,
)
    requires
        reported_usage(info, account_id, payload),
        payload.rate_limit == Some(details),
        details.primary_window is Some || details.secondary_window is Some,
        details.primary_window is None ==> details.secondary_window->0.limit_window_seconds
            != Some(18_000i32),
        details.secondary_window is None ==> details.primary_window->0.limit_window_seconds
            != Some(604_800i32),
        details.primary_window is Some && details.secondary_window is Some ==> (
        details.primary_window->0.limit_window_seconds != Some(604_800i32)
            || details.secondary_window->0.limit_window_seconds != Some(18_000i32)),
    ensures
        window_shown(
            details.primary_window,
            info.primary_used_percent,
            info.primary_window_minutes,
            info.primary_resets_at,
        ),
        window_shown(
            details.secondary_window,
            info.secondary_used_percent,
            info.secondary_window_minutes,
            info.secondary_resets_at,
        ),
{
}

/// Account, plan and credits are shown as they are, and there is no error. Without credits in the
/// answer nothing is shown of them, and without rate limits nothing of windows.
pub proof fn usage_shows_plan_and_credits<P>(
    info: UsageInfo<P>,
    account_id: Seq<char>,
    payload: RateLimitStatusPayload<P>,
)
    requires
        reported_usage(info, account_id, payload),
    ensures
        info.account_id@ == account_id,
        info.plan_type == Some(payload.plan_type),
        info.error is None,
        payload.credits matches Some(credits) ==> info.has_credits == Some(credits.has_credits)
            && info.unlimited_credits == Some(credits.unlimited) && info.credits_balance
            == credits.balance,
        payload.credits is None ==> info.has_credits is None && info.unlimited_credits is None
            && info.credits_balance is None,
        payload.rate_limit is None ==> info.primary_used_percent is None
            && info.primary_window_minutes is None && info.primary_resets_at is None
            && info.secondary_used_percent is None && info.secondary_window_minutes is None
            && info.secondary_resets_at is None,
{
}

/// A usage that could not be read tells the account and the reason, and nothing else.
pub proof fn failed_usage_tells_only_why<P>(
    info: UsageInfo<P>,
    account_id: Seq<char>,
    reason: Seq<char>,
)
    ensures
        failed_usage(info, account_id, reason) ==> {
            &&& info.account_id@ == account_id
            &&& info.plan_type is None
            &&& info.error is Some
            &&& info.error->0@ == reason
            &&& nothing_known(info)
        },
        nothing_known(info) ==> {
            &&& info.primary_used_percent is None
            &&& info.primary_window_minutes is None
            &&& info.primary_resets_at is None
            &&& info.secondary_used_percent is None
            &&& info.secondary_window_minutes is None
            &&& info.secondary_resets_at is None
            &&& info.has_credits is None
            &&& info.unlimited_credits is None
            &&& info.credits_balance is None
        },
{
}

/// Minutes are the seconds divided by sixty and rounded up; where that is below zero, what is left
/// over is dropped toward zero.
pub proof fn minutes_are_whole(seconds: i32)
    ensures
        seconds >= -59 ==> 60 * window_minutes(seconds) <= seconds + 59 < 60 * window_minutes(
            seconds,
        ) + 60,
        seconds < -59 ==> 60 * window_minutes(seconds) - 60 < seconds + 59 <= 60 * window_minutes(
            seconds,
        ),
{
}

/// A response that reports no success never fails and is never taken for a usage: it tells the
/// account and the status, whatever its body. Of any other the body decides, and the usage of a
/// readable one is for that account, on the plan that the body names, and without an error.
pub proof fn status_comes_before_body<P>(
    r: Result<UsageInfo<P>, ApiError>,
    account_id: Seq<char>,
    status: u16,
    body: UsageBody<P>,
)
    requires
        usage_answer(r, account_id, status, body),
    ensures
        !(200 <= status <= 299) ==> {
            &&& r is Ok
            &&& r->Ok_0.account_id@ == account_id
            &&& r->Ok_0.plan_type is None
            &&& r->Ok_0.primary_used_percent is None
            &&& r->Ok_0.secondary_used_percent is None
            &&& r->Ok_0.error is Some
            &&& r->Ok_0.error->0@ == "API error: "@ + status_line(status)
        },
        200 <= status <= 299 && body is Unreadable ==> r == Err::<UsageInfo<P>, _>(
            ApiError::ReadBody,
        ),
        200 <= status <= 299 && body is Malformed ==> r == Err::<UsageInfo<P>, _>(
            ApiError::ParseUsage,
        ),
        200 <= status <= 299 && body is Payload ==> {
            &&& r is Ok
            &&& r->Ok_0.account_id@ == account_id
            &&& r->Ok_0.plan_type == Some(body->Payload_0.plan_type)
            &&& r->Ok_0.error is None
            &&& reported_usage(r->Ok_0, account_id, body->Payload_0)
        },
{
}

/// The backend is asked exactly for accounts with tokens. For a key there is an answer at once: the
/// account, that it is one with a key, and that there is no usage, in place of all numbers.
pub proof fn only_tokens_have_usage<P>(r: UsageSource<P>, account: StoredAccount)
    requires
        usage_source(r, account),
    ensures
        account.auth_data is ChatGPT <==> r is Backend,
        account.auth_data is ApiKey ==> {
            &&& r is Known
            &&& r->Known_0.account_id == account.id
            &&& r->Known_0.plan_type is Some
            &&& r->Known_0.plan_type->0@ == "api_key"@
            &&& r->Known_0.error is Some
            &&& r->Known_0.error->0@ == "Usage info not available for API key accounts"@
            &&& r->Known_0.primary_used_percent is None
            &&& r->Known_0.secondary_used_percent is None
            &&& r->Known_0.has_credits is None
        },
{
}

/// A usage that was read is shown untouched, and a failure is shown for its own account with its own
/// report.
pub proof fn refresh_shows_each_outcome<P>(
    r: UsageInfo<P>,
    account: StoredAccount,
    info: UsageInfo<P>,
    error: ApiError,
)
    ensures
        shown_for(r, account, Ok::<_, ApiError>(info)) <==> r == info,
        shown_for(r, account, Err::<UsageInfo<P>, _>(error)) ==> {
            &&& r.account_id@ == account.id@
            &&& r.plan_type is None
            &&& r.primary_used_percent is None
            &&& r.secondary_used_percent is None
            &&& r.error is Some
            &&& r.error->0@ == error.report()
        },
{
}

} // verus!
