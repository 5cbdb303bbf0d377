//! One authorized exchange with the ChatGPT backend: fresh tokens first, then the request, and
//! after a 401, and only then, new tokens and the request once more.

use crate::account::{copy_text, AuthData, StoredAccount};
use crate::error::ApiError;
use crate::status::UNAUTHORIZED;
use vstd::prelude::*;

verus! {

/// What the exchange waits for.
#[derive(Debug)]
pub enum Exchange {
    /// The account with tokens that have not expired.
    Freshening,
    /// The response to the first request, made for this account.
    FirstTry { account: StoredAccount },
    /// The account with new tokens.
    Refreshing,
    /// The response to the second request, made for this account.
    Retry { account: StoredAccount },
    /// Nothing more.
    Finished,
}

/// What happened.
#[derive(Debug)]
pub enum ExchangeEvent {
    /// The tokens are up to date, or could not be brought up to date.
    Tokens(Result<StoredAccount, String>),
    /// A response came with this status, or none came.
    Response(Result<u16, ApiError>),
}

/// What is to be done next.
#[derive(Debug)]
pub enum ExchangeAction {
    /// Make sure that the account's tokens have not expired.
    EnsureFresh,
    /// Send the request that [`exchange_request`](crate::requests::exchange_request) makes with
    /// this token, for this account id.
    Send { access_token: String, chatgpt_account_id: Option<String> },
    /// Get new tokens for this account, whose token was not accepted.
    Refresh { account: StoredAccount },
    /// Hand on the last response, which answers for this account.
    Deliver { account: StoredAccount, status: u16 },
    /// Give up.
    Fail(ApiError),
}

/// What is done once the tokens of an account are known.
pub open spec fn send_for(account: StoredAccount) -> ExchangeAction {
    match account.auth_data {
        AuthData::ChatGPT { access_token, account_id, .. } => ExchangeAction::Send {
            access_token,
            chatgpt_account_id: account_id,
        },
        AuthData::ApiKey { .. } => ExchangeAction::Fail(ApiError::NotChatGpt),
    }
}

/// The account signs in with OAuth tokens.
pub open spec fn has_tokens(account: StoredAccount) -> bool {
    account.auth_data is ChatGPT
}

impl Exchange {
    /// The event is of the kind that the exchange waits for.
    pub open spec fn awaits(self, event: ExchangeEvent) -> bool {
        match self {
            Exchange::Freshening => event is Tokens,
            Exchange::FirstTry { .. } => event is Response,
            Exchange::Refreshing => event is Tokens,
            Exchange::Retry { .. } => event is Response,
            Exchange::Finished => false,
        }
    }

    /// What the exchange waits for after the event, and what is to be done.
    pub open spec fn next(self, event: ExchangeEvent) -> (Exchange, ExchangeAction) {
        match (self, event) {
            (Exchange::Freshening, ExchangeEvent::Tokens(Ok(account))) => if has_tokens(account) {
                (Exchange::FirstTry { account }, send_for(account))
            } else {
                (Exchange::Finished, send_for(account))
            },
            (Exchange::FirstTry { account }, ExchangeEvent::Response(Ok(status))) => if status
                == UNAUTHORIZED {
                (Exchange::Refreshing, ExchangeAction::Refresh { account })
            } else {
                (Exchange::Finished, ExchangeAction::Deliver { account, status })
            },
            (Exchange::Refreshing, ExchangeEvent::Tokens(Ok(account))) => if has_tokens(account) {
                (Exchange::Retry { account }, send_for(account))
            } else {
                (Exchange::Finished, send_for(account))
            },
            (Exchange::Retry { account }, ExchangeEvent::Response(Ok(status))) => (
                Exchange::Finished,
                ExchangeAction::Deliver { account, status },
            ),
            (_, ExchangeEvent::Tokens(Err(message))) => (
                Exchange::Finished,
                ExchangeAction::Fail(ApiError::Tokens { message }),
            ),
            (_, ExchangeEvent::Response(Err(e))) => (Exchange::Finished, ExchangeAction::Fail(e)),
            (_, _) => (Exchange::Finished, ExchangeAction::Fail(ApiError::NotChatGpt)),
        }
    }

    /// Begins an exchange.
    pub fn begin() -> (r: (Exchange, ExchangeAction))
        ensures
            r == (Exchange::Freshening, ExchangeAction::EnsureFresh),
    {
        (Exchange::Freshening, ExchangeAction::EnsureFresh)
    }

    /// Tells whether the event is of the kind that the exchange waits for.
    pub fn is_awaited(&self, event: &ExchangeEvent) -> (r: bool)
        ensures
            r == self.awaits(*event),
    {
        match (self, event) {
            (Exchange::Freshening, ExchangeEvent::Tokens(_)) => true,
            (Exchange::FirstTry { .. }, ExchangeEvent::Response(_)) => true,
            (Exchange::Refreshing, ExchangeEvent::Tokens(_)) => true,
            (Exchange::Retry { .. }, ExchangeEvent::Response(_)) => true,
            (_, _) => false,
        }
    }

    /// Takes the exchange on: what it waits for next, and what is to be done.
    pub fn step(self, event: ExchangeEvent) -> (r: (Exchange, ExchangeAction))
        requires
            self.awaits(event),
        ensures
            r == self.next(event),
    {
        match (self, event) {
            (Exchange::Freshening, ExchangeEvent::Tokens(Ok(account))) => match send_action(
                &account,
            ) {
                Ok(action) => (Exchange::FirstTry { account }, action),
                Err(e) => (Exchange::Finished, ExchangeAction::Fail(e)),
            },
            (Exchange::FirstTry { account }, ExchangeEvent::Response(Ok(status))) => {
                if status == UNAUTHORIZED {
                    (Exchange::Refreshing, ExchangeAction::Refresh { account })
                } else {
                    (Exchange::Finished, ExchangeAction::Deliver { account, status })
                }
            },
            (Exchange::Refreshing, ExchangeEvent::Tokens(Ok(account))) => match send_action(
                &account,
            ) {
                Ok(action) => (Exchange::Retry { account }, action),
                Err(e) => (Exchange::Finished, ExchangeAction::Fail(e)),
            },
            (Exchange::Retry { account }, ExchangeEvent::Response(Ok(status))) => (
                Exchange::Finished,
                ExchangeAction::Deliver { account, status },
            ),
            (_, ExchangeEvent::Tokens(Err(message))) => (
                Exchange::Finished,
                ExchangeAction::Fail(ApiError::Tokens { message }),
            ),
            (_, ExchangeEvent::Response(Err(e))) => (Exchange::Finished, ExchangeAction::Fail(e)),
            (_, _) => (Exchange::Finished, ExchangeAction::Fail(ApiError::NotChatGpt)),
        }
    }
}

fn send_action(account: &StoredAccount) -> (r: Result<ExchangeAction, ApiError>)
    ensures
        has_tokens(*account) ==> r == Ok::<_, ApiError>(send_for(*account)),
        !has_tokens(*account) ==> r == Err::<ExchangeAction, _>(ApiError::NotChatGpt),
{
    match &account.auth_data {
        AuthData::ChatGPT { access_token, account_id, .. } => Ok(
            ExchangeAction::Send {
                access_token: access_token.clone(),
                chatgpt_account_id: copy_text(account_id),
            },
        ),
        AuthData::ApiKey { .. } => Err(ApiError::NotChatGpt),
    }
}

/// What the exchange waits for after the events.
pub open spec fn state_after(events: Seq<ExchangeEvent>) -> Exchange
    decreases events.len(),
{
    if events.len() == 0 {
        Exchange::Freshening
    } else {
        state_after(events.drop_last()).next(events.last()).0
    }
}

/// What was to be done on the way: what begins the exchange, then one action for each event.
pub open spec fn actions_after(events: Seq<ExchangeEvent>) -> Seq<ExchangeAction>
    decreases events.len(),
{
    if events.len() == 0 {
        seq![ExchangeAction::EnsureFresh]
    } else {
        actions_after(events.drop_last()).push(
            state_after(events.drop_last()).next(events.last()).1,
        )
    }
}

/// Each event is one that the exchange waits for when it comes.
pub open spec fn possible(events: Seq<ExchangeEvent>) -> bool
    decreases events.len(),
{
    events.len() == 0 || (possible(events.drop_last()) && state_after(events.drop_last()).awaits(
        events.last(),
    ))
}

/// How many of the actions ask for new tokens.
pub open spec fn refreshes(actions: Seq<ExchangeAction>) -> nat {
    actions.filter(|a: ExchangeAction| a is Refresh).len()
}

/// How many of the actions send the request.
pub open spec fn sends(actions: Seq<ExchangeAction>) -> nat {
    actions.filter(|a: ExchangeAction| a is Send).len()
}

spec fn refreshes_by(state: Exchange) -> nat {
    match state {
        Exchange::Freshening => 0,
        Exchange::FirstTry { .. } => 0,
        _ => 1,
    }
}

spec fn sends_by(state: Exchange) -> nat {
    match state {
        Exchange::Freshening => 0,
        Exchange::FirstTry { .. } => 1,
        Exchange::Refreshing => 1,
        _ => 2,
    }
}

spec fn steps_left(state: Exchange) -> nat {
    match state {
        Exchange::Freshening => 4,
        Exchange::FirstTry { .. } => 3,
        Exchange::Refreshing => 2,
        Exchange::Retry { .. } => 1,
        Exchange::Finished => 0,
    }
}

proof fn lemma_counts(events: Seq<ExchangeEvent>)
    requires
        possible(events),
    ensures
        refreshes(actions_after(events)) <= refreshes_by(state_after(events)),
        sends(actions_after(events)) <= sends_by(state_after(events)),
        events.len() + steps_left(state_after(events)) <= 4,
    decreases events.len(),
{
    let refresh = |a: ExchangeAction| a is Refresh;
    let send = |a: ExchangeAction| a is Send;
    reveal_with_fuel(Seq::filter, 2);
    if events.len() > 0 {
        let before = events.drop_last();
        lemma_counts(before);
        let action = state_after(before).next(events.last()).1;
        assert(actions_after(events).drop_last() =~= actions_after(before));
        assert(actions_after(events).last() == action);
        assert(actions_after(events).filter(refresh) == if refresh(action) {
            actions_after(before).filter(refresh).push(action)
        } else {
            actions_after(before).filter(refresh)
        });
        assert(actions_after(events).filter(send) == if send(action) {
            actions_after(before).filter(send).push(action)
        } else {
            actions_after(before).filter(send)
        });
    } else {
        let first = seq![ExchangeAction::EnsureFresh];
        assert(first.drop_last() =~= Seq::empty());
        assert(first.filter(refresh) =~= Seq::empty());
        assert(first.filter(send) =~= Seq::empty());
    }
}

/// Whatever happens, new tokens are asked for at most once and the request is sent at most twice,
/// and after at most four events the exchange is over.
pub proof fn retries_once(events: Seq<ExchangeEvent>)
    requires
        possible(events),
    ensures
        refreshes(actions_after(events)) <= 1,
        sends(actions_after(events)) <= 2,
        events.len() <= 4,
        events.len() == 4 ==> state_after(events) is Finished,
{
    lemma_counts(events);
}

/// New tokens are asked for after a 401, and after nothing else.
pub proof fn refreshes_only_when_unauthorized(state: Exchange, event: ExchangeEvent)
    requires
        state.awaits(event),
    ensures
        state.next(event).1 is Refresh <==> (state is FirstTry && event
            == ExchangeEvent::Response(Ok::<u16, ApiError>(UNAUTHORIZED))),
{
}

/// Every other answer is handed on as it is, a 403 among them: the refresh token is not spent on
/// it.
pub proof fn other_answers_are_delivered(account: StoredAccount, status: u16)
    requires
        status != UNAUTHORIZED,
    ensures
        (Exchange::FirstTry { account }).next(ExchangeEvent::Response(Ok::<u16, ApiError>(status)))
            == (Exchange::Finished, ExchangeAction::Deliver { account, status }),
{
}

/// The second answer is handed on whatever it is, also a second 401.
pub proof fn second_answer_is_delivered(account: StoredAccount, status: u16)
    ensures
        (Exchange::Retry { account }).next(ExchangeEvent::Response(Ok::<u16, ApiError>(status)))
            == (Exchange::Finished, ExchangeAction::Deliver { account, status }),
{
}

/// A request is always sent with the tokens of the account whose answer is awaited.
pub proof fn sends_the_latest_tokens(state: Exchange, event: ExchangeEvent)
    requires
        state.awaits(event),
        state.next(event).1 is Send,
    ensures
        event matches ExchangeEvent::Tokens(Ok(account)) && state.next(event).1 == send_for(account)
            && (state.next(event).0 == (Exchange::FirstTry { account }) || state.next(event).0 == (
        Exchange::Retry { account })),
{
}

/// Once the tokens are known, the request goes out with exactly that account's access token and
/// account id, the first time as the second; an account with a key ends the exchange.
pub proof fn request_carries_the_tokens(account: StoredAccount)
    ensures
        account.auth_data is ChatGPT ==> {
            let send = ExchangeAction::Send {
                access_token: account.auth_data->access_token,
                chatgpt_account_id: account.auth_data->account_id,
            };
            &&& Exchange::Freshening.next(ExchangeEvent::Tokens(Ok::<_, String>(account))) == (
                Exchange::FirstTry { account },
                send,
            )
            &&& Exchange::Refreshing.next(ExchangeEvent::Tokens(Ok::<_, String>(account))) == (
                Exchange::Retry { account },
                send,
            )
        },
        account.auth_data is ApiKey ==> {
            let fail = ExchangeAction::Fail(ApiError::NotChatGpt);
            &&& Exchange::Freshening.next(ExchangeEvent::Tokens(Ok::<_, String>(account))) == (
                Exchange::Finished,
                fail,
            )
            &&& Exchange::Refreshing.next(ExchangeEvent::Tokens(Ok::<_, String>(account))) == (
                Exchange::Finished,
                fail,
            )
        },
{
}

/// After a 401 new tokens are asked for, for the account whose token was refused; any other first
/// answer, and every second one, is handed on with its own status for the account that asked.
pub proof fn answers_go_by_their_status(account: StoredAccount, status: u16)
    ensures
        (Exchange::FirstTry { account }).next(ExchangeEvent::Response(Ok::<u16, ApiError>(401)))
            == (Exchange::Refreshing, ExchangeAction::Refresh { account }),
        status != 401 ==> (Exchange::FirstTry { account }).next(
            ExchangeEvent::Response(Ok::<u16, ApiError>(status)),
        ) == (Exchange::Finished, ExchangeAction::Deliver { account, status }),
        (Exchange::Retry { account }).next(ExchangeEvent::Response(Ok::<u16, ApiError>(status)))
            == (Exchange::Finished, ExchangeAction::Deliver { account, status }),
{
}

/// A failure ends the exchange and is reported as it came.
pub proof fn exchange_stops_at_the_first_failure(state: Exchange, message: String, error: ApiError)
    ensures
        state.next(ExchangeEvent::Tokens(Err::<StoredAccount, _>(message))) == (
            Exchange::Finished,
            ExchangeAction::Fail(ApiError::Tokens { message }),
        ),
        state.next(ExchangeEvent::Response(Err::<u16, _>(error))) == (
            Exchange::Finished,
            ExchangeAction::Fail(error),
        ),
{
}

/// Tokens are waited for before each of the two requests, a response after each, and then nothing.
pub proof fn exchange_events_have_their_states(state: Exchange, event: ExchangeEvent)
    ensures
        state.awaits(event) <==> ((state is Freshening || state is Refreshing) && event is Tokens)
            || ((state is FirstTry || state is Retry) && event is Response),
{
}

} // verus!
