//! Plan and subscription of a ChatGPT account, from the accounts check.

use crate::account::{copy_text, AuthData, StoredAccount, Timestamp};
use crate::error::ApiError;
use crate::headers::{
    bearer, bearer_is_sendable_iff_token_is, chatgpt_headers, header_entries,
    sendable_text_has_no_controls, value_text,
};
use crate::message::opt_text;
use crate::requests::{
    chatgpt_get_request, extract_chatgpt_auth, opt_chars, GetRequest, ACCOUNTS_CHECK_URL,
};
use crate::status::{is_success, success, FORBIDDEN};
use crate::text::same_text;
use vstd::prelude::*;

verus! {

/// What is known of a ChatGPT account's subscription.
#[derive(Debug, PartialEq, Eq)]
pub struct ChatGptAccountMetadata {
    pub plan_type: Option<String>,
    pub subscription_expires_at: Option<Timestamp>,
}

/// The part of an entry that names the plan.
#[derive(Debug, PartialEq, Eq)]
pub struct AccountsCheckAccount {
    pub plan_type: Option<String>,
}

/// The part of an entry that says how long the subscription lasts.
#[derive(Debug, PartialEq, Eq)]
pub struct AccountsCheckEntitlement {
    pub expires_at: Option<Timestamp>,
}

/// One account of the login.
#[derive(Debug, PartialEq, Eq)]
pub struct AccountsCheckEntry {
    pub account: Option<AccountsCheckAccount>,
    pub entitlement: Option<AccountsCheckEntitlement>,
}

/// The accounts of the login by their ids, in the order in which they are walked.
#[derive(Debug, PartialEq, Eq)]
pub struct AccountsCheckResponse {
    pub accounts: Vec<(String, AccountsCheckEntry)>,
}

impl AccountsCheckResponse {
    /// No id occurs twice.
    pub open spec fn well_formed(self) -> bool {
        forall|i: int, j: int|
            0 <= i < self.accounts.len() && 0 <= j < self.accounts.len() && (
            #[trigger] self.accounts@[i]).0@ == (#[trigger] self.accounts@[j]).0@ ==> i == j
    }
}

/// There is an entry under the id.
pub open spec fn lists(accounts: Seq<(String, AccountsCheckEntry)>, id: Seq<char>) -> bool {
    exists|i: int| 0 <= i < accounts.len() && (#[trigger] accounts[i]).0@ == id
}

/// Entry `i` is the first one under the id.
pub open spec fn first_under(
    accounts: Seq<(String, AccountsCheckEntry)>,
    id: Seq<char>,
    i: int,
) -> bool {
    &&& 0 <= i < accounts.len()
    &&& accounts[i].0@ == id
    &&& forall|j: int| 0 <= j < i ==> (#[trigger] accounts[j]).0@ != id
}

/// Entry `i` stands for the account: the one under its id, without such an entry the one under
/// `default`, and without that the first one.
pub open spec fn selected(
    accounts: Seq<(String, AccountsCheckEntry)>,
    id: Option<Seq<char>>,
    i: int,
) -> bool {
    if id is Some && lists(accounts, id->0) {
        first_under(accounts, id->0, i)
    } else if lists(accounts, "default"@) {
        first_under(accounts, "default"@, i)
    } else {
        i == 0 && accounts.len() > 0
    }
}

/// What an entry says of the subscription.
pub open spec fn metadata_of(entry: AccountsCheckEntry) -> ChatGptAccountMetadata {
    ChatGptAccountMetadata {
        plan_type: match entry.account {
            Some(account) => account.plan_type,
            None => None,
        },
        subscription_expires_at: match entry.entitlement {
            Some(entitlement) => entitlement.expires_at,
            None => None,
        },
    }
}

/// The first entry under an id.
fn find_entry(accounts: &Vec<(String, AccountsCheckEntry)>, id: &str) -> (r: Option<usize>)
    ensures
        match r {
            Some(i) => first_under(accounts@, id@, i as int),
            None => !lists(accounts@, id@),
        },
{
    let mut i: usize = 0;
    while i < accounts.len()
        invariant
            i <= accounts.len(),
            forall|j: int| 0 <= j < i ==> (#[trigger] accounts@[j]).0@ != id@,
        decreases accounts.len() - i,
    {
        if same_text(&accounts[i].0, id) {
            return Some(i);
        }
        i += 1;
    }
    None
}

/// The entry that stands for the account: the one under its id, else the one under `default`, else
/// the first; `None` where there is no entry at all.
pub fn select_entry(
    accounts: &Vec<(String, AccountsCheckEntry)>,
    chatgpt_account_id: Option<&str>,
) -> (r: Option<usize>)
    ensures
        match r {
            Some(i) => i < accounts.len() && selected(
                accounts@,
                opt_chars(chatgpt_account_id),
                i as int,
            ),
            None => accounts.len() == 0,
        },
{
    if let Some(id) = chatgpt_account_id {
        if let Some(i) = find_entry(accounts, id) {
            assert(lists(accounts@, id@));
            return Some(i);
        }
    }
    if let Some(i) = find_entry(accounts, "default") {
        assert(lists(accounts@, "default"@));
        return Some(i);
    }
    if accounts.len() > 0 {
        Some(0)
    } else {
        None
    }
}

/// The request that lists the accounts of a login, authorized by the account's token; none for an
/// account with a key, and none where the token cannot be sent.
pub open spec fn check_request(r: Result<GetRequest, ApiError>, account: StoredAccount) -> bool {
    match account.auth_data {
        AuthData::ApiKey { .. } => r == Err::<GetRequest, _>(ApiError::NotChatGpt),
        AuthData::ChatGPT { access_token, account_id, .. } => match r {
            Ok(request) => {
                &&& value_text(bearer(access_token@))
                &&& request.url@ == ACCOUNTS_CHECK_URL@
                &&& header_entries(request.headers) == chatgpt_headers(
                    access_token@,
                    opt_text(account_id),
                )
            },
            Err(e) => !value_text(bearer(access_token@)) && e == ApiError::InvalidAccessToken,
        },
    }
}

/// The request that lists the accounts of a login; it fails for an API key account, and where the
/// token cannot be sent.
pub fn accounts_check_request(account: &StoredAccount) -> (r: Result<GetRequest, ApiError>)
    ensures
        check_request(r, *account),
{
    match extract_chatgpt_auth(account) {
        Ok((access_token, account_id)) => chatgpt_get_request(
            ACCOUNTS_CHECK_URL,
            access_token,
            account_id,
        ),
        Err(e) => Err(e),
    }
}

/// What becomes of the response to an accounts check: an error of its own for each thing that can be
/// wrong with it, else the subscription in the entry that stands for the account.
pub open spec fn metadata_answer(
    r: Result<ChatGptAccountMetadata, ApiError>,
    status: u16,
    body: Seq<char>,
    response: Option<AccountsCheckResponse>,
    id: Option<Seq<char>>,
) -> bool {
    &&& !success(status) ==> match r {
        Err(ApiError::AccountsCheckBlocked) => status == FORBIDDEN,
        Err(ApiError::AccountsCheck { status: code, body: text }) => status != FORBIDDEN && code
            == status && text@ == body,
        _ => false,
    }
    &&& success(status) ==> match response {
        None => r == Err::<ChatGptAccountMetadata, _>(ApiError::ParseAccountsCheck),
        Some(listed) => if listed.accounts.len() == 0 {
            r == Err::<ChatGptAccountMetadata, _>(ApiError::NoAccountEntry)
        } else {
            exists|i: int|
                {
                    &&& 0 <= i < listed.accounts.len()
                    &&& #[trigger] selected(listed.accounts@, id, i)
                    &&& r == Ok::<_, ApiError>(metadata_of(listed.accounts@[i].1))
                }
        },
    }
}

/// The subscription of the account, from the response to an accounts check: its status, its body
/// as text, and what could be read in the body.
pub fn fetch_chatgpt_account_metadata(
    status: u16,
    body: &str,
    response: Option<AccountsCheckResponse>,
    chatgpt_account_id: Option<&str>,
) -> (r: Result<ChatGptAccountMetadata, ApiError>)
    ensures
        metadata_answer(r, status, body@, response, opt_chars(chatgpt_account_id)),
{
    if !is_success(status) {
        if status == FORBIDDEN {
            return Err(ApiError::AccountsCheckBlocked);
        }
        return Err(ApiError::AccountsCheck { status, body: body.to_owned() });
    }
    let listed = match response {
        Some(listed) => listed,
        None => return Err(ApiError::ParseAccountsCheck),
    };
    match select_entry(&listed.accounts, chatgpt_account_id) {
        Some(i) => {
            let entry = &listed.accounts[i].1;
            let plan_type = match &entry.account {
                Some(account) => copy_text(&account.plan_type),
                None => None,
            };
            let subscription_expires_at = match &entry.entitlement {
                Some(entitlement) => entitlement.expires_at,
                None => None,
            };
            assert(selected(listed.accounts@, opt_chars(chatgpt_account_id), i as int));
            Ok(ChatGptAccountMetadata { plan_type, subscription_expires_at })
        },
        None => Err(ApiError::NoAccountEntry),
    }
}

/// One entry and no other stands for an account.
pub proof fn selection_is_unique(
    accounts: Seq<(String, AccountsCheckEntry)>,
    id: Option<Seq<char>>,
    i: int,
    j: int,
)
    requires
        selected(accounts, id, i),
        selected(accounts, id, j),
    ensures
        i == j,
{
    if i < j {
        assert(accounts[i] == accounts[i]);
    }
    if j < i {
        assert(accounts[j] == accounts[j]);
    }
}

/// Where there is an entry under the account's id or under `default`, the same entry is taken in
/// whatever order the entries are walked.
pub proof fn selection_ignores_the_order(
    a: AccountsCheckResponse,
    b: AccountsCheckResponse,
    id: Option<Seq<char>>,
    i: int,
    j: int,
)
    requires
        a.well_formed(),
        b.well_formed(),
        a.accounts@.to_set() == b.accounts@.to_set(),
        (id is Some && lists(a.accounts@, id->0)) || lists(a.accounts@, "default"@),
        selected(a.accounts@, id, i),
        selected(b.accounts@, id, j),
    ensures
        a.accounts@[i] == b.accounts@[j],
{
    let a = a.accounts@;
    let b = b.accounts@;
    assert forall|name: Seq<char>| lists(a, name) == lists(b, name) by {
        if lists(a, name) {
            let k = choose|k: int| 0 <= k < a.len() && (#[trigger] a[k]).0@ == name;
            assert(a.to_set().contains(a[k]));
            assert(b.contains(a[k]));
            let m = b.index_of(a[k]);
            assert(b[m].0@ == name);
        }
        if lists(b, name) {
            let k = choose|k: int| 0 <= k < b.len() && (#[trigger] b[k]).0@ == name;
            assert(b.to_set().contains(b[k]));
            assert(a.contains(b[k]));
            let m = a.index_of(b[k]);
            assert(a[m].0@ == name);
        }
    }
    assert(a.to_set().contains(a[i]));
    assert(b.contains(a[i]));
    let m = b.index_of(a[i]);
    assert(b[m].0@ == b[j].0@);
}

/// The plan comes of the entry's account part alone, whatever the entitlement says, and the end of
/// the subscription of its entitlement alone, whatever the account part says.
pub proof fn plan_and_expiry_are_independent(entry: AccountsCheckEntry)
    ensures
        entry.account is Some ==> metadata_of(entry).plan_type == entry.account->0.plan_type,
        entry.account is None ==> metadata_of(entry).plan_type is None,
        entry.entitlement is Some ==> metadata_of(entry).subscription_expires_at
            == entry.entitlement->0.expires_at,
        entry.entitlement is None ==> metadata_of(entry).subscription_expires_at is None,
{
}

/// Two entries with the same account part tell the same plan, and two with the same entitlement the
/// same end of the subscription.
pub proof fn metadata_goes_part_by_part(a: AccountsCheckEntry, b: AccountsCheckEntry)
    ensures
        a.account == b.account ==> metadata_of(a).plan_type == metadata_of(b).plan_type,
        a.entitlement == b.entitlement ==> metadata_of(a).subscription_expires_at == metadata_of(
            b,
        ).subscription_expires_at,
{
}

/// The entry under the account's own id is taken wherever there is one; else the one under `default`
/// wherever there is one; else the first. There is one to take as soon as there is any.
pub proof fn selection_prefers_the_account(
    accounts: Seq<(String, AccountsCheckEntry)>,
    id: Option<Seq<char>>,
    i: int,
    k: int,
)
    requires
        selected(accounts, id, i),
        0 <= k < accounts.len(),
    ensures
        0 <= i < accounts.len(),
        id is Some && accounts[k].0@ == id->0 ==> accounts[i].0@ == id->0 && i <= k,
        accounts[k].0@ == "default"@ ==> accounts[i].0@ == "default"@ || (id is Some
            && accounts[i].0@ == id->0),
        (id is None || accounts[i].0@ != id->0) && accounts[i].0@ != "default"@ ==> i == 0,
        (id is None || accounts[i].0@ != id->0) && accounts[k].0@ == "default"@ ==> i <= k,
{
}

/// As soon as there is an entry, one is taken.
pub proof fn some_entry_is_selected(
    accounts: Seq<(String, AccountsCheckEntry)>,
    id: Option<Seq<char>>,
)
    requires
        accounts.len() > 0,
    ensures
        exists|i: int| #[trigger] selected(accounts, id, i),
{
    if id is Some && lists(accounts, id->0) {
        let i = lemma_first_under(accounts, id->0);
        assert(selected(accounts, id, i));
    } else if lists(accounts, "default"@) {
        let i = lemma_first_under(accounts, "default"@);
        assert(selected(accounts, id, i));
    } else {
        assert(selected(accounts, id, 0));
    }
}

proof fn lemma_first_under(accounts: Seq<(String, AccountsCheckEntry)>, name: Seq<char>) -> (i: int)
    requires
        lists(accounts, name),
    ensures
        first_under(accounts, name, i),
    decreases accounts.len(),
{
    let k = choose|k: int| 0 <= k < accounts.len() && (#[trigger] accounts[k]).0@ == name;
    if exists|j: int| 0 <= j < k && (#[trigger] accounts[j]).0@ == name {
        let fewer = accounts.take(k);
        let j = choose|j: int| 0 <= j < k && (#[trigger] accounts[j]).0@ == name;
        assert(fewer[j].0@ == name);
        let i = lemma_first_under(fewer, name);
        assert(accounts[i] == fewer[i]);
        assert forall|m: int| 0 <= m < i implies (#[trigger] accounts[m]).0@ != name by {
            assert(fewer[m] == accounts[m]);
        }
        i
    } else {
        k
    }
}

/// The metadata of an accounts check that succeeded is that of one entry, the one that stands for
/// the account: its plan is the plan of the entry's account part whatever the entitlement is, and
/// the end of the subscription that of its entitlement whatever the account part is.
pub proof fn fetched_metadata_is_of_the_selected_entry(
    r: Result<ChatGptAccountMetadata, ApiError>,
    status: u16,
    body: Seq<char>,
    response: AccountsCheckResponse,
    id: Option<Seq<char>>,
    i: int,
)
    requires
        metadata_answer(r, status, body, Some(response), id),
        200 <= status <= 299,
        selected(response.accounts@, id, i),
    ensures
        ({
            let entry = response.accounts@[i].1;
            &&& r is Ok
            &&& entry.account is Some ==> r->Ok_0.plan_type == entry.account->0.plan_type
            &&& entry.account is None ==> r->Ok_0.plan_type is None
            &&& entry.entitlement is Some ==> r->Ok_0.subscription_expires_at
                == entry.entitlement->0.expires_at
            &&& entry.entitlement is None ==> r->Ok_0.subscription_expires_at is None
        }),
{
    let k = choose|k: int|
        {
            &&& 0 <= k < response.accounts.len()
            &&& #[trigger] selected(response.accounts@, id, k)
            &&& r == Ok::<_, ApiError>(metadata_of(response.accounts@[k].1))
        };
    selection_is_unique(response.accounts@, id, i, k);
}

/// A response that reports no success gives an error, whatever was read in it: advice after a 403,
/// else the status and the body. One that reports success fails only where nothing could be read in
/// it, or no entry is there.
pub proof fn accounts_check_errors(
    r: Result<ChatGptAccountMetadata, ApiError>,
    status: u16,
    body: Seq<char>,
    response: Option<AccountsCheckResponse>,
    id: Option<Seq<char>>,
)
    requires
        metadata_answer(r, status, body, response, id),
    ensures
        status == 403 ==> r == Err::<ChatGptAccountMetadata, _>(ApiError::AccountsCheckBlocked),
        !(200 <= status <= 299) && status != 403 ==> {
            &&& r matches Err(ApiError::AccountsCheck { status: code, body: text })
            &&& code == status
            &&& text@ == body
        },
        200 <= status <= 299 && response is None ==> r == Err::<ChatGptAccountMetadata, _>(
            ApiError::ParseAccountsCheck,
        ),
        200 <= status <= 299 && response is Some && response->0.accounts.len() == 0 ==> r
            == Err::<ChatGptAccountMetadata, _>(ApiError::NoAccountEntry),
        200 <= status <= 299 && response is Some && response->0.accounts.len() > 0 ==> r is Ok,
{
}

/// An account with a key has no accounts to list. For one with tokens there is a request exactly when
/// no character of its access token is a control character of ASCII but the tab, and it goes to the
/// accounts check with that token and that account's id.
pub proof fn accounts_are_listed_for_tokens(r: Result<GetRequest, ApiError>, account: StoredAccount)
    requires
        check_request(r, account),
    ensures
        account.auth_data is ApiKey ==> r is Err && r->Err_0 == ApiError::NotChatGpt,
        account.auth_data is ChatGPT ==> {
            let token = account.auth_data->access_token@;
            let id = account.auth_data->account_id;
            &&& r is Ok <==> forall|i: int|
                0 <= i < token.len() ==> (#[trigger] token[i]) as int == 9 || (token[i] as int >= 32
                    && token[i] as int != 127)
            &&& r is Err ==> r->Err_0 == ApiError::InvalidAccessToken
            &&& r is Ok ==> r->Ok_0.url@
                == "https://chatgpt.com/backend-api/accounts/check/v4-2023-04-27"@
            &&& r is Ok && id is Some ==> header_entries(r->Ok_0.headers) == chatgpt_headers(
                token,
                Some(id->0@),
            )
            &&& r is Ok && id is None ==> header_entries(r->Ok_0.headers) == chatgpt_headers(
                token,
                None,
            )
        },
{
    if account.auth_data is ChatGPT {
        bearer_is_sendable_iff_token_is(account.auth_data->access_token@);
        sendable_text_has_no_controls(account.auth_data->access_token@);
    }
}

} // verus!
