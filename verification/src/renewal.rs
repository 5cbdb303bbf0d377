//! What a completed login leaves behind: its tokens, in the store and in the credential file.

use crate::account::{
    AccountsStore, AuthDotJson, IdTokenClaims, StoredAccount, Timestamp, TokenUpdate,
};
use crate::oauth::{
    is_active, replaced_tokens, tokens_of, LoginStep, ReauthStep, SignInAction, SignInEvent,
};
use crate::switcher::{auth_json_at, carries};
use vstd::prelude::*;

verus! {

/// The credential file after the actions, carried out one by one at this moment.
pub open spec fn file_after(
    before: Option<AuthDotJson>,
    actions: Seq<SignInAction>,
    now: Timestamp,
) -> Option<AuthDotJson>
    decreases actions.len(),
{
    if actions.len() == 0 {
        before
    } else {
        match actions.last() {
            SignInAction::Write(account) => Some(auth_json_at(account, now)),
            _ => file_after(before, actions.drop_last(), now),
        }
    }
}

/// The last of the updates that stored accounts get.
pub open spec fn last_update(actions: Seq<SignInAction>) -> Option<TokenUpdate>
    decreases actions.len(),
{
    if actions.len() == 0 {
        None
    } else {
        match actions.last() {
            SignInAction::Update(update) => Some(update),
            _ => last_update(actions.drop_last()),
        }
    }
}

/// The credential file is not written.
pub open spec fn no_write(actions: Seq<SignInAction>) -> bool {
    forall|i: int| 0 <= i < actions.len() ==> !((#[trigger] actions[i]) is Write)
}

/// No stored account gets other tokens.
pub open spec fn no_update(actions: Seq<SignInAction>) -> bool {
    forall|i: int| 0 <= i < actions.len() ==> !((#[trigger] actions[i]) is Update)
}

/// What is to be done from `start` on, one action for each event.
pub open spec fn login_actions(start: LoginStep, events: Seq<SignInEvent>) -> Seq<SignInAction>
    decreases events.len(),
{
    if events.len() == 0 {
        Seq::empty()
    } else {
        let (step, action) = start.next(events.first());
        seq![action] + login_actions(step, events.drop_first())
    }
}

/// What is to be done from `start` on, one action for each event.
pub open spec fn reauth_actions(start: ReauthStep, events: Seq<SignInEvent>) -> Seq<SignInAction>
    decreases events.len(),
{
    if events.len() == 0 {
        Seq::empty()
    } else {
        let (step, action) = start.next(events.first());
        seq![action] + reauth_actions(step, events.drop_first())
    }
}

proof fn lemma_last_write(
    before: Option<AuthDotJson>,
    head: Seq<SignInAction>,
    account: StoredAccount,
    tail: Seq<SignInAction>,
    now: Timestamp,
)
    requires
        no_write(tail),
    ensures
        file_after(before, head.push(SignInAction::Write(account)) + tail, now) == Some(
            auth_json_at(account, now),
        ),
    decreases tail.len(),
{
    let written = head.push(SignInAction::Write(account));
    if tail.len() == 0 {
        assert(written + tail =~= written);
    } else {
        let fewer = tail.drop_last();
        assert forall|i: int| 0 <= i < fewer.len() implies !((#[trigger] fewer[i]) is Write) by {
            assert(fewer[i] == tail[i]);
        }
        lemma_last_write(before, head, account, fewer, now);
        assert((written + tail).drop_last() =~= written + fewer);
        assert((written + tail).last() == tail[tail.len() - 1]);
    }
}

proof fn lemma_last_update(
    head: Seq<SignInAction>,
    update: TokenUpdate,
    tail: Seq<SignInAction>,
)
    requires
        no_update(tail),
    ensures
        last_update(head.push(SignInAction::Update(update)) + tail) == Some(update),
    decreases tail.len(),
{
    let updated = head.push(SignInAction::Update(update));
    if tail.len() == 0 {
        assert(updated + tail =~= updated);
    } else {
        let fewer = tail.drop_last();
        assert forall|i: int| 0 <= i < fewer.len() implies !((#[trigger] fewer[i]) is Update) by {
            assert(fewer[i] == tail[i]);
        }
        lemma_last_update(head, update, fewer);
        assert((updated + tail).drop_last() =~= updated + fewer);
        assert((updated + tail).last() == tail[tail.len() - 1]);
    }
}

proof fn lemma_login_ends_quietly(start: LoginStep, events: Seq<SignInEvent>)
    requires
        start is Touching || start is Loading || start is Finished,
    ensures
        no_write(login_actions(start, events)),
        no_update(login_actions(start, events)),
    decreases events.len(),
{
    if events.len() > 0 {
        lemma_login_ends_quietly(start.next(events.first()).0, events.drop_first());
    }
}

proof fn lemma_reauth_ends_quietly(start: ReauthStep, events: Seq<SignInEvent>)
    requires
        start is Touching || start is Finished,
    ensures
        no_write(reauth_actions(start, events)),
        no_update(reauth_actions(start, events)),
    decreases events.len(),
{
    if events.len() > 0 {
        lemma_reauth_ends_quietly(start.next(events.first()).0, events.drop_first());
    }
}

/// The actions of a login that gives new tokens to the account in use, where no step fails until
/// the file is written, with `found` in the credential file, and then those for whatever happens.
pub open spec fn reauth_actions_then(
    account_id: String,
    fresh: StoredAccount,
    claims: IdTokenClaims,
    updated: StoredAccount,
    store: AccountsStore,
    found: Option<AuthDotJson>,
    then: Seq<SignInEvent>,
) -> Seq<SignInAction> {
    let (s1, a1) = (ReauthStep::Waiting { account_id }).next(
        SignInEvent::SignedIn(Ok::<_, String>(fresh)),
    );
    let (s2, a2) = s1.next(SignInEvent::Claims(claims));
    let (s3, a3) = s2.next(SignInEvent::Stored(Ok::<_, String>(updated)));
    let (s4, a4) = s3.next(SignInEvent::Loaded(Ok::<_, String>(store)));
    let (s5, a5) = s4.next(SignInEvent::FileRead(Ok::<_, String>(found)));
    let (s6, a6) = s5.next(SignInEvent::Done(Ok::<(), String>(())));
    seq![a1, a2, a3, a4, a5, a6] + reauth_actions(s6, then)
}

/// The actions of a login for a new account, where no step fails until the file is written, with
/// `found` in the credential file, and then those for whatever happens.
pub open spec fn login_actions_then(
    account: StoredAccount,
    stored: StoredAccount,
    found: Option<AuthDotJson>,
    then: Seq<SignInEvent>,
) -> Seq<SignInAction> {
    let done = SignInEvent::Done(Ok::<(), String>(()));
    let (s1, a1) = LoginStep::Waiting.next(SignInEvent::SignedIn(Ok::<_, String>(account)));
    let (s2, a2) = s1.next(SignInEvent::Stored(Ok::<_, String>(stored)));
    let (s3, a3) = s2.next(done);
    if stored.auth_data is ChatGPT {
        let (s4, a4) = s3.next(SignInEvent::FileRead(Ok::<_, String>(found)));
        let (s5, a5) = s4.next(done);
        seq![a1, a2, a3, a4, a5] + login_actions(s5, then)
    } else {
        let (s4, a4) = s3.next(done);
        seq![a1, a2, a3, a4] + login_actions(s4, then)
    }
}

/// Once a login has given new tokens to the account in use and written them, the stored account
/// and the credential file hold the new tokens, whatever the file held before and whatever happens
/// then: also where it held older tokens of the same account, none of those come back.
#[verifier::spinoff_prover]
pub proof fn reauth_leaves_the_new_tokens(
    account_id: String,
    fresh: StoredAccount,
    claims: IdTokenClaims,
    updated: StoredAccount,
    store: AccountsStore,
    found: Option<AuthDotJson>,
    then: Seq<SignInEvent>,
    now: Timestamp,
)
    requires
        fresh.auth_data is ChatGPT,
        is_active(store.active_account_id, account_id),
        carries(updated, replaced_tokens(account_id, tokens_of(fresh), claims)),
    ensures
        ({
            let actions = reauth_actions_then(
                account_id,
                fresh,
                claims,
                updated,
                store,
                found,
                then,
            );
            &&& last_update(actions) == Some(
                replaced_tokens(account_id, tokens_of(fresh), claims),
            )
            &&& file_after(found, actions, now) == Some(auth_json_at(updated, now))
        }),
        auth_json_at(updated, now).tokens matches Some(written) && written.id_token
            == fresh.auth_data->id_token && written.access_token == fresh.auth_data->access_token
            && written.refresh_token == fresh.auth_data->refresh_token,
{
    let update = replaced_tokens(account_id, tokens_of(fresh), claims);
    let active_account_id = store.active_account_id;
    let a1 = SignInAction::ReadClaims(fresh.auth_data->id_token);
    let a2 = SignInAction::Update(update);
    let a3 = SignInAction::Load;
    let a4 = SignInAction::ReadFile;
    let a5 = SignInAction::Write(updated);
    let a6 = SignInAction::Touch(account_id);
    let s6 = ReauthStep::Touching { account: updated, active_account_id };
    let quiet = reauth_actions(s6, then);
    let actions = seq![a1, a2, a3, a4, a5, a6] + quiet;
    assert(reauth_actions_then(account_id, fresh, claims, updated, store, found, then) == actions);
    lemma_reauth_ends_quietly(s6, then);
    assert(no_update(seq![a3, a4, a5, a6] + quiet));
    lemma_last_update(seq![a1], update, seq![a3, a4, a5, a6] + quiet);
    assert(seq![a1].push(a2) + (seq![a3, a4, a5, a6] + quiet) =~= actions);
    assert(no_write(seq![a6] + quiet));
    lemma_last_write(found, seq![a1, a2, a3, a4], updated, seq![a6] + quiet, now);
    assert(seq![a1, a2, a3, a4].push(a5) + (seq![a6] + quiet) =~= actions);
}

/// Once a login for a new account has written its credentials, the credential file holds those of
/// the stored account, whatever it held before and whatever happens then: also where it held older
/// tokens of the same ChatGPT account. The tokens of stored accounts are not replaced.
#[verifier::spinoff_prover]
pub proof fn login_leaves_the_new_tokens(
    account: StoredAccount,
    stored: StoredAccount,
    found: Option<AuthDotJson>,
    then: Seq<SignInEvent>,
    now: Timestamp,
)
    ensures
        no_update(login_actions_then(account, stored, found, then)),
        file_after(found, login_actions_then(account, stored, found, then), now) == Some(
            auth_json_at(stored, now),
        ),
{
    let a1 = SignInAction::Add(account);
    let a2 = SignInAction::SetActive(stored.id);
    let read = SignInAction::ReadFile;
    let write = SignInAction::Write(stored);
    let touch = SignInAction::Touch(stored.id);
    let after = LoginStep::Touching { account: stored };
    let quiet = login_actions(after, then);
    let actions = login_actions_then(account, stored, found, then);
    lemma_login_ends_quietly(after, then);
    assert(no_write(seq![touch] + quiet));
    if stored.auth_data is ChatGPT {
        assert(actions == seq![a1, a2, read, write, touch] + quiet);
        lemma_last_write(found, seq![a1, a2, read], stored, seq![touch] + quiet, now);
        assert(seq![a1, a2, read].push(write) + (seq![touch] + quiet) =~= actions);
    } else {
        assert(actions == seq![a1, a2, write, touch] + quiet);
        lemma_last_write(found, seq![a1, a2], stored, seq![touch] + quiet, now);
        assert(seq![a1, a2].push(write) + (seq![touch] + quiet) =~= actions);
    }
}

} // verus!
