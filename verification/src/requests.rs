//! The requests to the ChatGPT backend and to the OpenAI API.

use crate::account::{AuthData, StoredAccount};
use crate::error::ApiError;
use crate::headers::{
    account_id_adds_one_header, api_key_headers, bearer, bearer_is_sendable_iff_token_is,
    credentials_name_the_token, sendable_text_has_no_controls, build_api_key_headers, build_chatgpt_headers, chatgpt_headers,
    header_entries, value_text,
};
use crate::json::{item_trees, member_trees, Json, JsonTree};
use reqwest::header::{HeaderMap, HeaderValue};
use vstd::prelude::*;
use vstd::string::*;
use vstd::utf8::*;

verus! {

/// Where an account's rate limits and credits are read.
pub const USAGE_URL: &'static str = "https://chatgpt.com/backend-api/wham/usage";

/// Where the accounts of a ChatGPT login are listed.
pub const ACCOUNTS_CHECK_URL: &'static str =
    "https://chatgpt.com/backend-api/accounts/check/v4-2023-04-27";

/// Where a ChatGPT account is warmed up.
pub const CODEX_RESPONSES_URL: &'static str = "https://chatgpt.com/backend-api/codex/responses";

/// Where an API key account is warmed up.
pub const OPENAI_RESPONSES_URL: &'static str = "https://api.openai.com/v1/responses";

/// A GET request.
#[derive(Debug)]
pub struct GetRequest {
    pub url: String,
    pub headers: HeaderMap<HeaderValue>,
}

/// A POST request with a JSON body.
#[derive(Debug)]
pub struct PostRequest {
    pub url: String,
    pub headers: HeaderMap<HeaderValue>,
    pub body: Json,
}

/// An optional string slice taken as characters.
pub open spec fn opt_chars(s: Option<&str>) -> Option<Seq<char>> {
    match s {
        Some(s) => Some(s@),
        None => None,
    }
}

/// The access token and the account id with which a ChatGPT account signs its requests; it fails
/// for an account that signs in with an API key.
pub fn extract_chatgpt_auth(account: &StoredAccount) -> (r: Result<(&str, Option<&str>), ApiError>)
    ensures
        match account.auth_data {
            AuthData::ChatGPT { access_token, account_id, .. } => {
                &&& r matches Ok(auth)
                &&& auth.0@ == access_token@
                &&& opt_chars(auth.1) == match account_id {
                    Some(id) => Some(id@),
                    None => None,
                }
            },
            AuthData::ApiKey { .. } => r == Err::<(&str, Option<&str>), _>(ApiError::NotChatGpt),
        },
{
    match &account.auth_data {
        AuthData::ChatGPT { access_token, account_id, .. } => {
            let id = match account_id {
                Some(id) => Some(id.as_str()),
                None => None,
            };
            Ok((access_token.as_str(), id))
        },
        AuthData::ApiKey { .. } => Err(ApiError::NotChatGpt),
    }
}

/// A GET request to the ChatGPT backend.
pub fn chatgpt_get_request(
    url: &str,
    access_token: &str,
    chatgpt_account_id: Option<&str>,
) -> (r: Result<GetRequest, ApiError>)
    ensures
        match r {
            Ok(request) => {
                &&& value_text(bearer(access_token@))
                &&& request.url@ == url@
                &&& header_entries(request.headers) == chatgpt_headers(
                    access_token@,
                    opt_chars(chatgpt_account_id),
                )
            },
            Err(e) => !value_text(bearer(access_token@)) && e == ApiError::InvalidAccessToken,
        },
{
    match build_chatgpt_headers(access_token, chatgpt_account_id) {
        Ok(headers) => Ok(GetRequest { url: url.to_owned(), headers }),
        Err(e) => Err(e),
    }
}

/// The request for an account's rate limits and credits.
pub fn chatgpt_usage_request(access_token: &str, chatgpt_account_id: Option<&str>) -> (r: Result<
    GetRequest,
    ApiError,
>)
    ensures
        match r {
            Ok(request) => {
                &&& value_text(bearer(access_token@))
                &&& request.url@ == USAGE_URL@
                &&& header_entries(request.headers) == chatgpt_headers(
                    access_token@,
                    opt_chars(chatgpt_account_id),
                )
            },
            Err(e) => !value_text(bearer(access_token@)) && e == ApiError::InvalidAccessToken,
        },
{
    chatgpt_get_request(USAGE_URL, access_token, chatgpt_account_id)
}

/// A member of an object.
pub open spec fn member(name: Seq<char>, tree: JsonTree) -> (Seq<char>, JsonTree) {
    (name, tree)
}

/// The message that a warm-up request sends.
pub open spec fn warmup_input() -> JsonTree {
    JsonTree::Array(
        seq![
            JsonTree::Object(
                seq![
                    member("type"@, JsonTree::Text("message"@)),
                    member("role"@, JsonTree::Text("user"@)),
                    member(
                        "content"@,
                        JsonTree::Array(
                            seq![
                                JsonTree::Object(
                                    seq![
                                        member("type"@, JsonTree::Text("input_text"@)),
                                        member("text"@, JsonTree::Text("Hi"@)),
                                    ],
                                ),
                            ],
                        ),
                    ),
                ],
            ),
        ],
    )
}

/// The members of a warm-up request's body that are always there.
pub open spec fn warmup_members(stream: bool) -> Seq<(Seq<char>, JsonTree)> {
    seq![
        member("model"@, JsonTree::Text("gpt-5.4-mini"@)),
        member("instructions"@, JsonTree::Text("You are Codex."@)),
        member("input"@, warmup_input()),
        member("tools"@, JsonTree::Array(seq![])),
        member("tool_choice"@, JsonTree::Text("auto"@)),
        member("parallel_tool_calls"@, JsonTree::Bool(false)),
        member("reasoning"@, JsonTree::Object(seq![member("effort"@, JsonTree::Text("low"@))])),
        member("store"@, JsonTree::Bool(false)),
        member("stream"@, JsonTree::Bool(stream)),
    ]
}

/// The body of a warm-up request.
pub open spec fn warmup_payload(stream: bool, include_max_output_tokens: bool) -> JsonTree {
    if include_max_output_tokens {
        JsonTree::Object(
            warmup_members(stream).push(
                member("max_output_tokens"@, JsonTree::Number("1"@)),
            ),
        )
    } else {
        JsonTree::Object(warmup_members(stream))
    }
}

fn text_member(name: &str, value: &str) -> (r: (String, Json))
    ensures
        r.0@ == name@,
        r.1.tree() == JsonTree::Text(value@),
{
    (name.to_owned(), Json::Text(value.to_owned()))
}

fn bool_member(name: &str, value: bool) -> (r: (String, Json))
    ensures
        r.0@ == name@,
        r.1.tree() == JsonTree::Bool(value),
{
    (name.to_owned(), Json::Bool(value))
}

fn build_warmup_input() -> (r: Json)
    ensures
        r.tree() == warmup_input(),
{
    let content = vec![text_member("type", "input_text"), text_member("text", "Hi")];
    assert(member_trees(content@) =~= seq![
        member("type"@, JsonTree::Text("input_text"@)),
        member("text"@, JsonTree::Text("Hi"@)),
    ]);
    let contents = vec![Json::Object(content)];
    assert(item_trees(contents@) =~= seq![Json::Object(content).tree()]);
    let message = vec![
        text_member("type", "message"),
        text_member("role", "user"),
        ("content".to_owned(), Json::Array(contents)),
    ];
    assert(member_trees(message@) =~= seq![
        member("type"@, JsonTree::Text("message"@)),
        member("role"@, JsonTree::Text("user"@)),
        member("content"@, Json::Array(contents).tree()),
    ]);
    let input = vec![Json::Object(message)];
    assert(item_trees(input@) =~= seq![Json::Object(message).tree()]);
    Json::Array(input)
}

/// The body of a warm-up request: a greeting to a small model with low effort, streamed or not,
/// and where asked for with the answer limited to one token.
pub fn build_warmup_payload(stream: bool, include_max_output_tokens: bool) -> (r: Json)
    ensures
        r.tree() == warmup_payload(stream, include_max_output_tokens),
{
    let tools: Vec<Json> = Vec::new();
    assert(item_trees(tools@) =~= Seq::empty());
    let reasoning = vec![text_member("effort", "low")];
    assert(member_trees(reasoning@) =~= seq![member("effort"@, JsonTree::Text("low"@))]);
    let input = build_warmup_input();
    let mut payload = vec![
        text_member("model", "gpt-5.4-mini"),
        text_member("instructions", "You are Codex."),
        ("input".to_owned(), input),
        ("tools".to_owned(), Json::Array(tools)),
        text_member("tool_choice", "auto"),
        bool_member("parallel_tool_calls", false),
        ("reasoning".to_owned(), Json::Object(reasoning)),
        bool_member("store", false),
        bool_member("stream", stream),
    ];
    assert(member_trees(payload@) =~= warmup_members(stream));
    if include_max_output_tokens {
        let ghost before = payload@;
        payload.push(("max_output_tokens".to_owned(), Json::Number("1".to_owned())));
        assert(member_trees(payload@) =~= member_trees(before).push(
            member("max_output_tokens"@, JsonTree::Number("1"@)),
        ));
    }
    Json::Object(payload)
}

/// The request that warms up a ChatGPT account.
pub fn chatgpt_warmup_request(
    access_token: &str,
    chatgpt_account_id: Option<&str>,
    stream: bool,
) -> (r: Result<PostRequest, ApiError>)
    ensures
        match r {
            Ok(request) => {
                &&& value_text(bearer(access_token@))
                &&& request.url@ == CODEX_RESPONSES_URL@
                &&& header_entries(request.headers) == chatgpt_headers(
                    access_token@,
                    opt_chars(chatgpt_account_id),
                )
                &&& request.body.tree() == warmup_payload(stream, false)
            },
            Err(e) => !value_text(bearer(access_token@)) && e == ApiError::InvalidAccessToken,
        },
{
    match build_chatgpt_headers(access_token, chatgpt_account_id) {
        Ok(headers) => Ok(
            PostRequest {
                url: CODEX_RESPONSES_URL.to_owned(),
                headers,
                body: build_warmup_payload(stream, false),
            },
        ),
        Err(e) => Err(e),
    }
}

/// The request that warms up an API key account; it fails where the key cannot be sent.
pub fn api_key_warmup_request(api_key: &str) -> (r: Result<PostRequest, ApiError>)
    ensures
        match r {
            Ok(request) => {
                &&& value_text(bearer(api_key@))
                &&& request.url@ == OPENAI_RESPONSES_URL@
                &&& header_entries(request.headers) == api_key_headers(api_key@)
                &&& request.body.tree() == warmup_payload(false, true)
            },
            Err(e) => !value_text(bearer(api_key@)) && e == ApiError::ApiKeyWarmup,
        },
{
    match build_api_key_headers(api_key) {
        Some(headers) => Ok(
            PostRequest {
                url: OPENAI_RESPONSES_URL.to_owned(),
                headers,
                body: build_warmup_payload(false, true),
            },
        ),
        None => Err(ApiError::ApiKeyWarmup),
    }
}

/// What an authorized exchange with the ChatGPT backend is for.
#[derive(Debug, Clone, Copy, PartialEq, Eq, Structural)]
pub enum Purpose {
    /// To read an account's rate limits and credits.
    Usage,
    /// To warm up an account.
    Warmup,
}

/// The request of an authorized exchange.
#[derive(Debug)]
pub enum ExchangeRequest {
    Get(GetRequest),
    Post(PostRequest),
}

/// For usage the GET request that reads it, to warm up the POST request, whose answer is streamed;
/// neither where the token cannot be sent.
pub open spec fn request_for(
    r: Result<ExchangeRequest, ApiError>,
    purpose: Purpose,
    access_token: Seq<char>,
    chatgpt_account_id: Option<Seq<char>>,
) -> bool {
    match r {
        Ok(ExchangeRequest::Get(request)) => {
            &&& purpose == Purpose::Usage
            &&& value_text(bearer(access_token))
            &&& request.url@ == USAGE_URL@
            &&& header_entries(request.headers) == chatgpt_headers(
                access_token,
                chatgpt_account_id,
            )
        },
        Ok(ExchangeRequest::Post(request)) => {
            &&& purpose == Purpose::Warmup
            &&& value_text(bearer(access_token))
            &&& request.url@ == CODEX_RESPONSES_URL@
            &&& header_entries(request.headers) == chatgpt_headers(
                access_token,
                chatgpt_account_id,
            )
            &&& request.body.tree() == warmup_payload(true, false)
        },
        Err(e) => !value_text(bearer(access_token)) && e == ApiError::InvalidAccessToken,
    }
}

/// The request that an exchange sends: for usage the GET request that reads it, to warm up the POST
/// request, whose answer is streamed.
pub fn exchange_request(
    purpose: Purpose,
    access_token: &str,
    chatgpt_account_id: Option<&str>,
) -> (r: Result<ExchangeRequest, ApiError>)
    ensures
        request_for(r, purpose, access_token@, opt_chars(chatgpt_account_id)),
{
    match purpose {
        Purpose::Usage => match chatgpt_usage_request(access_token, chatgpt_account_id) {
            Ok(request) => Ok(ExchangeRequest::Get(request)),
            Err(e) => Err(e),
        },
        Purpose::Warmup => match chatgpt_warmup_request(access_token, chatgpt_account_id, true) {
            Ok(request) => Ok(ExchangeRequest::Post(request)),
            Err(e) => Err(e),
        },
    }
}

/// The body of a warm-up request, member by member: only `stream` depends on whether the answer is
/// to be streamed, and the limit to one token comes last where it is asked for.
pub proof fn warmup_body_is_fixed(stream: bool, limited: bool)
    ensures
        ({
            &&& warmup_payload(stream, limited) matches JsonTree::Object(members)
            &&& members.len() == (if limited {
                10int
            } else {
                9int
            })
            &&& members[0] == ("model"@, JsonTree::Text("gpt-5.4-mini"@))
            &&& members[1] == ("instructions"@, JsonTree::Text("You are Codex."@))
            &&& members[2].0 == "input"@
            &&& members[3] == ("tools"@, JsonTree::Array(Seq::empty()))
            &&& members[4] == ("tool_choice"@, JsonTree::Text("auto"@))
            &&& members[5] == ("parallel_tool_calls"@, JsonTree::Bool(false))
            &&& members[6] == (
                "reasoning"@,
                JsonTree::Object(seq![("effort"@, JsonTree::Text("low"@))]),
            )
            &&& members[7] == ("store"@, JsonTree::Bool(false))
            &&& members[8] == ("stream"@, JsonTree::Bool(stream))
            &&& limited ==> members[9] == ("max_output_tokens"@, JsonTree::Number("1"@))
        }),
{
}

/// The input of a warm-up request is one message of the user with one text, a greeting.
pub proof fn warmup_input_is_a_greeting(stream: bool, limited: bool)
    ensures
        ({
            &&& warmup_payload(stream, limited) matches JsonTree::Object(members)
            &&& members[2].1 matches JsonTree::Array(messages)
            &&& messages.len() == 1
            &&& messages[0] matches JsonTree::Object(message)
            &&& message.len() == 3
            &&& message[0] == ("type"@, JsonTree::Text("message"@))
            &&& message[1] == ("role"@, JsonTree::Text("user"@))
            &&& message[2].0 == "content"@
            &&& message[2].1 matches JsonTree::Array(contents)
            &&& contents.len() == 1
            &&& contents[0] == JsonTree::Object(
                seq![
                    ("type"@, JsonTree::Text("input_text"@)),
                    ("text"@, JsonTree::Text("Hi"@)),
                ],
            )
        }),
{
}

/// A text taken as characters is there exactly when the text is, and is that text.
pub proof fn optional_text_is_kept(s: Option<&str>)
    ensures
        opt_chars(s) is Some <==> s is Some,
        s is Some ==> opt_chars(s)->0 == s->0@,
{
}

/// An exchange has a request exactly when no character of the token is a control character of ASCII
/// but the tab. For usage it is a GET request to the usage address, to warm up a POST request to the
/// responses address with a streamed warm-up as its body, and either is authorized by that token.
pub proof fn exchange_asks_for_its_purpose(
    r: Result<ExchangeRequest, ApiError>,
    purpose: Purpose,
    token: Seq<char>,
    id: Option<Seq<char>>,
)
    requires
        request_for(r, purpose, token, id),
    ensures
        r is Ok <==> forall|i: int|
            0 <= i < token.len() ==> (#[trigger] token[i]) as int == 9 || (token[i] as int >= 32
                && token[i] as int != 127),
        r is Err ==> r->Err_0 == ApiError::InvalidAccessToken,
        r is Ok && purpose is Usage ==> {
            &&& r->Ok_0 matches ExchangeRequest::Get(request)
            &&& request.url@ == "https://chatgpt.com/backend-api/wham/usage"@
            &&& header_entries(request.headers) == chatgpt_headers(token, id)
        },
        r is Ok && purpose is Warmup ==> {
            &&& r->Ok_0 matches ExchangeRequest::Post(request)
            &&& request.url@ == "https://chatgpt.com/backend-api/codex/responses"@
            &&& header_entries(request.headers) == chatgpt_headers(token, id)
            &&& request.body.tree() == warmup_payload(true, false)
        },
        chatgpt_headers(token, id)["authorization"@] == seq![encode_utf8("Bearer "@ + token)],
{
    bearer_is_sendable_iff_token_is(token);
    sendable_text_has_no_controls(token);
    credentials_name_the_token(token);
    reveal_strlit("authorization");
    reveal_strlit("chatgpt-account-id");
    assert("authorization"@.len() == 13);
    assert("chatgpt-account-id"@.len() == 18);
    account_id_adds_one_header(token, id, "authorization"@);
}

} // verus!
