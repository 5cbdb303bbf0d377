//! HTTP headers, kept in `reqwest`'s own map.

use crate::error::ApiError;
use reqwest::header::{HeaderMap, HeaderName, HeaderValue, InvalidHeaderName, InvalidHeaderValue};
use vstd::prelude::*;
use vstd::string::*;
use vstd::utf8::*;

verus! {

/// The origin that the requests claim to come from.
pub const CHATGPT_ORIGIN: &'static str = "https://chatgpt.com";

/// A browser's `User-Agent`: with another one the requests are taken for those of a bot.
pub const BROWSER_USER_AGENT: &'static str =
    "Mozilla/5.0 (Windows NT 10.0; Win64; x64) AppleWebKit/537.36 (KHTML, like Gecko) Chrome/136.0.0.0 Safari/537.36";

/// `reqwest::header::HeaderMap`: values by header name. Verus sees nothing inside it.
#[verifier::external_type_specification]
#[verifier::external_body]
#[verifier::reject_recursive_types(T)]
pub struct ExHeaderMap<T>(reqwest::header::HeaderMap<T>);

/// `reqwest::header::HeaderName`, a header name in lower case.
#[verifier::external_type_specification]
#[verifier::external_body]
pub struct ExHeaderName(reqwest::header::HeaderName);

/// `reqwest::header::HeaderValue`, the bytes of a header value.
#[verifier::external_type_specification]
#[verifier::external_body]
pub struct ExHeaderValue(reqwest::header::HeaderValue);

/// `reqwest::header::InvalidHeaderName`, for a name that is no token.
#[verifier::external_type_specification]
#[verifier::external_body]
pub struct ExInvalidHeaderName(reqwest::header::InvalidHeaderName);

/// `reqwest::header::InvalidHeaderValue`, for a value that a header cannot carry.
#[verifier::external_type_specification]
#[verifier::external_body]
pub struct ExInvalidHeaderValue(reqwest::header::InvalidHeaderValue);

/// All values in a `HeaderMap`, by the header's name.
pub uninterp spec fn header_entries(headers: HeaderMap<HeaderValue>) -> Map<
    Seq<char>,
    Seq<Seq<u8>>,
>;

/// The characters of a `HeaderName`.
pub uninterp spec fn header_name_text(name: HeaderName) -> Seq<char>;

/// The bytes of a `HeaderValue`.
pub uninterp spec fn header_value_bytes(value: HeaderValue) -> Seq<u8>;

/// A character that a header value may carry: anything but ASCII's control characters, and among
/// those the tab.
pub open spec fn value_char(c: char) -> bool {
    (c >= '\u{20}' && c != '\u{7f}') || c == '\t'
}

/// A text that a header value may carry.
pub open spec fn value_text(s: Seq<char>) -> bool {
    forall|i: int| 0 <= i < s.len() ==> value_char(#[trigger] s[i])
}

/// A text of visible ASCII characters, spaces and tabs.
pub open spec fn visible_text(s: Seq<char>) -> bool {
    forall|i: int|
        0 <= i < s.len() ==> ('\u{20}' <= (#[trigger] s[i]) < '\u{7f}' || s[i] == '\t')
}

/// A character of a token, as a header name is one.
pub open spec fn token_char(c: char) -> bool {
    ||| 'a' <= c <= 'z'
    ||| 'A' <= c <= 'Z'
    ||| '0' <= c <= '9'
    ||| c == '!' || c == '#' || c == '$' || c == '%' || c == '&' || c == '\''
    ||| c == '*' || c == '+' || c == '-' || c == '.' || c == '^' || c == '_'
    ||| c == '`' || c == '|' || c == '~'
}

/// A header name: a token of at most 65535 characters.
pub open spec fn name_text(s: Seq<char>) -> bool {
    &&& 1 <= s.len() <= 65535
    &&& forall|i: int| 0 <= i < s.len() ==> token_char(#[trigger] s[i])
}

/// `c` in lower case where it is an ASCII letter.
pub open spec fn lower_char(c: char) -> char {
    if 'A' <= c <= 'Z' {
        ((c as u8) + 32) as char
    } else {
        c
    }
}

/// The single value of a header.
pub open spec fn single(value: Seq<char>) -> Seq<Seq<u8>> {
    seq![encode_utf8(value)]
}

/// No header at all.
pub open spec fn no_headers() -> Map<Seq<char>, Seq<Seq<u8>>> {
    Map::empty()
}

/// Calls `HeaderMap::new`: the map is empty.
#[verifier::external_body]
fn new_headers() -> (r: HeaderMap<HeaderValue>)
    ensures
        header_entries(r) == no_headers(),
{
    HeaderMap::new()
}

/// Calls `HeaderMap::insert`: afterwards the header has this value and no other, and all other
/// headers are as before. The method panics in a map that has grown to some thousands of headers.
#[verifier::external_body]
fn insert_header(headers: &mut HeaderMap<HeaderValue>, name: HeaderName, value: HeaderValue)
    requires
        header_entries(*old(headers)).dom().finite(),
        header_entries(*old(headers)).dom().len() < 1000,
    ensures
        header_entries(*final(headers)) == header_entries(*old(headers)).insert(
            header_name_text(name),
            seq![header_value_bytes(value)],
        ),
{
    headers.insert(name, value);
}

/// Calls `HeaderValue::from_static`: the value's bytes are those of the text. The function panics
/// where a character is not visible ASCII, a space or a tab.
#[verifier::external_body]
fn static_value(text: &'static str) -> (r: HeaderValue)
    requires
        visible_text(text@),
    ensures
        header_value_bytes(r) == encode_utf8(text@),
{
    HeaderValue::from_static(text)
}

/// Calls `HeaderValue::from_str`: it succeeds where the text holds no control character of ASCII but
/// the tab, and the value's bytes are those of the text. Characters outside of ASCII are accepted.
#[verifier::external_body]
fn value_from_str(text: &str) -> (r: Result<HeaderValue, InvalidHeaderValue>)
    ensures
        r is Ok <==> value_text(text@),
        r matches Ok(value) ==> header_value_bytes(value) == encode_utf8(text@),
{
    HeaderValue::from_str(text)
}

/// Calls `HeaderName::from_bytes`: it succeeds where the text is a token of at most 65535
/// characters, and puts its letters into lower case.
#[verifier::external_body]
fn name_from_text(text: &str) -> (r: Result<HeaderName, InvalidHeaderName>)
    ensures
        r is Ok <==> name_text(text@),
        r matches Ok(name) ==> header_name_text(name) == text@.map_values(
            |c: char| lower_char(c),
        ),
{
    HeaderName::from_bytes(text.as_bytes())
}

/// The constant `reqwest::header::USER_AGENT`.
#[verifier::external_body]
fn user_agent() -> (r: HeaderName)
    ensures
        header_name_text(r) == "user-agent"@,
{
    reqwest::header::USER_AGENT
}

/// The constant `reqwest::header::AUTHORIZATION`.
#[verifier::external_body]
fn authorization() -> (r: HeaderName)
    ensures
        header_name_text(r) == "authorization"@,
{
    reqwest::header::AUTHORIZATION
}

/// The constant `reqwest::header::ACCEPT`.
#[verifier::external_body]
fn accept() -> (r: HeaderName)
    ensures
        header_name_text(r) == "accept"@,
{
    reqwest::header::ACCEPT
}

/// The constant `reqwest::header::ACCEPT_LANGUAGE`.
#[verifier::external_body]
fn accept_language() -> (r: HeaderName)
    ensures
        header_name_text(r) == "accept-language"@,
{
    reqwest::header::ACCEPT_LANGUAGE
}

/// The constant `reqwest::header::ORIGIN`.
#[verifier::external_body]
fn origin() -> (r: HeaderName)
    ensures
        header_name_text(r) == "origin"@,
{
    reqwest::header::ORIGIN
}

/// The constant `reqwest::header::REFERER`.
#[verifier::external_body]
fn referer() -> (r: HeaderName)
    ensures
        header_name_text(r) == "referer"@,
{
    reqwest::header::REFERER
}

/// The value of the `authorization` header for a token or key.
pub open spec fn bearer(token: Seq<char>) -> Seq<char> {
    "Bearer "@ + token
}

/// The headers of a request that identifies itself as a browser and is authorized by `token`.
pub open spec fn browser_headers(token: Seq<char>) -> Map<Seq<char>, Seq<Seq<u8>>> {
    map![
        "user-agent"@ => single(BROWSER_USER_AGENT@),
        "authorization"@ => single(bearer(token)),
        "accept"@ => single("application/json, text/plain, */*"@),
        "accept-language"@ => single("en-US,en;q=0.9"@),
        "origin"@ => single(CHATGPT_ORIGIN@),
        "referer"@ => single(CHATGPT_ORIGIN@),
        "sec-fetch-dest"@ => single("empty"@),
        "sec-fetch-mode"@ => single("cors"@),
        "sec-fetch-site"@ => single("same-origin"@),
    ]
}

/// The headers of a request to the ChatGPT backend. An account id goes with them where there is
/// one and a header can carry it.
pub open spec fn chatgpt_headers(token: Seq<char>, account_id: Option<Seq<char>>) -> Map<
    Seq<char>,
    Seq<Seq<u8>>,
> {
    match account_id {
        Some(id) => if value_text(id) {
            browser_headers(token).insert("chatgpt-account-id"@, single(id))
        } else {
            browser_headers(token)
        },
        None => browser_headers(token),
    }
}

/// The headers of a request that is authorized by an API key.
pub open spec fn api_key_headers(key: Seq<char>) -> Map<Seq<char>, Seq<Seq<u8>>> {
    map![
        "user-agent"@ => single(BROWSER_USER_AGENT@),
        "authorization"@ => single(bearer(key)),
    ]
}

proof fn lemma_lower_name(text: Seq<char>)
    requires
        forall|i: int|
            0 <= i < text.len() ==> ('a' <= (#[trigger] text[i]) <= 'z' || text[i] == '-'),
        1 <= text.len() <= 65535,
    ensures
        name_text(text),
        text.map_values(|c: char| lower_char(c)) == text,
{
    assert(text.map_values(|c: char| lower_char(c)) =~= text);
}

/// Adds a header with a fixed name and value.
fn insert_static(headers: &mut HeaderMap<HeaderValue>, name: &'static str, value: &'static str)
    requires
        header_entries(*old(headers)).dom().finite(),
        header_entries(*old(headers)).dom().len() < 1000,
        visible_text(value@),
    ensures
        name_text(name@) ==> header_entries(*final(headers)) == header_entries(
            *old(headers),
        ).insert(name@.map_values(|c: char| lower_char(c)), single(value@)),
        !name_text(name@) ==> header_entries(*final(headers)) == header_entries(*old(headers)),
{
    if let Ok(name) = name_from_text(name) {
        insert_header(headers, name, static_value(value));
    }
}

/// The headers of a request to the ChatGPT backend. It fails where the token cannot be sent; an
/// account id that cannot be sent is left out.
pub fn build_chatgpt_headers(access_token: &str, chatgpt_account_id: Option<&str>) -> (r: Result<
    HeaderMap<HeaderValue>,
    ApiError,
>)
    ensures
        match r {
            Ok(headers) => value_text(bearer(access_token@)) && header_entries(headers)
                == chatgpt_headers(
                access_token@,
                match chatgpt_account_id {
                    Some(id) => Some(id@),
                    None => None,
                },
            ),
            Err(e) => !value_text(bearer(access_token@)) && e == ApiError::InvalidAccessToken,
        },
{
    let mut headers = new_headers();
    proof {
        reveal_strlit(
            "Mozilla/5.0 (Windows NT 10.0; Win64; x64) AppleWebKit/537.36 (KHTML, like Gecko) Chrome/136.0.0.0 Safari/537.36",
        );
        reveal_strlit("application/json, text/plain, */*");
        reveal_strlit("en-US,en;q=0.9");
        reveal_strlit("https://chatgpt.com");
        reveal_strlit("empty");
        reveal_strlit("cors");
        reveal_strlit("same-origin");
        reveal_strlit("sec-fetch-dest");
        reveal_strlit("sec-fetch-mode");
        reveal_strlit("sec-fetch-site");
        reveal_strlit("chatgpt-account-id");
        lemma_lower_name("sec-fetch-dest"@);
        lemma_lower_name("sec-fetch-mode"@);
        lemma_lower_name("sec-fetch-site"@);
        lemma_lower_name("chatgpt-account-id"@);
    }
    insert_header(&mut headers, user_agent(), static_value(BROWSER_USER_AGENT));

    let mut credentials = "Bearer ".to_owned();
    credentials.append(access_token);
    match value_from_str(&credentials) {
        Ok(value) => insert_header(&mut headers, authorization(), value),
        Err(_) => return Err(ApiError::InvalidAccessToken),
    }

    insert_header(&mut headers, accept(), static_value("application/json, text/plain, */*"));
    insert_header(&mut headers, accept_language(), static_value("en-US,en;q=0.9"));
    insert_header(&mut headers, origin(), static_value(CHATGPT_ORIGIN));
    insert_header(&mut headers, referer(), static_value(CHATGPT_ORIGIN));
    insert_static(&mut headers, "sec-fetch-dest", "empty");
    insert_static(&mut headers, "sec-fetch-mode", "cors");
    insert_static(&mut headers, "sec-fetch-site", "same-origin");
    assert(header_entries(headers) == browser_headers(access_token@));

    if let Some(id) = chatgpt_account_id {
        if let Ok(name) = name_from_text("chatgpt-account-id") {
            if let Ok(value) = value_from_str(id) {
                insert_header(&mut headers, name, value);
            }
        }
    }
    Ok(headers)
}

/// The headers of a request that is authorized by an API key, or `None` where the key cannot be
/// sent.
pub fn build_api_key_headers(api_key: &str) -> (r: Option<HeaderMap<HeaderValue>>)
    ensures
        match r {
            Some(headers) => value_text(bearer(api_key@)) && header_entries(headers)
                == api_key_headers(api_key@),
            None => !value_text(bearer(api_key@)),
        },
{
    let mut headers = new_headers();
    proof {
        reveal_strlit(
            "Mozilla/5.0 (Windows NT 10.0; Win64; x64) AppleWebKit/537.36 (KHTML, like Gecko) Chrome/136.0.0.0 Safari/537.36",
        );
    }
    insert_header(&mut headers, user_agent(), static_value(BROWSER_USER_AGENT));
    let mut credentials = "Bearer ".to_owned();
    credentials.append(api_key);
    match value_from_str(&credentials) {
        Ok(value) => {
            insert_header(&mut headers, authorization(), value);
            Some(headers)
        },
        Err(_) => None,
    }
}

/// A token can be sent exactly when each of its characters can.
pub proof fn bearer_is_sendable_iff_token_is(token: Seq<char>)
    ensures
        value_text(bearer(token)) <==> value_text(token),
{
    reveal_strlit("Bearer ");
    let whole = bearer(token);
    if value_text(whole) {
        assert forall|i: int| 0 <= i < token.len() implies value_char(#[trigger] token[i]) by {
            assert(token[i] == whole[i + 7]);
        }
    }
    if value_text(token) {
        assert forall|i: int| 0 <= i < whole.len() implies value_char(#[trigger] whole[i]) by {
            if i >= 7 {
                assert(whole[i] == token[i - 7]);
            }
        }
    }
}

/// The nine headers have nine names, so that none replaces another.
pub proof fn browser_headers_are_all_there(token: Seq<char>)
    ensures
        browser_headers(token)["user-agent"@] == single(BROWSER_USER_AGENT@),
        browser_headers(token)["authorization"@] == single(bearer(token)),
        browser_headers(token)["accept"@] == single("application/json, text/plain, */*"@),
        browser_headers(token)["accept-language"@] == single("en-US,en;q=0.9"@),
        browser_headers(token)["origin"@] == single(CHATGPT_ORIGIN@),
        browser_headers(token)["referer"@] == single(CHATGPT_ORIGIN@),
        browser_headers(token)["sec-fetch-dest"@] == single("empty"@),
        browser_headers(token)["sec-fetch-mode"@] == single("cors"@),
        browser_headers(token)["sec-fetch-site"@] == single("same-origin"@),
        browser_headers(token).dom().len() == 9,
{
    reveal_strlit("user-agent");
    reveal_strlit("authorization");
    reveal_strlit("accept");
    reveal_strlit("accept-language");
    reveal_strlit("origin");
    reveal_strlit("referer");
    reveal_strlit("sec-fetch-dest");
    reveal_strlit("sec-fetch-mode");
    reveal_strlit("sec-fetch-site");
    assert("user-agent"@.len() == 10);
    assert("authorization"@.len() == 13);
    assert("accept"@.len() == 6);
    assert("accept-language"@.len() == 15);
    assert("origin"@.len() == 6);
    assert("referer"@.len() == 7);
    assert("sec-fetch-dest"@.len() == 14);
    assert("sec-fetch-mode"@.len() == 14);
    assert("sec-fetch-site"@.len() == 14);
    assert("origin"@ != "accept"@) by {
        assert("origin"@[0] != "accept"@[0]);
    }
    assert("sec-fetch-dest"@ != "sec-fetch-mode"@) by {
        assert("sec-fetch-dest"@[10] != "sec-fetch-mode"@[10]);
    }
    assert("sec-fetch-dest"@ != "sec-fetch-site"@) by {
        assert("sec-fetch-dest"@[10] != "sec-fetch-site"@[10]);
    }
    assert("sec-fetch-mode"@ != "sec-fetch-site"@) by {
        assert("sec-fetch-mode"@[10] != "sec-fetch-site"@[10]);
    }
}

/// An account id adds at most one header and touches no other.
pub proof fn account_id_adds_one_header(
    token: Seq<char>,
    account_id: Option<Seq<char>>,
    name: Seq<char>,
)
    requires
        name != "chatgpt-account-id"@,
    ensures
        chatgpt_headers(token, account_id).dom().contains(name) == browser_headers(
            token,
        ).dom().contains(name),
        chatgpt_headers(token, account_id)[name] == browser_headers(token)[name],
        !browser_headers(token).dom().contains("chatgpt-account-id"@),
        chatgpt_headers(token, account_id).dom().contains("chatgpt-account-id"@) <==> (
        account_id matches Some(id) && value_text(id)),
{
    reveal_strlit("chatgpt-account-id");
    reveal_strlit("user-agent");
    reveal_strlit("authorization");
    reveal_strlit("accept");
    reveal_strlit("accept-language");
    reveal_strlit("origin");
    reveal_strlit("referer");
    reveal_strlit("sec-fetch-dest");
    reveal_strlit("sec-fetch-mode");
    reveal_strlit("sec-fetch-site");
    assert("chatgpt-account-id"@.len() == 18);
    assert("user-agent"@.len() == 10);
    assert("authorization"@.len() == 13);
    assert("accept"@.len() == 6);
    assert("accept-language"@.len() == 15);
    assert("origin"@.len() == 6);
    assert("referer"@.len() == 7);
    assert("sec-fetch-dest"@.len() == 14);
    assert("sec-fetch-mode"@.len() == 14);
    assert("sec-fetch-site"@.len() == 14);
}

/// A text can be sent exactly when it holds no control character of ASCII but the tab.
pub proof fn sendable_text_has_no_controls(s: Seq<char>)
    ensures
        value_text(s) <==> forall|i: int|
            0 <= i < s.len() ==> (#[trigger] s[i]) as int == 9 || (s[i] as int >= 32 && s[i] as int
                != 127),
{
    if value_text(s) {
        assert forall|i: int| 0 <= i < s.len() implies (#[trigger] s[i]) as int == 9 || (s[i] as int
            >= 32 && s[i] as int != 127) by {
            assert(value_char(s[i]));
        }
    }
}

/// The credentials are the word `Bearer`, a space and the token, the same for keys as for tokens.
pub proof fn credentials_name_the_token(token: Seq<char>)
    ensures
        bearer(token) == "Bearer "@ + token,
        browser_headers(token)["authorization"@] == seq![encode_utf8("Bearer "@ + token)],
        api_key_headers(token)["authorization"@] == seq![encode_utf8("Bearer "@ + token)],
        api_key_headers(token)["user-agent"@] == browser_headers(token)["user-agent"@],
        forall|name: Seq<char>|
            #[trigger] api_key_headers(token).dom().contains(name) <==> name == "user-agent"@
                || name == "authorization"@,
{
    browser_headers_are_all_there(token);
    reveal_strlit("user-agent");
    reveal_strlit("authorization");
    assert("user-agent"@.len() == 10);
    assert("authorization"@.len() == 13);
}

/// Two tokens make headers that differ in the credentials alone.
pub proof fn only_credentials_depend_on_the_token(a: Seq<char>, b: Seq<char>, name: Seq<char>)
    requires
        name != "authorization"@,
    ensures
        browser_headers(a).dom() == browser_headers(b).dom(),
        browser_headers(a).dom().contains(name) ==> browser_headers(a)[name]
            == browser_headers(b)[name],
{
    assert(browser_headers(a).dom() =~= browser_headers(b).dom());
}

/// An account id that can be sent goes into a header of its own, byte for byte; one that cannot is
/// left out, and then as without an id all headers are those of the token.
pub proof fn account_id_is_sent_as_it_is(token: Seq<char>, id: Seq<char>)
    ensures
        value_text(id) ==> chatgpt_headers(token, Some(id))["chatgpt-account-id"@]
            == seq![encode_utf8(id)],
        !value_text(id) ==> chatgpt_headers(token, Some(id)) == browser_headers(token),
        chatgpt_headers(token, None) == browser_headers(token),
{
}

} // verus!
