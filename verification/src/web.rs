//! What the library has from the crates `cookie`, `url`, `oauth2` and
//! `serde_json`: each call stands here once, with what is taken on trust of it.

use crate::text::text_view;
use cookie::CookieBuilder;
use oauth2::basic::BasicClient;
use oauth2::{AuthUrl, ClientId, CsrfToken, PkceCodeChallenge, PkceCodeVerifier, RedirectUrl, Scope};
use url::Url;
use vstd::prelude::*;
use vstd::string::*;

verus! {

#[verifier::external_type_specification]
#[verifier::external_body]
pub struct ExParseError(url::ParseError);

/// The views of a list of pairs of strings.
pub open spec fn pairs_view(pairs: Seq<(String, String)>) -> Seq<(Seq<char>, Seq<char>)> {
    pairs.map_values(|p: (String, String)| (p.0@, p.1@))
}

/// What `url::Url::parse` makes of `text`: the URL in its normal form, or
/// nothing where `text` is no absolute URL.
pub uninterp spec fn parsed_url(text: Seq<char>) -> Option<Seq<char>>;

/// The URL that `oauth2` builds for an authorization request with a PKCE
/// challenge: the endpoint `auth_uri` with the query of an authorization-code
/// request for `client_id`, `redirect_uri`, `scope` and `state`, and the
/// SHA-256 challenge of `verifier`.
pub uninterp spec fn authorization_url(
    auth_uri: Seq<char>,
    client_id: Seq<char>,
    redirect_uri: Seq<char>,
    scope: Seq<char>,
    state: Seq<char>,
    verifier: Seq<char>,
) -> Seq<char>;

/// The names and values that `url::form_urlencoded::parse` reads in `query`.
pub uninterp spec fn form_pairs(query: Seq<char>) -> Seq<(Seq<char>, Seq<char>)>;

/// `text` as `url::form_urlencoded::byte_serialize` writes it.
pub uninterp spec fn form_encoded(text: Seq<char>) -> Seq<char>;

/// The string that the JSON object in `body` holds under `key`, as `serde_json`
/// reads it; nothing where `body` is no JSON, no object, or holds no string there.
pub uninterp spec fn json_member_text(body: Seq<u8>, key: Seq<char>) -> Option<Seq<char>>;

/// The number that the JSON object in `body` holds under `key`, as `serde_json`
/// reads it; nothing where there is no such number, or none that fits `u64`.
pub uninterp spec fn json_member_number(body: Seq<u8>, key: Seq<char>) -> Option<u64>;

/// `cookie::CookieBuilder`, with `secure` and `http_only` set, and the cookie's
/// `to_string`. The crate writes the name, `=`, the value as they are, then
/// `; HttpOnly`, then `; Secure`.
#[verifier::external_body]
pub(crate) fn set_cookie_text(name: &str, value: &str) -> (r: String)
    ensures
        r@ == name@ + "="@ + value@ + "; HttpOnly; Secure"@,
{
    CookieBuilder::new(name, value).secure(true).http_only(true).finish().to_string()
}

/// `url::Url::parse`, and the URL's text. The result is named, not described:
/// `parsed_url` is what the crate returns.
#[verifier::external_body]
pub(crate) fn parse_url(text: &str) -> (r: Result<String, url::ParseError>)
    ensures
        match r {
            Ok(url) => parsed_url(text@) == Some(url@),
            Err(_) => parsed_url(text@) is None,
        },
{
    Url::parse(text).map(String::from)
}

/// `oauth2`'s `AuthorizationRequest::url`, on a client made of `client_id` and
/// of the URLs that `url::Url::parse` reads in `auth_uri` and `redirect_uri`,
/// with one scope, the given `state`, and the challenge that
/// `PkceCodeChallenge::from_code_verifier_sha256` computes from `verifier`.
/// That function panics on a verifier under 43 or over 128 bytes, and the two
/// URLs must parse: both are asked of the caller.
#[verifier::external_body]
pub(crate) fn authorize_url(
    auth_uri: &str,
    client_id: &str,
    redirect_uri: &str,
    scope: &str,
    state: &str,
    verifier: &str,
) -> (r: String)
    requires
        parsed_url(auth_uri@) is Some,
        parsed_url(redirect_uri@) is Some,
        43 <= verifier.spec_bytes().len() <= 128,
    ensures
        r@ == authorization_url(auth_uri@, client_id@, redirect_uri@, scope@, state@, verifier@),
{
    let auth = AuthUrl::from_url(Url::parse(auth_uri).unwrap());
    let redirect = RedirectUrl::from_url(Url::parse(redirect_uri).unwrap());
    let client = BasicClient::new(ClientId::new(client_id.to_string()), None, auth, None)
        .set_redirect_url(redirect);
    let challenge = PkceCodeChallenge::from_code_verifier_sha256(
        &PkceCodeVerifier::new(verifier.to_string()),
    );
    let request = client.authorize_url(|| CsrfToken::new(state.to_string()));
    let (url, _) = request.add_scope(Scope::new(scope.to_string())).set_pkce_challenge(challenge).url();
    String::from(url)
}

/// `url::form_urlencoded::parse` on the bytes of `query`, each pair as owned strings.
#[verifier::external_body]
pub(crate) fn parse_form(query: &str) -> (r: Vec<(String, String)>)
    ensures
        pairs_view(r@) == form_pairs(query@),
{
    url::form_urlencoded::parse(query.as_bytes()).into_owned().collect()
}

/// `url::form_urlencoded::byte_serialize` on the bytes of `text`, its pieces joined.
#[verifier::external_body]
pub(crate) fn form_encode(text: &str) -> (r: String)
    ensures
        r@ == form_encoded(text@),
{
    url::form_urlencoded::byte_serialize(text.as_bytes()).collect()
}

/// `serde_json::from_slice` to a `serde_json::Value`, then `Value::get` with
/// `key` and `Value::as_str`.
#[verifier::external_body]
pub(crate) fn json_text(body: &[u8], key: &str) -> (r: Option<String>)
    ensures
        text_view(r) == json_member_text(body@, key@),
{
    let value: serde_json::Value = serde_json::from_slice(body).ok()?;
    value.get(key)?.as_str().map(|s| s.to_string())
}

/// `serde_json::from_slice` to a `serde_json::Value`, then `Value::get` with
/// `key` and `Value::as_u64`.
#[verifier::external_body]
pub(crate) fn json_number(body: &[u8], key: &str) -> (r: Option<u64>)
    ensures
        r == json_member_number(body@, key@),
{
    let value: serde_json::Value = serde_json::from_slice(body).ok()?;
    value.get(key)?.as_u64()
}

#[verifier::external_type_specification]
#[verifier::external_body]
pub struct ExJsonError(serde_json::Error);

/// A session as the shared blob holds it: its id, the kind of its data, the
/// time of creation, the lifetime, and four texts whose meaning the kind decides.
pub type SessionRecord = (String, u8, u64, Option<u64>, String, String, Option<String>, Option<
    String,
>);

/// Tokens as the shared blob holds them: session id, access token, id token.
pub type TokenRecord = (String, String, Option<String>);

/// A verifier as the shared blob holds it: CSRF state, PKCE verifier.
pub type VerifierRecord = (String, String);

pub type SessionRecordView = (
    Seq<char>,
    u8,
    u64,
    Option<u64>,
    Seq<char>,
    Seq<char>,
    Option<Seq<char>>,
    Option<Seq<char>>,
);

pub type TokenRecordView = (Seq<char>, Seq<char>, Option<Seq<char>>);

pub type VerifierRecordView = (Seq<char>, Seq<char>);

pub open spec fn session_record_view(r: SessionRecord) -> SessionRecordView {
    (r.0@, r.1, r.2, r.3, r.4@, r.5@, text_view(r.6), text_view(r.7))
}

pub open spec fn session_records_view(records: Seq<SessionRecord>) -> Seq<SessionRecordView> {
    records.map_values(|r: SessionRecord| session_record_view(r))
}

pub open spec fn token_records_view(records: Seq<TokenRecord>) -> Seq<TokenRecordView> {
    records.map_values(|r: TokenRecord| (r.0@, r.1@, text_view(r.2)))
}

pub open spec fn verifier_records_view(records: Seq<VerifierRecord>) -> Seq<VerifierRecordView> {
    records.map_values(|r: VerifierRecord| (r.0@, r.1@))
}

/// The JSON text that `serde_json::to_vec` writes for the three lists of records.
pub uninterp spec fn json_of_records(
    sessions: Seq<SessionRecordView>,
    tokens: Seq<TokenRecordView>,
    verifiers: Seq<VerifierRecordView>,
) -> Seq<u8>;

/// The three lists of records that `serde_json::from_slice` reads in `bytes`,
/// or nothing where it reads none.
pub uninterp spec fn records_of_json(bytes: Seq<u8>) -> Option<
    (Seq<SessionRecordView>, Seq<TokenRecordView>, Seq<VerifierRecordView>),
>;

/// `serde_json::to_vec` on the three lists of records, as one tuple. It
/// succeeds: the crate names two causes of failure, a value that refuses to be
/// written and a map whose keys are no strings, and lists of tuples of strings,
/// numbers and options hold neither. What it writes is named.
#[verifier::external_body]
pub(crate) fn records_to_json(
    sessions: &Vec<SessionRecord>,
    tokens: &Vec<TokenRecord>,
    verifiers: &Vec<VerifierRecord>,
) -> (r: Result<Vec<u8>, serde_json::Error>)
    ensures
        r is Ok,
        r matches Ok(bytes) ==> bytes@ == json_of_records(
            session_records_view(sessions@),
            token_records_view(tokens@),
            verifier_records_view(verifiers@),
        ),
{
    serde_json::to_vec(&(sessions, tokens, verifiers))
}

/// `serde_json::from_slice` to three lists of records, as one tuple.
#[verifier::external_body]
pub(crate) fn records_from_json(bytes: &[u8]) -> (r: Result<
    (Vec<SessionRecord>, Vec<TokenRecord>, Vec<VerifierRecord>),
    serde_json::Error,
>)
    ensures
        match r {
            Ok(read) => records_of_json(bytes@) == Some(
                (
                    session_records_view(read.0@),
                    token_records_view(read.1@),
                    verifier_records_view(read.2@),
                ),
            ),
            Err(_) => records_of_json(bytes@) is None,
        },
{
    serde_json::from_slice(bytes)
}

} // verus!
