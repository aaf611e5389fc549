//! What holds of the flow as a whole, proved from the contracts of its parts.

use crate::cache::{blob_records, model_of};
use crate::config::ConfigView;
use crate::oauther::{
    answers, callback_of, expired, opened_session, path_of, redirect_url_of, respond_outcome,
    route_of, ActionView, CacheView, RouteView, SecretsView,
};
use crate::session::{
    cookie_text, cookie_value, header_value, lemma_cookie_without_equals, session_id_of,
    session_of, SessionTypeView, SessionView,
};
use crate::text::{lemma_first_index_of, trimmed};
use crate::util::{hex_of, is_token, lemma_hex_chars, lemma_hex_injective};
use crate::web::{json_of_records, records_of_json};
use crate::wire::{contents_of, lemma_records_round_trip, readable, records_of, Contents};
use vstd::prelude::*;

verus! {

/// A request without the session cookie, answered with secrets at hand, is
/// redirected to the authorization server. The redirect carries the secrets'
/// state and the challenge of their verifier, neither of them empty, and hands
/// the caller the cookie of a new session. Afterwards the cache holds the
/// verifier under the state, and the new session with the path that the
/// request asked for.
pub proof fn lemma_request_without_cookie_starts_flow(
    config: ConfigView,
    cache: CacheView,
    headers: Seq<(Seq<char>, Seq<char>)>,
    now: u64,
    secrets: SecretsView,
)
    requires
        session_id_of(headers, config.cookie_name) is None,
        secrets.fresh(),
    ensures
        ({
            let (action, after) = respond_outcome(config, cache, headers, now, Some(secrets));
            &&& action == ActionView::Redirect(
                redirect_url_of(config, secrets),
                seq![("set-cookie"@, cookie_text(config.cookie_name, secrets.session_id))],
            )
            &&& secrets.state.len() == 64
            &&& secrets.verifier.len() == 64
            &&& after.verifiers.contains_key(secrets.state)
            &&& after.verifiers[secrets.state] == secrets.verifier
            &&& after.sessions.contains_key(secrets.session_id)
            &&& after.sessions[secrets.session_id] == opened_session(
                path_of(headers),
                now,
                secrets,
            )
            &&& after.tokens == cache.tokens
        }),
{
    crate::oauther::lemma_token_shape(secrets.state, 32);
    crate::oauther::lemma_token_shape(secrets.verifier, 32);
}

/// A request whose cookie names a session with tokens that have not expired
/// passes, with the header `authorization: bearer` and the access token, and
/// the cache stays as it is.
pub proof fn lemma_live_tokens_pass(
    config: ConfigView,
    cache: CacheView,
    headers: Seq<(Seq<char>, Seq<char>)>,
    now: u64,
    secrets: Option<SecretsView>,
)
    requires
        session_id_of(headers, config.cookie_name) matches Some(id) && cache.sessions.contains_key(
            id,
        ) && (cache.sessions[id].data matches SessionTypeView::Tokens(t) && !expired(t, now)),
    ensures
        ({
            let id = session_id_of(headers, config.cookie_name)->0;
            let token = cache.sessions[id].data->Tokens_0.access_token;
            respond_outcome(config, cache, headers, now, secrets) == (
                ActionView::Allow(seq![("authorization"@, "bearer "@ + token)]),
                cache,
            )
        }),
{
}

/// Only a redirect changes the cache when a request is answered: a request
/// that passes, a token call and a refusal leave it as it was.
pub proof fn lemma_only_redirects_write(
    config: ConfigView,
    cache: CacheView,
    headers: Seq<(Seq<char>, Seq<char>)>,
    now: u64,
    secrets: Option<SecretsView>,
)
    ensures
        !(respond_outcome(config, cache, headers, now, secrets).0 is Redirect) ==> respond_outcome(
            config,
            cache,
            headers,
            now,
            secrets,
        ).1 == cache,
{
}

/// Draws that differ give secrets that differ.
pub proof fn lemma_distinct_draws_distinct_secrets(first: Seq<u8>, second: Seq<u8>)
    requires
        first != second,
    ensures
        hex_of(first) != hex_of(second),
{
    if hex_of(first) == hex_of(second) {
        lemma_hex_injective(first, second);
    }
}

/// The same request without a cookie, answered twice with secrets whose states
/// differ, starts two flows that do not touch each other: after the second
/// answer the cache holds each verifier under its own state.
pub proof fn lemma_flows_are_independent(
    config: ConfigView,
    cache: CacheView,
    headers: Seq<(Seq<char>, Seq<char>)>,
    now: u64,
    later: u64,
    first: SecretsView,
    second: SecretsView,
)
    requires
        session_id_of(headers, config.cookie_name) is None,
        first.state != second.state,
    ensures
        ({
            let once = respond_outcome(config, cache, headers, now, Some(first));
            let twice = respond_outcome(config, once.1, headers, later, Some(second));
            &&& once.0 == ActionView::Redirect(
                redirect_url_of(config, first),
                seq![("set-cookie"@, cookie_text(config.cookie_name, first.session_id))],
            )
            &&& twice.0 == ActionView::Redirect(
                redirect_url_of(config, second),
                seq![("set-cookie"@, cookie_text(config.cookie_name, second.session_id))],
            )
            &&& twice.1.verifiers.contains_key(first.state)
            &&& twice.1.verifiers[first.state] == first.verifier
            &&& twice.1.verifiers.contains_key(second.state)
            &&& twice.1.verifiers[second.state] == second.verifier
        }),
{
}

/// A `cookie` header without `=` names no session, whatever the cookie is called.
pub proof fn lemma_cookies_without_equals_name_no_session(
    headers: Seq<(Seq<char>, Seq<char>)>,
    name: Seq<char>,
)
    requires
        header_value(headers, "cookie"@) matches Some(cookies) ==> !cookies.contains('='),
    ensures
        session_id_of(headers, name) is None,
{
    match header_value(headers, "cookie"@) {
        Some(cookies) => {
            lemma_cookie_without_equals(cookies, name);
        },
        None => {},
    }
}

/// What a shared cache holds survives being written down as records and read
/// again: the cache read back holds the same sessions, each with its state and
/// its verifier, the same tokens and the same verifiers.
pub proof fn lemma_shared_cache_round_trip(contents: Contents)
    ensures
        readable(records_of(contents)),
        model_of(contents_of(records_of(contents))) == model_of(contents),
{
    lemma_records_round_trip(contents);
}

/// Where the JSON of a cache's records reads back as those records, the blob
/// that `store` writes is one that `from_host` reads, and the cache read holds
/// what the cache written held.
pub proof fn lemma_blob_round_trip(contents: Contents)
    ensures
        ({
            let records = records_of(contents);
            let blob = json_of_records(records.sessions, records.tokens, records.verifiers);
            records_of_json(blob) == Some((records.sessions, records.tokens, records.verifiers))
                ==> {
                &&& blob_records(blob) == Some(records)
                &&& readable(records)
                &&& contents_of(blob_records(blob)->0) == contents
            }
        }),
{
    lemma_records_round_trip(contents);
}

/// A request passes only with live tokens: the session that its cookie names
/// holds tokens that have not expired, and the header added carries their
/// access token.
pub proof fn lemma_pass_needs_live_tokens(
    config: ConfigView,
    cache: CacheView,
    headers: Seq<(Seq<char>, Seq<char>)>,
    now: u64,
    secrets: Option<SecretsView>,
)
    requires
        respond_outcome(config, cache, headers, now, secrets).0 is Allow,
    ensures
        session_of(headers, config.cookie_name, cache.sessions) matches Some(session) && (
        session.data matches SessionTypeView::Tokens(t) && !expired(t, now)
            && respond_outcome(config, cache, headers, now, secrets).0 == ActionView::Allow(
            seq![("authorization"@, "bearer "@ + t.access_token)],
        )),
{
}

/// A code is exchanged only for the callback of the flow that the session
/// began: the callback's state is the session's state, and the verifier sent
/// is the one that the cache holds under that state.
pub proof fn lemma_exchange_needs_matching_state(
    session: Option<SessionView>,
    path: Seq<char>,
    verifiers: Map<Seq<char>, Seq<char>>,
    now: u64,
)
    requires
        route_of(session, path, verifiers, now) is Exchange,
    ensures
        session matches Some(s) && (s.data matches SessionTypeView::AuthorizationRequest(v) && (
        callback_of(path) matches Some(found) && found.1 == v.state.csrf_token
            && verifiers.contains_key(found.1) && route_of(session, path, verifiers, now) == (
        RouteView::Exchange { code: found.0, verifier: verifiers[found.1] }))),
{
}

/// A token holds neither `;` nor `=`, so it can be the value of a cookie.
pub proof fn lemma_token_fits_cookie(token: Seq<char>, count: nat)
    requires
        is_token(token, count),
    ensures
        !token.contains(';'),
        !token.contains('='),
{
    let bytes = choose|bytes: Seq<u8>| bytes.len() == count && token == #[trigger] hex_of(bytes);
    assert forall|i: int| 0 <= i < token.len() implies token[i] != ';' && token[i] != '=' by {
        lemma_hex_chars(bytes, i);
    }
}

/// The cookie that the flow hands out is found again: in the pair that a
/// caller sends back for it, the name finds the value. This holds of a name
/// without `;`, `=` and white space around it, and of a value without `;`.
pub proof fn lemma_cookie_is_found_again(name: Seq<char>, value: Seq<char>)
    requires
        !name.contains(';'),
        !name.contains('='),
        trimmed(name) == name,
        !value.contains(';'),
    ensures
        cookie_value(name + "="@ + value, name) == Some(value),
{
    reveal_strlit("=");
    let sent = name + "="@ + value;
    assert("="@ =~= seq!['=']);
    assert forall|j: int| 0 <= j < sent.len() implies sent[j] != ';' by {
        if j < name.len() {
            assert(name.contains(sent[j]));
        } else if j > name.len() {
            assert(value[j - name.len() - 1] == sent[j]);
            assert(value.contains(sent[j]));
        }
    }
    lemma_first_index_of(sent, ';', sent.len() as int);
    assert(sent.take(sent.len() as int) =~= sent);
    assert forall|j: int| 0 <= j < name.len() implies sent[j] != '=' by {
        assert(name.contains(sent[j]));
    }
    lemma_first_index_of(sent, '=', name.len() as int);
    assert(sent.take(name.len() as int) =~= name);
    assert(sent.skip(name.len() as int + 1) =~= value);
}

/// Whatever the clock and the random source gave, the answer to a request
/// without the session cookie is one of two. With secrets drawn it is the
/// redirect to the authorization server that carries their state and the
/// challenge of their verifier, with the cookie of the new session, and the
/// cache holds the verifier under the state and the new session. Without
/// secrets it is a refusal, and the cache is as it was.
pub proof fn lemma_answer_without_cookie(
    config: ConfigView,
    before: CacheView,
    headers: Seq<(Seq<char>, Seq<char>)>,
    action: ActionView,
    after: CacheView,
    at: u64,
    secrets: Option<SecretsView>,
)
    requires
        answers(config, before, headers, action, after, at, secrets),
        session_id_of(headers, config.cookie_name) is None,
    ensures
        match secrets {
            None => action == ActionView::Noop && after == before,
            Some(s) => {
                &&& action == ActionView::Redirect(
                    redirect_url_of(config, s),
                    seq![("set-cookie"@, cookie_text(config.cookie_name, s.session_id))],
                )
                &&& s.state.len() == 64
                &&& s.verifier.len() == 64
                &&& after.verifiers.contains_key(s.state)
                &&& after.verifiers[s.state] == s.verifier
                &&& after.sessions.contains_key(s.session_id)
                &&& after.sessions[s.session_id] == opened_session(path_of(headers), at, s)
            },
        },
{
    match secrets {
        Some(s) => {
            lemma_request_without_cookie_starts_flow(config, before, headers, at, s);
        },
        None => {},
    }
}

/// Two answers in a row to the same request without the session cookie, each
/// with secrets drawn and the two states different, are two redirects, and
/// after the second the cache holds the verifier of each under its own state.
pub proof fn lemma_two_answers_without_cookie(
    config: ConfigView,
    before: CacheView,
    headers: Seq<(Seq<char>, Seq<char>)>,
    first_action: ActionView,
    between: CacheView,
    first_at: u64,
    first: SecretsView,
    second_action: ActionView,
    after: CacheView,
    second_at: u64,
    second: SecretsView,
)
    requires
        answers(config, before, headers, first_action, between, first_at, Some(first)),
        answers(config, between, headers, second_action, after, second_at, Some(second)),
        session_id_of(headers, config.cookie_name) is None,
        first.state != second.state,
    ensures
        first_action == ActionView::Redirect(
            redirect_url_of(config, first),
            seq![("set-cookie"@, cookie_text(config.cookie_name, first.session_id))],
        ),
        second_action == ActionView::Redirect(
            redirect_url_of(config, second),
            seq![("set-cookie"@, cookie_text(config.cookie_name, second.session_id))],
        ),
        after.verifiers.contains_key(first.state),
        after.verifiers[first.state] == first.verifier,
        after.verifiers.contains_key(second.state),
        after.verifiers[second.state] == second.verifier,
{
    lemma_flows_are_independent(config, before, headers, first_at, second_at, first, second);
}

} // verus!
