//! The authentication flow: for each request, whether the caller holds a valid
//! session, and what to answer where not.

use crate::config::{ConfigError, ConfigView, FilterConfig, OAutherConfig, config_error, config_view};
use crate::session::{
    bearer_header, cookie_text, find_header, header_value, headers_view, response_headers_view,
    session_id_of, session_of, AuthorizationResponseVerifiers, AuthorizationTokens, Headers,
    Session, SessionType, SessionTypeView, SessionUpdate, SessionUpdateView, SessionView,
    StateView, TokensView, UpdateType, UpdateTypeView, VerifiersView,
};
use crate::text::{
    borrowed_text_view, chars_of, copy_text, find_char, first_index_of, piece, same_text,
    text_view,
};
use crate::util::{hex_of, hex_text, is_token, lemma_hex_chars, now, random_bytes};
use crate::web::{
    authorization_url, authorize_url, form_encode, form_encoded, form_pairs, json_member_number,
    json_member_text, json_number, json_text, pairs_view, parse_form, set_cookie_text,
};
use vstd::prelude::*;
use vstd::string::*;

verus! {

/// What a cache holds: sessions by id, tokens by session id, and PKCE
/// verifiers by CSRF state.
pub struct CacheView {
    pub sessions: Map<Seq<char>, SessionView>,
    pub tokens: Map<Seq<char>, (Seq<char>, Option<Seq<char>>)>,
    pub verifiers: Map<Seq<char>, Seq<char>>,
}

impl CacheView {
    /// A cache that holds nothing.
    pub open spec fn empty() -> CacheView {
        CacheView { sessions: Map::empty(), tokens: Map::empty(), verifiers: Map::empty() }
    }
}

/// `cache` once it has taken `update`: the session stands under its id, in the
/// place of whatever the id held; an authorization request leaves its verifier
/// under its CSRF state, and tokens leave the access token and the id token
/// under the session's id.
pub open spec fn applied(cache: CacheView, update: SessionUpdateView) -> CacheView {
    CacheView {
        sessions: cache.sessions.insert(update.id, update.session()),
        tokens: match update.data {
            UpdateTypeView::Tokens(t) => cache.tokens.insert(
                update.id,
                (t.access_token, t.id_token),
            ),
            UpdateTypeView::AuthorizationRequest(_) => cache.tokens,
        },
        verifiers: match update.data {
            UpdateTypeView::AuthorizationRequest(v) => match v.pkce_verifier {
                Some(verifier) => cache.verifiers.insert(v.state.csrf_token, verifier),
                None => cache.verifiers,
            },
            UpdateTypeView::Tokens(_) => cache.verifiers,
        },
    }
}

/// The store behind the flow. Reads hand out copies; a write of tokens or of a
/// verifier changes the one entry it names and nothing else; a session update
/// is taken in one step, with the entries that follow from it.
pub trait Cache {
    /// What the cache holds.
    spec fn model(&self) -> CacheView;

    fn get_tokens_for_session(&self, session: &String) -> (r: Option<(String, Option<String>)>)
        ensures
            match r {
                Some(tokens) => self.model().tokens.contains_key(session@) && (
                    tokens.0@,
                    text_view(tokens.1),
                ) == self.model().tokens[session@],
                None => !self.model().tokens.contains_key(session@),
            },
    ;

    fn set_tokens_for_session(
        &mut self,
        session: &String,
        access_token: &String,
        id_token: Option<&String>,
    )
        ensures
            final(self).model() == (CacheView {
                sessions: old(self).model().sessions,
                tokens: old(self).model().tokens.insert(
                    session@,
                    (access_token@, borrowed_text_view(id_token)),
                ),
                verifiers: old(self).model().verifiers,
            }),
    ;

    fn get_verifier_for_state(&self, state: &String) -> (r: Option<String>)
        ensures
            match r {
                Some(verifier) => self.model().verifiers.contains_key(state@) && verifier@
                    == self.model().verifiers[state@],
                None => !self.model().verifiers.contains_key(state@),
            },
    ;

    fn set_verifier_for_state(&mut self, state: &String, verifier: &String)
        ensures
            final(self).model() == (CacheView {
                sessions: old(self).model().sessions,
                tokens: old(self).model().tokens,
                verifiers: old(self).model().verifiers.insert(state@, verifier@),
            }),
    ;

    fn get_session(&self, session_id: &String) -> (r: Option<Session>)
        ensures
            match r {
                Some(session) => self.model().sessions.contains_key(session_id@) && session@
                    == self.model().sessions[session_id@],
                None => !self.model().sessions.contains_key(session_id@),
            },
    ;

    fn set_session(&mut self, update: SessionUpdate)
        ensures
            final(self).model() == applied(old(self).model(), update@),
    ;
}

/// An HTTP request for the host to send.
pub struct HttpRequest {
    pub url: String,
    pub method: String,
    pub headers: Headers,
    pub body: String,
}

/// A call to the token endpoint, with what the flow needs to go on once the
/// answer is there: the session it is made for and the path of the request
/// that waits for it.
pub struct TokenCall {
    pub request: HttpRequest,
    pub session: Session,
    pub path: String,
}

/// What the host is to do with a request.
pub enum Action {
    /// Nothing could be decided: the random source gave no secrets. The host
    /// refuses the request.
    Noop,
    /// Answer with a redirect to this URL, with these headers.
    Redirect(String, Headers),
    /// Hold the request, send this call, and hand its answer to
    /// `handle_token_response`.
    HttpCall(TokenCall),
    /// Let the request pass, with these headers added.
    Allow(Headers),
}

pub struct HttpRequestView {
    pub url: Seq<char>,
    pub method: Seq<char>,
    pub headers: Seq<(Seq<char>, Seq<char>)>,
    pub body: Seq<char>,
}

pub struct TokenCallView {
    pub request: HttpRequestView,
    pub session: SessionView,
    pub path: Seq<char>,
}

pub enum ActionView {
    Noop,
    Redirect(Seq<char>, Seq<(Seq<char>, Seq<char>)>),
    HttpCall(TokenCallView),
    Allow(Seq<(Seq<char>, Seq<char>)>),
}

impl View for HttpRequest {
    type V = HttpRequestView;

    open spec fn view(&self) -> HttpRequestView {
        HttpRequestView {
            url: self.url@,
            method: self.method@,
            headers: response_headers_view(self.headers@),
            body: self.body@,
        }
    }
}

impl View for TokenCall {
    type V = TokenCallView;

    open spec fn view(&self) -> TokenCallView {
        TokenCallView { request: self.request@, session: self.session@, path: self.path@ }
    }
}

impl View for Action {
    type V = ActionView;

    open spec fn view(&self) -> ActionView {
        match self {
            Action::Noop => ActionView::Noop,
            Action::Redirect(url, headers) => ActionView::Redirect(
                url@,
                response_headers_view(headers@),
            ),
            Action::HttpCall(call) => ActionView::HttpCall(call@),
            Action::Allow(headers) => ActionView::Allow(response_headers_view(headers@)),
        }
    }
}

/// The three secrets of a new flow.
pub struct SecretsView {
    pub state: Seq<char>,
    pub verifier: Seq<char>,
    pub session_id: Seq<char>,
}

impl SecretsView {
    /// Each secret is the hexadecimal text of 32 bytes.
    pub open spec fn fresh(self) -> bool {
        &&& is_token(self.state, 32)
        &&& is_token(self.verifier, 32)
        &&& is_token(self.session_id, 32)
    }
}

/// The three secrets of a new flow: the CSRF state, the PKCE verifier and the
/// session id, each 32 bytes in hexadecimal.
pub struct Secrets {
    state: String,
    verifier: String,
    session_id: String,
}

impl View for Secrets {
    type V = SecretsView;

    closed spec fn view(&self) -> SecretsView {
        SecretsView {
            state: self.state@,
            verifier: self.verifier@,
            session_id: self.session_id@,
        }
    }
}

/// The view of secrets that may be missing.
pub open spec fn secrets_view(secrets: Option<Secrets>) -> Option<SecretsView> {
    match secrets {
        Some(s) => Some(s@),
        None => None,
    }
}

/// The view of a session that may be missing.
pub open spec fn session_view(session: Option<Session>) -> Option<SessionView> {
    match session {
        Some(s) => Some(s@),
        None => None,
    }
}

/// A token is twice as long as its bytes are many, and plain ASCII.
pub proof fn lemma_token_shape(token: Seq<char>, count: nat)
    requires
        is_token(token, count),
    ensures
        token.len() == 2 * count,
        vstd::utf8::is_ascii_chars(token),
{
    let bytes = choose|bytes: Seq<u8>| bytes.len() == count && token == #[trigger] hex_of(bytes);
    assert forall|i: int| 0 <= i < token.len() implies '\0' <= #[trigger] token[i] <= '\u{7f}' by {
        lemma_hex_chars(bytes, i);
    }
}

impl Secrets {
    #[verifier::type_invariant]
    spec fn kept(self) -> bool {
        self@.fresh()
    }

    /// Three secrets from the system's random source; none where it fails.
    pub fn draw() -> (r: Option<Secrets>)
        ensures
            r matches Some(s) ==> s@.fresh(),
    {
        Secrets::from_draws(random_bytes(32), random_bytes(32), random_bytes(32))
    }

    /// The secrets that three draws from the random source stand for: there
    /// are some where each draw succeeded with 32 bytes, and none otherwise.
    pub fn from_draws(
        state: Result<Vec<u8>, getrandom::Error>,
        verifier: Result<Vec<u8>, getrandom::Error>,
        session_id: Result<Vec<u8>, getrandom::Error>,
    ) -> (r: Option<Secrets>)
        ensures
            match (state, verifier, session_id) {
                (Ok(a), Ok(b), Ok(c)) => if a@.len() == 32 && b@.len() == 32 && c@.len() == 32 {
                    r matches Some(s) && s@ == (SecretsView {
                        state: hex_of(a@),
                        verifier: hex_of(b@),
                        session_id: hex_of(c@),
                    })
                } else {
                    r is None
                },
                _ => r is None,
            },
    {
        match (state, verifier, session_id) {
            (Ok(a), Ok(b), Ok(c)) => Secrets::from_entropy(&a, &b, &c),
            _ => None,
        }
    }

    /// The secrets that three given draws of 32 bytes stand for; none where a
    /// draw has another length.
    pub fn from_entropy(state: &Vec<u8>, verifier: &Vec<u8>, session_id: &Vec<u8>) -> (r: Option<
        Secrets,
    >)
        ensures
            match r {
                Some(s) => {
                    &&& state@.len() == 32 && verifier@.len() == 32 && session_id@.len() == 32
                    &&& s@ == (SecretsView {
                        state: hex_of(state@),
                        verifier: hex_of(verifier@),
                        session_id: hex_of(session_id@),
                    })
                },
                None => !(state@.len() == 32 && verifier@.len() == 32 && session_id@.len() == 32),
            },
    {
        if state.len() != 32 || verifier.len() != 32 || session_id.len() != 32 {
            return None;
        }
        Some(
            Secrets {
                state: hex_text(state),
                verifier: hex_text(verifier),
                session_id: hex_text(session_id),
            },
        )
    }

    pub fn state(&self) -> (r: &String)
        ensures
            r@ == self@.state,
            self@.fresh(),
    {
        proof {
            use_type_invariant(self);
        }
        &self.state
    }

    pub fn pkce_verifier(&self) -> (r: &String)
        ensures
            r@ == self@.verifier,
            self@.fresh(),
    {
        proof {
            use_type_invariant(self);
        }
        &self.verifier
    }

    pub fn session_id(&self) -> (r: &String)
        ensures
            r@ == self@.session_id,
            self@.fresh(),
    {
        proof {
            use_type_invariant(self);
        }
        &self.session_id
    }
}

/// The path of a request: its `:path` header, or `/` where it has none.
pub open spec fn path_of(headers: Seq<(Seq<char>, Seq<char>)>) -> Seq<char> {
    match header_value(headers, ":path"@) {
        Some(path) => path,
        None => "/"@,
    }
}

/// The query of a path: what follows its first `?`.
pub open spec fn query_of(path: Seq<char>) -> Seq<char> {
    let mark = first_index_of(path, '?');
    if mark < path.len() {
        path.skip(mark + 1)
    } else {
        Seq::empty()
    }
}

/// The code and the state that a path carries where it is the callback of the
/// authorization server: its query holds both `code` and `state`.
pub open spec fn callback_of(path: Seq<char>) -> Option<(Seq<char>, Seq<char>)> {
    let pairs = form_pairs(query_of(path));
    match (header_value(pairs, "code"@), header_value(pairs, "state"@)) {
        (Some(code), Some(state)) => Some((code, state)),
        _ => None,
    }
}

/// Whether tokens have outlived `expires_in` at the time `now`. Tokens
/// without `expires_in` do not expire.
pub open spec fn expired(tokens: TokensView, now: u64) -> bool {
    tokens.expires_in matches Some(lifetime) && now - tokens.created_at >= lifetime
}

/// What a request calls for.
pub enum RouteView {
    /// Start a flow; `path` is where the caller wanted to go.
    Start { path: Seq<char> },
    /// Exchange the callback's code for tokens.
    Exchange { code: Seq<char>, verifier: Seq<char> },
    /// Exchange the refresh token for new tokens.
    Refresh { refresh_token: Seq<char> },
    /// Let the request pass with this access token.
    Allow { access_token: Seq<char> },
}

/// What a request calls for, given its session, its path, the verifiers in the
/// cache and the time.
///
/// Without a session, or with an empty one, a flow starts. While an
/// authorization request is under way, the callback is exchanged where its
/// state is the session's and has a verifier in the cache; every other request
/// starts the flow again, for the path that the first request asked for. With
/// tokens the request passes until they expire; then they are refreshed where
/// there is a refresh token, else a flow starts.
pub open spec fn route_of(
    session: Option<SessionView>,
    path: Seq<char>,
    verifiers: Map<Seq<char>, Seq<char>>,
    now: u64,
) -> RouteView {
    match session {
        None => RouteView::Start { path },
        Some(s) => match s.data {
            SessionTypeView::Empty => RouteView::Start { path },
            SessionTypeView::AuthorizationRequest(v) => match callback_of(path) {
                Some((code, state)) => if verifiers.contains_key(state) && state
                    == v.state.csrf_token {
                    RouteView::Exchange { code, verifier: verifiers[state] }
                } else {
                    RouteView::Start { path: v.state.path }
                },
                None => RouteView::Start { path: v.state.path },
            },
            SessionTypeView::Tokens(t) => if !expired(t, now) {
                RouteView::Allow { access_token: t.access_token }
            } else {
                match t.refresh_token {
                    Some(refresh_token) => RouteView::Refresh { refresh_token },
                    None => RouteView::Start { path },
                }
            },
        },
    }
}

/// The URL that a new flow sends the caller to.
pub open spec fn redirect_url_of(config: ConfigView, secrets: SecretsView) -> Seq<char> {
    authorization_url(
        config.auth_uri,
        config.client_id,
        config.redirect_uri,
        "openid"@,
        secrets.state,
        secrets.verifier,
    )
}

/// The session that a new flow opens.
pub open spec fn opened_session(path: Seq<char>, now: u64, secrets: SecretsView) -> SessionView {
    SessionView {
        id: secrets.session_id,
        data: SessionTypeView::AuthorizationRequest(
            VerifiersView {
                created_at: now,
                state: StateView { path, csrf_token: secrets.state },
                pkce_verifier: Some(secrets.verifier),
            },
        ),
    }
}

/// The start of a flow: with secrets, a redirect to the authorization server
/// that hands the caller a new session cookie, while the cache takes the
/// session and the verifier under the state; without secrets, nothing.
pub open spec fn start_outcome(
    config: ConfigView,
    cache: CacheView,
    path: Seq<char>,
    now: u64,
    secrets: Option<SecretsView>,
) -> (ActionView, CacheView) {
    match secrets {
        None => (ActionView::Noop, cache),
        Some(s) => (
            ActionView::Redirect(
                redirect_url_of(config, s),
                seq![("set-cookie"@, cookie_text(config.cookie_name, s.session_id))],
            ),
            CacheView {
                sessions: cache.sessions.insert(s.session_id, opened_session(path, now, s)),
                tokens: cache.tokens,
                verifiers: cache.verifiers.insert(s.state, s.verifier),
            },
        ),
    }
}

/// The credentials of the client, as the end of a form.
pub open spec fn credentials_form(config: ConfigView) -> Seq<char> {
    "&client_id="@ + form_encoded(config.client_id) + "&client_secret="@ + form_encoded(
        config.client_secret,
    )
}

/// The form that exchanges an authorization code for tokens.
pub open spec fn exchange_form(config: ConfigView, code: Seq<char>, verifier: Seq<char>) -> Seq<
    char,
> {
    "grant_type=authorization_code&code="@ + form_encoded(code) + "&redirect_uri="@ + form_encoded(
        config.redirect_url,
    ) + "&code_verifier="@ + form_encoded(verifier) + credentials_form(config)
}

/// The form that exchanges a refresh token for tokens.
pub open spec fn refresh_form(config: ConfigView, refresh_token: Seq<char>) -> Seq<char> {
    "grant_type=refresh_token&refresh_token="@ + form_encoded(refresh_token) + credentials_form(
        config,
    )
}

/// The request that carries `form` to the token endpoint.
pub open spec fn token_request_of(config: ConfigView, form: Seq<char>) -> HttpRequestView {
    HttpRequestView {
        url: config.token_url,
        method: "POST"@,
        headers: seq![
            ("content-type"@, "application/x-www-form-urlencoded"@),
            ("accept"@, "application/json"@),
        ],
        body: form,
    }
}

/// What a request is answered with, and what the cache holds afterwards.
pub open spec fn respond_outcome(
    config: ConfigView,
    cache: CacheView,
    headers: Seq<(Seq<char>, Seq<char>)>,
    now: u64,
    secrets: Option<SecretsView>,
) -> (ActionView, CacheView) {
    let path = path_of(headers);
    let session = session_of(headers, config.cookie_name, cache.sessions);
    match route_of(session, path, cache.verifiers, now) {
        RouteView::Start { path: wanted } => start_outcome(config, cache, wanted, now, secrets),
        RouteView::Exchange { code, verifier } => (
            ActionView::HttpCall(
                TokenCallView {
                    request: token_request_of(config, exchange_form(config, code, verifier)),
                    session: session->0,
                    path,
                },
            ),
            cache,
        ),
        RouteView::Refresh { refresh_token } => (
            ActionView::HttpCall(
                TokenCallView {
                    request: token_request_of(config, refresh_form(config, refresh_token)),
                    session: session->0,
                    path,
                },
            ),
            cache,
        ),
        RouteView::Allow { access_token } => (
            ActionView::Allow(seq![bearer_header(access_token)]),
            cache,
        ),
    }
}

/// The tokens in the answer of the token endpoint: there are some where the
/// status is 200 and the body is a JSON object with a string `access_token`.
/// A missing `refresh_token` leaves `kept` in its place.
pub open spec fn tokens_of_response(status: u16, body: Seq<u8>, now: u64, kept: Option<Seq<char>>) -> Option<
    TokensView,
> {
    match json_member_text(body, "access_token"@) {
        Some(access_token) => if status == 200 {
            Some(
                TokensView {
                    created_at: now,
                    access_token,
                    expires_in: json_member_number(body, "expires_in"@),
                    id_token: json_member_text(body, "id_token"@),
                    refresh_token: match json_member_text(body, "refresh_token"@) {
                        Some(r) => Some(r),
                        None => kept,
                    },
                },
            )
        } else {
            None
        },
        None => None,
    }
}

/// `cache` once `session` holds `tokens`.
pub open spec fn with_tokens(cache: CacheView, session: Seq<char>, tokens: TokensView) -> CacheView {
    applied(cache, SessionUpdateView { id: session, data: UpdateTypeView::Tokens(tokens) })
}

/// What the answer to a token call leads to. After a code exchange the tokens
/// go into the session and the caller is sent to the path that started the
/// flow. After a refresh the tokens go into the session and the request that
/// waited passes. An answer without tokens starts the flow again.
pub open spec fn resume_outcome(
    config: ConfigView,
    cache: CacheView,
    call: TokenCallView,
    status: u16,
    body: Seq<u8>,
    now: u64,
    secrets: Option<SecretsView>,
) -> (ActionView, CacheView) {
    match call.session.data {
        SessionTypeView::AuthorizationRequest(v) => match tokens_of_response(
            status,
            body,
            now,
            None,
        ) {
            Some(tokens) => (
                ActionView::Redirect(v.state.path, Seq::empty()),
                with_tokens(cache, call.session.id, tokens),
            ),
            None => start_outcome(config, cache, v.state.path, now, secrets),
        },
        SessionTypeView::Tokens(held) => match tokens_of_response(
            status,
            body,
            now,
            held.refresh_token,
        ) {
            Some(tokens) => (
                ActionView::Allow(seq![bearer_header(tokens.access_token)]),
                with_tokens(cache, call.session.id, tokens),
            ),
            None => start_outcome(config, cache, call.path, now, secrets),
        },
        SessionTypeView::Empty => start_outcome(config, cache, call.path, now, secrets),
    }
}

/// Whether `action` and `after` are what a request is answered with at some
/// time `now`, with `secrets` drawn or not.
pub open spec fn answers(
    config: ConfigView,
    before: CacheView,
    headers: Seq<(Seq<char>, Seq<char>)>,
    action: ActionView,
    after: CacheView,
    now: u64,
    secrets: Option<SecretsView>,
) -> bool {
    &&& secrets matches Some(s) ==> s.fresh()
    &&& respond_outcome(config, before, headers, now, secrets) == (action, after)
}

/// Whether `action` and `after` are what the answer to a token call leads to
/// at some time `now`, with `secrets` drawn or not.
pub open spec fn resumes(
    config: ConfigView,
    before: CacheView,
    call: TokenCallView,
    status: u16,
    body: Seq<u8>,
    action: ActionView,
    after: CacheView,
    now: u64,
    secrets: Option<SecretsView>,
) -> bool {
    &&& secrets matches Some(s) ==> s.fresh()
    &&& resume_outcome(config, before, call, status, body, now, secrets) == (action, after)
}

/// What a request calls for.
pub enum Route {
    Start { path: String },
    Exchange { code: String, verifier: String },
    Refresh { refresh_token: String },
    Allow { access_token: String },
}

impl View for Route {
    type V = RouteView;

    open spec fn view(&self) -> RouteView {
        match self {
            Route::Start { path } => RouteView::Start { path: path@ },
            Route::Exchange { code, verifier } => RouteView::Exchange {
                code: code@,
                verifier: verifier@,
            },
            Route::Refresh { refresh_token } => RouteView::Refresh {
                refresh_token: refresh_token@,
            },
            Route::Allow { access_token } => RouteView::Allow { access_token: access_token@ },
        }
    }
}

/// The value of the first pair called `name`.
pub fn find_pair(pairs: &Vec<(String, String)>, name: &str) -> (r: Option<String>)
    ensures
        text_view(r) == header_value(pairs_view(pairs@), name@),
{
    let ghost all = pairs_view(pairs@);
    assert(all.skip(0) =~= all);
    let mut i: usize = 0;
    while i < pairs.len()
        invariant
            i <= pairs.len(),
            all == pairs_view(pairs@),
            header_value(all, name@) == header_value(all.skip(i as int), name@),
        decreases pairs.len() - i,
    {
        proof {
            assert(all.skip(i as int)[0] == (pairs@[i as int].0@, pairs@[i as int].1@));
            assert(all.skip(i as int).drop_first() =~= all.skip(i + 1));
        }
        if same_text(pairs[i].0.as_str(), name) {
            return Some(pairs[i].1.clone());
        }
        i += 1;
    }
    None
}

/// The query of a path: what follows its first `?`.
pub fn query(path: &str) -> (r: String)
    ensures
        r@ == query_of(path@),
{
    let chars = chars_of(path);
    let n = chars.len();
    assert(chars@.subrange(0, n as int) =~= chars@);
    let mark = find_char(&chars, 0, n, '?');
    if mark < n {
        assert(path@.skip(mark + 1) =~= path@.subrange(mark + 1, n as int));
        piece(path, mark + 1, n)
    } else {
        String::new()
    }
}

/// The code and the state of a callback, where `path` is one.
pub fn callback(path: &str) -> (r: Option<(String, String)>)
    ensures
        match r {
            Some(found) => callback_of(path@) == Some((found.0@, found.1@)),
            None => callback_of(path@) is None,
        },
{
    let pairs = parse_form(query(path).as_str());
    match find_pair(&pairs, "code") {
        Some(code) => match find_pair(&pairs, "state") {
            Some(state) => Some((code, state)),
            None => None,
        },
        None => None,
    }
}

/// Whether `tokens` have outlived their `expires_in` at the time `now`.
pub fn is_expired(tokens: &AuthorizationTokens, now: u64) -> (r: bool)
    ensures
        r == expired(tokens@, now),
{
    match tokens.expires_in {
        Some(lifetime) => now >= tokens.created_at && now - tokens.created_at >= lifetime,
        None => false,
    }
}

/// The value of a decimal digit.
pub open spec fn digit_value(c: char) -> Option<u16> {
    if c == '0' {
        Some(0u16)
    } else if c == '1' {
        Some(1u16)
    } else if c == '2' {
        Some(2u16)
    } else if c == '3' {
        Some(3u16)
    } else if c == '4' {
        Some(4u16)
    } else if c == '5' {
        Some(5u16)
    } else if c == '6' {
        Some(6u16)
    } else if c == '7' {
        Some(7u16)
    } else if c == '8' {
        Some(8u16)
    } else if c == '9' {
        Some(9u16)
    } else {
        None
    }
}

/// The status that the `:status` header of an answer stands for: the number
/// that its three decimal digits write, and 0 where the header is missing or
/// is not three digits. No answer has the status 0, so such an answer counts
/// as a failed exchange.
pub open spec fn status_of(header: Option<Seq<char>>) -> u16 {
    match header {
        Some(text) => if text.len() == 3 {
            match (digit_value(text[0]), digit_value(text[1]), digit_value(text[2])) {
                (Some(a), Some(b), Some(c)) => (100 * a + 10 * b + c) as u16,
                _ => 0,
            }
        } else {
            0
        },
        None => 0,
    }
}

/// The value of a decimal digit.
fn digit(c: char) -> (r: Option<u16>)
    ensures
        r == digit_value(c),
        r matches Some(d) ==> d <= 9,
{
    if c == '0' {
        Some(0)
    } else if c == '1' {
        Some(1)
    } else if c == '2' {
        Some(2)
    } else if c == '3' {
        Some(3)
    } else if c == '4' {
        Some(4)
    } else if c == '5' {
        Some(5)
    } else if c == '6' {
        Some(6)
    } else if c == '7' {
        Some(7)
    } else if c == '8' {
        Some(8)
    } else if c == '9' {
        Some(9)
    } else {
        None
    }
}

/// The status that the `:status` header of an answer stands for.
pub fn status_code(header: Option<&str>) -> (r: u16)
    ensures
        r == status_of(
            match header {
                Some(text) => Some(text@),
                None => None,
            },
        ),
{
    match header {
        Some(text) => {
            let chars = chars_of(text);
            if chars.len() != 3 {
                return 0;
            }
            match (digit(chars[0]), digit(chars[1]), digit(chars[2])) {
                (Some(a), Some(b), Some(c)) => 100 * a + 10 * b + c,
                _ => 0,
            }
        },
        None => 0,
    }
}

/// The tokens in the answer of the token endpoint, if it holds any.
pub fn tokens_from_response(status: u16, body: &[u8], now: u64, kept: Option<String>) -> (r: Option<
    AuthorizationTokens,
>)
    ensures
        match r {
            Some(tokens) => tokens_of_response(status, body@, now, text_view(kept)) == Some(
                tokens@,
            ),
            None => tokens_of_response(status, body@, now, text_view(kept)) is None,
        },
{
    match json_text(body, "access_token") {
        Some(access_token) => {
            if status != 200 {
                return None;
            }
            let refresh_token = match json_text(body, "refresh_token") {
                Some(r) => Some(r),
                None => kept,
            };
            Some(
                AuthorizationTokens::new(
                    now,
                    access_token,
                    json_number(body, "expires_in"),
                    json_text(body, "id_token"),
                    refresh_token,
                ),
            )
        },
        None => None,
    }
}

/// The flow, with its configuration and its cache.
pub struct OAuther<C: Cache> {
    config: OAutherConfig,
    cache: C,
}

impl<C: Cache> OAuther<C> {
    /// The configuration of the flow.
    pub closed spec fn settings(&self) -> ConfigView {
        self.config@
    }

    /// What the flow's cache holds.
    pub closed spec fn held(&self) -> CacheView {
        self.cache.model()
    }

    /// A flow over `cache`. A configuration whose URLs do not parse, or
    /// without client credentials, is refused.
    pub fn new(config: FilterConfig, cache: C) -> (r: Result<OAuther<C>, ConfigError>)
        ensures
            match r {
                Ok(oauther) => {
                    &&& config_error(config) is None
                    &&& oauther.settings() == config_view(config)
                    &&& oauther.settings().valid()
                    &&& oauther.held() == cache.model()
                },
                Err(e) => config_error(config) == Some(e),
            },
    {
        match OAutherConfig::from(config) {
            Ok(read) => Ok(OAuther { config: read, cache }),
            Err(e) => Err(e),
        }
    }

    pub fn config(&self) -> (r: &OAutherConfig)
        ensures
            r@ == self.settings(),
    {
        &self.config
    }

    pub fn cache(&self) -> (r: &C)
        ensures
            r.model() == self.held(),
    {
        &self.cache
    }

    /// The session id that a request carries in its cookies.
    pub fn session_cookie(&self, headers: &Vec<(&str, &str)>) -> (r: Option<String>)
        ensures
            text_view(r) == session_id_of(headers_view(headers@), self.settings().cookie_name),
    {
        Session::parse_cookie(self.config.cookie_name(), headers)
    }

    /// The cookie that hands `session_id` to the caller.
    pub fn create_session_cookie(&self, session_id: &String) -> (r: String)
        ensures
            r@ == cookie_text(self.settings().cookie_name, session_id@),
    {
        set_cookie_text(self.config.cookie_name().as_str(), session_id.as_str())
    }

    /// The URL of the authorization server for a flow with these secrets.
    pub fn authorization_server_redirect(&self, secrets: &Secrets) -> (r: String)
        ensures
            r@ == redirect_url_of(self.settings(), secrets@),
    {
        let verifier = secrets.pkce_verifier().as_str();
        proof {
            lemma_token_shape(verifier@, 32);
            is_ascii_spec_bytes(verifier);
        }
        authorize_url(
            self.config.auth_uri().as_str(),
            self.config.client_id().as_str(),
            self.config.redirect_uri().as_str(),
            "openid",
            secrets.state().as_str(),
            verifier,
        )
    }

    /// The session of a request and the request's path.
    pub fn read<'a>(&self, headers: &Vec<(&'a str, &'a str)>) -> (r: (Option<Session>, &'a str))
        ensures
            session_view(r.0) == session_of(
                headers_view(headers@),
                self.settings().cookie_name,
                self.held().sessions,
            ),
            r.1@ == path_of(headers_view(headers@)),
    {
        let path = match find_header(headers, ":path") {
            Some(path) => path,
            None => "/",
        };
        let session = match self.session_cookie(headers) {
            None => None,
            Some(id) => match self.cache.get_session(&id) {
                None => Some(Session::empty(id)),
                Some(session) => Some(session),
            },
        };
        (session, path)
    }

    /// What a request with this session and this path calls for at the time `now`.
    pub fn route(&self, session: &Option<Session>, path: &str, now: u64) -> (r: Route)
        ensures
            r@ == route_of(session_view(*session), path@, self.held().verifiers, now),
    {
        match session {
            None => Route::Start { path: path.to_owned() },
            Some(s) => match &s.data {
                SessionType::Empty => Route::Start { path: path.to_owned() },
                SessionType::AuthorizationRequest(v) => {
                    match callback(path) {
                        Some((code, state)) => match self.cache.get_verifier_for_state(&state) {
                            Some(verifier) => if same_text(
                                state.as_str(),
                                v.state.csrf_token.as_str(),
                            ) {
                                Route::Exchange { code, verifier }
                            } else {
                                Route::Start { path: v.request_url() }
                            },
                            None => Route::Start { path: v.request_url() },
                        },
                        None => Route::Start { path: v.request_url() },
                    }
                },
                SessionType::Tokens(t) => {
                    if !is_expired(t, now) {
                        Route::Allow { access_token: t.access_token.clone() }
                    } else {
                        match &t.refresh_token {
                            Some(refresh_token) => Route::Refresh {
                                refresh_token: refresh_token.clone(),
                            },
                            None => Route::Start { path: path.to_owned() },
                        }
                    }
                },
            },
        }
    }

    /// The end of a form that names the client.
    fn credentials(&self, form: &mut String)
        ensures
            final(form)@ == old(form)@ + credentials_form(self.settings()),
    {
        let ghost before = form@;
        form.append("&client_id=");
        form.append(form_encode(self.config.client_id().as_str()).as_str());
        form.append("&client_secret=");
        form.append(form_encode(self.config.client_secret().as_str()).as_str());
        assert(form@ =~= before + credentials_form(self.settings()));
    }

    /// The request that carries `form` to the token endpoint.
    fn token_request(&self, form: String) -> (r: HttpRequest)
        ensures
            r@ == token_request_of(self.settings(), form@),
    {
        let mut headers: Headers = Vec::new();
        headers.push(("content-type".to_owned(), "application/x-www-form-urlencoded".to_owned()));
        headers.push(("accept".to_owned(), "application/json".to_owned()));
        assert(response_headers_view(headers@) =~= seq![
            ("content-type"@, "application/x-www-form-urlencoded"@),
            ("accept"@, "application/json"@),
        ]);
        HttpRequest {
            url: self.config.token_url().clone(),
            method: "POST".to_owned(),
            headers,
            body: form,
        }
    }

    /// The request that exchanges an authorization code for tokens.
    pub fn exchange_request(&self, code: &String, verifier: &String) -> (r: HttpRequest)
        ensures
            r@ == token_request_of(
                self.settings(),
                exchange_form(self.settings(), code@, verifier@),
            ),
    {
        let mut form = "grant_type=authorization_code&code=".to_owned();
        form.append(form_encode(code.as_str()).as_str());
        form.append("&redirect_uri=");
        form.append(form_encode(self.config.redirect_url().as_str()).as_str());
        form.append("&code_verifier=");
        form.append(form_encode(verifier.as_str()).as_str());
        self.credentials(&mut form);
        self.token_request(form)
    }

    /// The request that exchanges a refresh token for tokens.
    pub fn refresh_request(&self, refresh_token: &String) -> (r: HttpRequest)
        ensures
            r@ == token_request_of(self.settings(), refresh_form(self.settings(), refresh_token@)),
    {
        let mut form = "grant_type=refresh_token&refresh_token=".to_owned();
        form.append(form_encode(refresh_token.as_str()).as_str());
        self.credentials(&mut form);
        self.token_request(form)
    }

    /// Starts a flow for a caller who wanted `path`.
    pub fn start(&mut self, path: String, now: u64, secrets: Option<Secrets>) -> (action: Action)
        ensures
            (action@, final(self).held()) == start_outcome(
                old(self).settings(),
                old(self).held(),
                path@,
                now,
                secrets_view(secrets),
            ),
            final(self).settings() == old(self).settings(),
    {
        match secrets {
            None => Action::Noop,
            Some(s) => {
                let url = self.authorization_server_redirect(&s);
                let update = SessionUpdate::new(
                    s.session_id().clone(),
                    UpdateType::AuthorizationRequest(
                        AuthorizationResponseVerifiers::new(
                            now,
                            path,
                            s.state().clone(),
                            Some(s.pkce_verifier().clone()),
                        ),
                    ),
                );
                let headers = update.set_cookie_header(self.config.cookie_name());
                self.cache.set_session(update);
                Action::Redirect(url, headers)
            },
        }
    }

    /// Carries out what a request calls for.
    fn perform(
        &mut self,
        session: Option<Session>,
        path: &str,
        route: Route,
        now: u64,
        secrets: Option<Secrets>,
    ) -> (action: Action)
        requires
            !(route@ is Start) ==> session is Some,
        ensures
            (action@, final(self).held()) == (match route@ {
                RouteView::Start { path: wanted } => start_outcome(
                    old(self).settings(),
                    old(self).held(),
                    wanted,
                    now,
                    secrets_view(secrets),
                ),
                RouteView::Exchange { code, verifier } => (
                    ActionView::HttpCall(
                        TokenCallView {
                            request: token_request_of(
                                old(self).settings(),
                                exchange_form(old(self).settings(), code, verifier),
                            ),
                            session: session->0@,
                            path: path@,
                        },
                    ),
                    old(self).held(),
                ),
                RouteView::Refresh { refresh_token } => (
                    ActionView::HttpCall(
                        TokenCallView {
                            request: token_request_of(
                                old(self).settings(),
                                refresh_form(old(self).settings(), refresh_token),
                            ),
                            session: session->0@,
                            path: path@,
                        },
                    ),
                    old(self).held(),
                ),
                RouteView::Allow { access_token } => (
                    ActionView::Allow(seq![bearer_header(access_token)]),
                    old(self).held(),
                ),
            }),
            final(self).settings() == old(self).settings(),
    {
        match route {
            Route::Start { path: wanted } => self.start(wanted, now, secrets),
            Route::Exchange { code, verifier } => {
                let request = self.exchange_request(&code, &verifier);
                Action::HttpCall(
                    TokenCall { request, session: session.unwrap(), path: path.to_owned() },
                )
            },
            Route::Refresh { refresh_token } => {
                let request = self.refresh_request(&refresh_token);
                Action::HttpCall(
                    TokenCall { request, session: session.unwrap(), path: path.to_owned() },
                )
            },
            Route::Allow { access_token } => {
                let mut value = "bearer ".to_owned();
                value.append(access_token.as_str());
                let mut headers: Headers = Vec::new();
                headers.push(("authorization".to_owned(), value));
                assert(response_headers_view(headers@) =~= seq![bearer_header(access_token@)]);
                Action::Allow(headers)
            },
        }
    }

    /// Answers a request at the time `now`, with `secrets` at hand for the
    /// case that a flow starts.
    pub fn respond(&mut self, headers: &Vec<(&str, &str)>, now: u64, secrets: Option<Secrets>) -> (action:
        Action)
        ensures
            (action@, final(self).held()) == respond_outcome(
                old(self).settings(),
                old(self).held(),
                headers_view(headers@),
                now,
                secrets_view(secrets),
            ),
            final(self).settings() == old(self).settings(),
    {
        let (session, path) = self.read(headers);
        let route = self.route(&session, path, now);
        self.perform(session, path, route, now, secrets)
    }

    /// Goes on after a token call, whose answer had this status and this body,
    /// at the time `now`, with `secrets` at hand for the case that the flow
    /// starts again.
    pub fn resume(
        &mut self,
        call: &TokenCall,
        status: u16,
        body: &[u8],
        now: u64,
        secrets: Option<Secrets>,
    ) -> (action: Action)
        ensures
            (action@, final(self).held()) == resume_outcome(
                old(self).settings(),
                old(self).held(),
                call@,
                status,
                body@,
                now,
                secrets_view(secrets),
            ),
            final(self).settings() == old(self).settings(),
    {
        match &call.session.data {
            SessionType::AuthorizationRequest(v) => {
                match tokens_from_response(status, body, now, None) {
                    Some(tokens) => {
                        self.cache.set_session(
                            SessionUpdate::new(call.session.id.clone(), UpdateType::Tokens(tokens)),
                        );
                        let headers: Headers = Vec::new();
                        assert(response_headers_view(headers@) =~= Seq::empty());
                        Action::Redirect(v.request_url(), headers)
                    },
                    None => self.start(v.request_url(), now, secrets),
                }
            },
            SessionType::Tokens(held) => {
                match tokens_from_response(
                    status,
                    body,
                    now,
                    copy_text(held.refresh_token.as_ref()),
                ) {
                    Some(tokens) => {
                        let headers = tokens.bearer();
                        self.cache.set_session(
                            SessionUpdate::new(call.session.id.clone(), UpdateType::Tokens(tokens)),
                        );
                        Action::Allow(headers)
                    },
                    None => self.start(call.path.clone(), now, secrets),
                }
            },
            SessionType::Empty => self.start(call.path.clone(), now, secrets),
        }
    }
    /// Answers a request at the time `at`. Where a flow starts, the system's
    /// random source gives its secrets: the answer is the one that `respond`
    /// gives for them, or for none where the source fails.
    pub fn handle_request_header_at(&mut self, headers: &Vec<(&str, &str)>, at: u64) -> (action:
        Action)
        ensures
            exists|secrets: Option<SecretsView>| #[trigger]
                answers(
                    old(self).settings(),
                    old(self).held(),
                    headers_view(headers@),
                    action@,
                    final(self).held(),
                    at,
                    secrets,
                ),
            final(self).settings() == old(self).settings(),
    {
        let (session, path) = self.read(headers);
        let route = self.route(&session, path, at);
        let secrets = match &route {
            Route::Start { .. } => Secrets::draw(),
            _ => None,
        };
        let ghost drawn = secrets_view(secrets);
        let ghost before = self.held();
        let action = self.perform(session, path, route, at, secrets);
        assert(answers(
            self.settings(),
            before,
            headers_view(headers@),
            action@,
            self.held(),
            at,
            drawn,
        ));
        action
    }

    /// Answers a request now: `handle_request_header_at` with the clock's time.
    pub fn handle_request_header(&mut self, headers: Vec<(&str, &str)>) -> (action: Action)
        ensures
            exists|at: u64, secrets: Option<SecretsView>| #[trigger]
                answers(
                    old(self).settings(),
                    old(self).held(),
                    headers_view(headers@),
                    action@,
                    final(self).held(),
                    at,
                    secrets,
                ),
            final(self).settings() == old(self).settings(),
    {
        let at = now();
        let ghost before = self.held();
        let action = self.handle_request_header_at(&headers, at);
        let ghost secrets = choose|secrets: Option<SecretsView>| #[trigger]
            answers(
                self.settings(),
                before,
                headers_view(headers@),
                action@,
                self.held(),
                at,
                secrets,
            );
        assert(answers(
            self.settings(),
            before,
            headers_view(headers@),
            action@,
            self.held(),
            at,
            secrets,
        ));
        action
    }

    /// Goes on, at the time `at`, after a token call whose answer had this
    /// status and this body. The system's random source gives the secrets for
    /// the case that the flow starts again: the result is the one that `resume`
    /// gives for them, or for none where the source fails.
    pub fn handle_token_response_at(
        &mut self,
        call: &TokenCall,
        status: u16,
        body: &[u8],
        at: u64,
    ) -> (action: Action)
        ensures
            exists|secrets: Option<SecretsView>| #[trigger]
                resumes(
                    old(self).settings(),
                    old(self).held(),
                    call@,
                    status,
                    body@,
                    action@,
                    final(self).held(),
                    at,
                    secrets,
                ),
            final(self).settings() == old(self).settings(),
    {
        let secrets = Secrets::draw();
        let ghost drawn = secrets_view(secrets);
        let ghost before = self.held();
        let action = self.resume(call, status, body, at, secrets);
        assert(resumes(
            self.settings(),
            before,
            call@,
            status,
            body@,
            action@,
            self.held(),
            at,
            drawn,
        ));
        action
    }

    /// Goes on after a token call now: `handle_token_response_at` with the
    /// clock's time.
    pub fn handle_token_response(&mut self, call: &TokenCall, status: u16, body: &[u8]) -> (action:
        Action)
        ensures
            exists|at: u64, secrets: Option<SecretsView>| #[trigger]
                resumes(
                    old(self).settings(),
                    old(self).held(),
                    call@,
                    status,
                    body@,
                    action@,
                    final(self).held(),
                    at,
                    secrets,
                ),
            final(self).settings() == old(self).settings(),
    {
        let at = now();
        let ghost before = self.held();
        let action = self.handle_token_response_at(call, status, body, at);
        let ghost secrets = choose|secrets: Option<SecretsView>| #[trigger]
            resumes(
                self.settings(),
                before,
                call@,
                status,
                body@,
                action@,
                self.held(),
                at,
                secrets,
            );
        assert(resumes(
            self.settings(),
            before,
            call@,
            status,
            body@,
            action@,
            self.held(),
            at,
            secrets,
        ));
        action
    }
}

} // verus!
