//! Sessions: what a caller's session holds, how it is found from a request's
//! cookies, and the updates that the flow stages for the cache.

use crate::text::{
    chars_of, copy_text, find_char, first_index_of, lemma_first_index_of_is_first, piece,
    same_chars, same_text, text_view, trim_bounds, trimmed,
};
use crate::util::{is_token, new_random_verifier, now};
use crate::web::set_cookie_text;
use vstd::prelude::*;
use vstd::string::*;

verus! {

/// Response headers, each a name and a value.
pub type Headers = Vec<(String, String)>;

/// What the flow keeps of the request that started it.
pub struct State {
    pub path: String,
    pub csrf_token: String,
}

/// The secrets of an authorization request that is under way.
pub struct AuthorizationResponseVerifiers {
    pub created_at: u64,
    pub state: State,
    pub pkce_verifier: Option<String>,
}

/// The tokens of an authenticated session. Times are in seconds: `created_at`
/// since the Unix epoch, `expires_in` from `created_at` on.
pub struct AuthorizationTokens {
    pub created_at: u64,
    pub access_token: String,
    pub expires_in: Option<u64>,
    pub id_token: Option<String>,
    pub refresh_token: Option<String>,
}

/// The three things a session can hold.
pub enum SessionType {
    AuthorizationRequest(AuthorizationResponseVerifiers),
    Tokens(AuthorizationTokens),
    Empty,
}

/// A caller's session. Its id is the cookie's value and the cache's key.
pub struct Session {
    pub id: String,
    pub data: SessionType,
}

/// What an update can put into a session.
pub enum UpdateType {
    AuthorizationRequest(AuthorizationResponseVerifiers),
    Tokens(AuthorizationTokens),
}

/// A change to one session, staged until the cache takes it.
pub struct SessionUpdate {
    pub id: String,
    pub data: UpdateType,
}

pub struct StateView {
    pub path: Seq<char>,
    pub csrf_token: Seq<char>,
}

pub struct VerifiersView {
    pub created_at: u64,
    pub state: StateView,
    pub pkce_verifier: Option<Seq<char>>,
}

pub struct TokensView {
    pub created_at: u64,
    pub access_token: Seq<char>,
    pub expires_in: Option<u64>,
    pub id_token: Option<Seq<char>>,
    pub refresh_token: Option<Seq<char>>,
}

pub enum SessionTypeView {
    AuthorizationRequest(VerifiersView),
    Tokens(TokensView),
    Empty,
}

pub struct SessionView {
    pub id: Seq<char>,
    pub data: SessionTypeView,
}

pub enum UpdateTypeView {
    AuthorizationRequest(VerifiersView),
    Tokens(TokensView),
}

pub struct SessionUpdateView {
    pub id: Seq<char>,
    pub data: UpdateTypeView,
}

impl View for State {
    type V = StateView;

    open spec fn view(&self) -> StateView {
        StateView { path: self.path@, csrf_token: self.csrf_token@ }
    }
}

impl View for AuthorizationResponseVerifiers {
    type V = VerifiersView;

    open spec fn view(&self) -> VerifiersView {
        VerifiersView {
            created_at: self.created_at,
            state: self.state@,
            pkce_verifier: text_view(self.pkce_verifier),
        }
    }
}

impl View for AuthorizationTokens {
    type V = TokensView;

    open spec fn view(&self) -> TokensView {
        TokensView {
            created_at: self.created_at,
            access_token: self.access_token@,
            expires_in: self.expires_in,
            id_token: text_view(self.id_token),
            refresh_token: text_view(self.refresh_token),
        }
    }
}

impl View for SessionType {
    type V = SessionTypeView;

    open spec fn view(&self) -> SessionTypeView {
        match self {
            SessionType::AuthorizationRequest(v) => SessionTypeView::AuthorizationRequest(v@),
            SessionType::Tokens(t) => SessionTypeView::Tokens(t@),
            SessionType::Empty => SessionTypeView::Empty,
        }
    }
}

impl View for Session {
    type V = SessionView;

    open spec fn view(&self) -> SessionView {
        SessionView { id: self.id@, data: self.data@ }
    }
}

impl View for UpdateType {
    type V = UpdateTypeView;

    open spec fn view(&self) -> UpdateTypeView {
        match self {
            UpdateType::AuthorizationRequest(v) => UpdateTypeView::AuthorizationRequest(v@),
            UpdateType::Tokens(t) => UpdateTypeView::Tokens(t@),
        }
    }
}

impl View for SessionUpdate {
    type V = SessionUpdateView;

    open spec fn view(&self) -> SessionUpdateView {
        SessionUpdateView { id: self.id@, data: self.data@ }
    }
}

impl SessionUpdateView {
    /// The session that the update leaves in the cache.
    pub open spec fn session(self) -> SessionView {
        SessionView {
            id: self.id,
            data: match self.data {
                UpdateTypeView::AuthorizationRequest(v) => SessionTypeView::AuthorizationRequest(v),
                UpdateTypeView::Tokens(t) => SessionTypeView::Tokens(t),
            },
        }
    }
}

/// A store of sessions by id. `get` hands out copies; `set` puts a session in
/// the place of whatever its id held.
pub trait SessionCache {
    /// The sessions held, by id.
    spec fn sessions(&self) -> Map<Seq<char>, SessionView>;

    fn get(&self, id: &String) -> (r: Option<Session>)
        ensures
            match r {
                Some(session) => self.sessions().contains_key(id@) && session@
                    == self.sessions()[id@],
                None => !self.sessions().contains_key(id@),
            },
    ;

    fn set(&mut self, session: SessionUpdate)
        ensures
            final(self).sessions() == old(self).sessions().insert(
                session@.id,
                session@.session(),
            ),
    ;
}

/// The views of a request's headers.
pub open spec fn headers_view(headers: Seq<(&str, &str)>) -> Seq<(Seq<char>, Seq<char>)> {
    headers.map_values(|h: (&str, &str)| (h.0@, h.1@))
}

/// The value of the first header called `name`.
pub open spec fn header_value(headers: Seq<(Seq<char>, Seq<char>)>, name: Seq<char>) -> Option<
    Seq<char>,
>
    decreases headers.len(),
{
    if headers.len() == 0 {
        None
    } else if headers[0].0 == name {
        Some(headers[0].1)
    } else {
        header_value(headers.drop_first(), name)
    }
}

/// The value of `pair` where it is a pair `name=value` for this `name`: the
/// name is what stands before the first `=`, without the white space around it;
/// the value is all that follows, as it is. A pair without `=` has no name.
pub open spec fn pair_value(pair: Seq<char>, name: Seq<char>) -> Option<Seq<char>> {
    let eq = first_index_of(pair, '=');
    if eq < pair.len() && trimmed(pair.take(eq)) == name {
        Some(pair.skip(eq + 1))
    } else {
        None
    }
}

/// The value of the first pair called `name` among the pairs of `cookies`,
/// which `;` separates.
pub open spec fn cookie_value(cookies: Seq<char>, name: Seq<char>) -> Option<Seq<char>>
    decreases cookies.len(),
{
    let end = first_index_of(cookies, ';');
    match pair_value(cookies.take(end), name) {
        Some(value) => Some(value),
        None => if 0 <= end < cookies.len() {
            cookie_value(cookies.skip(end + 1), name)
        } else {
            None
        },
    }
}

/// The session id that a request carries: the value of the cookie `name` in
/// its first `cookie` header.
pub open spec fn session_id_of(headers: Seq<(Seq<char>, Seq<char>)>, name: Seq<char>) -> Option<
    Seq<char>,
> {
    match header_value(headers, "cookie"@) {
        Some(cookies) => cookie_value(cookies, name),
        None => None,
    }
}

/// The session that a request with these headers has in a cache holding `sessions`.
pub open spec fn session_of(
    headers: Seq<(Seq<char>, Seq<char>)>,
    name: Seq<char>,
    sessions: Map<Seq<char>, SessionView>,
) -> Option<SessionView> {
    match session_id_of(headers, name) {
        None => None,
        Some(id) => if sessions.contains_key(id) {
            Some(sessions[id])
        } else {
            Some(SessionView { id, data: SessionTypeView::Empty })
        },
    }
}

/// The value of the first header called `name`.
pub fn find_header<'a>(headers: &Vec<(&'a str, &'a str)>, name: &str) -> (r: Option<&'a str>)
    ensures
        match r {
            Some(value) => header_value(headers_view(headers@), name@) == Some(value@),
            None => header_value(headers_view(headers@), name@) is None,
        },
{
    let ghost all = headers_view(headers@);
    assert(all.skip(0) =~= all);
    let mut i: usize = 0;
    while i < headers.len()
        invariant
            i <= headers.len(),
            all == headers_view(headers@),
            header_value(all, name@) == header_value(all.skip(i as int), name@),
        decreases headers.len() - i,
    {
        let header = headers[i];
        proof {
            assert(all.skip(i as int)[0] == (header.0@, header.1@));
            assert(all.skip(i as int).drop_first() =~= all.skip(i + 1));
        }
        if same_text(header.0, name) {
            return Some(header.1);
        }
        i += 1;
    }
    None
}

/// The value of the first pair called `name` among the pairs of `cookies`.
pub fn find_cookie(cookies: &str, name: &str) -> (r: Option<String>)
    ensures
        text_view(r) == cookie_value(cookies@, name@),
{
    let chars = chars_of(cookies);
    let wanted = chars_of(name);
    let n = chars.len();
    let mut start: usize = 0;
    assert(chars@.skip(0) =~= chars@);
    loop
        invariant
            start <= n,
            n == chars.len(),
            chars@ == cookies@,
            wanted@ == name@,
            cookie_value(cookies@, name@) == cookie_value(chars@.skip(start as int), name@),
        decreases n - start,
    {
        let end = find_char(&chars, start, n, ';');
        let eq = find_char(&chars, start, end, '=');
        let ghost rest = chars@.skip(start as int);
        let ghost pair = rest.take(end - start);
        proof {
            assert(rest =~= chars@.subrange(start as int, n as int));
            assert(pair =~= chars@.subrange(start as int, end as int));
            assert(pair.take(eq - start) =~= chars@.subrange(start as int, eq as int));
        }
        if eq < end {
            let (a, b) = trim_bounds(&chars, start, eq);
            if same_chars(&chars, a, b, &wanted) {
                proof {
                    assert(pair.skip(eq - start + 1) =~= cookies@.subrange(eq + 1, end as int));
                }
                return Some(piece(cookies, eq + 1, end));
            }
        }
        if end == n {
            return None;
        }
        assert(rest.skip(end - start + 1) =~= chars@.skip(end + 1));
        start = end + 1;
    }
}

/// A cookie string without `=` holds no pair that has a name, so no name is
/// found in it.
pub proof fn lemma_cookie_without_equals(cookies: Seq<char>, name: Seq<char>)
    requires
        !cookies.contains('='),
    ensures
        cookie_value(cookies, name) is None,
    decreases cookies.len(),
{
    let end = first_index_of(cookies, ';');
    lemma_first_index_of_is_first(cookies, ';');
    let pair = cookies.take(end);
    let eq = first_index_of(pair, '=');
    lemma_first_index_of_is_first(pair, '=');
    if eq < pair.len() {
        assert(cookies[eq] == pair[eq]);
        assert(cookies.contains('='));
    }
    if 0 <= end < cookies.len() {
        let rest = cookies.skip(end + 1);
        assert forall|i: int| 0 <= i < rest.len() implies rest[i] != '=' by {
            assert(rest[i] == cookies[i + end + 1]);
            if rest[i] == '=' {
                assert(cookies.contains('='));
            }
        }
        lemma_cookie_without_equals(rest, name);
    }
}

impl Clone for State {
    fn clone(&self) -> (r: Self)
        ensures
            r@ == self@,
    {
        State { path: self.path.clone(), csrf_token: self.csrf_token.clone() }
    }
}

impl Clone for AuthorizationResponseVerifiers {
    fn clone(&self) -> (r: Self)
        ensures
            r@ == self@,
    {
        AuthorizationResponseVerifiers {
            created_at: self.created_at,
            state: self.state.clone(),
            pkce_verifier: copy_text(self.pkce_verifier.as_ref()),
        }
    }
}

impl Clone for AuthorizationTokens {
    fn clone(&self) -> (r: Self)
        ensures
            r@ == self@,
    {
        AuthorizationTokens {
            created_at: self.created_at,
            access_token: self.access_token.clone(),
            expires_in: self.expires_in,
            id_token: copy_text(self.id_token.as_ref()),
            refresh_token: copy_text(self.refresh_token.as_ref()),
        }
    }
}

impl Clone for SessionType {
    fn clone(&self) -> (r: Self)
        ensures
            r@ == self@,
    {
        match self {
            SessionType::AuthorizationRequest(v) => SessionType::AuthorizationRequest(v.clone()),
            SessionType::Tokens(t) => SessionType::Tokens(t.clone()),
            SessionType::Empty => SessionType::Empty,
        }
    }
}

impl Clone for Session {
    fn clone(&self) -> (r: Self)
        ensures
            r@ == self@,
    {
        Session { id: self.id.clone(), data: self.data.clone() }
    }
}

impl Clone for UpdateType {
    fn clone(&self) -> (r: Self)
        ensures
            r@ == self@,
    {
        match self {
            UpdateType::AuthorizationRequest(v) => UpdateType::AuthorizationRequest(v.clone()),
            UpdateType::Tokens(t) => UpdateType::Tokens(t.clone()),
        }
    }
}

/// The text of a session cookie: the name, `=`, the value, and the two
/// attributes that keep it from scripts and from plain HTTP.
pub open spec fn cookie_text(name: Seq<char>, value: Seq<char>) -> Seq<char> {
    name + "="@ + value + "; HttpOnly; Secure"@
}

/// The header that carries an access token.
pub open spec fn bearer_header(access_token: Seq<char>) -> (Seq<char>, Seq<char>) {
    ("authorization"@, "bearer "@ + access_token)
}

/// The views of response headers.
pub open spec fn response_headers_view(headers: Seq<(String, String)>) -> Seq<
    (Seq<char>, Seq<char>),
> {
    headers.map_values(|h: (String, String)| (h.0@, h.1@))
}

impl Session {
    /// A session that holds nothing yet.
    pub fn empty(id: String) -> (r: Session)
        ensures
            r@ == (SessionView { id: id@, data: SessionTypeView::Empty }),
    {
        Session { id, data: SessionType::Empty }
    }

    /// An authenticated session whose tokens were created now. The clock
    /// decides `created_at`; the rest is as given.
    pub fn tokens(
        id: String,
        access_token: String,
        expires_in: Option<u64>,
        id_token: Option<String>,
        refresh_token: Option<String>,
    ) -> (r: Session)
        ensures
            r@.id == id@,
            r@.data matches SessionTypeView::Tokens(t) && t == (TokensView {
                created_at: t.created_at,
                access_token: access_token@,
                expires_in,
                id_token: text_view(id_token),
                refresh_token: text_view(refresh_token),
            }),
    {
        let created_at = now();
        Session::from_tokens(
            id,
            AuthorizationTokens::new(created_at, access_token, expires_in, id_token, refresh_token),
        )
    }

    /// A session whose authorization request is under way.
    pub fn verifiers(
        id: String,
        created_at: u64,
        request_url: String,
        state: String,
        pkce_verifier: Option<String>,
    ) -> (r: Session)
        ensures
            r@ == (SessionView {
                id: id@,
                data: SessionTypeView::AuthorizationRequest(
                    VerifiersView {
                        created_at,
                        state: StateView { path: request_url@, csrf_token: state@ },
                        pkce_verifier: text_view(pkce_verifier),
                    },
                ),
            }),
    {
        Session::from_verifier(
            id,
            AuthorizationResponseVerifiers {
                created_at,
                state: State { path: request_url, csrf_token: state },
                pkce_verifier,
            },
        )
    }

    /// The session of a request: none where the request carries no session id;
    /// the cache's session where it holds one under the id; else an empty
    /// session with that id.
    pub fn from_headers<C: SessionCache>(
        cookie_name: String,
        headers: Vec<(&str, &str)>,
        cache: &C,
    ) -> (r: Option<Session>)
        ensures
            match r {
                Some(session) => session_of(
                    headers_view(headers@),
                    cookie_name@,
                    cache.sessions(),
                ) == Some(session@),
                None => session_of(headers_view(headers@), cookie_name@, cache.sessions())
                    is None,
            },
    {
        match Session::parse_cookie(&cookie_name, &headers) {
            None => None,
            Some(id) => match cache.get(&id) {
                None => Some(Session::empty(id)),
                Some(session) => Some(session),
            },
        }
    }

    pub fn from_verifier(id: String, verifiers: AuthorizationResponseVerifiers) -> (r: Session)
        ensures
            r@ == (SessionView {
                id: id@,
                data: SessionTypeView::AuthorizationRequest(verifiers@),
            }),
    {
        Session { id, data: SessionType::AuthorizationRequest(verifiers) }
    }

    pub fn from_tokens(id: String, tokens: AuthorizationTokens) -> (r: Session)
        ensures
            r@ == (SessionView { id: id@, data: SessionTypeView::Tokens(tokens@) }),
    {
        Session { id, data: SessionType::Tokens(tokens) }
    }

    /// The session id in a request's cookies: the value of the cookie called
    /// `id` in the first `cookie` header, as it stands there.
    pub fn parse_cookie(id: &String, headers: &Vec<(&str, &str)>) -> (r: Option<String>)
        ensures
            text_view(r) == session_id_of(headers_view(headers@), id@),
    {
        match find_header(headers, "cookie") {
            Some(cookies) => find_cookie(cookies, id.as_str()),
            None => None,
        }
    }

    /// The update that puts freshly received tokens into this session. The
    /// clock decides `created_at`.
    pub fn token_response(
        &self,
        access_token: String,
        expires_in: Option<u64>,
        id_token: Option<String>,
        refresh_token: Option<String>,
    ) -> (r: SessionUpdate)
        ensures
            r@.id == self@.id,
            r@.data matches UpdateTypeView::Tokens(t) && t == (TokensView {
                created_at: t.created_at,
                access_token: access_token@,
                expires_in,
                id_token: text_view(id_token),
                refresh_token: text_view(refresh_token),
            }),
    {
        let created_at = now();
        SessionUpdate {
            id: self.id.clone(),
            data: UpdateType::Tokens(
                AuthorizationTokens::new(
                    created_at,
                    access_token,
                    expires_in,
                    id_token,
                    refresh_token,
                ),
            ),
        }
    }
}

impl SessionUpdate {
    pub fn new(id: String, data: UpdateType) -> (r: SessionUpdate)
        ensures
            r@ == (SessionUpdateView { id: id@, data: data@ }),
    {
        SessionUpdate { id, data }
    }

    /// The update that opens a session for an authorization request. The id is
    /// a fresh random secret of 32 bytes and the clock decides `created_at`;
    /// there is no update where the random source fails.
    pub fn auth_request(request_url: String, state: String, verifier: String) -> (r: Option<
        SessionUpdate,
    >)
        ensures
            r matches Some(update) ==> {
                &&& is_token(update@.id, 32)
                &&& update@.data matches UpdateTypeView::AuthorizationRequest(v)
                &&& v == (VerifiersView {
                    created_at: v.created_at,
                    state: StateView { path: request_url@, csrf_token: state@ },
                    pkce_verifier: Some(verifier@),
                })
            },
    {
        SessionUpdate::auth_request_with(new_random_verifier(32), now(), request_url, state, verifier)
    }

    /// The update that opens a session for an authorization request under the
    /// id drawn, at the time `created_at`; none where no id was drawn.
    pub fn auth_request_with(
        id: Option<String>,
        created_at: u64,
        request_url: String,
        state: String,
        verifier: String,
    ) -> (r: Option<SessionUpdate>)
        ensures
            match id {
                Some(drawn) => r matches Some(update) && update@ == (SessionUpdateView {
                    id: drawn@,
                    data: UpdateTypeView::AuthorizationRequest(
                        VerifiersView {
                            created_at,
                            state: StateView { path: request_url@, csrf_token: state@ },
                            pkce_verifier: Some(verifier@),
                        },
                    ),
                }),
                None => r is None,
            },
    {
        match id {
            None => None,
            Some(id) => Some(
                SessionUpdate {
                    id,
                    data: UpdateType::AuthorizationRequest(
                        AuthorizationResponseVerifiers::new(
                            created_at,
                            request_url,
                            state,
                            Some(verifier),
                        ),
                    ),
                },
            ),
        }
    }

    /// The one response header that hands the session's cookie to the caller.
    pub fn set_cookie_header(&self, name: &String) -> (r: Headers)
        ensures
            response_headers_view(r@) == seq![("set-cookie"@, cookie_text(name@, self@.id))],
    {
        let mut headers: Headers = Vec::new();
        headers.push(("set-cookie".to_owned(), self.cookie(name)));
        assert(response_headers_view(headers@) =~= seq![
            ("set-cookie"@, cookie_text(name@, self@.id)),
        ]);
        headers
    }

    /// The session's cookie: secure, http-only, its value the session's id.
    pub fn cookie(&self, name: &String) -> (r: String)
        ensures
            r@ == cookie_text(name@, self@.id),
    {
        set_cookie_text(name.as_str(), self.id.as_str())
    }

    /// The session that this update leaves in the cache.
    pub fn create_session(&self) -> (r: Session)
        ensures
            r@ == self@.session(),
    {
        match &self.data {
            UpdateType::AuthorizationRequest(verifiers) => Session::from_verifier(
                self.id.clone(),
                verifiers.clone(),
            ),
            UpdateType::Tokens(tokens) => Session::from_tokens(self.id.clone(), tokens.clone()),
        }
    }
}

impl AuthorizationResponseVerifiers {
    pub fn new(created_at: u64, request_url: String, state: String, pkce_verifier: Option<
        String,
    >) -> (r: AuthorizationResponseVerifiers)
        ensures
            r@ == (VerifiersView {
                created_at,
                state: StateView { path: request_url@, csrf_token: state@ },
                pkce_verifier: text_view(pkce_verifier),
            }),
    {
        AuthorizationResponseVerifiers {
            created_at,
            state: State { path: request_url, csrf_token: state },
            pkce_verifier,
        }
    }

    /// The path of the request that started the flow.
    pub fn request_url(&self) -> (r: String)
        ensures
            r@ == self@.state.path,
    {
        self.state.path.clone()
    }
}

impl AuthorizationTokens {
    pub fn new(
        created_at: u64,
        access_token: String,
        expires_in: Option<u64>,
        id_token: Option<String>,
        refresh_token: Option<String>,
    ) -> (r: AuthorizationTokens)
        ensures
            r@ == (TokensView {
                created_at,
                access_token: access_token@,
                expires_in,
                id_token: text_view(id_token),
                refresh_token: text_view(refresh_token),
            }),
    {
        AuthorizationTokens { created_at, access_token, expires_in, id_token, refresh_token }
    }

    /// The one request header that carries the access token.
    pub fn bearer(&self) -> (r: Headers)
        ensures
            response_headers_view(r@) == seq![bearer_header(self@.access_token)],
    {
        let mut value = "bearer ".to_owned();
        value.append(self.access_token.as_str());
        let mut headers: Headers = Vec::new();
        headers.push(("authorization".to_owned(), value));
        assert(response_headers_view(headers@) =~= seq![bearer_header(self@.access_token)]);
        headers
    }
}

} // verus!
