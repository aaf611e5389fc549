//! The two caches: one local to a filter instance, one shared between
//! instances as a single blob.

use crate::entries::{
    find_key, keys_of, lemma_place_after_push, lemma_place_of_is_place, place_of, put,
};
use crate::oauther::{Cache, CacheView};
use crate::text::{copy_text, text_view};
use crate::session::{
    Session, SessionCache, SessionType, SessionTypeView, SessionUpdate, SessionView, UpdateType,
};
use crate::web::{
    json_of_records, records_from_json, records_of_json, records_to_json, session_record_view,
    session_records_view, token_records_view, verifier_records_view, SessionRecord, TokenRecord,
    VerifierRecord,
};
use crate::wire::{
    contents_of, readable, record_of_session, records_of, session_entry, session_of_record,
    session_record, Contents, Records,
};
use vstd::hash_map::StringHashMap;
use vstd::prelude::*;
use vstd::string::*;

verus! {

/// The sessions of a map of sessions, by their views.
pub open spec fn sessions_view(sessions: Map<Seq<char>, Session>) -> Map<Seq<char>, SessionView> {
    sessions.map_values(|s: Session| s@)
}

/// The tokens of a map of tokens, by their views.
pub open spec fn tokens_view(tokens: Map<Seq<char>, (String, Option<String>)>) -> Map<
    Seq<char>,
    (Seq<char>, Option<Seq<char>>),
> {
    tokens.map_values(|t: (String, Option<String>)| (t.0@, text_view(t.1)))
}

/// The verifiers of a map of verifiers, by their views.
pub open spec fn verifiers_view(verifiers: Map<Seq<char>, String>) -> Map<Seq<char>, Seq<char>> {
    verifiers.map_values(|v: String| v@)
}

/// A cache that lives and dies with one filter instance.
pub struct LocalCache {
    sessions: StringHashMap<Session>,
    tokens: StringHashMap<(String, Option<String>)>,
    verifiers: StringHashMap<String>,
}

impl LocalCache {
    pub fn new() -> (r: LocalCache)
        ensures
            r.model() == CacheView::empty(),
            r.sessions() == Map::<Seq<char>, SessionView>::empty(),
    {
        let r = LocalCache {
            sessions: StringHashMap::new(),
            tokens: StringHashMap::new(),
            verifiers: StringHashMap::new(),
        };
        assert(sessions_view(r.sessions@) =~= Map::<Seq<char>, SessionView>::empty());
        assert(tokens_view(r.tokens@) =~= Map::<Seq<char>, (Seq<char>, Option<Seq<char>>)>::empty());
        assert(verifiers_view(r.verifiers@) =~= Map::<Seq<char>, Seq<char>>::empty());
        r
    }

    /// Both of the cache's interfaces speak of the same sessions.
    pub proof fn lemma_sessions(&self)
        ensures
            self.sessions() == self.model().sessions,
    {
    }
}

impl Cache for LocalCache {
    closed spec fn model(&self) -> CacheView {
        CacheView {
            sessions: sessions_view(self.sessions@),
            tokens: tokens_view(self.tokens@),
            verifiers: verifiers_view(self.verifiers@),
        }
    }

    fn get_tokens_for_session(&self, session: &String) -> (r: Option<(String, Option<String>)>) {
        match self.tokens.get(session.as_str()) {
            Some(tokens) => {
                Some((tokens.0.clone(), copy_text(tokens.1.as_ref())))
            },
            None => None,
        }
    }

    fn set_tokens_for_session(
        &mut self,
        session: &String,
        access_token: &String,
        id_token: Option<&String>,
    ) {
        let id_token = copy_text(id_token);
        let ghost before = self.tokens@;
        let ghost held = text_view(id_token);
        self.tokens.insert(session.clone(), (access_token.clone(), id_token));
        assert(tokens_view(self.tokens@) =~= tokens_view(before).insert(
            session@,
            (access_token@, held),
        ));
    }

    fn get_verifier_for_state(&self, state: &String) -> (r: Option<String>) {
        match self.verifiers.get(state.as_str()) {
            Some(verifier) => Some(verifier.clone()),
            None => None,
        }
    }

    fn set_verifier_for_state(&mut self, state: &String, verifier: &String) {
        let ghost before = self.verifiers@;
        self.verifiers.insert(state.clone(), verifier.clone());
        assert(verifiers_view(self.verifiers@) =~= verifiers_view(before).insert(
            state@,
            verifier@,
        ));
    }

    fn get_session(&self, session_id: &String) -> (r: Option<Session>) {
        match self.sessions.get(session_id.as_str()) {
            Some(session) => Some(session.clone()),
            None => None,
        }
    }

    fn set_session(&mut self, update: SessionUpdate) {
        let ghost before = self.sessions@;
        let session = update.create_session();
        match &update.data {
            UpdateType::AuthorizationRequest(v) => match &v.pkce_verifier {
                Some(verifier) => {
                    self.set_verifier_for_state(&v.state.csrf_token, verifier);
                },
                None => {},
            },
            UpdateType::Tokens(t) => {
                self.set_tokens_for_session(&update.id, &t.access_token, t.id_token.as_ref());
            },
        }
        self.sessions.insert(update.id, session);
        assert(sessions_view(self.sessions@) =~= sessions_view(before).insert(
            update@.id,
            update@.session(),
        ));
    }
}

impl SessionCache for LocalCache {
    closed spec fn sessions(&self) -> Map<Seq<char>, SessionView> {
        sessions_view(self.sessions@)
    }

    fn get(&self, id: &String) -> (r: Option<Session>) {
        self.get_session(id)
    }

    fn set(&mut self, session: SessionUpdate) {
        self.set_session(session)
    }
}

/// Why a shared cache cannot be read or written.
#[derive(Debug, Clone, Copy, PartialEq, Eq)]
pub enum CacheError {
    /// The host holds no blob yet.
    NoSharedCache,
    /// The blob is no list of records, or holds a record of an unknown kind.
    Malformed,
    /// The records could not be written as JSON. Records of sessions, tokens
    /// and verifiers always can, so `store` never gives this error; it stands
    /// for what the JSON library may report of other values.
    Unserializable,
}

impl CacheError {
    /// The error in words.
    pub fn message(&self) -> (r: String)
        ensures
            r@ == (match *self {
                CacheError::NoSharedCache => "No shared session cache created"@,
                CacheError::Malformed => "Shared session cache is malformed"@,
                CacheError::Unserializable => "Shared session cache cannot be serialized"@,
            }),
    {
        match self {
            CacheError::NoSharedCache => "No shared session cache created".to_owned(),
            CacheError::Malformed => "Shared session cache is malformed".to_owned(),
            CacheError::Unserializable => "Shared session cache cannot be serialized".to_owned(),
        }
    }
}

/// The key under which the host keeps the blob.
pub fn shared_sessions_key() -> (r: &'static str)
    ensures
        r@ == "SHARED_SESSIONS"@,
{
    "SHARED_SESSIONS"
}

/// The keys of a list of entries.
pub open spec fn keys<W>(entries: Seq<(Seq<char>, W)>) -> Seq<Seq<char>> {
    entries.map_values(|e: (Seq<char>, W)| e.0)
}

/// A list of entries as a map: under each key, the first entry with that key.
pub open spec fn map_of<W>(entries: Seq<(Seq<char>, W)>) -> Map<Seq<char>, W> {
    Map::new(
        |k: Seq<char>| 0 <= place_of(keys(entries), k) < entries.len(),
        |k: Seq<char>| entries[place_of(keys(entries), k)].1,
    )
}

/// Sessions by id, from their data by id.
pub open spec fn sessions_of(data: Map<Seq<char>, SessionTypeView>) -> Map<Seq<char>, SessionView> {
    Map::new(
        |k: Seq<char>| data.contains_key(k),
        |k: Seq<char>| SessionView { id: k, data: data[k] },
    )
}

/// What a shared cache with these contents holds.
pub open spec fn model_of(contents: Contents) -> CacheView {
    CacheView {
        sessions: sessions_of(map_of(contents.sessions)),
        tokens: map_of(contents.tokens),
        verifiers: map_of(contents.verifiers),
    }
}

/// An entry put in the place of the first one under its key, or at the end
/// where there is none, changes the map at that key and nowhere else.
pub proof fn lemma_map_after_put<W>(
    before: Seq<(Seq<char>, W)>,
    after: Seq<(Seq<char>, W)>,
    key: Seq<char>,
    value: W,
)
    requires
        ({
            let at = place_of(keys(before), key);
            if at < before.len() {
                after == before.update(at, (key, value))
            } else {
                after == before.push((key, value))
            }
        }),
    ensures
        map_of(after) == map_of(before).insert(key, value),
{
    let at = place_of(keys(before), key);
    lemma_place_of_is_place(keys(before), key);
    if at < before.len() {
        assert(keys(after) =~= keys(before));
    } else {
        assert(keys(after) =~= keys(before).push(key));
    }
    let changed = map_of(after);
    let wanted = map_of(before).insert(key, value);
    assert forall|k: Seq<char>| #[trigger] changed.dom().contains(k) == wanted.dom().contains(k) by {
        lemma_place_of_is_place(keys(before), k);
        lemma_place_of_is_place(keys(after), k);
        if at >= before.len() {
            lemma_place_after_push(keys(before), key, k);
        }
    }
    assert forall|k: Seq<char>| #[trigger] changed.dom().contains(k) implies changed[k] == wanted[k] by {
        lemma_place_of_is_place(keys(before), k);
        lemma_place_of_is_place(keys(after), k);
        if at >= before.len() {
            lemma_place_after_push(keys(before), key, k);
        } else {
            let here = place_of(keys(before), k);
            assert(keys(before)[here] == before[here].0);
            assert(keys(before)[at] == before[at].0);
        }
    }
    assert(changed =~= wanted);
}

pub open spec fn session_entries_view(entries: Seq<(String, SessionType)>) -> Seq<
    (Seq<char>, SessionTypeView),
> {
    entries.map_values(|e: (String, SessionType)| (e.0@, e.1@))
}

pub open spec fn token_entries_view(entries: Seq<(String, (String, Option<String>))>) -> Seq<
    (Seq<char>, (Seq<char>, Option<Seq<char>>)),
> {
    entries.map_values(|e: (String, (String, Option<String>))| (e.0@, (e.1.0@, text_view(e.1.1))))
}

pub open spec fn verifier_entries_view(entries: Seq<(String, String)>) -> Seq<
    (Seq<char>, Seq<char>),
> {
    entries.map_values(|e: (String, String)| (e.0@, e.1@))
}

/// A cache that filter instances share: the host keeps it as one blob, which
/// each instance reads whole and writes whole.
pub struct SharedCache {
    sessions: Vec<(String, SessionType)>,
    tokens: Vec<(String, (String, Option<String>))>,
    verifiers: Vec<(String, String)>,
}

impl SharedCache {
    /// The entries of the cache, in the order of arrival.
    pub closed spec fn contents(&self) -> Contents {
        Contents {
            sessions: session_entries_view(self.sessions@),
            tokens: token_entries_view(self.tokens@),
            verifiers: verifier_entries_view(self.verifiers@),
        }
    }

    pub fn new() -> (r: SharedCache)
        ensures
            r.contents() == (Contents {
                sessions: Seq::empty(),
                tokens: Seq::empty(),
                verifiers: Seq::empty(),
            }),
            r.model() == CacheView::empty(),
    {
        let r = SharedCache { sessions: Vec::new(), tokens: Vec::new(), verifiers: Vec::new() };
        proof {
            assert(r.contents().sessions =~= Seq::empty());
            assert(r.contents().tokens =~= Seq::empty());
            assert(r.contents().verifiers =~= Seq::empty());
            assert(map_of(r.contents().tokens) =~= Map::empty());
            assert(map_of(r.contents().verifiers) =~= Map::empty());
            assert(sessions_of(map_of(r.contents().sessions)) =~= Map::empty());
        }
        r
    }

    /// Both of the cache's interfaces speak of the same sessions, and all that
    /// the cache holds follows from its entries.
    pub proof fn lemma_model(&self)
        ensures
            self.sessions() == self.model().sessions,
            self.model() == model_of(self.contents()),
    {
    }

    /// The records of the cache's entries.
    pub fn to_records(&self) -> (r: (Vec<SessionRecord>, Vec<TokenRecord>, Vec<VerifierRecord>))
        ensures
            records_of(self.contents()) == (Records {
                sessions: session_records_view(r.0@),
                tokens: token_records_view(r.1@),
                verifiers: verifier_records_view(r.2@),
            }),
    {
        let mut sessions: Vec<SessionRecord> = Vec::new();
        let mut i: usize = 0;
        while i < self.sessions.len()
            invariant
                i <= self.sessions.len(),
                sessions@.len() == i,
                forall|n: int|
                    0 <= n < i ==> session_record_view(#[trigger] sessions@[n])
                        == record_of_session(self.sessions@[n].0@, self.sessions@[n].1@),
            decreases self.sessions.len() - i,
        {
            sessions.push(session_record(&self.sessions[i].0, &self.sessions[i].1));
            i += 1;
        }
        let mut tokens: Vec<TokenRecord> = Vec::new();
        let mut j: usize = 0;
        while j < self.tokens.len()
            invariant
                j <= self.tokens.len(),
                tokens@.len() == j,
                forall|n: int|
                    0 <= n < j ==> {
                        let r = #[trigger] tokens@[n];
                        (r.0@, r.1@, text_view(r.2)) == (
                            self.tokens@[n].0@,
                            self.tokens@[n].1.0@,
                            text_view(self.tokens@[n].1.1),
                        )
                    },
            decreases self.tokens.len() - j,
        {
            let entry = &self.tokens[j];
            tokens.push((entry.0.clone(), entry.1.0.clone(), copy_text(entry.1.1.as_ref())));
            j += 1;
        }
        let mut verifiers: Vec<VerifierRecord> = Vec::new();
        let mut k: usize = 0;
        while k < self.verifiers.len()
            invariant
                k <= self.verifiers.len(),
                verifiers@.len() == k,
                forall|n: int|
                    0 <= n < k ==> {
                        let r = #[trigger] verifiers@[n];
                        (r.0@, r.1@) == (self.verifiers@[n].0@, self.verifiers@[n].1@)
                    },
            decreases self.verifiers.len() - k,
        {
            verifiers.push((self.verifiers[k].0.clone(), self.verifiers[k].1.clone()));
            k += 1;
        }
        proof {
            let records = records_of(self.contents());
            assert(session_records_view(sessions@) =~= records.sessions);
            assert(token_records_view(tokens@) =~= records.tokens);
            assert(verifier_records_view(verifiers@) =~= records.verifiers);
        }
        (sessions, tokens, verifiers)
    }

    /// The cache that holds what these records stand for, entry by entry; a
    /// session record of an unknown kind makes them malformed.
    pub fn from_records(
        sessions: &Vec<SessionRecord>,
        tokens: &Vec<TokenRecord>,
        verifiers: &Vec<VerifierRecord>,
    ) -> (r: Result<SharedCache, CacheError>)
        ensures
            ({
                let records = Records {
                    sessions: session_records_view(sessions@),
                    tokens: token_records_view(tokens@),
                    verifiers: verifier_records_view(verifiers@),
                };
                match r {
                    Ok(cache) => readable(records) && cache.contents() == contents_of(records),
                    Err(e) => e == CacheError::Malformed && !readable(records),
                }
            }),
    {
        let ghost records = Records {
            sessions: session_records_view(sessions@),
            tokens: token_records_view(tokens@),
            verifiers: verifier_records_view(verifiers@),
        };
        let mut cache = SharedCache::new();
        let mut i: usize = 0;
        while i < sessions.len()
            invariant
                i <= sessions.len(),
                records.sessions == session_records_view(sessions@),
                cache.sessions@.len() == i,
                cache.tokens@.len() == 0,
                cache.verifiers@.len() == 0,
                forall|n: int|
                    0 <= n < i ==> (#[trigger] session_of_record(records.sessions[n])) == Some(
                        (cache.sessions@[n].0@, cache.sessions@[n].1@),
                    ),
            decreases sessions.len() - i,
        {
            match session_entry(&sessions[i]) {
                Some(entry) => {
                    cache.sessions.push(entry);
                },
                None => {
                    assert(session_of_record(records.sessions[i as int]) is None);
                    return Err(CacheError::Malformed);
                },
            }
            i += 1;
        }
        let mut j: usize = 0;
        while j < tokens.len()
            invariant
                j <= tokens.len(),
                cache.sessions@.len() == sessions@.len(),
                forall|n: int|
                    0 <= n < sessions@.len() ==> (#[trigger] session_of_record(
                        records.sessions[n],
                    )) == Some((cache.sessions@[n].0@, cache.sessions@[n].1@)),
                cache.tokens@.len() == j,
                cache.verifiers@.len() == 0,
                forall|n: int|
                    0 <= n < j ==> {
                        let e = #[trigger] cache.tokens@[n];
                        (e.0@, e.1.0@, text_view(e.1.1)) == (
                            tokens@[n].0@,
                            tokens@[n].1@,
                            text_view(tokens@[n].2),
                        )
                    },
            decreases tokens.len() - j,
        {
            let record = &tokens[j];
            cache.tokens.push((record.0.clone(), (record.1.clone(), copy_text(record.2.as_ref()))));
            j += 1;
        }
        let mut k: usize = 0;
        while k < verifiers.len()
            invariant
                k <= verifiers.len(),
                cache.sessions@.len() == sessions@.len(),
                forall|n: int|
                    0 <= n < sessions@.len() ==> (#[trigger] session_of_record(
                        records.sessions[n],
                    )) == Some((cache.sessions@[n].0@, cache.sessions@[n].1@)),
                cache.tokens@.len() == tokens@.len(),
                forall|n: int|
                    0 <= n < tokens@.len() ==> {
                        let e = #[trigger] cache.tokens@[n];
                        (e.0@, e.1.0@, text_view(e.1.1)) == (
                            tokens@[n].0@,
                            tokens@[n].1@,
                            text_view(tokens@[n].2),
                        )
                    },
                cache.verifiers@.len() == k,
                forall|n: int|
                    0 <= n < k ==> {
                        let e = #[trigger] cache.verifiers@[n];
                        (e.0@, e.1@) == (verifiers@[n].0@, verifiers@[n].1@)
                    },
            decreases verifiers.len() - k,
        {
            cache.verifiers.push((verifiers[k].0.clone(), verifiers[k].1.clone()));
            k += 1;
        }
        proof {
            let contents = contents_of(records);
            assert(cache.contents().sessions =~= contents.sessions);
            assert(cache.contents().tokens =~= contents.tokens);
            assert(cache.contents().verifiers =~= contents.verifiers);
        }
        Ok(cache)
    }

    /// The blob to hand to the host: the records of the cache as JSON. Records
    /// can always be written, so there always is one.
    pub fn store(&self) -> (r: Result<Vec<u8>, CacheError>)
        ensures
            r matches Ok(bytes) && bytes@ == json_of_records(
                records_of(self.contents()).sessions,
                records_of(self.contents()).tokens,
                records_of(self.contents()).verifiers,
            ),
    {
        let (sessions, tokens, verifiers) = self.to_records();
        match records_to_json(&sessions, &tokens, &verifiers) {
            Ok(bytes) => Ok(bytes),
            Err(_) => Err(CacheError::Unserializable),
        }
    }

    /// The cache in the blob that the host handed over with its version. There
    /// is none where the host holds no blob; it is malformed where it is no
    /// JSON of three lists of records, or holds a session of an unknown kind.
    pub fn from_host(data: Option<Vec<u8>>, cas: Option<u32>) -> (r: Result<
        SharedCache,
        CacheError,
    >)
        ensures
            match r {
                Ok(cache) => {
                    &&& data is Some && cas is Some
                    &&& blob_records(data->0@) matches Some(records)
                    &&& readable(records)
                    &&& cache.contents() == contents_of(records)
                },
                Err(CacheError::NoSharedCache) => data is None || cas is None,
                Err(CacheError::Malformed) => {
                    &&& data is Some && cas is Some
                    &&& blob_records(data->0@) matches Some(records) ==> !readable(records)
                },
                Err(CacheError::Unserializable) => false,
            },
    {
        match (data, cas) {
            (Some(bytes), Some(_)) => match records_from_json(bytes.as_slice()) {
                Ok(read) => SharedCache::from_records(&read.0, &read.1, &read.2),
                Err(_) => Err(CacheError::Malformed),
            },
            _ => Err(CacheError::NoSharedCache),
        }
    }

    /// The cache to start from, given what the host handed over: an empty one
    /// where the host holds no blob yet, else the cache in the blob, as
    /// `from_host` reads it.
    pub fn load(data: Option<Vec<u8>>, cas: Option<u32>) -> (r: Result<SharedCache, CacheError>)
        ensures
            match r {
                Ok(cache) => if data is None || cas is None {
                    cache.contents() == (Contents {
                        sessions: Seq::empty(),
                        tokens: Seq::empty(),
                        verifiers: Seq::empty(),
                    })
                } else {
                    &&& blob_records(data->0@) matches Some(records)
                    &&& readable(records)
                    &&& cache.contents() == contents_of(records)
                },
                Err(e) => {
                    &&& e == CacheError::Malformed
                    &&& data is Some && cas is Some
                    &&& blob_records(data->0@) matches Some(records) ==> !readable(records)
                },
            },
    {
        match SharedCache::from_host(data, cas) {
            Ok(cache) => Ok(cache),
            Err(CacheError::NoSharedCache) => Ok(SharedCache::new()),
            Err(e) => Err(e),
        }
    }
}

/// The records in a blob, if it holds three lists of them.
pub open spec fn blob_records(bytes: Seq<u8>) -> Option<Records> {
    match records_of_json(bytes) {
        Some(read) => Some(Records { sessions: read.0, tokens: read.1, verifiers: read.2 }),
        None => None,
    }
}

impl Cache for SharedCache {
    closed spec fn model(&self) -> CacheView {
        model_of(self.contents())
    }

    fn get_tokens_for_session(&self, session: &String) -> (r: Option<(String, Option<String>)>) {
        let at = find_key(&self.tokens, session.as_str());
        proof {
            assert(keys_of(self.tokens@) =~= keys(self.contents().tokens));
        }
        if at < self.tokens.len() {
            let entry = &self.tokens[at];
            Some((entry.1.0.clone(), copy_text(entry.1.1.as_ref())))
        } else {
            None
        }
    }

    fn set_tokens_for_session(
        &mut self,
        session: &String,
        access_token: &String,
        id_token: Option<&String>,
    ) {
        let id_token = copy_text(id_token);
        let ghost before = self.contents();
        let ghost held = text_view(id_token);
        proof {
            assert(keys_of(self.tokens@) =~= keys(before.tokens));
        }
        put(&mut self.tokens, session.clone(), (access_token.clone(), id_token));
        proof {
            let at = place_of(keys(before.tokens), session@);
            lemma_place_of_is_place(keys(before.tokens), session@);
            if at < before.tokens.len() {
                assert(self.contents().tokens =~= before.tokens.update(
                    at,
                    (session@, (access_token@, held)),
                ));
            } else {
                assert(self.contents().tokens =~= before.tokens.push(
                    (session@, (access_token@, held)),
                ));
            }
            lemma_map_after_put(
                before.tokens,
                self.contents().tokens,
                session@,
                (access_token@, held),
            );
        }
    }

    fn get_verifier_for_state(&self, state: &String) -> (r: Option<String>) {
        let at = find_key(&self.verifiers, state.as_str());
        proof {
            assert(keys_of(self.verifiers@) =~= keys(self.contents().verifiers));
        }
        if at < self.verifiers.len() {
            Some(self.verifiers[at].1.clone())
        } else {
            None
        }
    }

    fn set_verifier_for_state(&mut self, state: &String, verifier: &String) {
        let ghost before = self.contents();
        proof {
            assert(keys_of(self.verifiers@) =~= keys(before.verifiers));
        }
        put(&mut self.verifiers, state.clone(), verifier.clone());
        proof {
            let at = place_of(keys(before.verifiers), state@);
            lemma_place_of_is_place(keys(before.verifiers), state@);
            if at < before.verifiers.len() {
                assert(self.contents().verifiers =~= before.verifiers.update(
                    at,
                    (state@, verifier@),
                ));
            } else {
                assert(self.contents().verifiers =~= before.verifiers.push((state@, verifier@)));
            }
            lemma_map_after_put(before.verifiers, self.contents().verifiers, state@, verifier@);
        }
    }

    fn get_session(&self, session_id: &String) -> (r: Option<Session>) {
        let at = find_key(&self.sessions, session_id.as_str());
        proof {
            assert(keys_of(self.sessions@) =~= keys(self.contents().sessions));
        }
        if at < self.sessions.len() {
            Some(Session { id: session_id.clone(), data: self.sessions[at].1.clone() })
        } else {
            None
        }
    }

    fn set_session(&mut self, update: SessionUpdate) {
        let session = update.create_session();
        match &update.data {
            UpdateType::AuthorizationRequest(v) => match &v.pkce_verifier {
                Some(verifier) => {
                    self.set_verifier_for_state(&v.state.csrf_token, verifier);
                },
                None => {},
            },
            UpdateType::Tokens(t) => {
                self.set_tokens_for_session(&update.id, &t.access_token, t.id_token.as_ref());
            },
        }
        let ghost before = self.contents();
        proof {
            assert(keys_of(self.sessions@) =~= keys(before.sessions));
        }
        put(&mut self.sessions, session.id, session.data);
        proof {
            let id = update@.id;
            let data = update@.session().data;
            let at = place_of(keys(before.sessions), id);
            lemma_place_of_is_place(keys(before.sessions), id);
            if at < before.sessions.len() {
                assert(self.contents().sessions =~= before.sessions.update(at, (id, data)));
            } else {
                assert(self.contents().sessions =~= before.sessions.push((id, data)));
            }
            lemma_map_after_put(before.sessions, self.contents().sessions, id, data);
            assert(sessions_of(map_of(self.contents().sessions)) =~= sessions_of(
                map_of(before.sessions),
            ).insert(id, update@.session()));
        }
    }
}

impl SessionCache for SharedCache {
    closed spec fn sessions(&self) -> Map<Seq<char>, SessionView> {
        model_of(self.contents()).sessions
    }

    fn get(&self, id: &String) -> (r: Option<Session>) {
        self.get_session(id)
    }

    fn set(&mut self, session: SessionUpdate) {
        self.set_session(session)
    }
}

} // verus!
