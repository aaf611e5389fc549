//! The shared cache as records: what the blob holds of each entry, and what an
//! entry is read from.

use crate::session::{
    AuthorizationResponseVerifiers, AuthorizationTokens, SessionType, SessionTypeView, StateView,
    TokensView, VerifiersView,
};
use crate::text::copy_text;
use crate::web::{
    session_record_view, SessionRecord, SessionRecordView, TokenRecordView, VerifierRecordView,
};
use vstd::prelude::*;
use vstd::string::*;

verus! {

/// What a shared cache holds, entry by entry, in the order of arrival.
pub struct Contents {
    pub sessions: Seq<(Seq<char>, SessionTypeView)>,
    pub tokens: Seq<(Seq<char>, (Seq<char>, Option<Seq<char>>))>,
    pub verifiers: Seq<(Seq<char>, Seq<char>)>,
}

/// The three lists of records of a blob.
pub struct Records {
    pub sessions: Seq<SessionRecordView>,
    pub tokens: Seq<TokenRecordView>,
    pub verifiers: Seq<VerifierRecordView>,
}

/// The record of a session: kind 0 for an empty one, 1 for an authorization
/// request (path, CSRF state, verifier), 2 for tokens (access token, id token,
/// refresh token). What a kind does not use is left blank.
pub open spec fn record_of_session(id: Seq<char>, data: SessionTypeView) -> SessionRecordView {
    match data {
        SessionTypeView::Empty => (id, 0u8, 0u64, None, Seq::empty(), Seq::empty(), None, None),
        SessionTypeView::AuthorizationRequest(v) => (
            id,
            1u8,
            v.created_at,
            None,
            v.state.path,
            v.state.csrf_token,
            v.pkce_verifier,
            None,
        ),
        SessionTypeView::Tokens(t) => (
            id,
            2u8,
            t.created_at,
            t.expires_in,
            t.access_token,
            Seq::empty(),
            t.id_token,
            t.refresh_token,
        ),
    }
}

/// The session that a record stands for; none where its kind is unknown.
pub open spec fn session_of_record(r: SessionRecordView) -> Option<(Seq<char>, SessionTypeView)> {
    if r.1 == 0 {
        Some((r.0, SessionTypeView::Empty))
    } else if r.1 == 1 {
        Some(
            (
                r.0,
                SessionTypeView::AuthorizationRequest(
                    VerifiersView {
                        created_at: r.2,
                        state: StateView { path: r.4, csrf_token: r.5 },
                        pkce_verifier: r.6,
                    },
                ),
            ),
        )
    } else if r.1 == 2 {
        Some(
            (
                r.0,
                SessionTypeView::Tokens(
                    TokensView {
                        created_at: r.2,
                        access_token: r.4,
                        expires_in: r.3,
                        id_token: r.6,
                        refresh_token: r.7,
                    },
                ),
            ),
        )
    } else {
        None
    }
}

/// The records of what a cache holds.
pub open spec fn records_of(contents: Contents) -> Records {
    Records {
        sessions: contents.sessions.map_values(
            |e: (Seq<char>, SessionTypeView)| record_of_session(e.0, e.1),
        ),
        tokens: contents.tokens.map_values(
            |e: (Seq<char>, (Seq<char>, Option<Seq<char>>))| (e.0, e.1.0, e.1.1),
        ),
        verifiers: contents.verifiers,
    }
}

/// Whether every session record is of a known kind.
pub open spec fn readable(records: Records) -> bool {
    forall|i: int|
        0 <= i < records.sessions.len() ==> (#[trigger] session_of_record(
            records.sessions[i],
        )) is Some
}

/// What a cache holds that was read from these records.
pub open spec fn contents_of(records: Records) -> Contents {
    Contents {
        sessions: records.sessions.map_values(|r: SessionRecordView| session_of_record(r)->0),
        tokens: records.tokens.map_values(|r: TokenRecordView| (r.0, (r.1, r.2))),
        verifiers: records.verifiers,
    }
}

/// Writing a session down and reading it again gives the session back.
pub proof fn lemma_session_record_round_trip(id: Seq<char>, data: SessionTypeView)
    ensures
        session_of_record(record_of_session(id, data)) == Some((id, data)),
{
}

/// Writing down what a cache holds and reading it again gives the same
/// entries in the same order: every session with its state and its verifier,
/// every token, every verifier.
pub proof fn lemma_records_round_trip(contents: Contents)
    ensures
        readable(records_of(contents)),
        contents_of(records_of(contents)) == contents,
{
    let records = records_of(contents);
    assert forall|i: int| 0 <= i < records.sessions.len() implies (#[trigger] session_of_record(
        records.sessions[i],
    )) is Some by {
        lemma_session_record_round_trip(contents.sessions[i].0, contents.sessions[i].1);
    }
    let back = contents_of(records);
    assert forall|i: int| 0 <= i < contents.sessions.len() implies back.sessions[i]
        == contents.sessions[i] by {
        lemma_session_record_round_trip(contents.sessions[i].0, contents.sessions[i].1);
    }
    assert(back.sessions =~= contents.sessions);
    assert(back.tokens =~= contents.tokens);
}

/// The record of a session.
pub fn session_record(id: &String, data: &SessionType) -> (r: SessionRecord)
    ensures
        session_record_view(r) == record_of_session(id@, data@),
{
    match data {
        SessionType::Empty => (id.clone(), 0, 0, None, String::new(), String::new(), None, None),
        SessionType::AuthorizationRequest(v) => (
            id.clone(),
            1,
            v.created_at,
            None,
            v.state.path.clone(),
            v.state.csrf_token.clone(),
            copy_text(v.pkce_verifier.as_ref()),
            None,
        ),
        SessionType::Tokens(t) => (
            id.clone(),
            2,
            t.created_at,
            t.expires_in,
            t.access_token.clone(),
            String::new(),
            copy_text(t.id_token.as_ref()),
            copy_text(t.refresh_token.as_ref()),
        ),
    }
}

/// The session that a record stands for; none where its kind is unknown.
pub fn session_entry(record: &SessionRecord) -> (r: Option<(String, SessionType)>)
    ensures
        match r {
            Some(entry) => session_of_record(session_record_view(*record)) == Some(
                (entry.0@, entry.1@),
            ),
            None => session_of_record(session_record_view(*record)) is None,
        },
{
    let kind = record.1;
    if kind == 0 {
        Some((record.0.clone(), SessionType::Empty))
    } else if kind == 1 {
        Some(
            (
                record.0.clone(),
                SessionType::AuthorizationRequest(
                    AuthorizationResponseVerifiers::new(
                        record.2,
                        record.4.clone(),
                        record.5.clone(),
                        copy_text(record.6.as_ref()),
                    ),
                ),
            ),
        )
    } else if kind == 2 {
        Some(
            (
                record.0.clone(),
                SessionType::Tokens(
                    AuthorizationTokens::new(
                        record.2,
                        record.4.clone(),
                        record.3,
                        copy_text(record.6.as_ref()),
                        copy_text(record.7.as_ref()),
                    ),
                ),
            ),
        )
    } else {
        None
    }
}

} // verus!
