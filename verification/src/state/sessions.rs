//! Sessions: a session that connects is kept for good; one that disconnects
//! is marked as not active.

use crate::state::keyed::{index_of, keys_of, position};
use crate::state::logs::session_log_reset;
use crate::state::model::{DashboardState, DashboardStateView, SessionInfo, SessionInfoView, SessionLog};
use vstd::prelude::*;

verus! {

/// The sessions with `session` in the place of the one with its id; a
/// session with a new id goes to the end.
pub open spec fn session_put(sessions: Seq<SessionInfoView>, session: SessionInfoView) -> Seq<
    SessionInfoView,
> {
    match index_of(keys_of::<SessionInfo>(sessions), session.id) {
        Some(i) => sessions.update(i, session),
        None => sessions.push(session),
    }
}

/// The sessions with the one of the id marked as not active; unchanged
/// where there is none of the id.
pub open spec fn session_closed(sessions: Seq<SessionInfoView>, sid: Seq<char>) -> Seq<
    SessionInfoView,
> {
    match index_of(keys_of::<SessionInfo>(sessions), sid) {
        Some(i) => sessions.update(i, SessionInfoView { is_active: false, ..sessions[i] }),
        None => sessions,
    }
}

/// The session of the id, if there is one.
pub open spec fn session_of(sessions: Seq<SessionInfoView>, sid: Seq<char>) -> Option<
    SessionInfoView,
> {
    match index_of(keys_of::<SessionInfo>(sessions), sid) {
        Some(i) => Some(sessions[i]),
        None => None,
    }
}

impl DashboardStateView {
    /// The state after a session connected: it takes the place of an
    /// earlier session of its id, and its log starts empty.
    pub open spec fn session_opened(self, session: SessionInfoView) -> DashboardStateView {
        DashboardStateView {
            sessions: session_put(self.sessions, session),
            session_logs: session_log_reset(self.session_logs, session.id),
            ..self
        }
    }

    /// The state after the session of the id disconnected.
    pub open spec fn session_left(self, sid: Seq<char>) -> DashboardStateView {
        DashboardStateView { sessions: session_closed(self.sessions, sid), ..self }
    }
}

/// Closing a session neither adds nor removes one.
pub proof fn lemma_close_keeps_sessions(sessions: Seq<SessionInfoView>, sid: Seq<char>)
    ensures
        session_closed(sessions, sid).len() == sessions.len(),
        keys_of::<SessionInfo>(session_closed(sessions, sid)) == keys_of::<SessionInfo>(sessions),
        session_of(sessions, sid) is Some ==> session_of(session_closed(sessions, sid), sid)
            == Some(SessionInfoView { is_active: false, ..session_of(sessions, sid).unwrap() }),
{
    crate::state::keyed::lemma_index_of_contains(keys_of::<SessionInfo>(sessions), sid);
    assert(keys_of::<SessionInfo>(session_closed(sessions, sid)) =~= keys_of::<SessionInfo>(
        sessions,
    ));
}

/// A session that connected is found by its id, as it connected.
pub proof fn lemma_put_then_find(sessions: Seq<SessionInfoView>, session: SessionInfoView)
    ensures
        session_of(session_put(sessions, session), session.id) == Some(session),
        index_of(keys_of::<SessionInfo>(sessions), session.id) is Some ==> session_put(
            sessions,
            session,
        ).len() == sessions.len(),
        index_of(keys_of::<SessionInfo>(sessions), session.id) is None ==> session_put(
            sessions,
            session,
        ).len() == sessions.len() + 1,
{
    let keys = keys_of::<SessionInfo>(sessions);
    let after = session_put(sessions, session);
    crate::state::keyed::lemma_index_from(keys, session.id, 0);
    match index_of(keys, session.id) {
        Some(i) => {
            assert(keys_of::<SessionInfo>(after) =~= keys);
        },
        None => {
            assert(keys_of::<SessionInfo>(after) =~= keys.push(session.id));
            crate::state::keyed::lemma_index_from(keys.push(session.id), session.id, 0);
            match index_of(keys.push(session.id), session.id) {
                Some(k) => {
                    if k < keys.len() {
                        assert(keys[k] == keys.push(session.id)[k]);
                    }
                },
                None => {
                    assert(keys.push(session.id)[keys.len() as int] == session.id);
                },
            }
        },
    }
}

/// Sessions whose ids occur once each still do after one connected and
/// after one disconnected.
pub proof fn lemma_session_ids_stay_unique(
    sessions: Seq<SessionInfoView>,
    session: SessionInfoView,
    sid: Seq<char>,
)
    requires
        keys_of::<SessionInfo>(sessions).no_duplicates(),
    ensures
        keys_of::<SessionInfo>(session_put(sessions, session)).no_duplicates(),
        keys_of::<SessionInfo>(session_closed(sessions, sid)).no_duplicates(),
{
    let keys = keys_of::<SessionInfo>(sessions);
    lemma_close_keeps_sessions(sessions, sid);
    crate::state::keyed::lemma_index_from(keys, session.id, 0);
    match index_of(keys, session.id) {
        Some(i) => {
            assert(keys_of::<SessionInfo>(session_put(sessions, session)) =~= keys);
        },
        None => {
            assert(keys_of::<SessionInfo>(session_put(sessions, session)) =~= keys.push(
                session.id,
            ));
        },
    }
}

impl DashboardState {
    /// Takes in a session that connected.
    pub fn open_session(&mut self, session: SessionInfo)
        ensures
            final(self)@ == old(self)@.session_opened(session@),
    {
        let ghost sessions = self.sessions.deep_view();
        let ghost logs = self.session_logs.deep_view();
        let ghost s = session@;
        let sid = session.id.clone();
        match position(&self.sessions, sid.as_str()) {
            Some(i) => {
                self.sessions.set(i, session);
                assert(self.sessions.deep_view() =~= session_put(sessions, s));
            },
            None => {
                self.sessions.push(session);
                assert(self.sessions.deep_view() =~= session_put(sessions, s));
            },
        }
        match position(&self.session_logs, sid.as_str()) {
            Some(i) => {
                let mut log = self.session_logs.remove(i);
                log.entries = Vec::new();
                assert(log.entries.deep_view() =~= Seq::empty());
                self.session_logs.insert(i, log);
                assert(self.session_logs.deep_view() =~= session_log_reset(logs, s.id));
            },
            None => {
                let entries: Vec<crate::state::model::LogEntry> = Vec::new();
                assert(entries.deep_view() =~= Seq::empty());
                self.session_logs.push(SessionLog { session_id: sid, entries });
                assert(self.session_logs.deep_view() =~= session_log_reset(logs, s.id));
            },
        }
    }

    /// Marks the session of the id as not active.
    pub fn close_session(&mut self, sid: &str)
        ensures
            final(self)@ == old(self)@.session_left(sid@),
    {
        let ghost sessions = self.sessions.deep_view();
        match position(&self.sessions, sid) {
            Some(i) => {
                let mut session = self.sessions.remove(i);
                session.is_active = false;
                self.sessions.insert(i, session);
                assert(self.sessions.deep_view() =~= session_closed(sessions, sid@));
            },
            None => {},
        }
    }

    /// The session of the id, if there is one.
    pub fn session(&self, sid: &str) -> (r: Option<&SessionInfo>)
        ensures
            r.deep_view() == session_of(self@.sessions, sid@),
    {
        match position(&self.sessions, sid) {
            Some(i) => Some(&self.sessions[i]),
            None => None,
        }
    }
}

} // verus!
