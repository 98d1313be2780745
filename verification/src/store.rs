//! The session store: every session under its identifier, held in a
//! `DashMap`, and the application state built around it.
//!
//! The store changes only through `&mut self`. Whoever shares it between
//! request handlers does so behind a lock, and each operation is then one
//! step that no other handler sees half done. This is what lets every
//! contract say what the store holds before and after: a store that changed
//! behind a shared reference could promise nothing of its contents from one
//! call to the next. The price is that changes to different sessions take
//! turns; no operation here waits on the network, so a turn is short.

use vstd::prelude::*;
use dashmap::DashMap;
use crate::error::CallError;
use crate::models::{apply_update, Session, SessionId, SessionUpdate, SessionView, UpdateView};

verus! {

/// Trusted: `dashmap::DashMap`, a hash map. The verifier sees nothing
/// inside it; what a map of sessions holds is `held_by`.
#[verifier::external_type_specification]
#[verifier::external_body]
#[verifier::reject_recursive_types(K)]
#[verifier::reject_recursive_types(V)]
#[verifier::reject_recursive_types(S)]
pub struct ExDashMap<K, V, S>(dashmap::DashMap<K, V, S>);

/// The sessions of a store as a mathematical map, each under its identifier.
pub type Sessions = Map<SessionId, SessionView>;

/// What a map of sessions holds: each key with the view of its session.
pub uninterp spec fn held_by(map: DashMap<u128, Session>) -> Map<u128, SessionView>;

/// Whether a listing gives every session of `held` once, under its key, and
/// nothing else. It fixes no order.
pub open spec fn lists(entries: Seq<(SessionId, Session)>, held: Sessions) -> bool {
    &&& forall|i: int|
        0 <= i < entries.len() ==> held.contains_key(#[trigger] entries[i].0) && held[entries[i].0]
            == entries[i].1@
    &&& forall|k: SessionId| #[trigger]
        held.contains_key(k) ==> exists|i: int| 0 <= i < entries.len() && entries[i].0 == k
    &&& forall|i: int, j: int|
        0 <= i < j < entries.len() ==> #[trigger] entries[i].0 != #[trigger] entries[j].0
}

/// Trusted: `DashMap::new`, which makes a map that holds nothing.
#[verifier::external_body]
fn map_new() -> (fresh: DashMap<u128, Session>)
    ensures
        held_by(fresh) == Sessions::empty(),
{
    DashMap::new()
}

/// Trusted: `DashMap::contains_key`, which says whether the map holds
/// anything under the key.
#[verifier::external_body]
fn map_contains(map: &DashMap<u128, Session>, key: u128) -> (present: bool)
    ensures
        present == held_by(*map).contains_key(key),
{
    map.contains_key(&key)
}

/// Trusted: `DashMap::insert`. It puts the value under the key and hands
/// back the value that was there, if one was.
#[verifier::external_body]
fn map_insert(map: &mut DashMap<u128, Session>, key: u128, value: Session) -> (before: Option<
    Session,
>)
    ensures
        held_by(*final(map)) == held_by(*old(map)).insert(key, value@),
        before matches Some(s) ==> held_by(*old(map)).contains_key(key) && held_by(*old(map))[key]
            == s@,
        before is None ==> !held_by(*old(map)).contains_key(key),
{
    map.insert(key, value)
}

/// Trusted: `DashMap::get`, with a copy made of the session found. The map
/// is left as it was.
#[verifier::external_body]
fn map_get(map: &DashMap<u128, Session>, key: u128) -> (found: Option<Session>)
    ensures
        found matches Some(s) ==> held_by(*map).contains_key(key) && held_by(*map)[key] == s@,
        found is None ==> !held_by(*map).contains_key(key),
{
    map.get(&key).map(|entry| entry.value().clone())
}

/// Trusted: `DashMap::iter`, with a copy made of each entry. The order is
/// that of the map's hashing and is left open.
#[verifier::external_body]
fn map_entries(map: &DashMap<u128, Session>) -> (entries: Vec<(u128, Session)>)
    ensures
        lists(entries@, held_by(*map)),
{
    map.iter().map(|entry| (*entry.key(), entry.value().clone())).collect()
}

/// Whether every session stands under its own identifier.
pub open spec fn keyed_by_id(sessions: Sessions) -> bool {
    forall|k: SessionId| #[trigger] sessions.contains_key(k) ==> sessions[k].id == k
}

/// The sessions after a change to the one under `id`: that session changed,
/// or, where there is none, nothing.
pub open spec fn updated(sessions: Sessions, id: SessionId, u: UpdateView) -> Sessions {
    if sessions.contains_key(id) {
        sessions.insert(id, apply_update(sessions[id], u))
    } else {
        sessions
    }
}

/// Every session, each under its own identifier.
pub struct SessionStore {
    map: DashMap<u128, Session>,
}

impl View for SessionStore {
    type V = Sessions;

    closed spec fn view(&self) -> Sessions {
        held_by(self.map)
    }
}

impl SessionStore {
    /// The store's invariant: every session stands under its own identifier.
    /// `new` establishes it and every operation keeps it.
    pub open spec fn wf(&self) -> bool {
        keyed_by_id(self@)
    }

    /// A store with no session in it.
    pub fn new() -> (store: SessionStore)
        ensures
            store@ == Sessions::empty(),
            store.wf(),
    {
        SessionStore { map: map_new() }
    }

    /// Adds a session under its identifier. A store that already has a
    /// session with that identifier refuses and stays as it is.
    pub fn insert(&mut self, session: Session) -> (done: Result<(), CallError>)
        ensures
            old(self)@.contains_key(session.id) ==> (done matches Err(CallError::DuplicateId))
                && final(self)@ == old(self)@,
            !old(self)@.contains_key(session.id) ==> done is Ok
                && final(self)@ == old(self)@.insert(session.id, session@),
            old(self).wf() ==> final(self).wf(),
    {
        if map_contains(&self.map, session.id) {
            Err(CallError::DuplicateId)
        } else {
            let key = session.id;
            map_insert(&mut self.map, key, session);
            Ok(())
        }
    }

    /// A copy of the session with the identifier, as it stands now.
    pub fn get(&self, id: SessionId) -> (found: Result<Session, CallError>)
        ensures
            self@.contains_key(id) ==> found is Ok && found->Ok_0@ == self@[id],
            !self@.contains_key(id) ==> (found matches Err(CallError::NotFound)),
    {
        match map_get(&self.map, id) {
            Some(session) => Ok(session),
            None => Err(CallError::NotFound),
        }
    }

    /// Makes a change to the session with the identifier. Where there is no
    /// such session nothing happens, and that is no error.
    pub fn mutate(&mut self, id: SessionId, update: SessionUpdate)
        ensures
            final(self)@ == updated(old(self)@, id, update@),
            old(self).wf() ==> final(self).wf(),
    {
        match map_get(&self.map, id) {
            Some(session) => {
                let next = session.apply(update);
                map_insert(&mut self.map, id, next);
            },
            None => {},
        }
    }

    /// Copies of all sessions, each with its identifier, in no particular
    /// order.
    pub fn iterate(&self) -> (entries: Vec<(SessionId, Session)>)
        ensures
            lists(entries@, self@),
    {
        map_entries(&self.map)
    }
}

/// A change keeps every session under its own identifier.
pub proof fn law_update_keeps_keys(sessions: Sessions, id: SessionId, u: UpdateView)
    requires
        keyed_by_id(sessions),
    ensures
        keyed_by_id(updated(sessions, id, u)),
        updated(sessions, id, u).dom() == sessions.dom(),
{
}

/// Making the same change to the same session twice leaves the store as
/// making it once does.
pub proof fn law_mutate_idempotent(sessions: Sessions, id: SessionId, u: UpdateView)
    ensures
        updated(updated(sessions, id, u), id, u) == updated(sessions, id, u),
{
    if sessions.contains_key(id) {
        crate::models::law_update_idempotent(sessions[id], u);
    }
}

/// The state that every request handler works on: the sessions and the
/// configuration.
pub struct AppState {
    pub sessions: SessionStore,
    /// The address under which the provider reaches this service.
    pub base_url: String,
    pub mock_voice: bool,
    pub openai_api_key: Option<String>,
    pub openai_model: String,
}

/// Whether two states differ in their sessions at most.
pub open spec fn same_config(a: AppState, b: AppState) -> bool {
    &&& a.base_url == b.base_url
    &&& a.mock_voice == b.mock_voice
    &&& a.openai_api_key == b.openai_api_key
    &&& a.openai_model == b.openai_model
}

impl AppState {
    /// The state of a service that has seen no request yet.
    pub fn new(
        base_url: String,
        mock_voice: bool,
        openai_api_key: Option<String>,
        openai_model: String,
    ) -> (state: AppState)
        ensures
            state.sessions@ == Sessions::empty(),
            state.sessions.wf(),
            state.base_url == base_url,
            state.mock_voice == mock_voice,
            state.openai_api_key == openai_api_key,
            state.openai_model == openai_model,
    {
        AppState { sessions: SessionStore::new(), base_url, mock_voice, openai_api_key, openai_model }
    }
}

} // verus!
