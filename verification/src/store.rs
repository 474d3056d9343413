//! The session store: a keyed collection of all sessions, mapping
//! session identifier to game. Lookups are read-only; every mutation
//! either applies in full or leaves the store untouched.

use vstd::prelude::*;

use crate::game::Game;
use crate::game::SessionId;
use std::collections::HashMap;

verus! {

broadcast use vstd::std_specs::hash::group_hash_axioms;

/// Why a store operation failed.
#[derive(Clone, Copy, PartialEq, Eq, Structural, Debug)]
pub enum SessionError {
    /// The referenced session identifier is absent from the store.
    SessionNotFound,
    /// A freshly created session's identifier is already taken.
    DuplicateSession,
}

/// A keyed collection of sessions. Keys are unique; no ordering is
/// guaranteed. Abstractly it is the map from session identifier to
/// game given by its view.
pub struct SessionStore {
    games: HashMap<SessionId, Game>,
}

impl View for SessionStore {
    type V = Map<SessionId, Game>;

    closed spec fn view(&self) -> Map<SessionId, Game> {
        self.games@
    }
}

impl SessionStore {
    /// An empty store.
    pub fn new() -> (s: SessionStore)
        ensures
            s@ == Map::<SessionId, Game>::empty(),
    {
        SessionStore { games: HashMap::new() }
    }

    /// Inserts a new session keyed by its own identifier, or rejects
    /// the insertion (leaving the store untouched) if the identifier
    /// is already taken.
    pub fn create(&mut self, game: Game) -> (r: Result<(), SessionError>)
        ensures
            !old(self)@.dom().contains(game.session_id) ==> r is Ok
                && final(self)@ == old(self)@.insert(game.session_id, game),
            old(self)@.dom().contains(game.session_id) ==> r == Err::<(), SessionError>(
                SessionError::DuplicateSession,
            ) && final(self)@ == old(self)@,
    {
        if self.games.contains_key(&game.session_id) {
            Err(SessionError::DuplicateSession)
        } else {
            self.games.insert(game.session_id, game);
            Ok(())
        }
    }

    /// Read-only lookup of a session by identifier; no side effects.
    pub fn get(&self, session_id: SessionId) -> (r: Option<Game>)
        ensures
            r is Some <==> self@.dom().contains(session_id),
            r matches Some(g) ==> g == self@[session_id],
    {
        match self.games.get(&session_id) {
            Some(g) => Some(*g),
            None => None,
        }
    }

    /// Replaces the session stored under `session_id`, or reports
    /// `SessionNotFound` (leaving the store untouched) if that key is
    /// absent.
    pub fn update(&mut self, session_id: SessionId, game: Game) -> (r: Result<(), SessionError>)
        ensures
            old(self)@.dom().contains(session_id) ==> r is Ok
                && final(self)@ == old(self)@.insert(session_id, game),
            !old(self)@.dom().contains(session_id) ==> r == Err::<(), SessionError>(
                SessionError::SessionNotFound,
            ) && final(self)@ == old(self)@,
    {
        if self.games.contains_key(&session_id) {
            self.games.insert(session_id, game);
            Ok(())
        } else {
            Err(SessionError::SessionNotFound)
        }
    }
}

} // verus!
