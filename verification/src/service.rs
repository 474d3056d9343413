//! The service layer: thin orchestration that takes a caller identity,
//! a session identifier and move parameters, looks the session up in
//! the store, invokes the state machine, and returns a result or a
//! typed error. It performs no game logic itself, and a failed
//! operation never leaves a partially updated store.

use vstd::prelude::*;

use crate::entropy::fresh_session_id;
use crate::entropy::random_bool;
use crate::game::Game;
use crate::game::JoinError;
use crate::game::MoveError;
use crate::game::PlayerId;
use crate::game::Seat;
use crate::game::SessionId;
use crate::game::Slot;
use crate::game::join_allowed;
use crate::game::join_spec;
use crate::game::move_check;
use crate::game::move_outcome;
use crate::game::new_game_spec;
use crate::game::wf;
use crate::store::SessionStore;

verus! {

/// The external error taxonomy surfaced to callers.
#[derive(Clone, Copy, PartialEq, Eq, Structural, Debug)]
pub enum ServiceError {
    /// The referenced session identifier does not exist in the store.
    SessionNotFound,
    /// A join was attempted on a session that is full, in progress, or
    /// finished.
    NotJoinable,
    /// A move was attempted on a session not currently in progress.
    NotInProgress,
    /// The mover's identity does not correspond to the seat whose turn
    /// it currently is.
    NotYourTurn,
    /// A move was attempted from a slot holding 0.
    EmptySourceSlot,
    /// A freshly generated session identifier collided with an
    /// existing one.
    DuplicateSession,
}

/// How a rejected move is reported in the external taxonomy.
pub open spec fn move_service_error(e: MoveError) -> ServiceError {
    match e {
        MoveError::NotInProgress => ServiceError::NotInProgress,
        MoveError::NotYourTurn => ServiceError::NotYourTurn,
        MoveError::EmptySourceSlot => ServiceError::EmptySourceSlot,
    }
}

/// A successful creation for `caller` turned the session collection
/// `pre` into `post`: a fresh session under `session_id`, with some
/// starting seat (it was drawn at random, so no more is said of it).
pub open spec fn started(
    pre: Map<SessionId, Game>,
    post: Map<SessionId, Game>,
    caller: PlayerId,
    session_id: SessionId,
) -> bool {
    exists|first_turn: Seat|
        post == pre.insert(session_id, #[trigger] new_game_spec(caller, session_id, first_turn))
}

/// Every stored session is well formed and keyed by its own
/// identifier.
pub open spec fn sessions_wf(m: Map<SessionId, Game>) -> bool {
    forall|sid: SessionId| #[trigger] m.dom().contains(sid) ==> wf(m[sid]) && m[sid].session_id
        == sid
}

/// One logical service instance owning the whole session collection.
/// Its view is the map from session identifier to game.
pub struct GameService {
    store: SessionStore,
}

impl View for GameService {
    type V = Map<SessionId, Game>;

    closed spec fn view(&self) -> Map<SessionId, Game> {
        self.store@
    }
}

impl GameService {
    /// The service invariant: every stored session is well formed and
    /// keyed by its own identifier.
    pub open spec fn inv(&self) -> bool {
        sessions_wf(self@)
    }

    /// A service with no sessions yet.
    pub fn new() -> (s: GameService)
        ensures
            s@ == Map::<SessionId, Game>::empty(),
            s.inv(),
    {
        GameService { store: SessionStore::new() }
    }

    /// Creates a session for `caller`: a fresh random identifier, the
    /// caller in the first seat, and a randomly drawn starting seat.
    /// The identifier is random, so all that is promised of a success
    /// is that some starting seat was chosen and the new session was
    /// stored under the returned, previously unused identifier. On an
    /// empty session collection no drawn identifier can collide, so
    /// there success is owed outright.
    pub fn start_game(&mut self, caller: PlayerId) -> (r: Result<SessionId, ServiceError>)
        requires
            old(self).inv(),
        ensures
            final(self).inv(),
            old(self)@ == Map::<SessionId, Game>::empty() ==> r is Ok,
            r matches Ok(session_id) ==> !old(self)@.dom().contains(session_id) && started(
                old(self)@,
                final(self)@,
                caller,
                session_id,
            ),
            r matches Err(e) ==> e == ServiceError::DuplicateSession
                && final(self)@ == old(self)@,
    {
        let session_id = fresh_session_id();
        let first_turn = if random_bool() {
            Seat::PlayerOne
        } else {
            Seat::PlayerTwo
        };
        let game = Game::new(caller, session_id, first_turn);
        match self.store.create(game) {
            Ok(()) => {
                proof {
                    assert(self@ == old(self)@.insert(
                        session_id,
                        new_game_spec(caller, session_id, first_turn),
                    ));
                    assert(started(old(self)@, self@, caller, session_id));
                    assert forall|sid: SessionId| #[trigger] self@.dom().contains(sid) implies wf(
                        self@[sid],
                    ) && self@[sid].session_id == sid by {
                        if sid != session_id {
                            assert(old(self)@.dom().contains(sid));
                        }
                    }
                }
                Ok(session_id)
            },
            Err(_) => Err(ServiceError::DuplicateSession),
        }
    }

    /// Seats `caller` as the second player of the named session and
    /// starts play; fails with `SessionNotFound` for an unknown
    /// identifier and with `NotJoinable` for a session that is full,
    /// in progress, or finished. A failure leaves the store untouched.
    pub fn join_game(&mut self, caller: PlayerId, session_id: SessionId) -> (r: Result<
        (),
        ServiceError,
    >)
        requires
            old(self).inv(),
        ensures
            final(self).inv(),
            !old(self)@.dom().contains(session_id) ==> r == Err::<(), ServiceError>(
                ServiceError::SessionNotFound,
            ) && final(self)@ == old(self)@,
            old(self)@.dom().contains(session_id) ==> {
                let g = old(self)@[session_id];
                &&& join_allowed(g) ==> r is Ok && final(self)@ == old(self)@.insert(
                    session_id,
                    join_spec(g, caller),
                )
                &&& !join_allowed(g) ==> r == Err::<(), ServiceError>(ServiceError::NotJoinable)
                    && final(self)@ == old(self)@
            },
    {
        match self.store.get(session_id) {
            None => Err(ServiceError::SessionNotFound),
            Some(found) => {
                let mut game = found;
                match game.join(caller) {
                    Ok(()) => {
                        let updated = self.store.update(session_id, game);
                        proof {
                            assert forall|sid: SessionId| #[trigger] self@.dom().contains(
                                sid,
                            ) implies wf(self@[sid]) && self@[sid].session_id == sid by {
                                if sid != session_id {
                                    assert(old(self)@.dom().contains(sid));
                                }
                            }
                        }
                        match updated {
                            Ok(()) => Ok(()),
                            // Unreachable: the key was found just above.
                            Err(_) => Err(ServiceError::SessionNotFound),
                        }
                    },
                    Err(JoinError::NotJoinable) => Err(ServiceError::NotJoinable),
                }
            },
        }
    }

    /// Applies one move by `caller` in the named session: the value of
    /// the caller's `source` slot is added to the opponent's `target`
    /// slot under the wrap-around rule, finishing the game or
    /// alternating the turn. Fails with `SessionNotFound` for an
    /// unknown identifier and otherwise reports exactly the state
    /// machine's verdict; a failure leaves the store untouched.
    pub fn make_move(
        &mut self,
        caller: PlayerId,
        session_id: SessionId,
        source: Slot,
        target: Slot,
    ) -> (r: Result<(), ServiceError>)
        requires
            old(self).inv(),
        ensures
            final(self).inv(),
            !old(self)@.dom().contains(session_id) ==> r == Err::<(), ServiceError>(
                ServiceError::SessionNotFound,
            ) && final(self)@ == old(self)@,
            old(self)@.dom().contains(session_id) ==> {
                let g = old(self)@[session_id];
                match move_check(g, caller, source) {
                    Some(e) => r == Err::<(), ServiceError>(move_service_error(e))
                        && final(self)@ == old(self)@,
                    None => r is Ok && final(self)@ == old(self)@.insert(
                        session_id,
                        move_outcome(g, caller, source, target),
                    ),
                }
            },
    {
        match self.store.get(session_id) {
            None => Err(ServiceError::SessionNotFound),
            Some(found) => {
                let mut game = found;
                match game.apply_move(caller, source, target) {
                    Ok(()) => {
                        let updated = self.store.update(session_id, game);
                        proof {
                            assert forall|sid: SessionId| #[trigger] self@.dom().contains(
                                sid,
                            ) implies wf(self@[sid]) && self@[sid].session_id == sid by {
                                if sid != session_id {
                                    assert(old(self)@.dom().contains(sid));
                                }
                            }
                        }
                        match updated {
                            Ok(()) => Ok(()),
                            // Unreachable: the key was found just above.
                            Err(_) => Err(ServiceError::SessionNotFound),
                        }
                    },
                    Err(e) => {
                        let translated = match e {
                            MoveError::NotInProgress => ServiceError::NotInProgress,
                            MoveError::NotYourTurn => ServiceError::NotYourTurn,
                            MoveError::EmptySourceSlot => ServiceError::EmptySourceSlot,
                        };
                        Err(translated)
                    },
                }
            },
        }
    }

    /// Read-only query: the full snapshot of the named session, or
    /// `SessionNotFound` for an unknown identifier.
    pub fn get_game_state(&self, session_id: SessionId) -> (r: Result<Game, ServiceError>)
        ensures
            self@.dom().contains(session_id) ==> r == Ok::<Game, ServiceError>(self@[session_id]),
            !self@.dom().contains(session_id) ==> r == Err::<Game, ServiceError>(
                ServiceError::SessionNotFound,
            ),
    {
        match self.store.get(session_id) {
            Some(g) => Ok(g),
            None => Err(ServiceError::SessionNotFound),
        }
    }
}

} // verus!
