//! The game-session state machine: creation, join, per-move validation,
//! value redistribution, win detection and turn alternation.

use vstd::prelude::*;

verus! {

/// The slot value at which a slot is eliminated (reset to 0) by a move.
pub const ELIMINATION_THRESHOLD: u8 = 5;

/// A stable, equality-comparable identifier for a calling entity.
/// The surrounding runtime resolves each request to one of these.
#[derive(Clone, Copy, PartialEq, Eq, Structural, Debug)]
pub struct PlayerId {
    pub value: u64,
}

/// A globally unique session identifier, generated at session creation
/// from a high-entropy 128-bit source.
pub type SessionId = u128;

/// A logical seat at the table, independent of player identity.
#[derive(Clone, Copy, PartialEq, Eq, Structural, Debug)]
pub enum Seat {
    PlayerOne,
    PlayerTwo,
}

/// One of a player's two value-holding positions.
#[derive(Clone, Copy, PartialEq, Eq, Structural, Debug)]
pub enum Slot {
    Left,
    Right,
}

/// One participant: an identity, an optional back-reference to the
/// session the participant is in, and the two slot values.
#[derive(Clone, Copy, PartialEq, Eq, Debug)]
pub struct Player {
    pub identity: PlayerId,
    pub session_ref: Option<SessionId>,
    pub left_value: u8,
    pub right_value: u8,
}

/// The lifecycle phase of a session. `Finished` is terminal.
#[derive(Clone, Copy, PartialEq, Eq, Debug)]
pub enum Phase {
    AwaitingOpponent,
    InProgress,
    Finished { winner: PlayerId },
}

/// Why a join was rejected.
#[derive(Clone, Copy, PartialEq, Eq, Structural, Debug)]
pub enum JoinError {
    /// The session is full, in progress, or finished.
    NotJoinable,
}

/// Why a move was rejected.
#[derive(Clone, Copy, PartialEq, Eq, Structural, Debug)]
pub enum MoveError {
    /// The session is not currently in the `InProgress` phase.
    NotInProgress,
    /// The mover's identity does not match the seat whose turn it is.
    NotYourTurn,
    /// The move names a source slot holding 0.
    EmptySourceSlot,
}

/// One game session: the aggregate root owning both players.
#[derive(Clone, Copy, PartialEq, Eq, Debug)]
pub struct Game {
    pub session_id: SessionId,
    pub player_one: Player,
    pub player_two: Option<Player>,
    pub phase: Phase,
    pub active_turn: Seat,
}

/// The value a player holds in the named slot.
pub open spec fn slot_value(p: Player, s: Slot) -> u8 {
    match s {
        Slot::Left => p.left_value,
        Slot::Right => p.right_value,
    }
}

/// The player with the named slot replaced by `v`.
pub open spec fn with_slot(p: Player, s: Slot, v: u8) -> Player {
    match s {
        Slot::Left => Player { left_value: v, ..p },
        Slot::Right => Player { right_value: v, ..p },
    }
}

/// Both of a player's slots are empty: the player is out of the game.
pub open spec fn eliminated(p: Player) -> bool {
    p.left_value == 0 && p.right_value == 0
}

/// The opposite seat.
pub open spec fn flip(s: Seat) -> Seat {
    match s {
        Seat::PlayerOne => Seat::PlayerTwo,
        Seat::PlayerTwo => Seat::PlayerOne,
    }
}

/// Slot values stay strictly below the elimination threshold: a slot
/// that reaches it is reset to 0 at once.
pub open spec fn player_ok(p: Player) -> bool {
    p.left_value < ELIMINATION_THRESHOLD && p.right_value < ELIMINATION_THRESHOLD
}

/// Well-formedness of a session:
/// - the second player is absent exactly while an opponent is awaited;
/// - every slot value is below the elimination threshold;
/// - a finished session records as winner the identity of the player
///   whose opponent has both slots empty.
pub open spec fn wf(g: Game) -> bool {
    &&& (g.player_two is None <==> g.phase is AwaitingOpponent)
    &&& player_ok(g.player_one)
    &&& (g.player_two matches Some(p2) ==> player_ok(p2))
    &&& (g.phase matches Phase::Finished { winner } ==> {
        &&& g.player_two matches Some(p2) && {
            ||| winner == g.player_one.identity && eliminated(p2)
            ||| winner == p2.identity && eliminated(g.player_one)
        }
    })
}

/// A player as first seated: both slots at 1.
pub open spec fn fresh_player(id: PlayerId, session_ref: Option<SessionId>) -> Player {
    Player { identity: id, session_ref, left_value: 1, right_value: 1 }
}

/// The session a creation produces: creator seated alone, awaiting an
/// opponent, with the given fresh identifier and starting seat.
pub open spec fn new_game_spec(creator: PlayerId, session_id: SessionId, first_turn: Seat) -> Game {
    Game {
        session_id,
        player_one: fresh_player(creator, None),
        player_two: None,
        phase: Phase::AwaitingOpponent,
        active_turn: first_turn,
    }
}

/// A session accepts a join only while awaiting its opponent.
pub open spec fn join_allowed(g: Game) -> bool {
    g.phase is AwaitingOpponent && g.player_two is None
}

/// The session after a successful join: the joiner takes the second
/// seat with fresh slots and play begins.
pub open spec fn join_spec(g: Game, joiner: PlayerId) -> Game {
    Game {
        player_two: Some(fresh_player(joiner, Some(g.session_id))),
        phase: Phase::InProgress,
        ..g
    }
}

/// The player seated at the seat whose turn it is.
pub open spec fn active_player(g: Game) -> Player
    recommends
        g.active_turn is PlayerTwo ==> g.player_two is Some,
{
    match g.active_turn {
        Seat::PlayerOne => g.player_one,
        Seat::PlayerTwo => g.player_two->0,
    }
}

/// The player opposite the seat whose turn it is.
pub open spec fn opponent_player(g: Game) -> Player
    recommends
        g.active_turn is PlayerOne ==> g.player_two is Some,
{
    match g.active_turn {
        Seat::PlayerOne => g.player_two->0,
        Seat::PlayerTwo => g.player_one,
    }
}

/// The central wrap-around rule: adding `a` to a slot holding `v`
/// leaves the sum, unless it reaches the elimination threshold, in
/// which case the slot is reset to exactly 0.
pub open spec fn slot_after_add(v: int, a: int) -> int {
    if v + a >= ELIMINATION_THRESHOLD as int {
        0
    } else {
        v + a
    }
}

/// Which precondition, if any, rejects a move by `actor` from `source`.
/// `None` means the move is legal and will be applied.
pub open spec fn move_check(g: Game, actor: PlayerId, source: Slot) -> Option<MoveError> {
    if !(g.phase is InProgress) {
        Some(MoveError::NotInProgress)
    } else if actor != active_player(g).identity {
        Some(MoveError::NotYourTurn)
    } else if slot_value(active_player(g), source) == 0 {
        Some(MoveError::EmptySourceSlot)
    } else {
        None
    }
}

/// The session after a legal move: the mover's source slot value is
/// added to the opponent's target slot under the wrap-around rule;
/// if that empties the opponent's last slot the session finishes with
/// the mover as winner and the turn stays, otherwise the turn flips.
pub open spec fn move_outcome(g: Game, actor: PlayerId, source: Slot, target: Slot) -> Game
    recommends
        move_check(g, actor, source) is None,
{
    let amount = slot_value(active_player(g), source) as int;
    let opp = opponent_player(g);
    let new_value = slot_after_add(slot_value(opp, target) as int, amount) as u8;
    let opp_after = with_slot(opp, target, new_value);
    let with_opp = match g.active_turn {
        Seat::PlayerOne => Game { player_two: Some(opp_after), ..g },
        Seat::PlayerTwo => Game { player_one: opp_after, ..g },
    };
    if eliminated(opp_after) {
        Game { phase: Phase::Finished { winner: actor }, ..with_opp }
    } else {
        Game { active_turn: flip(g.active_turn), ..with_opp }
    }
}

impl Game {
    /// Creates a session: the creator takes the first seat with fresh
    /// slots, no opponent yet, and the given seat moves first. The
    /// caller supplies a freshly generated unique identifier and a
    /// randomly drawn starting seat, and is responsible for storing
    /// the session.
    pub fn new(creator: PlayerId, session_id: SessionId, first_turn: Seat) -> (g: Game)
        ensures
            g == new_game_spec(creator, session_id, first_turn),
            wf(g),
    {
        Game {
            session_id,
            player_one: Player {
                identity: creator,
                session_ref: None,
                left_value: 1,
                right_value: 1,
            },
            player_two: None,
            phase: Phase::AwaitingOpponent,
            active_turn: first_turn,
        }
    }

    /// Seats `joiner` as the second player and starts play, or rejects
    /// the join (leaving the session untouched) if the session is
    /// full, in progress, or finished.
    pub fn join(&mut self, joiner: PlayerId) -> (r: Result<(), JoinError>)
        requires
            wf(*old(self)),
        ensures
            wf(*final(self)),
            r is Ok <==> join_allowed(*old(self)),
            join_allowed(*old(self)) ==> *final(self) == join_spec(*old(self), joiner),
            !join_allowed(*old(self)) ==> r == Err::<(), JoinError>(JoinError::NotJoinable)
                && *final(self) == *old(self),
    {
        match self.phase {
            Phase::AwaitingOpponent => {
                self.player_two = Some(Player {
                    identity: joiner,
                    session_ref: Some(self.session_id),
                    left_value: 1,
                    right_value: 1,
                });
                self.phase = Phase::InProgress;
                Ok(())
            },
            _ => Err(JoinError::NotJoinable),
        }
    }

    /// Applies one move by `actor`, taking the value of the actor's
    /// `source` slot and adding it to the opponent's `target` slot
    /// under the wrap-around rule, then finishing the game or
    /// alternating the turn. A rejected move leaves the session
    /// untouched and reports why it failed.
    pub fn apply_move(&mut self, actor: PlayerId, source: Slot, target: Slot) -> (r: Result<
        (),
        MoveError,
    >)
        requires
            wf(*old(self)),
        ensures
            wf(*final(self)),
            match move_check(*old(self), actor, source) {
                Some(e) => r == Err::<(), MoveError>(e) && *final(self) == *old(self),
                None => r is Ok && *final(self) == move_outcome(*old(self), actor, source, target),
            },
    {
        match self.phase {
            Phase::InProgress => {},
            _ => {
                return Err(MoveError::NotInProgress);
            },
        }
        let acting_is_one = match self.active_turn {
            Seat::PlayerOne => true,
            Seat::PlayerTwo => false,
        };
        let active = if acting_is_one {
            self.player_one
        } else {
            self.player_two.unwrap()
        };
        if !(active.identity == actor) {
            return Err(MoveError::NotYourTurn);
        }
        let amount = match source {
            Slot::Left => active.left_value,
            Slot::Right => active.right_value,
        };
        if amount == 0 {
            return Err(MoveError::EmptySourceSlot);
        }
        let mut opp = if acting_is_one {
            self.player_two.unwrap()
        } else {
            self.player_one
        };
        let target_value = match target {
            Slot::Left => opp.left_value,
            Slot::Right => opp.right_value,
        };
        let sum = target_value + amount;
        let new_value = if sum >= ELIMINATION_THRESHOLD {
            0
        } else {
            sum
        };
        match target {
            Slot::Left => {
                opp.left_value = new_value;
            },
            Slot::Right => {
                opp.right_value = new_value;
            },
        }
        if acting_is_one {
            self.player_two = Some(opp);
        } else {
            self.player_one = opp;
        }
        if opp.left_value == 0 && opp.right_value == 0 {
            self.phase = Phase::Finished { winner: actor };
        } else {
            self.active_turn = match self.active_turn {
                Seat::PlayerOne => Seat::PlayerTwo,
                Seat::PlayerTwo => Seat::PlayerOne,
            };
        }
        Ok(())
    }
}

} // verus!
