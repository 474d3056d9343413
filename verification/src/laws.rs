//! The general laws of the state machine, stated and proved once over
//! the specification functions that the executable functions' own
//! contracts are phrased in.

use vstd::prelude::*;

use crate::game::ELIMINATION_THRESHOLD;
use crate::game::Game;
use crate::game::PlayerId;
use crate::game::Seat;
use crate::game::Slot;
use crate::game::eliminated;
use crate::game::flip;
use crate::game::join_allowed;
use crate::game::join_spec;
use crate::game::move_check;
use crate::game::move_outcome;
use crate::game::slot_after_add;
use crate::game::wf;

verus! {

/// Turn alternation: a legal move that does not finish the game leaves
/// the opposite seat on turn.
pub proof fn lemma_turn_alternation(g: Game, actor: PlayerId, source: Slot, target: Slot)
    requires
        wf(g),
        move_check(g, actor, source) is None,
        !(move_outcome(g, actor, source, target).phase is Finished),
    ensures
        move_outcome(g, actor, source, target).active_turn == flip(g.active_turn),
{
}

/// Threshold wrap: adding `a` to a slot holding `v` gives exactly 0
/// when the sum reaches the elimination threshold, and exactly the sum
/// otherwise.
pub proof fn lemma_threshold_wrap(v: int, a: int)
    requires
        0 <= v,
        0 <= a,
    ensures
        v + a >= ELIMINATION_THRESHOLD as int ==> slot_after_add(v, a) == 0,
        v + a < ELIMINATION_THRESHOLD as int ==> slot_after_add(v, a) == v + a,
{
}

/// Win exclusivity: a legal move finishes the game if and only if it
/// leaves both of the opponent's slots at 0; in that case the winner
/// is the mover and the turn does not alternate.
pub proof fn lemma_win_exclusivity(g: Game, actor: PlayerId, source: Slot, target: Slot)
    requires
        wf(g),
        move_check(g, actor, source) is None,
    ensures
        ({
            let after = move_outcome(g, actor, source, target);
            let opponent_after = match g.active_turn {
                Seat::PlayerOne => after.player_two->0,
                Seat::PlayerTwo => after.player_one,
            };
            &&& (after.phase is Finished <==> eliminated(opponent_after))
            &&& after.phase is Finished ==> after.phase->winner == actor && after.active_turn
                == g.active_turn
        }),
{
}

/// Join boundary: a session that is in progress or finished never
/// accepts a join, and a fresh session accepts one exactly once — the
/// session a successful join produces accepts no further join.
pub proof fn lemma_join_boundary(g: Game, joiner: PlayerId)
    ensures
        g.phase is InProgress || g.phase is Finished ==> !join_allowed(g),
        join_allowed(g) ==> !join_allowed(join_spec(g, joiner)),
{
}

} // verus!
