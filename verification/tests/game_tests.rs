//! Tests of the game state machine: creation, join, moves, the
//! wrap-around rule, win detection and turn alternation.

use chopsticks::Game;
use chopsticks::JoinError;
use chopsticks::MoveError;
use chopsticks::Phase;
use chopsticks::Player;
use chopsticks::PlayerId;
use chopsticks::Seat;
use chopsticks::Slot;

fn p(value: u64) -> PlayerId {
    PlayerId { value }
}

fn in_progress_game(first_turn: Seat) -> Game {
    let mut game = Game::new(p(1), 7, first_turn);
    game.join(p(2)).unwrap();
    game
}

#[test]
fn creation_seats_the_creator_alone() {
    let game = Game::new(p(1), 42, Seat::PlayerTwo);
    assert_eq!(game.session_id, 42);
    assert_eq!(game.player_one.identity, p(1));
    assert_eq!(game.player_one.left_value, 1);
    assert_eq!(game.player_one.right_value, 1);
    assert!(game.player_two.is_none());
    assert_eq!(game.phase, Phase::AwaitingOpponent);
    assert_eq!(game.active_turn, Seat::PlayerTwo);
}

#[test]
fn join_seats_the_opponent_and_starts_play() {
    let mut game = Game::new(p(1), 42, Seat::PlayerOne);
    assert_eq!(game.join(p(2)), Ok(()));
    assert_eq!(game.phase, Phase::InProgress);
    let two = game.player_two.unwrap();
    assert_eq!(two.identity, p(2));
    assert_eq!(two.session_ref, Some(42));
    assert_eq!(two.left_value, 1);
    assert_eq!(two.right_value, 1);
}

#[test]
fn join_fails_once_in_progress() {
    let mut game = in_progress_game(Seat::PlayerOne);
    let before = game;
    assert_eq!(game.join(p(3)), Err(JoinError::NotJoinable));
    assert_eq!(game, before);
}

#[test]
fn join_fails_once_finished() {
    let mut game = in_progress_game(Seat::PlayerOne);
    game.phase = Phase::Finished { winner: p(1) };
    let before = game;
    assert_eq!(game.join(p(3)), Err(JoinError::NotJoinable));
    assert_eq!(game, before);
}

#[test]
fn legal_move_adds_and_alternates_turn() {
    let mut game = in_progress_game(Seat::PlayerOne);
    assert_eq!(game.apply_move(p(1), Slot::Left, Slot::Left), Ok(()));
    let two = game.player_two.unwrap();
    assert_eq!(two.left_value, 2);
    assert_eq!(two.right_value, 1);
    assert_eq!(game.player_one.left_value, 1);
    assert_eq!(game.active_turn, Seat::PlayerTwo);
    assert_eq!(game.phase, Phase::InProgress);
}

#[test]
fn second_player_can_move_back() {
    let mut game = in_progress_game(Seat::PlayerTwo);
    assert_eq!(game.apply_move(p(2), Slot::Right, Slot::Right), Ok(()));
    assert_eq!(game.player_one.right_value, 2);
    assert_eq!(game.active_turn, Seat::PlayerOne);
}

#[test]
fn move_rejected_before_join() {
    let mut game = Game::new(p(1), 7, Seat::PlayerOne);
    let before = game;
    assert_eq!(
        game.apply_move(p(1), Slot::Left, Slot::Left),
        Err(MoveError::NotInProgress)
    );
    assert_eq!(game, before);
}

#[test]
fn move_rejected_out_of_turn() {
    let mut game = in_progress_game(Seat::PlayerOne);
    let before = game;
    assert_eq!(
        game.apply_move(p(2), Slot::Left, Slot::Left),
        Err(MoveError::NotYourTurn)
    );
    assert_eq!(game, before);
}

#[test]
fn move_rejected_for_unknown_identity() {
    let mut game = in_progress_game(Seat::PlayerOne);
    let before = game;
    assert_eq!(
        game.apply_move(p(99), Slot::Left, Slot::Left),
        Err(MoveError::NotYourTurn)
    );
    assert_eq!(game, before);
}

#[test]
fn scenario_alternation_then_empty_source() {
    // Start, join, first player moves Left to Left: 1 + 1 = 2, no
    // reset, and the turn flips to the second player.
    let mut game = Game::new(p(1), 7, Seat::PlayerOne);
    game.join(p(2)).unwrap();
    assert_eq!(game.apply_move(p(1), Slot::Left, Slot::Left), Ok(()));
    assert_eq!(game.player_two.unwrap().left_value, 2);
    assert_eq!(game.active_turn, Seat::PlayerTwo);
    // The second player tries to move from a slot holding 0: the move
    // fails with EmptySourceSlot and the state is unchanged.
    let mut two = game.player_two.unwrap();
    two.right_value = 0;
    game.player_two = Some(two);
    let before = game;
    assert_eq!(
        game.apply_move(p(2), Slot::Right, Slot::Left),
        Err(MoveError::EmptySourceSlot)
    );
    assert_eq!(game, before);
}

#[test]
fn scenario_threshold_wrap() {
    // The mover's slot holds 3; the opponent's targeted slot holds 2;
    // the move adds 3, the slot reaches 5, and the wrap rule resets it
    // to exactly 0.
    let mut game = in_progress_game(Seat::PlayerOne);
    game.player_one.left_value = 3;
    let mut two = game.player_two.unwrap();
    two.left_value = 2;
    game.player_two = Some(two);
    assert_eq!(game.apply_move(p(1), Slot::Left, Slot::Left), Ok(()));
    assert_eq!(game.player_two.unwrap().left_value, 0);
    // The opponent still holds a non-empty slot, so play goes on.
    assert_eq!(game.phase, Phase::InProgress);
    assert_eq!(game.active_turn, Seat::PlayerTwo);
}

#[test]
fn scenario_winning_move_finishes_the_game() {
    // The opponent's other slot is already 0 and the targeted slot
    // wraps to 0: the game finishes with the mover as winner, and the
    // turn does not alternate.
    let mut game = in_progress_game(Seat::PlayerOne);
    game.player_two = Some(Player {
        identity: p(2),
        session_ref: Some(7),
        left_value: 0,
        right_value: 4,
    });
    assert_eq!(game.apply_move(p(1), Slot::Left, Slot::Right), Ok(()));
    let two = game.player_two.unwrap();
    assert_eq!(two.left_value, 0);
    assert_eq!(two.right_value, 0);
    assert_eq!(game.phase, Phase::Finished { winner: p(1) });
    assert_eq!(game.active_turn, Seat::PlayerOne);
    // A further move on the finished session fails.
    let before = game;
    assert_eq!(
        game.apply_move(p(2), Slot::Right, Slot::Left),
        Err(MoveError::NotInProgress)
    );
    assert_eq!(game, before);
}

#[test]
fn sum_below_threshold_is_kept_exactly() {
    let mut game = in_progress_game(Seat::PlayerOne);
    game.player_one.right_value = 2;
    let mut two = game.player_two.unwrap();
    two.right_value = 2;
    game.player_two = Some(two);
    assert_eq!(game.apply_move(p(1), Slot::Right, Slot::Right), Ok(()));
    assert_eq!(game.player_two.unwrap().right_value, 4);
}

#[test]
fn sum_above_threshold_also_wraps_to_zero() {
    let mut game = in_progress_game(Seat::PlayerOne);
    game.player_one.left_value = 4;
    let mut two = game.player_two.unwrap();
    two.left_value = 4;
    game.player_two = Some(two);
    // 4 + 4 = 8 >= 5: reset to 0, not saturated.
    assert_eq!(game.apply_move(p(1), Slot::Left, Slot::Left), Ok(()));
    assert_eq!(game.player_two.unwrap().left_value, 0);
}
