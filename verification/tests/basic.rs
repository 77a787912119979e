// The basic game flow: one engine per test, driven through the same
// actions the original exercises. Draws are fixed at 42 — even, so the
// user moves first — matching the fixed draw the original's test build
// used.

use pebbles_game::engine::GameEngine;
use pebbles_game::game::{DifficultyLevel, GameError, PebblesAction, PebblesEvent, PebblesInit, Player};

const DRAW: u32 = 42;

fn started(difficulty: DifficultyLevel, pebbles_count: u32, max_pebbles_per_turn: u32) -> GameEngine {
    let mut engine = GameEngine::new();
    let init = PebblesInit { difficulty, pebbles_count, max_pebbles_per_turn };
    let res: Result<Option<PebblesEvent>, GameError> = engine.start(init, DRAW, DRAW);
    assert!(res.is_ok());
    engine
}

#[test]
fn test_init() {
    let engine = started(DifficultyLevel::Easy, 15, 3);

    let state = engine.current_state().unwrap();
    assert_eq!(state.pebbles_count, 15);
    assert_eq!(state.max_pebbles_per_turn, 3);
    assert!(state.pebbles_remaining <= 15);
    assert_eq!(state.winner, None);
}

#[test]
fn test_user_turn() {
    let mut engine = started(DifficultyLevel::Easy, 15, 3);

    let res = engine.handle_action(PebblesAction::Turn(2), DRAW, DRAW);
    assert!(res.is_ok());

    let state = engine.current_state().unwrap();
    assert!(state.pebbles_remaining <= 13);
}

#[test]
fn test_program_turn_easy() {
    let mut engine = started(DifficultyLevel::Easy, 15, 3);

    let res = engine.handle_action(PebblesAction::Turn(2), DRAW, DRAW);
    assert!(res.is_ok());

    let state = engine.current_state().unwrap();
    assert!(state.pebbles_remaining <= 13);
}

#[test]
fn test_program_turn_hard() {
    let mut engine = started(DifficultyLevel::Hard, 15, 3);

    let res = engine.handle_action(PebblesAction::Turn(2), DRAW, DRAW);
    assert!(res.is_ok());

    let state = engine.current_state().unwrap();
    assert!(state.pebbles_remaining <= 13);
}

#[test]
fn test_give_up() {
    let mut engine = started(DifficultyLevel::Easy, 15, 3);

    let res = engine.handle_action(PebblesAction::GiveUp, DRAW, DRAW);
    assert!(res.is_ok());

    let state = engine.current_state().unwrap();
    assert_eq!(state.winner, Some(Player::Program));
}

#[test]
fn test_restart() {
    let mut engine = started(DifficultyLevel::Easy, 15, 3);

    let restart = PebblesAction::Restart {
        difficulty: DifficultyLevel::Hard,
        pebbles_count: 20,
        max_pebbles_per_turn: 4,
    };
    let res = engine.handle_action(restart, DRAW, DRAW);
    assert!(res.is_ok());

    let state = engine.current_state().unwrap();
    assert_eq!(state.pebbles_count, 20);
    assert_eq!(state.max_pebbles_per_turn, 4);
    assert!(state.pebbles_remaining <= 20);
    assert_eq!(state.difficulty, DifficultyLevel::Hard);
}
