//! The game's data model: players, difficulty, configuration, actions,
//! events, errors, and the state of one running game.

use vstd::prelude::*;

verus! {

/// One of the two contestants: the human user or the automated opponent.
#[derive(Clone, Copy, Debug, PartialEq, Eq)]
pub enum Player {
    User,
    Program,
}

/// How the automated opponent picks its moves: uniformly at random (easy),
/// or optimally whenever an optimal move exists (hard).
#[derive(Clone, Copy, Debug, PartialEq, Eq)]
pub enum DifficultyLevel {
    Easy,
    Hard,
}

/// The parameters of a fresh game: the initial pile size, the per-turn
/// removal bound, and the opponent's difficulty. Valid when both counts
/// are positive.
#[derive(Clone, Copy, Debug, PartialEq, Eq)]
pub struct PebblesInit {
    pub difficulty: DifficultyLevel,
    pub pebbles_count: u32,
    pub max_pebbles_per_turn: u32,
}

/// An external request to the engine.
#[derive(Clone, Copy, Debug, PartialEq, Eq)]
pub enum PebblesAction {
    Turn(u32),
    GiveUp,
    Restart { difficulty: DifficultyLevel, pebbles_count: u32, max_pebbles_per_turn: u32 },
}

/// What a turn-resolving operation reports back: either the opponent's
/// counter-move (how many pebbles it removed), or the game's winner.
#[derive(Clone, Copy, Debug, PartialEq, Eq)]
pub enum PebblesEvent {
    CounterTurn(u32),
    Won(Player),
}

/// Why an operation was rejected. A rejected operation never mutates
/// the game state.
#[derive(Clone, Copy, Debug, PartialEq, Eq)]
pub enum GameError {
    /// A start or restart named a pile size or per-turn bound of zero.
    InvalidConfiguration,
    /// A turn was submitted on a finished game, or removed an illegal
    /// number of pebbles.
    InvalidMove,
    /// A turn or forfeit arrived before any game was started.
    NoActiveGame,
}

/// Everything there is to know about one running game.
#[derive(Clone, Copy, Debug, PartialEq, Eq)]
pub struct GameState {
    pub pebbles_count: u32,
    pub max_pebbles_per_turn: u32,
    pub pebbles_remaining: u32,
    pub difficulty: DifficultyLevel,
    pub first_player: Player,
    pub winner: Option<Player>,
}

/// A configuration is acceptable exactly when both its counts are positive.
pub open spec fn valid_config(pebbles_count: u32, max_pebbles_per_turn: u32) -> bool {
    pebbles_count > 0 && max_pebbles_per_turn > 0
}

/// Well-formedness of a game state, established by every constructor and
/// preserved by every operation:
/// the configuration is valid, the pile never exceeds its initial size,
/// an empty pile always has a winner, and the user wins only by emptying
/// the pile (the opponent may also win by forfeit).
pub open spec fn state_wf(s: GameState) -> bool {
    &&& s.pebbles_count > 0
    &&& s.max_pebbles_per_turn > 0
    &&& s.pebbles_remaining <= s.pebbles_count
    &&& s.pebbles_remaining == 0 ==> s.winner is Some
    &&& s.winner == Some(Player::User) ==> s.pebbles_remaining == 0
}

/// A game is finished once a winner is recorded; no turn is accepted then.
pub open spec fn terminal(s: GameState) -> bool {
    s.winner is Some
}

/// The stricter invariant of games nobody has forfeited: a winner is
/// recorded exactly when the pile is empty. A forfeit records the opponent
/// as winner while pebbles remain, so it keeps only `state_wf`.
pub open spec fn winner_iff_empty(s: GameState) -> bool {
    s.winner is Some <==> s.pebbles_remaining == 0
}

} // verus!
