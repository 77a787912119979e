//! The library-wide laws: every operation keeps a game well formed, every
//! operation short of a forfeit records a winner exactly when the pile is
//! empty, and the hard opponent's choice is a pure function of the pile
//! and the per-turn bound.
//!
//! The one transition that breaks the winner/empty-pile biconditional is
//! the forfeit, which by design records the opponent as winner while
//! pebbles remain; it still keeps every game well formed
//! (`lemma_forfeit_preserves_wf`).

use vstd::prelude::*;

use crate::engine::{forfeit_state, started_state, turn_allowed, turn_state};
use crate::game::{state_wf, valid_config, winner_iff_empty, DifficultyLevel, GameState, PebblesInit};
use crate::moves::{hard_move, lemma_program_move_legal, program_move};

verus! {

/// A successful start or restart yields a well-formed game, whatever the
/// draws were: the pile never exceeds its configured size, and a winner
/// stands exactly when the opponent's opening move emptied the pile.
pub proof fn lemma_start_preserves_wf(init: PebblesInit, first_draw: u32, move_draw: u32)
    requires
        valid_config(init.pebbles_count, init.max_pebbles_per_turn),
    ensures
        state_wf(started_state(init, first_draw, move_draw)),
        winner_iff_empty(started_state(init, first_draw, move_draw)),
{
    lemma_program_move_legal(
        init.difficulty,
        move_draw,
        init.pebbles_count as int,
        init.max_pebbles_per_turn as int,
    );
}

/// An accepted turn yields a well-formed game, whatever the draw was, and
/// records a winner exactly when the pile is empty; in particular, a game
/// that entered the turn with the biconditional intact leaves it intact.
pub proof fn lemma_turn_preserves_wf(s: GameState, pebbles: u32, move_draw: u32)
    requires
        state_wf(s),
        turn_allowed(s, pebbles),
    ensures
        state_wf(turn_state(s, pebbles, move_draw)),
        winner_iff_empty(turn_state(s, pebbles, move_draw)),
{
    let r1 = s.pebbles_remaining - pebbles;
    if r1 != 0 {
        lemma_program_move_legal(
            s.difficulty,
            move_draw,
            r1,
            s.max_pebbles_per_turn as int,
        );
    }
}

/// A forfeit yields a well-formed game: it touches nothing but the winner.
pub proof fn lemma_forfeit_preserves_wf(s: GameState)
    requires
        state_wf(s),
    ensures
        state_wf(forfeit_state(s)),
        forfeit_state(s).pebbles_remaining == s.pebbles_remaining,
{
}

/// Hard-mode determinism: the hard opponent's choice ignores the draw
/// entirely — it is a pure function of the pile and the per-turn bound.
/// (The easy opponent's choice is a pure function of those two and the
/// draw, which is what the `ensures` of the move pickers state.)
pub proof fn lemma_hard_move_ignores_draw(draw_a: u32, draw_b: u32, remaining: int, max: int)
    ensures
        program_move(DifficultyLevel::Hard, draw_a, remaining, max) == program_move(
            DifficultyLevel::Hard,
            draw_b,
            remaining,
            max,
        ),
        program_move(DifficultyLevel::Hard, draw_a, remaining, max) == hard_move(remaining, max),
{
}

} // verus!
