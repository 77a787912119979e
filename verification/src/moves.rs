//! Move selection for the automated opponent.
//!
//! In the subtraction game where each turn removes between 1 and `max`
//! pebbles and taking the last pebble wins, the losing positions (for the
//! player about to move) are exactly the multiples of `max + 1`. The hard
//! opponent therefore removes `remaining % (max + 1)` pebbles whenever that
//! is not zero, handing its adversary a losing position; from a losing
//! position it falls back to removing a single pebble. The easy opponent
//! removes `draw % max + 1` pebbles, capped by what is left in the pile.

use vstd::arithmetic::div_mod::{
    lemma_mod_bound, lemma_mod_decreases, lemma_mod_equivalence, lemma_small_mod,
};
use vstd::prelude::*;

use crate::game::DifficultyLevel;

verus! {

/// A position is losing for the player about to move exactly when the
/// pile is a multiple of `max + 1`.
pub open spec fn losing_position(remaining: int, max: int) -> bool {
    remaining % (max + 1) == 0
}

/// The hard opponent's move: the unique winning move where one exists,
/// else a single pebble.
pub open spec fn hard_move(remaining: int, max: int) -> int {
    if losing_position(remaining, max) {
        1
    } else {
        remaining % (max + 1)
    }
}

/// The easy opponent's move: `draw % max + 1`, capped by the pile.
pub open spec fn easy_move(draw: u32, remaining: int, max: int) -> int {
    let m = (draw as int) % max + 1;
    if m <= remaining {
        m
    } else {
        remaining
    }
}

/// The opponent's move at a given difficulty. A fixed draw makes this a
/// pure function of the pile and the per-turn bound.
pub open spec fn program_move(
    difficulty: DifficultyLevel,
    draw: u32,
    remaining: int,
    max: int,
) -> int {
    match difficulty {
        DifficultyLevel::Easy => easy_move(draw, remaining, max),
        DifficultyLevel::Hard => hard_move(remaining, max),
    }
}

/// Whatever the difficulty and the draw, the opponent's move is legal:
/// at least one pebble, at most the per-turn bound, and never more than
/// the pile holds.
pub proof fn lemma_program_move_legal(
    difficulty: DifficultyLevel,
    draw: u32,
    remaining: int,
    max: int,
)
    requires
        0 < remaining,
        0 < max,
    ensures
        1 <= program_move(difficulty, draw, remaining, max),
        program_move(difficulty, draw, remaining, max) <= max,
        program_move(difficulty, draw, remaining, max) <= remaining,
{
    lemma_mod_bound(draw as int, max);
    lemma_mod_bound(remaining, max + 1);
    lemma_mod_decreases(remaining as nat, (max + 1) as nat);
}

/// Hard-mode correctness: from any position that is not already losing,
/// the hard move is legal and leaves the adversary a losing position.
pub proof fn lemma_hard_move_optimal(remaining: int, max: int)
    requires
        0 < remaining,
        0 < max,
        !losing_position(remaining, max),
    ensures
        1 <= hard_move(remaining, max) <= max,
        hard_move(remaining, max) <= remaining,
        losing_position(remaining - hard_move(remaining, max), max),
{
    let m = max + 1;
    let r = remaining % m;
    lemma_mod_bound(remaining, m);
    lemma_mod_decreases(remaining as nat, m as nat);
    lemma_small_mod(r as nat, m as nat);
    lemma_mod_equivalence(remaining, r, m);
}

/// The hard opponent's move, computed as the original scan: the smallest
/// removal in `1..=max_pebbles_per_turn` that drives the pile to a multiple
/// of `max_pebbles_per_turn + 1`, or a single pebble where none exists.
pub fn find_best_move(pebbles_remaining: u32, max_pebbles_per_turn: u32) -> (m: u32)
    requires
        0 < pebbles_remaining,
        0 < max_pebbles_per_turn,
    ensures
        m == hard_move(pebbles_remaining as int, max_pebbles_per_turn as int),
        1 <= m <= max_pebbles_per_turn,
        m <= pebbles_remaining,
{
    let remaining: u64 = pebbles_remaining as u64;
    let max: u64 = max_pebbles_per_turn as u64;
    let mut best_move: u64 = 1;
    let mut i: u64 = 1;
    while i <= max
        invariant_except_break
            1 <= i <= max + 1,
            best_move == 1,
            forall|j: int| 1 <= j < i ==> #[trigger] ((remaining - j) % (max + 1)) != 0,
        invariant
            remaining == pebbles_remaining,
            max == max_pebbles_per_turn,
            0 < remaining,
            0 < max,
        ensures
            1 <= best_move <= max,
            best_move <= remaining,
            (remaining - best_move) % (max + 1) == 0 || best_move == 1,
            (remaining - best_move) % (max + 1) != 0 ==> forall|j: int|
                1 <= j <= max ==> #[trigger] ((remaining - j) % (max + 1)) != 0,
        decreases max + 1 - i,
    {
        proof {
            // The scan cannot pass the pile size: removing the whole pile
            // reaches zero, a multiple of anything.
            if remaining < i {
                lemma_small_mod(0, (max + 1) as nat);
                assert((remaining - remaining as int) % (max as int + 1) != 0);
            }
        }
        if (remaining - i) % (max + 1) == 0 {
            best_move = i;
            break ;
        }
        i = i + 1;
    }
    proof {
        let q = max as int + 1;
        if (remaining - best_move) % q == 0 {
            // The scan stopped on a winning move, which can only be the
            // remainder of the pile modulo `max + 1`.
            lemma_small_mod(best_move as nat, q as nat);
            lemma_mod_equivalence(remaining as int, best_move as int, q);
        } else {
            // The scan found no winning move, so the position is losing
            // and the fallback single pebble stands.
            let r = (remaining as int) % q;
            lemma_mod_bound(remaining as int, q);
            if r != 0 {
                lemma_small_mod(r as nat, q as nat);
                lemma_mod_equivalence(remaining as int, r, q);
                assert((remaining - r) % q != 0);
            }
        }
    }
    best_move as u32
}

/// The easy opponent's move: derived from the caller's draw, capped by
/// the pile so the opponent never removes pebbles that are not there.
pub fn pick_easy_move(draw: u32, pebbles_remaining: u32, max_pebbles_per_turn: u32) -> (m: u32)
    requires
        0 < pebbles_remaining,
        0 < max_pebbles_per_turn,
    ensures
        m == easy_move(draw, pebbles_remaining as int, max_pebbles_per_turn as int),
        1 <= m <= max_pebbles_per_turn,
        m <= pebbles_remaining,
{
    let m = draw % max_pebbles_per_turn + 1;
    if m > pebbles_remaining {
        pebbles_remaining
    } else {
        m
    }
}

/// The opponent's move at the given difficulty, from the caller's draw.
pub fn pick_program_move(
    difficulty: DifficultyLevel,
    draw: u32,
    pebbles_remaining: u32,
    max_pebbles_per_turn: u32,
) -> (m: u32)
    requires
        0 < pebbles_remaining,
        0 < max_pebbles_per_turn,
    ensures
        m == program_move(
            difficulty,
            draw,
            pebbles_remaining as int,
            max_pebbles_per_turn as int,
        ),
        1 <= m <= max_pebbles_per_turn,
        m <= pebbles_remaining,
{
    match difficulty {
        DifficultyLevel::Easy => pick_easy_move(draw, pebbles_remaining, max_pebbles_per_turn),
        DifficultyLevel::Hard => find_best_move(pebbles_remaining, max_pebbles_per_turn),
    }
}

} // verus!
