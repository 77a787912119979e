//! The game engine: one owned game slot, mutated only through the
//! operations here, each resolved completely before the next.
//!
//! Randomness is a capability of the caller, not of the engine: every
//! operation that needs an unpredictable value takes it as a plain `u32`
//! draw. `first_draw` decides who moves first on a start or restart;
//! `move_draw` feeds the easy opponent's move selection. Fixing the draws
//! makes every operation a pure function of its arguments, which is what
//! the contracts below state.

use vstd::prelude::*;

use crate::game::{
    valid_config, state_wf, GameError, GameState, PebblesAction, PebblesEvent, PebblesInit, Player,
};
use crate::moves::{pick_program_move, program_move};

verus! {

/// The state a start or restart builds before any opening move: a full
/// pile, no winner, and the first player decided by the parity of the
/// caller's draw.
pub open spec fn fresh_state(init: PebblesInit, first_draw: u32) -> GameState {
    GameState {
        pebbles_count: init.pebbles_count,
        max_pebbles_per_turn: init.max_pebbles_per_turn,
        pebbles_remaining: init.pebbles_count,
        difficulty: init.difficulty,
        first_player: if first_draw % 2 == 0 {
            Player::User
        } else {
            Player::Program
        },
        winner: None,
    }
}

/// The opponent's opening move on a full pile.
pub open spec fn opening_move(init: PebblesInit, move_draw: u32) -> int {
    program_move(
        init.difficulty,
        move_draw,
        init.pebbles_count as int,
        init.max_pebbles_per_turn as int,
    )
}

/// The state right after a successful start or restart: the fresh state,
/// minus the opponent's opening move where the opponent goes first. Should
/// that opening move empty the pile, the opponent has already won.
pub open spec fn started_state(init: PebblesInit, first_draw: u32, move_draw: u32) -> GameState {
    let s = fresh_state(init, first_draw);
    if s.first_player == Player::Program {
        let rem = s.pebbles_remaining - opening_move(init, move_draw);
        GameState {
            pebbles_remaining: rem as u32,
            winner: if rem == 0 {
                Some(Player::Program)
            } else {
                None
            },
            ..s
        }
    } else {
        s
    }
}

/// What a successful start or restart reports: nothing when the user moves
/// first, else the opponent's opening move or its immediate win.
pub open spec fn start_outcome(init: PebblesInit, first_draw: u32, move_draw: u32) -> Option<
    PebblesEvent,
> {
    let s = fresh_state(init, first_draw);
    if s.first_player == Player::Program {
        let m = opening_move(init, move_draw);
        if s.pebbles_remaining - m == 0 {
            Some(PebblesEvent::Won(Player::Program))
        } else {
            Some(PebblesEvent::CounterTurn(m as u32))
        }
    } else {
        None
    }
}

/// The reply of a start or restart: its outcome, or the configuration's
/// rejection.
pub open spec fn start_result(init: PebblesInit, first_draw: u32, move_draw: u32) -> Result<
    Option<PebblesEvent>,
    GameError,
> {
    if valid_config(init.pebbles_count, init.max_pebbles_per_turn) {
        Ok(start_outcome(init, first_draw, move_draw))
    } else {
        Err(GameError::InvalidConfiguration)
    }
}

/// The game slot after a start or restart: replaced wholesale on success,
/// untouched on a rejected configuration.
pub open spec fn start_next(
    pre: Option<GameState>,
    init: PebblesInit,
    first_draw: u32,
    move_draw: u32,
) -> Option<GameState> {
    if valid_config(init.pebbles_count, init.max_pebbles_per_turn) {
        Some(started_state(init, first_draw, move_draw))
    } else {
        pre
    }
}

/// A user's move is accepted exactly when the game is unfinished and the
/// move removes at least one pebble, no more than the per-turn bound, and
/// no more than the pile holds.
pub open spec fn turn_allowed(s: GameState, pebbles: u32) -> bool {
    &&& s.winner is None
    &&& 0 < pebbles
    &&& pebbles <= s.max_pebbles_per_turn
    &&& pebbles <= s.pebbles_remaining
}

/// The state after an accepted user move: the user's removal, then — if
/// pebbles remain — the opponent's counter-move, resolved as one atomic
/// transition. Whoever empties the pile is recorded as winner.
pub open spec fn turn_state(s: GameState, pebbles: u32, move_draw: u32) -> GameState {
    let r1 = s.pebbles_remaining - pebbles;
    if r1 == 0 {
        GameState { pebbles_remaining: 0, winner: Some(Player::User), ..s }
    } else {
        let m = program_move(s.difficulty, move_draw, r1, s.max_pebbles_per_turn as int);
        let r2 = r1 - m;
        GameState {
            pebbles_remaining: r2 as u32,
            winner: if r2 == 0 {
                Some(Player::Program)
            } else {
                None
            },
            ..s
        }
    }
}

/// What an accepted user move reports: the user's win, the opponent's win,
/// or the opponent's counter-move.
pub open spec fn turn_outcome(s: GameState, pebbles: u32, move_draw: u32) -> PebblesEvent {
    let r1 = s.pebbles_remaining - pebbles;
    if r1 == 0 {
        PebblesEvent::Won(Player::User)
    } else {
        let m = program_move(s.difficulty, move_draw, r1, s.max_pebbles_per_turn as int);
        if r1 - m == 0 {
            PebblesEvent::Won(Player::Program)
        } else {
            PebblesEvent::CounterTurn(m as u32)
        }
    }
}

/// The reply of a submitted turn: its outcome, or the move's rejection.
pub open spec fn turn_result(pre: Option<GameState>, pebbles: u32, move_draw: u32) -> Result<
    PebblesEvent,
    GameError,
> {
    match pre {
        None => Err(GameError::NoActiveGame),
        Some(s) => if turn_allowed(s, pebbles) {
            Ok(turn_outcome(s, pebbles, move_draw))
        } else {
            Err(GameError::InvalidMove)
        },
    }
}

/// The game slot after a submitted turn: advanced on an accepted move,
/// untouched on a rejected one.
pub open spec fn turn_next(pre: Option<GameState>, pebbles: u32, move_draw: u32) -> Option<
    GameState,
> {
    match pre {
        None => pre,
        Some(s) => if turn_allowed(s, pebbles) {
            Some(turn_state(s, pebbles, move_draw))
        } else {
            pre
        },
    }
}

/// The state after a forfeit: the opponent is the winner, the pile is left
/// as it stands.
pub open spec fn forfeit_state(s: GameState) -> GameState {
    GameState { winner: Some(Player::Program), ..s }
}

/// The reply of a forfeit: the opponent's win, on any started game.
pub open spec fn give_up_result(pre: Option<GameState>) -> Result<PebblesEvent, GameError> {
    match pre {
        None => Err(GameError::NoActiveGame),
        Some(s) => Ok(PebblesEvent::Won(Player::Program)),
    }
}

/// The game slot after a forfeit.
pub open spec fn give_up_next(pre: Option<GameState>) -> Option<GameState> {
    match pre {
        None => pre,
        Some(s) => Some(forfeit_state(s)),
    }
}

/// A turn's or forfeit's reply, widened to the shape every action shares.
pub open spec fn lift_outcome(r: Result<PebblesEvent, GameError>) -> Result<
    Option<PebblesEvent>,
    GameError,
> {
    match r {
        Ok(e) => Ok(Some(e)),
        Err(e) => Err(e),
    }
}

/// The engine: the single live game, exclusively owned. Absent until the
/// first successful start.
pub struct GameEngine {
    game: Option<GameState>,
}

impl View for GameEngine {
    type V = Option<GameState>;

    closed spec fn view(&self) -> Option<GameState> {
        self.game
    }
}

impl GameEngine {
    /// The engine's invariant: whatever game is live is well-formed.
    pub open spec fn wf(&self) -> bool {
        self@ matches Some(s) ==> state_wf(s)
    }

    /// A fresh engine, with no game yet.
    pub fn new() -> (e: GameEngine)
        ensures
            e@ is None,
            e.wf(),
    {
        GameEngine { game: None }
    }

    /// The live game, read without mutation.
    pub fn current_state(&self) -> (r: Option<GameState>)
        ensures
            r == self@,
    {
        self.game
    }

    /// Starts a fresh game: rejects a configuration with a zero count,
    /// else replaces the game slot wholesale, rolls the first player from
    /// `first_draw`, and resolves the opponent's opening move (fed by
    /// `move_draw`) where the opponent goes first.
    pub fn start(&mut self, init: PebblesInit, first_draw: u32, move_draw: u32) -> (r: Result<
        Option<PebblesEvent>,
        GameError,
    >)
        requires
            old(self).wf(),
        ensures
            final(self).wf(),
            r == start_result(init, first_draw, move_draw),
            final(self)@ == start_next(old(self)@, init, first_draw, move_draw),
    {
        if init.pebbles_count == 0 || init.max_pebbles_per_turn == 0 {
            return Err(GameError::InvalidConfiguration);
        }
        let first_player = if first_draw % 2 == 0 {
            Player::User
        } else {
            Player::Program
        };
        let mut state = GameState {
            pebbles_count: init.pebbles_count,
            max_pebbles_per_turn: init.max_pebbles_per_turn,
            pebbles_remaining: init.pebbles_count,
            difficulty: init.difficulty,
            first_player,
            winner: None,
        };
        let event = match first_player {
            Player::User => None,
            Player::Program => {
                let m = pick_program_move(
                    init.difficulty,
                    move_draw,
                    state.pebbles_remaining,
                    state.max_pebbles_per_turn,
                );
                state.pebbles_remaining = state.pebbles_remaining - m;
                if state.pebbles_remaining == 0 {
                    state.winner = Some(Player::Program);
                    Some(PebblesEvent::Won(Player::Program))
                } else {
                    Some(PebblesEvent::CounterTurn(m))
                }
            },
        };
        self.game = Some(state);
        Ok(event)
    }

    /// Restarts with a new configuration: behaves exactly as a start,
    /// discarding whatever game was live, finished or not.
    pub fn restart(&mut self, init: PebblesInit, first_draw: u32, move_draw: u32) -> (r: Result<
        Option<PebblesEvent>,
        GameError,
    >)
        requires
            old(self).wf(),
        ensures
            final(self).wf(),
            r == start_result(init, first_draw, move_draw),
            final(self)@ == start_next(old(self)@, init, first_draw, move_draw),
    {
        self.start(init, first_draw, move_draw)
    }

    /// Resolves one user move and, in the same transition, the opponent's
    /// reply. Rejects the move — leaving the game untouched — when no game
    /// is live, the game is finished, or the removal is illegal.
    pub fn submit_turn(&mut self, pebbles: u32, move_draw: u32) -> (r: Result<
        PebblesEvent,
        GameError,
    >)
        requires
            old(self).wf(),
        ensures
            final(self).wf(),
            r == turn_result(old(self)@, pebbles, move_draw),
            final(self)@ == turn_next(old(self)@, pebbles, move_draw),
    {
        let mut s = match self.game {
            None => {
                return Err(GameError::NoActiveGame);
            },
            Some(s) => s,
        };
        let finished = match s.winner {
            Some(_) => true,
            None => false,
        };
        if finished || pebbles == 0 || pebbles > s.max_pebbles_per_turn
            || pebbles > s.pebbles_remaining {
            return Err(GameError::InvalidMove);
        }
        s.pebbles_remaining = s.pebbles_remaining - pebbles;
        if s.pebbles_remaining == 0 {
            s.winner = Some(Player::User);
            self.game = Some(s);
            return Ok(PebblesEvent::Won(Player::User));
        }
        let m = pick_program_move(s.difficulty, move_draw, s.pebbles_remaining, s.max_pebbles_per_turn);
        s.pebbles_remaining = s.pebbles_remaining - m;
        if s.pebbles_remaining == 0 {
            s.winner = Some(Player::Program);
            self.game = Some(s);
            Ok(PebblesEvent::Won(Player::Program))
        } else {
            self.game = Some(s);
            Ok(PebblesEvent::CounterTurn(m))
        }
    }

    /// The user forfeits: the opponent is recorded as winner and the pile
    /// is left as it stands. Allowed on a finished game too, where it
    /// overwrites the winner — the caller explicitly concedes.
    pub fn give_up(&mut self) -> (r: Result<PebblesEvent, GameError>)
        requires
            old(self).wf(),
        ensures
            final(self).wf(),
            r == give_up_result(old(self)@),
            final(self)@ == give_up_next(old(self)@),
    {
        match &mut self.game {
            None => Err(GameError::NoActiveGame),
            Some(s) => {
                s.winner = Some(Player::Program);
                Ok(PebblesEvent::Won(Player::Program))
            },
        }
    }

    /// Dispatches one external request to the operation it names,
    /// widening every reply to the same shape.
    pub fn handle_action(
        &mut self,
        action: PebblesAction,
        first_draw: u32,
        move_draw: u32,
    ) -> (r: Result<Option<PebblesEvent>, GameError>)
        requires
            old(self).wf(),
        ensures
            final(self).wf(),
            (match action {
                PebblesAction::Turn(pebbles) => {
                    &&& r == lift_outcome(turn_result(old(self)@, pebbles, move_draw))
                    &&& final(self)@ == turn_next(old(self)@, pebbles, move_draw)
                },
                PebblesAction::GiveUp => {
                    &&& r == lift_outcome(give_up_result(old(self)@))
                    &&& final(self)@ == give_up_next(old(self)@)
                },
                PebblesAction::Restart { difficulty, pebbles_count, max_pebbles_per_turn } => {
                    let init = PebblesInit { difficulty, pebbles_count, max_pebbles_per_turn };
                    &&& r == start_result(init, first_draw, move_draw)
                    &&& final(self)@ == start_next(old(self)@, init, first_draw, move_draw)
                },
            }),
    {
        match action {
            PebblesAction::Turn(pebbles) => {
                match self.submit_turn(pebbles, move_draw) {
                    Ok(e) => Ok(Some(e)),
                    Err(e) => Err(e),
                }
            },
            PebblesAction::GiveUp => {
                match self.give_up() {
                    Ok(e) => Ok(Some(e)),
                    Err(e) => Err(e),
                }
            },
            PebblesAction::Restart { difficulty, pebbles_count, max_pebbles_per_turn } => {
                let init = PebblesInit { difficulty, pebbles_count, max_pebbles_per_turn };
                self.restart(init, first_draw, move_draw)
            },
        }
    }
}

} // verus!
