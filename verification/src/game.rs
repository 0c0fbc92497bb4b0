//! The game engine: configuration validation, first-mover selection, the
//! automated opponent's move policies, and the turn state machine.
//!
//! Randomness never enters this module as an effect. Every function that the
//! surrounding protocol feeds from an external entropy source takes the
//! drawn value as an argument instead, so each function here is a total
//! function of its inputs and is verified as such.

use vstd::prelude::*;

use crate::types::{
    DifficultyLevel, GameError, GameState, PebblesAction, PebblesEvent, PebblesInit, Player,
};

verus! {

/// A configuration is playable iff the pile holds at least one pebble, at
/// least one pebble may be removed per turn, and the per-turn maximum is
/// strictly below the pile size.
pub open spec fn valid_config(pebbles_count: int, max_pebbles_per_turn: int) -> bool {
    &&& pebbles_count >= 1
    &&& max_pebbles_per_turn >= 1
    &&& max_pebbles_per_turn < pebbles_count
}

/// Subtraction on pile sizes: floors at zero instead of underflowing.
pub open spec fn sub_floor(a: int, b: int) -> int {
    if a >= b { a - b } else { 0 }
}

/// A requested removal is silently capped at the per-turn maximum, never
/// rejected.
pub open spec fn clamp_take(requested: int, max_per_turn: int) -> int {
    if requested > max_per_turn { max_per_turn } else { requested }
}

/// Which party moves first, given one draw from the entropy source: each
/// parity picks one party.
pub open spec fn player_from_entropy(entropy: u32) -> Player {
    if entropy % 2 == 0 {
        Player::User
    } else {
        Player::Program
    }
}

/// The Easy policy: an entropy draw folded into the range
/// `[1, max_per_turn]`. It does not look at the pile, so near the end of a
/// game it may exceed what is left; the caller floors the subtraction.
pub open spec fn easy_move(max_per_turn: int, entropy: int) -> int
    recommends
        max_per_turn >= 1,
{
    entropy % max_per_turn + 1
}

/// The Hard policy, greedy optimal subtraction: take the whole pile when it
/// is within reach, otherwise move to a multiple of `max_per_turn + 1`; from
/// a losing position (the pile already a multiple), take the minimum of one.
pub open spec fn hard_move(remaining: int, max_per_turn: int) -> int {
    if remaining <= max_per_turn {
        remaining
    } else if remaining % (max_per_turn + 1) == 0 {
        1
    } else {
        remaining % (max_per_turn + 1)
    }
}

/// The automated opponent's move under the given difficulty policy.
pub open spec fn auto_move(
    difficulty: DifficultyLevel,
    remaining: int,
    max_per_turn: int,
    entropy: int,
) -> int {
    match difficulty {
        DifficultyLevel::Easy => easy_move(max_per_turn, entropy),
        DifficultyLevel::Hard => hard_move(remaining, max_per_turn),
    }
}

/// The record that (re)initialization produces: a full pile, no winner, the
/// first mover drawn from `first_entropy`, and, when the program moves
/// first, its opening move already applied (drawn from `move_entropy` under
/// the Easy policy).
pub open spec fn fresh_game(
    difficulty: DifficultyLevel,
    pebbles_count: u32,
    max_pebbles_per_turn: u32,
    first_entropy: u32,
    move_entropy: u32,
) -> GameState {
    let first_player = player_from_entropy(first_entropy);
    let pre_taken = if first_player is Program {
        auto_move(difficulty, pebbles_count as int, max_pebbles_per_turn as int, move_entropy as int)
    } else {
        0
    };
    GameState {
        difficulty,
        pebbles_count,
        max_pebbles_per_turn,
        pebbles_remaining: sub_floor(pebbles_count as int, pre_taken) as u32,
        first_player,
        winner: None,
    }
}

/// The state after one request is handled against the record `pre`.
///
/// * `Turn` against an ended game changes nothing. Otherwise the requested
///   amount is capped at the per-turn maximum and removed (floored at zero);
///   an emptied pile makes the user the winner, and an untouched game lets
///   the automated opponent answer at once, which in turn may empty the pile
///   and make the program the winner.
/// * `GiveUp` records the program as winner, unless the game already ended.
/// * `Restart` with a playable configuration replaces the record wholesale;
///   with an unplayable one it changes nothing.
pub open spec fn next_state(
    pre: GameState,
    action: PebblesAction,
    first_entropy: u32,
    move_entropy: u32,
) -> GameState {
    match action {
        PebblesAction::Turn(requested) => match pre.winner {
            Some(_) => pre,
            None => {
                let after_user = sub_floor(
                    pre.pebbles_remaining as int,
                    clamp_take(requested as int, pre.max_pebbles_per_turn as int),
                );
                if after_user == 0 {
                    GameState { pebbles_remaining: 0, winner: Some(Player::User), ..pre }
                } else {
                    let taken = auto_move(
                        pre.difficulty,
                        after_user,
                        pre.max_pebbles_per_turn as int,
                        move_entropy as int,
                    );
                    let after_program = sub_floor(after_user, taken);
                    GameState {
                        pebbles_remaining: after_program as u32,
                        winner: if after_program == 0 {
                            Some(Player::Program)
                        } else {
                            pre.winner
                        },
                        ..pre
                    }
                }
            },
        },
        PebblesAction::GiveUp => match pre.winner {
            Some(_) => pre,
            None => GameState { winner: Some(Player::Program), ..pre },
        },
        PebblesAction::Restart { difficulty, pebbles_count, max_pebbles_per_turn } => {
            if valid_config(pebbles_count as int, max_pebbles_per_turn as int) {
                fresh_game(difficulty, pebbles_count, max_pebbles_per_turn, first_entropy, move_entropy)
            } else {
                pre
            }
        },
    }
}

/// The one reply that handling a request against the record `pre` produces.
///
/// * `Turn` replies with the winner when the game has ended (already, or by
///   this very move); otherwise it acknowledges with the pile size right
///   after the user's move, before the automated opponent's silent answer.
/// * `GiveUp` replies with the winner.
/// * `Restart` echoes the new configuration, or reports it unplayable.
pub open spec fn reply_for(
    pre: GameState,
    action: PebblesAction,
    move_entropy: u32,
) -> Result<PebblesEvent, GameError> {
    match action {
        PebblesAction::Turn(requested) => match pre.winner {
            Some(w) => Ok(PebblesEvent::Won(w)),
            None => {
                let after_user = sub_floor(
                    pre.pebbles_remaining as int,
                    clamp_take(requested as int, pre.max_pebbles_per_turn as int),
                );
                if after_user == 0 {
                    Ok(PebblesEvent::Won(Player::User))
                } else {
                    Ok(PebblesEvent::CounterTurn(after_user as u32))
                }
            },
        },
        PebblesAction::GiveUp => match pre.winner {
            Some(w) => Ok(PebblesEvent::Won(w)),
            None => Ok(PebblesEvent::Won(Player::Program)),
        },
        PebblesAction::Restart { difficulty, pebbles_count, max_pebbles_per_turn } => {
            if valid_config(pebbles_count as int, max_pebbles_per_turn as int) {
                Ok(PebblesEvent::Restarted { difficulty, pebbles_count, max_pebbles_per_turn })
            } else {
                Err(GameError::InvalidConfiguration)
            }
        },
    }
}

/// Returns whether the pair (pile size, per-turn maximum) is a playable
/// configuration.
pub fn check_pebbles_input(pebbles_count: u32, max_pebbles_per_turn: u32) -> (r: bool)
    ensures
        r == valid_config(pebbles_count as int, max_pebbles_per_turn as int),
{
    if pebbles_count < 1 || max_pebbles_per_turn < 1 || max_pebbles_per_turn >= pebbles_count {
        return false;
    }
    true
}

/// Picks the first mover from one draw of the external entropy source.
pub fn choose_first_player(entropy: u32) -> (r: Player)
    ensures
        r == player_from_entropy(entropy),
{
    if entropy % 2 == 0 {
        Player::User
    } else {
        Player::Program
    }
}

/// Computes the automated opponent's move for the given game, under its
/// difficulty policy, from one draw of the external entropy source (used by
/// the Easy policy only). The move always removes at least one pebble and
/// never more than the per-turn maximum; under the Hard policy it also never
/// exceeds the pile.
pub fn pebbles_auto_remove(game_state: &GameState, entropy: u32) -> (r: u32)
    requires
        game_state.wf(),
        game_state.pebbles_remaining >= 1,
    ensures
        r as int == auto_move(
            game_state.difficulty,
            game_state.pebbles_remaining as int,
            game_state.max_pebbles_per_turn as int,
            entropy as int,
        ),
        1 <= r <= game_state.max_pebbles_per_turn,
        game_state.difficulty is Hard ==> r <= game_state.pebbles_remaining,
{
    match game_state.difficulty {
        DifficultyLevel::Easy => (entropy % game_state.max_pebbles_per_turn) + 1,
        DifficultyLevel::Hard => {
            let peb_rem = game_state.pebbles_remaining;
            if peb_rem <= game_state.max_pebbles_per_turn {
                peb_rem
            } else {
                let ret_peb = peb_rem % (game_state.max_pebbles_per_turn + 1);
                if ret_peb == 0 {
                    1
                } else {
                    ret_peb
                }
            }
        },
    }
}

/// Starts (or restarts) a game: rejects an unplayable configuration, draws
/// the first mover from `first_entropy`, and, when the program moves first,
/// applies its opening move at once (drawn from `move_entropy` where the
/// Easy policy needs it). A fresh record always keeps at least one pebble,
/// since no move exceeds the per-turn maximum.
pub fn restart_game(
    difficulty: DifficultyLevel,
    pebbles_count: u32,
    max_pebbles_per_turn: u32,
    first_entropy: u32,
    move_entropy: u32,
) -> (r: Result<GameState, GameError>)
    ensures
        r is Ok <==> valid_config(pebbles_count as int, max_pebbles_per_turn as int),
        r matches Ok(g) ==> g == fresh_game(
            difficulty,
            pebbles_count,
            max_pebbles_per_turn,
            first_entropy,
            move_entropy,
        ),
        r matches Ok(g) ==> g.wf() && 1 <= g.pebbles_remaining,
        r is Err ==> r == Err::<GameState, GameError>(GameError::InvalidConfiguration),
{
    if !check_pebbles_input(pebbles_count, max_pebbles_per_turn) {
        return Err(GameError::InvalidConfiguration);
    }
    let first_player = choose_first_player(first_entropy);
    let mut pebbles_game = GameState {
        difficulty,
        pebbles_count,
        max_pebbles_per_turn,
        pebbles_remaining: pebbles_count,
        first_player,
        winner: None,
    };
    if matches!(first_player, Player::Program) {
        let program_take = pebbles_auto_remove(&pebbles_game, move_entropy);
        pebbles_game.pebbles_remaining = pebbles_game.pebbles_remaining.saturating_sub(program_take);
    }
    Ok(pebbles_game)
}

/// Creates the first game record from an initialization request; the same
/// validation and first-move rules as a restart.
pub fn init(init_msg: PebblesInit, first_entropy: u32, move_entropy: u32) -> (r: Result<
    GameState,
    GameError,
>)
    ensures
        r is Ok <==> valid_config(
            init_msg.pebbles_count as int,
            init_msg.max_pebbles_per_turn as int,
        ),
        r matches Ok(g) ==> g == fresh_game(
            init_msg.difficulty,
            init_msg.pebbles_count,
            init_msg.max_pebbles_per_turn,
            first_entropy,
            move_entropy,
        ),
        r matches Ok(g) ==> g.wf() && 1 <= g.pebbles_remaining,
        r is Err ==> r == Err::<GameState, GameError>(GameError::InvalidConfiguration),
{
    restart_game(
        init_msg.difficulty,
        init_msg.pebbles_count,
        init_msg.max_pebbles_per_turn,
        first_entropy,
        move_entropy,
    )
}

/// Handles one request against the live game record and produces its one
/// reply. The record moves to exactly `next_state` and the reply is exactly
/// `reply_for`; well-formedness is preserved. A request that fails
/// (an unplayable restart configuration) leaves the record untouched.
pub fn handle(
    game: &mut GameState,
    action: PebblesAction,
    first_entropy: u32,
    move_entropy: u32,
) -> (r: Result<PebblesEvent, GameError>)
    requires
        old(game).wf(),
    ensures
        final(game).wf(),
        *final(game) == next_state(*old(game), action, first_entropy, move_entropy),
        r == reply_for(*old(game), action, move_entropy),
{
    match action {
        PebblesAction::Turn(requested) => {
            match game.winner {
                Some(w) => Ok(PebblesEvent::Won(w)),
                None => {
                    let take = if requested > game.max_pebbles_per_turn {
                        game.max_pebbles_per_turn
                    } else {
                        requested
                    };
                    game.pebbles_remaining = game.pebbles_remaining.saturating_sub(take);
                    if game.pebbles_remaining == 0 {
                        game.winner = Some(Player::User);
                        Ok(PebblesEvent::Won(Player::User))
                    } else {
                        let counter_turn = game.pebbles_remaining;
                        let program_take = pebbles_auto_remove(game, move_entropy);
                        game.pebbles_remaining = game.pebbles_remaining.saturating_sub(
                            program_take,
                        );
                        if game.pebbles_remaining == 0 {
                            game.winner = Some(Player::Program);
                        }
                        Ok(PebblesEvent::CounterTurn(counter_turn))
                    }
                },
            }
        },
        PebblesAction::GiveUp => {
            match game.winner {
                Some(w) => Ok(PebblesEvent::Won(w)),
                None => {
                    game.winner = Some(Player::Program);
                    Ok(PebblesEvent::Won(Player::Program))
                },
            }
        },
        PebblesAction::Restart { difficulty, pebbles_count, max_pebbles_per_turn } => {
            match restart_game(
                difficulty,
                pebbles_count,
                max_pebbles_per_turn,
                first_entropy,
                move_entropy,
            ) {
                Ok(new_game) => {
                    *game = new_game;
                    Ok(PebblesEvent::Restarted { difficulty, pebbles_count, max_pebbles_per_turn })
                },
                Err(e) => Err(e),
            }
        },
    }
}

/// A non-destructive snapshot of the live game record, for a state query.
pub fn state(game: &GameState) -> (r: GameState)
    ensures
        r == *game,
{
    *game
}

} // verus!
