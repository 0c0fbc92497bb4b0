//! The general laws of the engine, each proved once and for all inputs:
//! bounds of the automated opponent's policies, monotonicity of the pile,
//! the tie between an empty pile and a recorded winner, the stability of a
//! recorded winner, and the completeness of a restart.

use vstd::prelude::*;

use crate::game::{auto_move, fresh_game, next_state, player_from_entropy, valid_config};
use crate::types::{DifficultyLevel, GameState, PebblesAction, Player};

verus! {

/// The automated opponent's move always removes at least one pebble and at
/// most the per-turn maximum, under either policy; under the Hard policy it
/// never exceeds the pile either, so a Hard move never needs flooring.
pub proof fn lemma_auto_move_in_range(
    difficulty: DifficultyLevel,
    remaining: int,
    max_per_turn: int,
    entropy: int,
)
    requires
        max_per_turn >= 1,
        remaining >= 1,
        entropy >= 0,
    ensures
        1 <= auto_move(difficulty, remaining, max_per_turn, entropy),
        auto_move(difficulty, remaining, max_per_turn, entropy) <= max_per_turn,
        difficulty is Hard ==> auto_move(difficulty, remaining, max_per_turn, entropy)
            <= remaining,
{
}

/// A turn never grows the pile, and never drives it below zero, whatever
/// amount was requested — above the per-turn maximum or above the pile
/// included.
pub proof fn lemma_turn_never_increases(
    pre: GameState,
    requested: u32,
    first_entropy: u32,
    move_entropy: u32,
)
    requires
        pre.wf(),
    ensures
        next_state(pre, PebblesAction::Turn(requested), first_entropy, move_entropy)
            .pebbles_remaining <= pre.pebbles_remaining,
        next_state(pre, PebblesAction::Turn(requested), first_entropy, move_entropy)
            .pebbles_remaining as int >= 0,
{
}

/// Handling any request preserves well-formedness; in particular, whenever
/// the pile is empty afterwards, a winner is recorded, and it is exactly one
/// of the two parties.
pub proof fn lemma_step_preserves_wf(
    pre: GameState,
    action: PebblesAction,
    first_entropy: u32,
    move_entropy: u32,
)
    requires
        pre.wf(),
    ensures
        next_state(pre, action, first_entropy, move_entropy).wf(),
        next_state(pre, action, first_entropy, move_entropy).pebbles_remaining == 0
            ==> next_state(pre, action, first_entropy, move_entropy).winner
                == Some(Player::User)
            || next_state(pre, action, first_entropy, move_entropy).winner
                == Some(Player::Program),
{
    let post = next_state(pre, action, first_entropy, move_entropy);
    match post.winner {
        Some(w) => {
            match w {
                Player::User => {},
                Player::Program => {},
            }
        },
        None => {},
    }
}

/// Once a winner is recorded, no turn and no concession changes the record
/// at all within the same game: an ended game accepts further requests only
/// as no-ops (a restart, which starts a new game, is the one way out).
pub proof fn lemma_winner_stable(
    pre: GameState,
    action: PebblesAction,
    first_entropy: u32,
    move_entropy: u32,
)
    requires
        pre.wf(),
        pre.winner is Some,
        !(action is Restart),
    ensures
        next_state(pre, action, first_entropy, move_entropy) == pre,
        next_state(pre, action, first_entropy, move_entropy).winner == pre.winner,
{
}

/// A restart with a playable configuration replaces the record wholesale:
/// the outcome does not depend on the prior game in any way, the winner is
/// cleared, the first mover is drawn afresh, and the pile comes from the new
/// configuration alone.
pub proof fn lemma_restart_leaves_no_residue(
    pre_a: GameState,
    pre_b: GameState,
    difficulty: DifficultyLevel,
    pebbles_count: u32,
    max_pebbles_per_turn: u32,
    first_entropy: u32,
    move_entropy: u32,
)
    requires
        valid_config(pebbles_count as int, max_pebbles_per_turn as int),
    ensures
        (next_state(
            pre_a,
            PebblesAction::Restart { difficulty, pebbles_count, max_pebbles_per_turn },
            first_entropy,
            move_entropy,
        ) == next_state(
            pre_b,
            PebblesAction::Restart { difficulty, pebbles_count, max_pebbles_per_turn },
            first_entropy,
            move_entropy,
        )),
        (next_state(
            pre_a,
            PebblesAction::Restart { difficulty, pebbles_count, max_pebbles_per_turn },
            first_entropy,
            move_entropy,
        ) == fresh_game(
            difficulty,
            pebbles_count,
            max_pebbles_per_turn,
            first_entropy,
            move_entropy,
        )),
        next_state(
            pre_a,
            PebblesAction::Restart { difficulty, pebbles_count, max_pebbles_per_turn },
            first_entropy,
            move_entropy,
        ).winner is None,
        next_state(
            pre_a,
            PebblesAction::Restart { difficulty, pebbles_count, max_pebbles_per_turn },
            first_entropy,
            move_entropy,
        ).first_player == player_from_entropy(first_entropy),
{
}

} // verus!
