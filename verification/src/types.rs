//! The data model of the pebble game: parties, difficulty policies, the game
//! record, and the request/reply/error types of the engine's interface.

use vstd::prelude::*;

verus! {

/// One of the two parties of a game: the human user or the automated
/// opponent (the program).
#[derive(Clone, Copy, PartialEq, Eq, Debug, Structural)]
pub enum Player {
    User,
    Program,
}

/// The difficulty policy that governs the automated opponent's moves:
/// `Easy` removes a uniformly drawn amount, `Hard` plays the greedy
/// optimal-subtraction strategy.
#[derive(Clone, Copy, PartialEq, Eq, Debug, Structural)]
pub enum DifficultyLevel {
    Easy,
    Hard,
}

/// The one live game record. It is created by initialization, replaced
/// wholesale by a restart, and mutated in place by turns.
#[derive(Clone, Copy, PartialEq, Eq, Debug)]
pub struct GameState {
    /// Which policy the automated opponent follows.
    pub difficulty: DifficultyLevel,
    /// The pile size at game start.
    pub pebbles_count: u32,
    /// The most pebbles either party may remove in one turn.
    pub max_pebbles_per_turn: u32,
    /// The pile size now; it never grows within a game.
    pub pebbles_remaining: u32,
    /// The party that moved first; decided once per game.
    pub first_player: Player,
    /// The winner, once the game has ended.
    pub winner: Option<Player>,
}

impl GameState {
    /// Well-formedness of a game record: the configuration is playable,
    /// the pile never exceeds its starting size, and an empty pile always
    /// has a recorded winner.
    pub open spec fn wf(self) -> bool {
        &&& 1 <= self.max_pebbles_per_turn
        &&& self.max_pebbles_per_turn < self.pebbles_count
        &&& self.pebbles_remaining <= self.pebbles_count
        &&& (self.pebbles_remaining == 0 ==> self.winner is Some)
    }
}

/// The configuration that starts a game.
#[derive(Clone, Copy, PartialEq, Eq, Debug)]
pub struct PebblesInit {
    pub difficulty: DifficultyLevel,
    pub pebbles_count: u32,
    pub max_pebbles_per_turn: u32,
}

/// A request against a running game.
#[derive(Clone, Copy, PartialEq, Eq, Debug)]
pub enum PebblesAction {
    /// Remove the given number of pebbles; amounts above the per-turn
    /// maximum are silently capped.
    Turn(u32),
    /// Concede the game to the program.
    GiveUp,
    /// Throw the current record away and start afresh with this
    /// configuration.
    Restart { difficulty: DifficultyLevel, pebbles_count: u32, max_pebbles_per_turn: u32 },
}

/// The single reply that each request produces.
#[derive(Clone, Copy, PartialEq, Eq, Debug)]
pub enum PebblesEvent {
    /// The pile size after the user's move was applied; the automated
    /// opponent's answer follows silently and is visible on the next query.
    CounterTurn(u32),
    /// The game has ended and this party won.
    Won(Player),
    /// A restart succeeded; echoes the new configuration.
    Restarted { difficulty: DifficultyLevel, pebbles_count: u32, max_pebbles_per_turn: u32 },
}

/// The one error the engine itself can raise. (Failures of the external
/// entropy source never reach the engine: entropy comes in as a value.)
#[derive(Clone, Copy, PartialEq, Eq, Debug)]
pub enum GameError {
    /// The pile size or the per-turn maximum breaks the configuration rule.
    InvalidConfiguration,
}

} // verus!
