use pebbles_game::game::{handle, init, state};
use pebbles_game::types::{
    DifficultyLevel, GameState, PebblesAction, PebblesEvent, PebblesInit, Player,
};

const MAX_NUMBER_OF_TURNS: u32 = 10;
const MAX_PEBBLES_PER_TURN: u32 = 5;
const PEBBLES_COUNT: u32 = 35;

// The engine takes the entropy draws as arguments; the driver outside the
// library supplies them. These flows fix the draws so that the user moves
// first and the Easy policy removes one pebble per answer.
const USER_FIRST: u32 = 0;
const SMALL_DRAW: u32 = 0;

fn start(difficulty: DifficultyLevel) -> GameState {
    init(
        PebblesInit {
            difficulty,
            pebbles_count: PEBBLES_COUNT,
            max_pebbles_per_turn: MAX_PEBBLES_PER_TURN,
        },
        USER_FIRST,
        SMALL_DRAW,
    )
    .expect("playable configuration")
}

#[test]
fn success_restart_game() {
    let mut game = start(DifficultyLevel::Easy);

    let mut i: u32 = 1;
    while i < MAX_NUMBER_OF_TURNS {
        handle(&mut game, PebblesAction::Turn(5), USER_FIRST, SMALL_DRAW)
            .expect("turn accepted");
        // in the fifth round, perform a restart
        if i == 5 {
            handle(
                &mut game,
                PebblesAction::Restart {
                    difficulty: DifficultyLevel::Easy,
                    pebbles_count: PEBBLES_COUNT,
                    max_pebbles_per_turn: MAX_PEBBLES_PER_TURN,
                },
                USER_FIRST,
                SMALL_DRAW,
            )
            .expect("playable configuration");
            break;
        }
        i += 1;
    }

    handle(&mut game, PebblesAction::Turn(5), USER_FIRST, SMALL_DRAW).expect("turn accepted");
    let snapshot: GameState = state(&game);
    let pebbles_remaining: u32 = snapshot.pebbles_remaining;
    let winner: Option<Player> = snapshot.winner.clone();

    assert_ne!(pebbles_remaining, 0);
    assert_eq!(winner, None);
}

#[test]
fn success_giveup() {
    let mut game = start(DifficultyLevel::Easy);

    let mut i: u32 = 1;
    while i < MAX_NUMBER_OF_TURNS {
        if i == 5 {
            let reply = handle(&mut game, PebblesAction::GiveUp, USER_FIRST, SMALL_DRAW);
            assert_eq!(reply, Ok(PebblesEvent::Won(Player::Program)));
            break;
        }

        let user_choice: u32 = 5;
        handle(&mut game, PebblesAction::Turn(user_choice), USER_FIRST, SMALL_DRAW)
            .expect("turn accepted");
        i += 1;
    }
    let snapshot: GameState = state(&game);
    let winner: Player = snapshot.winner.as_ref().expect("The Program win").clone();

    assert_eq!(winner, Player::Program);
}

#[test]
fn success_run_game_with_difficulty_easy() {
    let mut game = start(DifficultyLevel::Easy);

    let mut i: u32 = 1;
    while i < MAX_NUMBER_OF_TURNS {
        handle(&mut game, PebblesAction::Turn(5), USER_FIRST, SMALL_DRAW)
            .expect("turn accepted");

        let snapshot: GameState = state(&game);
        let pebbles_remaining: u32 = snapshot.pebbles_remaining;

        if pebbles_remaining == 0 {
            break;
        }
        i += 1;
    }

    let snapshot: GameState = state(&game);
    let pebbles_remaining: u32 = snapshot.pebbles_remaining;
    let winner: Player = snapshot.winner.as_ref().expect("REASON").clone();

    assert_eq!(pebbles_remaining, 0);
    assert!(winner == Player::Program || winner == Player::User);
}

#[test]
fn success_run_game_with_difficulty_hard() {
    let mut game = start(DifficultyLevel::Hard);

    let mut i: u32 = 1;
    while i < MAX_NUMBER_OF_TURNS {
        handle(&mut game, PebblesAction::Turn(5), USER_FIRST, SMALL_DRAW)
            .expect("turn accepted");
        let snapshot: GameState = state(&game);
        let pebbles_remaining: u32 = snapshot.pebbles_remaining;

        if pebbles_remaining == 0 {
            break;
        }
        i += 1;
    }
    let snapshot: GameState = state(&game);
    let pebbles_remaining: u32 = snapshot.pebbles_remaining;

    assert_eq!(pebbles_remaining, 0);
    assert!(matches!(
        snapshot.winner,
        Some(Player::Program) | Some(Player::User)
    ));
}

#[test]
fn easy_game_ends_within_the_round_bound() {
    // Repeated full-sized turns against the Easy policy must empty a pile of
    // 35 with a per-turn maximum of 5 within ceil(35 / 5) + 1 = 8 exchanges,
    // whatever the opponent draws: two draws are tried here.
    let draws: [u32; 2] = [0, 4];
    let mut d: usize = 0;
    while d < draws.len() {
        let mut game = start(DifficultyLevel::Easy);
        let mut rounds: u32 = 0;
        while game.pebbles_remaining != 0 && rounds < 8 {
            handle(&mut game, PebblesAction::Turn(5), USER_FIRST, draws[d])
                .expect("turn accepted");
            rounds += 1;
        }
        assert_eq!(game.pebbles_remaining, 0);
        assert!(game.winner.is_some());
        assert!(rounds <= 8);
        d += 1;
    }
}

#[test]
fn giveup_before_the_end_makes_the_program_win_at_once() {
    let mut game = start(DifficultyLevel::Easy);
    handle(&mut game, PebblesAction::Turn(3), USER_FIRST, SMALL_DRAW).expect("turn accepted");
    assert_ne!(game.pebbles_remaining, 0);

    let reply = handle(&mut game, PebblesAction::GiveUp, USER_FIRST, SMALL_DRAW);
    assert_eq!(reply, Ok(PebblesEvent::Won(Player::Program)));
    assert_eq!(game.winner, Some(Player::Program));

    // Further turns are no-ops: the record keeps its winner and its pile.
    let before = game;
    let reply = handle(&mut game, PebblesAction::Turn(5), USER_FIRST, SMALL_DRAW);
    assert_eq!(reply, Ok(PebblesEvent::Won(Player::Program)));
    assert_eq!(game, before);
}

#[test]
fn turn_and_giveup_after_a_win_change_nothing() {
    let mut game = start(DifficultyLevel::Easy);
    // With the opponent drawing one pebble per answer, the sixth full-sized
    // turn empties the pile on the user's move.
    let mut i: u32 = 1;
    while i <= 6 {
        handle(&mut game, PebblesAction::Turn(5), USER_FIRST, SMALL_DRAW)
            .expect("turn accepted");
        i += 1;
    }
    assert_eq!(game.pebbles_remaining, 0);
    assert_eq!(game.winner, Some(Player::User));

    let before = game;
    let reply = handle(&mut game, PebblesAction::Turn(2), USER_FIRST, SMALL_DRAW);
    assert_eq!(reply, Ok(PebblesEvent::Won(Player::User)));
    let reply = handle(&mut game, PebblesAction::GiveUp, USER_FIRST, SMALL_DRAW);
    assert_eq!(reply, Ok(PebblesEvent::Won(Player::User)));
    assert_eq!(game, before);
}

#[test]
fn restart_replaces_the_whole_record() {
    let mut game = start(DifficultyLevel::Easy);
    handle(&mut game, PebblesAction::Turn(4), USER_FIRST, SMALL_DRAW).expect("turn accepted");
    handle(&mut game, PebblesAction::GiveUp, USER_FIRST, SMALL_DRAW).expect("giveup accepted");
    assert_eq!(game.winner, Some(Player::Program));

    let reply = handle(
        &mut game,
        PebblesAction::Restart {
            difficulty: DifficultyLevel::Hard,
            pebbles_count: 20,
            max_pebbles_per_turn: 3,
        },
        1,
        SMALL_DRAW,
    );
    assert_eq!(
        reply,
        Ok(PebblesEvent::Restarted {
            difficulty: DifficultyLevel::Hard,
            pebbles_count: 20,
            max_pebbles_per_turn: 3,
        })
    );
    // No residue: every field comes from the new configuration and the fresh
    // draws. The program moves first and, at Hard from a multiple of
    // max + 1, falls back to removing one pebble.
    assert_eq!(game.difficulty, DifficultyLevel::Hard);
    assert_eq!(game.pebbles_count, 20);
    assert_eq!(game.max_pebbles_per_turn, 3);
    assert_eq!(game.first_player, Player::Program);
    assert_eq!(game.pebbles_remaining, 19);
    assert_eq!(game.winner, None);
}
