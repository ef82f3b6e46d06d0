use tetris_engine::piece::TetrisPieceType;
use tetris_engine::randomizer::Randomizers;
use tetris_engine::rules::{
    Effects, GameEvent, GameMsg, InputTypes, SessionState, TimerChange, TimerDelay,
};
use tetris_engine::session::GameSession;
use tetris_engine::settings::Settings;

use TetrisPieceType::{I, J, L, O, S, T, Z};

fn session(pieces: Vec<TetrisPieceType>) -> GameSession {
    GameSession::with_queue(Settings::default(), pieces)
}

fn tell(session: &mut GameSession, msg: GameMsg) -> Effects {
    assert!(session.has_headroom());
    session.update_with(msg, &Vec::new(), I)
}

fn queue(session: &GameSession) -> Vec<TetrisPieceType> {
    (0..session.queue_len()).map(|i| session.queued_piece(i).unwrap()).collect()
}

fn settled(session: &GameSession) -> Vec<i64> {
    (0..230).filter(|i| session.board().tile(*i).is_some()).collect()
}

fn is_quiet(effects: &Effects) -> bool {
    effects.redraw
        && effects.events.is_empty()
        && effects.move_timer == TimerChange::Keep
        && effects.down_timer == TimerChange::Keep
        && effects.lock_timer == TimerChange::Keep
        && effects.gravity_timer == TimerChange::Keep
}

#[test]
fn new_session_starts_with_the_first_piece() {
    let s = session(vec![T, L, J, O]);
    assert_eq!(s.board().falling_piece(), T);
    assert_eq!(s.board().falling_loc(), 193);
    assert_eq!(s.board().drop_loc(), -7);
    assert_eq!(queue(&s), vec![L, J, O]);
    assert_eq!(s.score(), 0);
    assert_eq!(s.level(), 1);
    assert_eq!(s.lines_cleared(), 0);
    assert_eq!(s.held_piece(), None);
    assert_eq!(s.state(), SessionState::Active);
    assert_eq!(s.settings(), Settings::default());
    assert_eq!(s.queued_piece(3), None);
}

#[test]
fn new_session_without_pieces_starts_with_an_i_piece() {
    let s = session(Vec::new());
    assert_eq!(s.board().falling_piece(), I);
    assert_eq!(s.queue_len(), 0);
}

#[test]
fn drawn_session_has_six_pieces_waiting() {
    for randomizer in [Randomizers::RandomGenerator, Randomizers::Random] {
        let mut settings = Settings::default();
        settings.randomizer = randomizer;
        let s = GameSession::create(settings);
        assert_eq!(s.queue_len(), 6);
        assert_eq!(s.board().falling_loc(), 193);
        assert_eq!(s.state(), SessionState::Active);
        if randomizer == Randomizers::RandomGenerator {
            let mut all = queue(&s);
            all.push(s.board().falling_piece());
            for piece in [I, J, L, O, S, T, Z] {
                assert_eq!(all.iter().filter(|p| **p == piece).count(), 1);
            }
        }
    }
}

#[test]
fn first_command_asks_for_gravity() {
    let mut s = session(vec![T, L]);
    let e = tell(&mut s, GameMsg::Rotate);
    assert_eq!(e.messages, vec![GameMsg::Tick]);
    let e = tell(&mut s, GameMsg::Tick);
    assert!(e.messages.is_empty());
    assert_eq!(e.gravity_timer, TimerChange::Arm(TimerDelay::Gravity(1), GameMsg::Tick));
    let e = tell(&mut s, GameMsg::Rotate);
    assert!(e.messages.is_empty());
    let e = tell(&mut s, GameMsg::Unfocus);
    assert_eq!(e.gravity_timer, TimerChange::Cancel);
    let e = tell(&mut s, GameMsg::Hold);
    assert_eq!(e.messages, vec![GameMsg::Tick]);
}

#[test]
fn gravity_moves_the_piece_down() {
    let mut s = session(vec![T, L]);
    let e = tell(&mut s, GameMsg::Tick);
    assert_eq!(s.board().falling_loc(), 183);
    assert_eq!(e.lock_timer, TimerChange::Keep);
    assert_eq!(e.gravity_timer, TimerChange::Arm(TimerDelay::Gravity(1), GameMsg::Tick));
    assert!(e.events.is_empty());
    assert!(e.redraw);
    assert_eq!(s.score(), 0);
}

#[test]
fn key_press_starts_the_repeat_timer() {
    let mut s = session(vec![T, L]);
    let e = tell(&mut s, GameMsg::Left(InputTypes::Tap));
    assert_eq!(s.board().falling_loc(), 192);
    assert_eq!(
        e.move_timer,
        TimerChange::Arm(TimerDelay::Millis(150), GameMsg::Left(InputTypes::Hold))
    );
    assert_eq!(e.messages, vec![GameMsg::Tick]);
    // a second press while the repeat is under way is not taken
    let e = tell(&mut s, GameMsg::Left(InputTypes::Tap));
    assert_eq!(s.board().falling_loc(), 192);
    assert!(is_quiet(&e));
    // the repeat moves and starts the shorter timer
    let e = tell(&mut s, GameMsg::Left(InputTypes::Hold));
    assert_eq!(s.board().falling_loc(), 191);
    assert_eq!(
        e.move_timer,
        TimerChange::Arm(TimerDelay::Millis(60), GameMsg::Left(InputTypes::Hold))
    );
}

#[test]
fn press_the_other_way_takes_the_repeat_over() {
    let mut s = session(vec![T, L]);
    tell(&mut s, GameMsg::Left(InputTypes::Tap));
    let e = tell(&mut s, GameMsg::Right(InputTypes::Tap));
    assert_eq!(s.board().falling_loc(), 193);
    assert_eq!(
        e.move_timer,
        TimerChange::Arm(TimerDelay::Millis(150), GameMsg::Right(InputTypes::Hold))
    );
    // the release of the left key no longer stops anything
    let e = tell(&mut s, GameMsg::CancelLeft);
    assert_eq!(e.move_timer, TimerChange::Keep);
    assert!(e.messages.is_empty());
    let e = tell(&mut s, GameMsg::Right(InputTypes::Tap));
    assert_eq!(s.board().falling_loc(), 193);
    assert!(is_quiet(&e));
    let e = tell(&mut s, GameMsg::CancelRight);
    assert_eq!(e.move_timer, TimerChange::Cancel);
    let e = tell(&mut s, GameMsg::Right(InputTypes::Tap));
    assert_eq!(s.board().falling_loc(), 194);
    assert_eq!(
        e.move_timer,
        TimerChange::Arm(TimerDelay::Millis(150), GameMsg::Right(InputTypes::Hold))
    );
}

#[test]
fn release_of_the_left_key_stops_the_left_repeat() {
    let mut s = session(vec![T, L]);
    tell(&mut s, GameMsg::Left(InputTypes::Tap));
    let e = tell(&mut s, GameMsg::CancelRight);
    assert_eq!(e.move_timer, TimerChange::Keep);
    let e = tell(&mut s, GameMsg::CancelLeft);
    assert_eq!(e.move_timer, TimerChange::Cancel);
    let e = tell(&mut s, GameMsg::Left(InputTypes::Tap));
    assert_eq!(s.board().falling_loc(), 191);
    assert_ne!(e.move_timer, TimerChange::Keep);
}

#[test]
fn drags_move_without_timers() {
    let mut s = session(vec![T, L]);
    for expected in [194, 195, 196, 197, 197] {
        let e = tell(&mut s, GameMsg::Right(InputTypes::Touch));
        assert_eq!(s.board().falling_loc(), expected);
        assert!(is_quiet(&e));
    }
    let e = tell(&mut s, GameMsg::Down(InputTypes::Touch));
    assert_eq!(s.board().falling_loc(), 187);
    assert_eq!(e.down_timer, TimerChange::Keep);
    assert_eq!(e.events, vec![GameEvent::ScoreChanged(1)]);
}

#[test]
fn soft_drop_scores_one_point_a_row() {
    let mut s = session(vec![T, L]);
    let e = tell(&mut s, GameMsg::Down(InputTypes::Tap));
    assert_eq!(s.board().falling_loc(), 183);
    assert_eq!(s.score(), 1);
    assert_eq!(e.events, vec![GameEvent::ScoreChanged(1)]);
    assert_eq!(
        e.down_timer,
        TimerChange::Arm(TimerDelay::Millis(50), GameMsg::Down(InputTypes::Hold))
    );
    // a second press while the repeat is under way is not taken
    let e = tell(&mut s, GameMsg::Down(InputTypes::Tap));
    assert_eq!(s.score(), 1);
    assert!(is_quiet(&e));
    let e = tell(&mut s, GameMsg::Down(InputTypes::Hold));
    assert_eq!(s.score(), 2);
    assert_eq!(s.board().falling_loc(), 173);
    assert_eq!(e.events, vec![GameEvent::ScoreChanged(2)]);
    let e = tell(&mut s, GameMsg::CancelDown);
    assert_eq!(e.down_timer, TimerChange::Cancel);
    let e = tell(&mut s, GameMsg::CancelDown);
    assert_eq!(e.down_timer, TimerChange::Keep);
    tell(&mut s, GameMsg::Down(InputTypes::Tap));
    assert_eq!(s.score(), 3);
}

#[test]
fn soft_drop_uses_its_own_times() {
    let mut settings = Settings::default();
    settings.down_hold_time = 70;
    settings.down_hold_move_interval = 30;
    let mut s = GameSession::with_queue(settings, vec![T]);
    let e = tell(&mut s, GameMsg::Down(InputTypes::Tap));
    assert_eq!(
        e.down_timer,
        TimerChange::Arm(TimerDelay::Millis(70), GameMsg::Down(InputTypes::Hold))
    );
    let e = tell(&mut s, GameMsg::Down(InputTypes::Hold));
    assert_eq!(
        e.down_timer,
        TimerChange::Arm(TimerDelay::Millis(30), GameMsg::Down(InputTypes::Hold))
    );
}

#[test]
fn soft_drop_on_the_floor_scores_nothing() {
    let mut s = session(vec![O, L]);
    for _ in 0..19 {
        tell(&mut s, GameMsg::Down(InputTypes::Touch));
    }
    assert_eq!(s.score(), 19);
    assert_eq!(s.board().falling_loc(), 3);
    let e = tell(&mut s, GameMsg::Down(InputTypes::Touch));
    assert_eq!(s.score(), 19);
    assert!(e.events.is_empty());
}

#[test]
fn hard_drop_scores_two_points_a_row() {
    let mut s = session(vec![T, L, J, O, S, Z, I]);
    let e = tell(&mut s, GameMsg::Drop);
    assert_eq!(s.score(), 40);
    assert_eq!(e.events, vec![GameEvent::ScoreChanged(40)]);
    assert_eq!(settled(&s), vec![3, 4, 5, 14]);
    assert_eq!(s.board().falling_piece(), L);
    assert_eq!(s.board().falling_loc(), 193);
    assert_eq!(s.board().falling_rot(), 0);
    assert_eq!(queue(&s), vec![J, O, S, Z, I]);
    assert_eq!(s.level(), 1);
    assert_eq!(s.lines_cleared(), 0);
    assert_eq!(s.state(), SessionState::Active);
    assert!(e.redraw);
}

#[test]
fn hard_drop_after_a_soft_drop_adds_up() {
    let mut s = session(vec![T, L]);
    tell(&mut s, GameMsg::Down(InputTypes::Touch));
    tell(&mut s, GameMsg::Down(InputTypes::Touch));
    tell(&mut s, GameMsg::Drop);
    assert_eq!(s.score(), 2 + 2 * 18);
}

#[test]
fn queue_is_filled_up_when_it_runs_short() {
    let mut s = session(vec![T, L, J, O, S, Z, I]);
    let supply = vec![O, O, T];
    // six wait; after the drop five do, which is more than the four shown
    s.update_with(GameMsg::Drop, &supply, I);
    assert_eq!(queue(&s), vec![J, O, S, Z, I]);
    // after this drop four do, and the supply is taken
    s.update_with(GameMsg::Drop, &supply, I);
    assert_eq!(queue(&s), vec![O, S, Z, I, O, O, T]);
    s.update_with(GameMsg::Drop, &supply, I);
    assert_eq!(queue(&s), vec![S, Z, I, O, O, T]);
}

#[test]
fn empty_queue_gives_i_pieces() {
    let mut settings = Settings::default();
    settings.queue_display_len = 0;
    let mut s = GameSession::with_queue(settings, vec![T]);
    tell(&mut s, GameMsg::Drop);
    assert_eq!(s.board().falling_piece(), I);
    assert_eq!(s.queue_len(), 0);
    s.update_with(GameMsg::Drop, &vec![Z, S], I);
    assert_eq!(s.board().falling_piece(), I);
    assert_eq!(queue(&s), vec![Z, S]);
}

fn fill_the_bottom_row_but_one(s: &mut GameSession) {
    for _ in 0..3 {
        tell(s, GameMsg::Left(InputTypes::Touch));
    }
    tell(s, GameMsg::Drop);
    tell(s, GameMsg::Right(InputTypes::Touch));
    tell(s, GameMsg::Drop);
    tell(s, GameMsg::Rotate);
    for _ in 0..3 {
        tell(s, GameMsg::Right(InputTypes::Touch));
    }
    tell(s, GameMsg::Drop);
    tell(s, GameMsg::Rotate);
    for _ in 0..4 {
        tell(s, GameMsg::Right(InputTypes::Touch));
    }
}

#[test]
fn filling_the_last_column_clears_a_line_and_awards_100() {
    let mut s = session(vec![I, I, I, I, T, L, J, O, S, Z]);
    fill_the_bottom_row_but_one(&mut s);
    assert_eq!(s.score(), 42 + 42 + 38);
    assert_eq!(settled(&s), vec![0, 1, 2, 3, 4, 5, 6, 7, 8, 18, 28, 38]);
    let e = tell(&mut s, GameMsg::Drop);
    assert_eq!(s.lines_cleared(), 1);
    assert_eq!(s.level(), 1);
    assert_eq!(s.score(), 42 + 42 + 38 + 38 + 100);
    assert_eq!(e.events, vec![GameEvent::ScoreChanged(260), GameEvent::LinesCleared(1)]);
    assert_eq!(settled(&s), vec![8, 9, 18, 19, 28, 29]);
    assert_eq!(s.board().falling_piece(), T);
    assert_eq!(s.board().drop_loc(), -7);
}

/// Fills the two lowest rows of an empty board with four flat I pieces and
/// an O piece, and returns what the last drop asked for.
fn clear_two_lines(s: &mut GameSession) -> Effects {
    for moves in [3, 3] {
        for _ in 0..moves {
            tell(s, GameMsg::Left(InputTypes::Touch));
        }
        tell(s, GameMsg::Drop);
    }
    for _ in 0..2 {
        tell(s, GameMsg::Right(InputTypes::Touch));
        tell(s, GameMsg::Drop);
    }
    assert_eq!(s.board().falling_piece(), O);
    for _ in 0..4 {
        tell(s, GameMsg::Right(InputTypes::Touch));
    }
    tell(s, GameMsg::Drop)
}

#[test]
fn tenth_line_raises_the_level() {
    let mut pieces = Vec::new();
    for _ in 0..6 {
        pieces.extend([I, I, I, I, O]);
    }
    pieces.push(T);
    let mut s = session(pieces);
    let mut score = 0;
    for round in 1..=4 {
        let e = clear_two_lines(&mut s);
        score += 42 + 40 + 42 + 40 + 38 + 300;
        assert_eq!(s.score(), score);
        assert_eq!(s.lines_cleared(), 2 * round);
        assert_eq!(s.level(), 1);
        assert_eq!(e.events, vec![GameEvent::ScoreChanged(score), GameEvent::LinesCleared(2)]);
        assert!(settled(&s).is_empty());
    }
    // the ninth and tenth line are scored at level 1 and raise the level
    let e = clear_two_lines(&mut s);
    assert_eq!(s.score(), 2510);
    assert_eq!(s.lines_cleared(), 10);
    assert_eq!(s.level(), 2);
    assert_eq!(
        e.events,
        vec![
            GameEvent::ScoreChanged(2510),
            GameEvent::LinesCleared(2),
            GameEvent::LevelChanged(2),
        ]
    );
    // the next two are scored at level 2
    let e = clear_two_lines(&mut s);
    assert_eq!(s.score(), 2510 + 202 + 600);
    assert_eq!(s.level(), 2);
    assert_eq!(e.events, vec![GameEvent::ScoreChanged(3312), GameEvent::LinesCleared(2)]);
    let e = tell(&mut s, GameMsg::Tick);
    assert_eq!(e.gravity_timer, TimerChange::Arm(TimerDelay::Gravity(2), GameMsg::Tick));
}

#[test]
fn second_hold_on_the_same_piece_does_nothing() {
    let mut s = session(vec![T, L, J, O]);
    tell(&mut s, GameMsg::Right(InputTypes::Touch));
    let e = tell(&mut s, GameMsg::Hold);
    assert!(is_quiet(&e));
    assert_eq!(s.held_piece(), Some(T));
    assert_eq!(s.board().falling_piece(), L);
    assert_eq!(s.board().falling_loc(), 193);
    assert_eq!(queue(&s), vec![J, O]);
    tell(&mut s, GameMsg::Right(InputTypes::Touch));
    let e = tell(&mut s, GameMsg::Hold);
    assert!(is_quiet(&e));
    assert_eq!(s.held_piece(), Some(T));
    assert_eq!(s.board().falling_piece(), L);
    assert_eq!(s.board().falling_loc(), 194);
    assert_eq!(queue(&s), vec![J, O]);
}

#[test]
fn hold_is_allowed_again_after_a_lock() {
    let mut s = session(vec![T, L, J, O, S, Z, I]);
    tell(&mut s, GameMsg::Hold);
    tell(&mut s, GameMsg::Drop);
    assert_eq!(s.board().falling_piece(), J);
    tell(&mut s, GameMsg::Hold);
    assert_eq!(s.held_piece(), Some(J));
    assert_eq!(s.board().falling_piece(), T);
    assert_eq!(queue(&s), vec![O, S, Z, I]);
    assert_eq!(s.board().drop_loc(), 13);
}

#[test]
fn hold_budget_of_two_allows_a_swap_back() {
    let mut settings = Settings::default();
    settings.max_num_held_piece_switches = 2;
    let mut s = GameSession::with_queue(settings, vec![T, L, J]);
    tell(&mut s, GameMsg::Hold);
    tell(&mut s, GameMsg::Hold);
    assert_eq!(s.held_piece(), Some(L));
    assert_eq!(s.board().falling_piece(), T);
    tell(&mut s, GameMsg::Hold);
    assert_eq!(s.held_piece(), Some(L));
    assert_eq!(s.board().falling_piece(), T);
    assert_eq!(queue(&s), vec![J]);
}

#[test]
fn hold_budget_of_none_forbids_the_hold() {
    let mut settings = Settings::default();
    settings.max_num_held_piece_switches = 0;
    let mut s = GameSession::with_queue(settings, vec![T, L, J]);
    tell(&mut s, GameMsg::Hold);
    assert_eq!(s.held_piece(), None);
    assert_eq!(s.board().falling_piece(), T);
}

fn rest_on_the_floor(s: &mut GameSession) -> Effects {
    for _ in 0..19 {
        let e = tell(s, GameMsg::Tick);
        assert_eq!(e.lock_timer, TimerChange::Keep);
        assert_eq!(s.state(), SessionState::Active);
    }
    tell(s, GameMsg::Tick)
}

#[test]
fn resting_piece_starts_the_lock_timer() {
    let mut s = session(vec![O, L]);
    let e = rest_on_the_floor(&mut s);
    assert_eq!(s.board().falling_loc(), 3);
    assert_eq!(e.lock_timer, TimerChange::Arm(TimerDelay::Millis(500), GameMsg::Drop));
    assert_eq!(e.gravity_timer, TimerChange::Arm(TimerDelay::Gravity(1), GameMsg::Tick));
    assert_eq!(s.state(), SessionState::LockArmed);
    // while the lock timer runs, gravity does not start another
    let e = tell(&mut s, GameMsg::Tick);
    assert_eq!(e.lock_timer, TimerChange::Keep);
    assert_eq!(s.state(), SessionState::LockArmed);
}

#[test]
fn move_that_succeeds_puts_the_lock_off() {
    let mut s = session(vec![O, L]);
    rest_on_the_floor(&mut s);
    let e = tell(&mut s, GameMsg::Left(InputTypes::Touch));
    assert_eq!(s.board().falling_loc(), 2);
    assert_eq!(e.lock_timer, TimerChange::Cancel);
    assert_eq!(s.state(), SessionState::Active);
    let e = tell(&mut s, GameMsg::Tick);
    assert_eq!(e.lock_timer, TimerChange::Arm(TimerDelay::Millis(500), GameMsg::Drop));
    let e = tell(&mut s, GameMsg::Rotate);
    assert_eq!(e.lock_timer, TimerChange::Cancel);
    assert_eq!(s.state(), SessionState::Active);
}

#[test]
fn move_that_fails_leaves_the_lock_timer() {
    let mut s = session(vec![O, L]);
    for _ in 0..4 {
        tell(&mut s, GameMsg::Left(InputTypes::Touch));
    }
    assert_eq!(s.board().falling_loc(), 189);
    rest_on_the_floor(&mut s);
    assert_eq!(s.board().falling_loc(), -1);
    let e = tell(&mut s, GameMsg::Left(InputTypes::Touch));
    assert_eq!(s.board().falling_loc(), -1);
    assert_eq!(e.lock_timer, TimerChange::Keep);
    assert_eq!(s.state(), SessionState::LockArmed);
    let e = tell(&mut s, GameMsg::Down(InputTypes::Touch));
    assert_eq!(e.lock_timer, TimerChange::Keep);
    assert_eq!(s.state(), SessionState::LockArmed);
}

#[test]
fn lock_is_put_off_a_bounded_number_of_times() {
    let mut settings = Settings::default();
    settings.moves_before_lock = 2;
    let mut s = GameSession::with_queue(settings, vec![O, L]);
    rest_on_the_floor(&mut s);
    let e = tell(&mut s, GameMsg::Left(InputTypes::Touch));
    assert_eq!(e.lock_timer, TimerChange::Cancel);
    let e = tell(&mut s, GameMsg::Tick);
    assert_eq!(e.lock_timer, TimerChange::Arm(TimerDelay::Millis(500), GameMsg::Drop));
    // the piece has come to rest twice: moves no longer put the lock off
    let e = tell(&mut s, GameMsg::Left(InputTypes::Touch));
    assert_eq!(s.board().falling_loc(), 1);
    assert_eq!(e.lock_timer, TimerChange::Keep);
    assert_eq!(s.state(), SessionState::LockArmed);
    // the lock timer runs out
    let e = tell(&mut s, GameMsg::Drop);
    assert_eq!(e.lock_timer, TimerChange::Cancel);
    assert_eq!(s.state(), SessionState::Active);
    assert_eq!(settled(&s), vec![2, 3, 12, 13]);
    assert_eq!(s.score(), 0);
    assert!(e.events.is_empty());
    // and the next piece starts with a full budget
    rest_on_the_floor_from(&mut s, 18);
    let e = tell(&mut s, GameMsg::Left(InputTypes::Touch));
    assert_eq!(e.lock_timer, TimerChange::Cancel);
}

fn rest_on_the_floor_from(s: &mut GameSession, steps: usize) {
    for _ in 0..steps {
        let e = tell(s, GameMsg::Tick);
        assert_eq!(e.lock_timer, TimerChange::Keep);
    }
    let e = tell(s, GameMsg::Tick);
    assert_eq!(e.lock_timer, TimerChange::Arm(TimerDelay::Millis(500), GameMsg::Drop));
}

#[test]
fn hold_resets_the_lock() {
    let mut s = session(vec![O, L, J]);
    rest_on_the_floor(&mut s);
    let e = tell(&mut s, GameMsg::Hold);
    assert_eq!(e.lock_timer, TimerChange::Cancel);
    assert_eq!(s.state(), SessionState::Active);
    assert_eq!(s.board().falling_loc(), 193);
}

fn stack_to_the_top(s: &mut GameSession) -> Effects {
    for k in 1..=21 {
        let e = tell(s, GameMsg::Drop);
        assert_eq!(s.state(), SessionState::Active);
        assert_eq!(e.gravity_timer, TimerChange::Keep);
        assert_eq!(s.score(), (1..=k).map(|j| 2 * (22 - j)).sum::<u32>());
    }
    tell(s, GameMsg::Drop)
}

#[test]
fn blocked_spawn_ends_the_game() {
    let mut s = session(vec![I; 30]);
    let e = stack_to_the_top(&mut s);
    assert_eq!(s.state(), SessionState::GameOver);
    assert_eq!(s.score(), 462);
    assert_eq!(e.events, vec![GameEvent::GameOver(462)]);
    assert_eq!(e.gravity_timer, TimerChange::Cancel);
    assert!(e.redraw);
    assert_eq!(s.board().falling_loc(), 183);
}

#[test]
fn commands_after_the_end_of_the_game() {
    let mut s = session(vec![I; 30]);
    stack_to_the_top(&mut s);
    let waiting = s.queue_len();
    let tiles = settled(&s);
    let e = tell(&mut s, GameMsg::Drop);
    assert!(!e.redraw);
    assert!(e.events.is_empty());
    assert!(e.messages.is_empty());
    assert_eq!(e.move_timer, TimerChange::Keep);
    assert_eq!(e.down_timer, TimerChange::Keep);
    assert_eq!(e.lock_timer, TimerChange::Keep);
    assert_eq!(e.gravity_timer, TimerChange::Keep);
    assert_eq!(s.state(), SessionState::GameOver);
    assert_eq!(s.board().falling_loc(), 183);
    let e = tell(&mut s, GameMsg::Hold);
    assert!(is_quiet(&e));
    assert!(e.messages.is_empty());
    assert_eq!(s.held_piece(), None);
    assert_eq!(s.state(), SessionState::GameOver);
    assert_eq!(s.queue_len(), waiting);
    assert_eq!(settled(&s), tiles);
    assert_eq!(s.score(), 462);
}

#[test]
fn gravity_after_the_end_starts_a_new_game() {
    let mut s = session(vec![I; 30]);
    tell(&mut s, GameMsg::Hold);
    stack_to_the_top(&mut s);
    assert_eq!(s.held_piece(), Some(I));
    let waiting = queue(&s);
    assert!(s.has_headroom());
    let e = s.update_with(GameMsg::Tick, &Vec::new(), Z);
    assert_eq!(s.state(), SessionState::Active);
    assert_eq!(s.score(), 0);
    assert_eq!(s.level(), 1);
    assert_eq!(s.lines_cleared(), 0);
    assert_eq!(s.held_piece(), None);
    assert!(settled(&s).is_empty());
    assert_eq!(s.board().falling_piece(), Z);
    assert_eq!(s.board().falling_loc(), 183);
    assert_eq!(queue(&s), waiting);
    assert_eq!(e.events, vec![GameEvent::ScoreChanged(0)]);
    assert_eq!(e.gravity_timer, TimerChange::Arm(TimerDelay::Gravity(1), GameMsg::Tick));
}

#[test]
fn touch_drags_ask_for_moves() {
    let mut s = session(vec![T, L]);
    let e = tell(&mut s, GameMsg::TouchStart(100, 100));
    assert_eq!(e.messages, vec![GameMsg::Tick]);
    assert!(is_quiet(&e));
    let e = tell(&mut s, GameMsg::TouchMove(124, 100));
    assert!(e.messages.is_empty());
    let e = tell(&mut s, GameMsg::TouchMove(125, 100));
    assert_eq!(e.messages, vec![GameMsg::Right(InputTypes::Touch)]);
    // the next drag counts from where the last move was asked for
    let e = tell(&mut s, GameMsg::TouchMove(149, 100));
    assert!(e.messages.is_empty());
    let e = tell(&mut s, GameMsg::TouchMove(150, 100));
    assert_eq!(e.messages, vec![GameMsg::Right(InputTypes::Touch)]);
    let e = tell(&mut s, GameMsg::TouchMove(125, 100));
    assert_eq!(e.messages, vec![GameMsg::Left(InputTypes::Touch)]);
    assert!(is_quiet(&e));
    // the session itself has not moved the piece
    assert_eq!(s.board().falling_loc(), 193);
}

#[test]
fn touch_drag_down_asks_for_a_step_down() {
    let mut s = session(vec![T, L]);
    tell(&mut s, GameMsg::TouchStart(100, 100));
    let e = tell(&mut s, GameMsg::TouchMove(100, 180));
    assert!(e.messages.is_empty());
    let e = tell(&mut s, GameMsg::TouchMove(100, 181));
    assert_eq!(e.messages, vec![GameMsg::Down(InputTypes::Touch)]);
    let e = tell(&mut s, GameMsg::TouchMove(70, 190));
    assert_eq!(
        e.messages,
        vec![GameMsg::Left(InputTypes::Touch), GameMsg::Down(InputTypes::Touch)]
    );
}

#[test]
fn touch_release_asks_for_drop_hold_or_rotation() {
    let mut s = session(vec![T, L]);
    tell(&mut s, GameMsg::TouchStart(100, 100));
    let e = tell(&mut s, GameMsg::TouchEnd);
    assert_eq!(e.messages, vec![GameMsg::Rotate]);

    tell(&mut s, GameMsg::TouchStart(100, 100));
    tell(&mut s, GameMsg::TouchMove(104, 140));
    let e = tell(&mut s, GameMsg::TouchEnd);
    assert_eq!(e.messages, vec![GameMsg::Rotate]);

    tell(&mut s, GameMsg::TouchStart(100, 100));
    tell(&mut s, GameMsg::TouchMove(105, 100));
    let e = tell(&mut s, GameMsg::TouchEnd);
    assert!(e.messages.is_empty());

    tell(&mut s, GameMsg::TouchStart(100, 100));
    tell(&mut s, GameMsg::TouchMove(100, 141));
    let e = tell(&mut s, GameMsg::TouchEnd);
    assert_eq!(e.messages, vec![GameMsg::Drop]);

    tell(&mut s, GameMsg::TouchStart(100, 100));
    tell(&mut s, GameMsg::TouchMove(100, 59));
    let e = tell(&mut s, GameMsg::TouchEnd);
    assert_eq!(e.messages, vec![GameMsg::Hold]);

    tell(&mut s, GameMsg::TouchStart(100, 100));
    tell(&mut s, GameMsg::TouchMove(100, 60));
    let e = tell(&mut s, GameMsg::TouchEnd);
    assert_eq!(e.messages, vec![GameMsg::Rotate]);
}

#[test]
fn touch_that_has_moved_the_piece_does_not_rotate_it() {
    let mut s = session(vec![T, L]);
    tell(&mut s, GameMsg::TouchStart(100, 100));
    tell(&mut s, GameMsg::TouchMove(130, 100));
    tell(&mut s, GameMsg::TouchMove(100, 100));
    let e = tell(&mut s, GameMsg::TouchEnd);
    assert!(e.messages.is_empty());
    // the next touch may rotate again
    tell(&mut s, GameMsg::TouchStart(100, 100));
    let e = tell(&mut s, GameMsg::TouchEnd);
    assert_eq!(e.messages, vec![GameMsg::Rotate]);
}

#[test]
fn touch_at_the_ends_of_the_number_range() {
    let mut s = session(vec![T, L]);
    tell(&mut s, GameMsg::TouchStart(i32::MIN, i32::MIN));
    let e = tell(&mut s, GameMsg::TouchMove(i32::MAX, i32::MAX));
    assert_eq!(
        e.messages,
        vec![GameMsg::Right(InputTypes::Touch), GameMsg::Down(InputTypes::Touch)]
    );
    let e = tell(&mut s, GameMsg::TouchEnd);
    assert_eq!(e.messages, vec![GameMsg::Drop]);
    tell(&mut s, GameMsg::TouchStart(i32::MAX, i32::MAX));
    let e = tell(&mut s, GameMsg::TouchMove(i32::MIN, i32::MIN));
    assert_eq!(e.messages, vec![GameMsg::Left(InputTypes::Touch)]);
    let e = tell(&mut s, GameMsg::TouchEnd);
    assert_eq!(e.messages, vec![GameMsg::Hold]);
}

#[test]
fn nothing_changes_nothing() {
    let mut s = session(vec![T, L]);
    let e = tell(&mut s, GameMsg::Nothing);
    assert!(is_quiet(&e));
    assert!(e.messages.is_empty());
    assert_eq!(s.board().falling_loc(), 193);
    assert_eq!(s.score(), 0);
}

#[test]
fn keys_ask_for_commands() {
    assert_eq!(GameMsg::from_key_down(67), GameMsg::Hold);
    assert_eq!(GameMsg::from_key_down(40), GameMsg::Down(InputTypes::Tap));
    assert_eq!(GameMsg::from_key_down(39), GameMsg::Right(InputTypes::Tap));
    assert_eq!(GameMsg::from_key_down(38), GameMsg::Rotate);
    assert_eq!(GameMsg::from_key_down(37), GameMsg::Left(InputTypes::Tap));
    assert_eq!(GameMsg::from_key_down(32), GameMsg::Drop);
    assert_eq!(GameMsg::from_key_down(13), GameMsg::Nothing);
    assert_eq!(GameMsg::from_key_up(40), GameMsg::CancelDown);
    assert_eq!(GameMsg::from_key_up(39), GameMsg::CancelRight);
    assert_eq!(GameMsg::from_key_up(37), GameMsg::CancelLeft);
    assert_eq!(GameMsg::from_key_up(27), GameMsg::Unfocus);
    assert_eq!(GameMsg::from_key_up(67), GameMsg::Nothing);
}

#[test]
fn drawn_update_fills_the_queue_with_whole_bags() {
    let mut s = GameSession::create(Settings::default());
    assert!(s.has_headroom());
    s.update(GameMsg::Drop);
    assert_eq!(s.queue_len(), 5);
    s.update(GameMsg::Drop);
    // four were left, so a bag of seven came in
    assert_eq!(s.queue_len(), 11);
    let bag: Vec<TetrisPieceType> = queue(&s)[4..].to_vec();
    for piece in [I, J, L, O, S, T, Z] {
        assert_eq!(bag.iter().filter(|p| **p == piece).count(), 1);
    }
}

#[test]
fn drawn_update_fills_the_queue_with_single_draws() {
    let mut settings = Settings::default();
    settings.randomizer = Randomizers::Random;
    let mut s = GameSession::create(settings);
    s.update(GameMsg::Drop);
    s.update(GameMsg::Drop);
    assert_eq!(s.queue_len(), 8);
    s.update(GameMsg::Tick);
    assert_eq!(s.queue_len(), 8);
    assert_eq!(s.state(), SessionState::Active);
}

#[test]
fn headroom_is_there_at_the_start() {
    let s = session(vec![T]);
    assert!(s.has_headroom());
}

#[test]
fn drawn_game_ends_and_starts_anew() {
    let mut s = GameSession::create(Settings::default());
    let mut drops = 0;
    while s.state() != SessionState::GameOver {
        assert!(drops < 200);
        assert!(s.has_headroom());
        let e = s.update(GameMsg::Drop);
        drops += 1;
        if s.state() == SessionState::GameOver {
            assert_eq!(e.events.last(), Some(&GameEvent::GameOver(s.score())));
            assert_eq!(e.gravity_timer, TimerChange::Cancel);
        }
    }
    assert!(s.score() > 0);
    assert_eq!(s.level(), s.lines_cleared() / 10 + 1);
    let e = s.update(GameMsg::Tick);
    assert_eq!(s.state(), SessionState::Active);
    assert_eq!(s.score(), 0);
    assert_eq!(s.lines_cleared(), 0);
    assert_eq!(s.level(), 1);
    assert_eq!(e.events, vec![GameEvent::ScoreChanged(0)]);
    assert!((0..230).all(|i| s.board().tile(i).is_none()));
    assert_eq!(s.board().falling_loc(), 183);
}

#[test]
fn drawn_update_keeps_the_queue_as_long_as_is_shown() {
    for randomizer in [Randomizers::RandomGenerator, Randomizers::Random] {
        let mut settings = Settings::default();
        settings.randomizer = randomizer;
        settings.queue_display_len = 6;
        let mut s = GameSession::create(settings);
        for _ in 0..12 {
            let before = s.queue_len();
            s.update(GameMsg::Drop);
            if s.state() == SessionState::GameOver {
                break;
            }
            assert!(s.queue_len() >= 6);
            assert!(s.queue_len() + 1 >= before);
        }
    }
}

#[test]
fn only_a_drop_in_a_running_game_draws_pieces() {
    let mut s = GameSession::create(Settings::default());
    for msg in [
        GameMsg::Tick,
        GameMsg::Left(InputTypes::Tap),
        GameMsg::Right(InputTypes::Hold),
        GameMsg::Down(InputTypes::Touch),
        GameMsg::Rotate,
        GameMsg::CancelLeft,
        GameMsg::Unfocus,
        GameMsg::TouchStart(1, 2),
        GameMsg::TouchEnd,
        GameMsg::Nothing,
    ] {
        s.update(msg);
        assert_eq!(s.queue_len(), 6);
    }
    s.update(GameMsg::Hold);
    assert_eq!(s.queue_len(), 5);
}
