use crate::board::TetrisBoard;
use crate::grid::lemma_resting_in_range;
use crate::lines::{
    lemma_cleared_has_no_full_rows, lemma_empty_has_no_full_rows,
    lemma_settled_fills_at_most_four,
};
use crate::piece::TetrisPieceType;
use crate::randomizer::{is_bag_sequence, Randomizers};
use crate::rules::{
    lemma_drop_fills_queue,
    drag_commands, event_list, queue_head, queue_tail, release_commands, Effects, EffectsView, GameEvent, GameMsg, InputTypes,
    board_ready, SessionState, SessionView, TimerChange, TimerDelay, BOARD_HEIGHT, BOARD_WIDTH,
    FIRST_DRAW, RELEASE_DRAG, SOFT_DROP_DRAG, TAP_SLACK,
};
use crate::scoring::{drop_award, drop_score, level_for_lines, level_of, line_award, line_score};
use crate::settings::Settings;
use std::collections::VecDeque;
use vstd::prelude::*;

verus! {

/// A game: the board, the queue of upcoming pieces, the held piece, the
/// counters, and which of its timers run.
pub struct GameSession {
    game: TetrisBoard,
    settings: Settings,
    level: u32,
    score: u32,
    lines_cleared: u32,
    stick_counter: u32,
    held_piece: Option<TetrisPieceType>,
    held_piece_switch_count: u32,
    piece_queue: VecDeque<TetrisPieceType>,
    game_end_screen: bool,
    ticker_handle: bool,
    move_handle: (bool, bool),
    down_handle: (bool, bool),
    stick_handle: bool,
    touch_start_pos: (i32, i32),
    touch_anchor: i32,
    touch_pos: (i32, i32),
    touch_can_rotate: bool,
}

impl View for GameSession {
    type V = SessionView;

    closed spec fn view(&self) -> SessionView {
        SessionView {
            board: self.game@,
            settings: self.settings,
            level: self.level as int,
            score: self.score as int,
            lines_cleared: self.lines_cleared as int,
            stick_counter: self.stick_counter as int,
            held_piece: self.held_piece,
            held_piece_switch_count: self.held_piece_switch_count as int,
            piece_queue: self.piece_queue@,
            game_end_screen: self.game_end_screen,
            ticker_armed: self.ticker_handle,
            move_right: self.move_handle.0,
            move_armed: self.move_handle.1,
            down_idle: self.down_handle.0,
            down_armed: self.down_handle.1,
            stick_armed: self.stick_handle,
            touch_start_pos: (self.touch_start_pos.0 as int, self.touch_start_pos.1 as int),
            touch_anchor: self.touch_anchor as int,
            touch_pos: (self.touch_pos.0 as int, self.touch_pos.1 as int),
            touch_can_rotate: self.touch_can_rotate,
        }
    }
}

impl Effects {
    /// No more than a request to draw, and the given messages.
    pub fn quiet(messages: Vec<GameMsg>) -> (e: Effects)
        ensures
            e@ == EffectsView::quiet(messages@),
    {
        Effects {
            redraw: true,
            messages,
            events: Vec::new(),
            move_timer: TimerChange::Keep,
            down_timer: TimerChange::Keep,
            lock_timer: TimerChange::Keep,
            gravity_timer: TimerChange::Keep,
        }
    }
}

/// The events for a change of score and level.
fn events_for(
    score_before: u32,
    level_before: u32,
    score: u32,
    level: u32,
    cleared: u32,
    over: bool,
) -> (events: Vec<GameEvent>)
    ensures
        events@ == event_list(
            score_before as int,
            level_before as int,
            score as int,
            level as int,
            cleared as int,
            over,
        ),
{
    let mut events: Vec<GameEvent> = Vec::new();
    if score != score_before {
        events.push(GameEvent::ScoreChanged(score));
    }
    if cleared > 0 {
        events.push(GameEvent::LinesCleared(cleared));
    }
    if level != level_before {
        events.push(GameEvent::LevelChanged(level));
    }
    if over {
        events.push(GameEvent::GameOver(score));
    }
    assert(events@ =~= event_list(
        score_before as int,
        level_before as int,
        score as int,
        level as int,
        cleared as int,
        over,
    ));
    events
}

/// The moves that a drag asks for: one to the side, and a step down.
fn drag_messages(right: bool, left: bool, down: bool) -> (messages: Vec<GameMsg>)
    ensures
        messages@ == drag_commands(right, left, down),
{
    let mut messages: Vec<GameMsg> = Vec::new();
    if right {
        messages.push(GameMsg::Right(InputTypes::Touch));
    } else if left {
        messages.push(GameMsg::Left(InputTypes::Touch));
    }
    if down {
        messages.push(GameMsg::Down(InputTypes::Touch));
    }
    assert(messages@ =~= drag_commands(right, left, down));
    messages
}

/// The command that the release of a touch asks for, from how far it ends
/// to the right of and below where it began.
fn release_messages(dx: i64, dy: i64, can_rotate: bool) -> (messages: Vec<GameMsg>)
    requires
        -0x1_0000_0000 <= dy <= 0x1_0000_0000,
    ensures
        messages@ == release_commands(dx as int, dy as int, can_rotate),
{
    let mut messages: Vec<GameMsg> = Vec::new();
    if dy > RELEASE_DRAG as i64 {
        messages.push(GameMsg::Drop);
    } else if -dy > RELEASE_DRAG as i64 {
        messages.push(GameMsg::Hold);
    } else if can_rotate && -(TAP_SLACK as i64) < dx && dx < TAP_SLACK as i64 {
        messages.push(GameMsg::Rotate);
    }
    assert(messages@ =~= release_commands(dx as int, dy as int, can_rotate));
    messages
}

impl GameSession {
    /// A session with the given settings whose first piece is the first of
    /// `pieces`, or I where there is none; the others wait in the queue.
    pub fn with_queue(settings: Settings, pieces: Vec<TetrisPieceType>) -> (session: Self)
        requires
            settings.usable(),
        ensures
            session@ == SessionView::started(settings, pieces@),
            session@.wf(),
    {
        reveal(board_ready);
        let first_piece = if pieces.len() > 0 {
            pieces[0]
        } else {
            TetrisPieceType::I
        };
        let mut piece_queue: VecDeque<TetrisPieceType> = VecDeque::new();
        let mut i: usize = 1;
        while i < pieces.len()
            invariant
                1 <= i,
                pieces@.len() > 0 ==> i <= pieces@.len() && piece_queue@ == pieces@.subrange(
                    1,
                    i as int,
                ),
                pieces@.len() == 0 ==> piece_queue@ == pieces@,
            decreases pieces@.len() - i,
        {
            piece_queue.push_back(pieces[i]);
            assert(pieces@.subrange(1, i + 1) =~= pieces@.subrange(1, i as int).push(
                pieces@[i as int],
            ));
            i += 1;
        }
        proof {
            if pieces@.len() == 0 {
                assert(piece_queue@ =~= pieces@);
            } else {
                assert(piece_queue@ =~= pieces@.subrange(1, pieces@.len() as int));
            }
        }
        let game = TetrisBoard::make(BOARD_WIDTH, BOARD_HEIGHT, first_piece);
        proof {
            lemma_empty_has_no_full_rows(game@);
        }
        GameSession {
            game,
            settings,
            level: 1,
            score: 0,
            lines_cleared: 0,
            stick_counter: 0,
            held_piece: None,
            held_piece_switch_count: 0,
            piece_queue,
            game_end_screen: false,
            ticker_handle: false,
            move_handle: (true, false),
            down_handle: (true, false),
            stick_handle: false,
            touch_start_pos: (0, 0),
            touch_anchor: 0,
            touch_pos: (0, 0),
            touch_can_rotate: true,
        }
    }

    /// A session with the given settings whose pieces are drawn by the
    /// randomizer of the settings.
    pub fn create(settings: Settings) -> (session: Self)
        requires
            settings.usable(),
        ensures
            session@.wf(),
            exists|pieces: Seq<TetrisPieceType>|
                session@ == SessionView::started(settings, pieces) && (settings.randomizer
                    == Randomizers::RandomGenerator ==> pieces.len() == 7 && is_bag_sequence(
                    pieces,
                )) && (settings.randomizer == Randomizers::Random ==> pieces.len() == 7),
    {
        let pieces = settings.randomizer.make_sequence(FIRST_DRAW);
        let ghost drawn = pieces@;
        let session = Self::with_queue(settings, pieces);
        assert(session@ == SessionView::started(settings, drawn));
        session
    }

    /// The board.
    pub fn board(&self) -> (b: &TetrisBoard)
        ensures
            b@ == self@.board,
    {
        &self.game
    }

    /// The settings.
    pub fn settings(&self) -> (s: Settings)
        ensures
            s == self@.settings,
    {
        self.settings
    }

    /// The score.
    pub fn score(&self) -> (n: u32)
        ensures
            n == self@.score,
    {
        self.score
    }

    /// The level.
    pub fn level(&self) -> (n: u32)
        ensures
            n == self@.level,
    {
        self.level
    }

    /// The number of lines cleared.
    pub fn lines_cleared(&self) -> (n: u32)
        ensures
            n == self@.lines_cleared,
    {
        self.lines_cleared
    }

    /// The held piece.
    pub fn held_piece(&self) -> (p: Option<TetrisPieceType>)
        ensures
            p == self@.held_piece,
    {
        self.held_piece
    }

    /// The number of pieces in the queue.
    pub fn queue_len(&self) -> (n: usize)
        ensures
            n == self@.piece_queue.len(),
    {
        self.piece_queue.len()
    }

    /// The `i`-th piece of the queue, if there is one.
    pub fn queued_piece(&self, i: usize) -> (p: Option<TetrisPieceType>)
        ensures
            p == if i < self@.piece_queue.len() {
                Some(self@.piece_queue[i as int])
            } else {
                None
            },
    {
        if i < self.piece_queue.len() {
            Some(self.piece_queue[i])
        } else {
            None
        }
    }

    /// The state of the session.
    pub fn state(&self) -> (s: SessionState)
        ensures
            s == self@.state(),
    {
        if self.game_end_screen {
            SessionState::GameOver
        } else if self.stick_handle {
            SessionState::LockArmed
        } else {
            SessionState::Active
        }
    }

    /// Whether the counters have room for what one message can add.
    pub fn has_headroom(&self) -> (ok: bool)
        ensures
            ok == self@.headroom(),
    {
        self.score as u64 + 800 * (self.level as u64) + 64 <= u32::MAX as u64
            && self.lines_cleared as u64 + 4 <= u32::MAX as u64
    }

    /// The message that starts gravity, where its timer does not run.
    fn wake(&self) -> (messages: Vec<GameMsg>)
        ensures
            messages@ == self@.wake(),
    {
        let mut messages: Vec<GameMsg> = Vec::new();
        if !self.ticker_handle {
            messages.push(GameMsg::Tick);
        }
        assert(messages@ =~= self@.wake());
        messages
    }

    /// Puts the lock off after a move, and says what becomes of the lock
    /// timer.
    fn put_lock_off(&mut self, acted: bool) -> (change: TimerChange)
        requires
            old(self)@.wf(),
        ensures
            change == old(self)@.lock_after(acted),
            final(self)@ == (SessionView {
                stick_armed: old(self)@.stick_armed && !old(self)@.puts_lock_off(acted),
                ..old(self)@
            }),
            final(self)@.wf(),
    {
        if acted && self.stick_counter < self.settings.moves_before_lock && self.stick_handle {
            self.stick_handle = false;
            TimerChange::Cancel
        } else {
            TimerChange::Keep
        }
    }

    /// A move to the left or to the right.
    fn on_sideways(&mut self, kind: InputTypes, right: bool) -> (effects: Effects)
        requires
            old(self)@.wf(),
        ensures
            final(self)@ == old(self)@.step_sideways(kind, right).next,
            effects@ == old(self)@.step_sideways(kind, right).effects,
            final(self)@.wf(),
    {
        reveal(board_ready);
        let mut effects = Effects::quiet(self.wake());
        if !self.move_handle.1 || kind == InputTypes::Hold || self.move_handle.0 != right {
            let before = self.game.falling_loc();
            if right {
                self.game.move_right();
            } else {
                self.game.move_left();
            }
            let acted = self.game.falling_loc() != before;
            if kind != InputTypes::Touch {
                let delay = if kind == InputTypes::Hold {
                    self.settings.hold_move_interval
                } else {
                    self.settings.hold_time
                };
                let again = if right {
                    GameMsg::Right(InputTypes::Hold)
                } else {
                    GameMsg::Left(InputTypes::Hold)
                };
                effects.move_timer = TimerChange::Arm(TimerDelay::Millis(delay), again);
                self.move_handle = (right, true);
            }
            effects.lock_timer = self.put_lock_off(acted);
        }
        effects
    }

    /// A step down.
    fn on_down(&mut self, kind: InputTypes) -> (effects: Effects)
        requires
            old(self)@.wf(),
            old(self)@.headroom(),
        ensures
            final(self)@ == old(self)@.step_down(kind).next,
            effects@ == old(self)@.step_down(kind).effects,
            final(self)@.wf(),
    {
        reveal(board_ready);
        let mut effects = Effects::quiet(self.wake());
        if !self.down_handle.1 || kind == InputTypes::Hold || self.down_handle.0 {
            let score_before = self.score;
            let acted = self.game.move_down();
            if acted {
                self.score += 1;
            }
            if kind != InputTypes::Touch {
                let delay = if kind == InputTypes::Hold {
                    self.settings.down_hold_move_interval
                } else {
                    self.settings.down_hold_time
                };
                effects.down_timer = TimerChange::Arm(
                    TimerDelay::Millis(delay),
                    GameMsg::Down(InputTypes::Hold),
                );
                self.down_handle = (false, true);
            }
            effects.lock_timer = self.put_lock_off(acted);
            effects.events = events_for(score_before, self.level, self.score, self.level, 0, false);
        }
        effects
    }

    /// A clockwise rotation.
    fn on_rotate(&mut self) -> (effects: Effects)
        requires
            old(self)@.wf(),
        ensures
            final(self)@ == old(self)@.step_rotate().next,
            effects@ == old(self)@.step_rotate().effects,
            final(self)@.wf(),
    {
        reveal(board_ready);
        let mut effects = Effects::quiet(self.wake());
        let before = self.game.falling_rot();
        self.game.rotate_clockwise();
        let acted = self.game.falling_rot() != before;
        effects.lock_timer = self.put_lock_off(acted);
        effects
    }

    /// The release of the down key.
    fn on_cancel_down(&mut self) -> (effects: Effects)
        requires
            old(self)@.wf(),
        ensures
            final(self)@ == old(self)@.step_cancel_down().next,
            effects@ == old(self)@.step_cancel_down().effects,
            final(self)@.wf(),
    {
        let mut effects = Effects::quiet(Vec::new());
        if !self.down_handle.0 {
            self.down_handle = (true, false);
            effects.down_timer = TimerChange::Cancel;
        }
        effects
    }

    /// The release of a sideways key.
    fn on_cancel_sideways(&mut self, right: bool) -> (effects: Effects)
        requires
            old(self)@.wf(),
        ensures
            final(self)@ == old(self)@.step_cancel_sideways(right).next,
            effects@ == old(self)@.step_cancel_sideways(right).effects,
            final(self)@.wf(),
    {
        let mut effects = Effects::quiet(Vec::new());
        if self.move_handle.0 == right {
            self.move_handle = (true, false);
            effects.move_timer = TimerChange::Cancel;
        }
        effects
    }

    /// The loss of focus.
    fn on_unfocus(&mut self) -> (effects: Effects)
        requires
            old(self)@.wf(),
        ensures
            final(self)@ == old(self)@.step_unfocus().next,
            effects@ == old(self)@.step_unfocus().effects,
            final(self)@.wf(),
    {
        let mut effects = Effects::quiet(Vec::new());
        self.ticker_handle = false;
        effects.gravity_timer = TimerChange::Cancel;
        effects
    }

    /// The start of a touch.
    fn on_touch_start(&mut self, x: i32, y: i32) -> (effects: Effects)
        requires
            old(self)@.wf(),
        ensures
            final(self)@ == old(self)@.step_touch_start(x as int, y as int).next,
            effects@ == old(self)@.step_touch_start(x as int, y as int).effects,
            final(self)@.wf(),
    {
        let effects = Effects::quiet(self.wake());
        self.touch_start_pos = (x, y);
        self.touch_pos = self.touch_start_pos;
        self.touch_anchor = self.touch_start_pos.0;
        effects
    }

    /// A move of the touch.
    fn on_touch_move(&mut self, x: i32, y: i32) -> (effects: Effects)
        requires
            old(self)@.wf(),
        ensures
            final(self)@ == old(self)@.step_touch_move(x as int, y as int).next,
            effects@ == old(self)@.step_touch_move(x as int, y as int).effects,
            final(self)@.wf(),
    {
        let dx: i64 = x as i64 - self.touch_anchor as i64;
        let sens: i64 = self.settings.touch_horiz_sens as i64;
        let right = dx >= sens;
        let left = !right && dx <= -sens;
        let down = y as i64 - self.touch_start_pos.1 as i64 > SOFT_DROP_DRAG as i64;
        if right || left {
            self.touch_anchor = x;
        }
        self.touch_can_rotate = self.touch_can_rotate && !right && !left && !down;
        self.touch_pos = (x, y);
        Effects::quiet(drag_messages(right, left, down))
    }

    /// The end of the touch.
    fn on_touch_end(&mut self) -> (effects: Effects)
        requires
            old(self)@.wf(),
        ensures
            final(self)@ == old(self)@.step_touch_end().next,
            effects@ == old(self)@.step_touch_end().effects,
            final(self)@.wf(),
    {
        let dx: i64 = self.touch_pos.0 as i64 - self.touch_start_pos.0 as i64;
        let dy: i64 = self.touch_pos.1 as i64 - self.touch_start_pos.1 as i64;
        let messages = release_messages(dx, dy, self.touch_can_rotate);
        self.touch_can_rotate = true;
        Effects::quiet(messages)
    }

    /// Takes the head of the queue, or I where the queue is empty.
    fn take_next(&mut self) -> (piece: TetrisPieceType)
        ensures
            piece == queue_head(old(self)@.piece_queue),
            final(self)@ == (SessionView {
                piece_queue: queue_tail(old(self)@.piece_queue),
                ..old(self)@
            }),
    {
        match self.piece_queue.pop_front() {
            Some(piece) => piece,
            None => TetrisPieceType::I,
        }
    }

    /// Puts the pieces of `supply` at the end of the queue.
    fn refill(&mut self, supply: &Vec<TetrisPieceType>)
        ensures
            final(self)@ == (SessionView {
                piece_queue: old(self)@.piece_queue + supply@,
                ..old(self)@
            }),
    {
        let mut i: usize = 0;
        while i < supply.len()
            invariant
                i <= supply@.len(),
                self@ == (SessionView {
                    piece_queue: old(self)@.piece_queue + supply@.subrange(0, i as int),
                    ..old(self)@
                }),
            decreases supply@.len() - i,
        {
            self.piece_queue.push_back(supply[i]);
            assert(old(self)@.piece_queue + supply@.subrange(0, i + 1) =~= (old(
                self,
            )@.piece_queue + supply@.subrange(0, i as int)).push(supply@[i as int]));
            i += 1;
        }
        assert(supply@.subrange(0, supply@.len() as int) =~= supply@);
    }

    /// Lets the falling piece fall to rest and settle, scores the fall, and
    /// lets the head of the queue appear. Tells whether the new piece is
    /// clear of collisions.
    fn lock_piece(&mut self) -> (clear: bool)
        requires
            old(self)@.wf(),
            old(self)@.headroom(),
            !old(self)@.game_end_screen,
        ensures
            final(self)@ == (SessionView {
                board: old(self)@.board.dropped().spawned(queue_head(old(self)@.piece_queue)),
                score: old(self)@.score + drop_score(
                    old(self)@.board.descent(old(self)@.board.loc) as int,
                ),
                piece_queue: queue_tail(old(self)@.piece_queue),
                ..old(self)@
            }),
            clear == !final(self)@.board.overlaps_at(
                final(self)@.board.loc,
                final(self)@.board.rot,
            ),
            final(self)@.board.wf(),
            final(self)@.board.full_rows() <= 4,
            final(self)@.score <= old(self)@.score + 52,
    {
        reveal(board_ready);
        let ghost landed = self@.board.with_loc(self@.board.resting());
        proof {
            lemma_resting_in_range(self@.board);
            assert(self@.board.width * self@.board.rows == 230) by (nonlinear_arith)
                requires
                    self@.board.width == 10,
                    self@.board.rows == 23,
            ;
            assert(-33 <= landed.loc <= self@.board.loc < 230);
        }
        let rows = self.game.drop();
        proof {
            lemma_settled_fills_at_most_four(landed);
            assert(self@.board.tiles == landed.settled().tiles);
            assert(rows * 10 == old(self)@.board.loc - landed.loc);
            assert(rows <= 26) by (nonlinear_arith)
                requires
                    rows * 10 <= 262,
            ;
        }
        self.score += drop_award(rows);
        let next = self.take_next();
        self.game.new_falling_piece(next)
    }

    /// Clears the full rows, scores them at the level before, counts them
    /// and sets the level. Returns the number of rows cleared.
    fn clear_and_score(&mut self) -> (cleared: u32)
        requires
            old(self)@.board.wf(),
            old(self)@.board.full_rows() <= 4,
            old(self)@.score + 800 * old(self)@.level <= u32::MAX,
            old(self)@.lines_cleared + 4 <= u32::MAX,
        ensures
            cleared == old(self)@.board.full_rows(),
            final(self)@ == (SessionView {
                board: old(self)@.board.cleared().with_shadow(),
                score: old(self)@.score + line_score(cleared as int) * old(self)@.level,
                lines_cleared: old(self)@.lines_cleared + cleared,
                level: level_of(old(self)@.lines_cleared + cleared),
                ..old(self)@
            }),
            final(self)@.board.wf(),
            final(self)@.board.full_rows() == 0,
            final(self)@.board.shadow_current(),
    {
        proof {
            lemma_cleared_has_no_full_rows(self@.board);
        }
        let num_cleared = self.game.clear_lines();
        assert(line_score(num_cleared as int) * self.level <= 800 * self.level)
            by (nonlinear_arith)
            requires
                0 <= line_score(num_cleared as int) <= 800,
                0 <= self.level,
        ;
        self.score += line_award(num_cleared, self.level);
        self.lines_cleared += num_cleared;
        self.level = level_for_lines(self.lines_cleared);
        self.game.update_drop_loc();
        num_cleared
    }

    /// A hard drop.
    fn on_drop(&mut self, supply: &Vec<TetrisPieceType>) -> (effects: Effects)
        requires
            old(self)@.wf(),
            old(self)@.headroom(),
        ensures
            final(self)@ == old(self)@.step_drop(supply@).next,
            effects@ == old(self)@.step_drop(supply@).effects,
            final(self)@.wf(),
    {
        if self.game_end_screen {
            let mut ignored = Effects::quiet(Vec::new());
            ignored.redraw = false;
            return ignored;
        }
        let mut effects = Effects::quiet(self.wake());
        let score_before = self.score;
        let level_before = self.level;
        if !self.lock_piece() {
            self.game_end_screen = true;
            self.ticker_handle = false;
            effects.gravity_timer = TimerChange::Cancel;
            effects.events = events_for(
                score_before,
                level_before,
                self.score,
                self.level,
                0,
                true,
            );
            proof {
                reveal(board_ready);
            }
            return effects;
        }
        if self.piece_queue.len() <= self.settings.queue_display_len {
            self.refill(supply);
        }
        let num_cleared = self.clear_and_score();
        self.stick_counter = 0;
        if self.stick_handle {
            effects.lock_timer = TimerChange::Cancel;
        }
        self.stick_handle = false;
        self.held_piece_switch_count = 0;
        effects.events = events_for(
            score_before,
            level_before,
            self.score,
            self.level,
            num_cleared,
            false,
        );
        proof {
            reveal(board_ready);
        }
        effects
    }

    /// A step of gravity.
    fn on_tick(&mut self, fresh: TetrisPieceType) -> (effects: Effects)
        requires
            old(self)@.wf(),
        ensures
            final(self)@ == old(self)@.step_tick(fresh).next,
            effects@ == old(self)@.step_tick(fresh).effects,
            final(self)@.wf(),
    {
        reveal(board_ready);
        let mut effects = Effects::quiet(Vec::new());
        let score_before = self.score;
        let level_before = self.level;
        if self.game_end_screen {
            self.game_end_screen = false;
            self.game = TetrisBoard::make(BOARD_WIDTH, BOARD_HEIGHT, fresh);
            proof {
                lemma_empty_has_no_full_rows(self.game@);
            }
            self.level = 1;
            self.score = 0;
            self.lines_cleared = 0;
            self.held_piece = None;
        }
        if !self.game.move_down() {
            if !self.stick_handle {
                self.stick_counter += 1;
                self.stick_handle = true;
                effects.lock_timer = TimerChange::Arm(
                    TimerDelay::Millis(self.settings.lock_delay),
                    GameMsg::Drop,
                );
            }
        }
        effects.gravity_timer = TimerChange::Arm(TimerDelay::Gravity(self.level), GameMsg::Tick);
        self.ticker_handle = true;
        effects.events = events_for(score_before, level_before, self.score, self.level, 0, false);
        effects
    }

    /// An exchange of the falling piece with the held one.
    fn on_hold(&mut self) -> (effects: Effects)
        requires
            old(self)@.wf(),
        ensures
            final(self)@ == old(self)@.step_hold().next,
            effects@ == old(self)@.step_hold().effects,
            final(self)@.wf(),
    {
        reveal(board_ready);
        if self.game_end_screen {
            return Effects::quiet(Vec::new());
        }
        let mut effects = Effects::quiet(self.wake());
        if self.held_piece_switch_count >= self.settings.max_num_held_piece_switches {
            return effects;
        }
        self.held_piece_switch_count += 1;
        let curr_falling = self.game.falling_piece();
        let incoming = match self.held_piece {
            Some(piece) => piece,
            None => self.take_next(),
        };
        self.game.new_falling_piece(incoming);
        self.game.update_drop_loc();
        self.held_piece = Some(curr_falling);
        self.stick_counter = 0;
        if self.stick_handle {
            effects.lock_timer = TimerChange::Cancel;
        }
        self.stick_handle = false;
        effects
    }

    /// Tells the session a message and returns what it asks of its host.
    /// `supply` is what the queue is filled up with where a hard drop finds
    /// it short, `fresh` the first piece of a game that a step of gravity
    /// starts after the end of the last.
    pub fn update_with(
        &mut self,
        msg: GameMsg,
        supply: &Vec<TetrisPieceType>,
        fresh: TetrisPieceType,
    ) -> (effects: Effects)
        requires
            old(self)@.wf(),
            old(self)@.headroom(),
        ensures
            final(self)@ == old(self)@.step(msg, supply@, fresh).next,
            effects@ == old(self)@.step(msg, supply@, fresh).effects,
            final(self)@.wf(),
            final(self)@.level == final(self)@.lines_cleared / 10 + 1,
    {
        match msg {
            GameMsg::Left(kind) => self.on_sideways(kind, false),
            GameMsg::Right(kind) => self.on_sideways(kind, true),
            GameMsg::Down(kind) => self.on_down(kind),
            GameMsg::Drop => self.on_drop(supply),
            GameMsg::Tick => self.on_tick(fresh),
            GameMsg::Hold => self.on_hold(),
            GameMsg::Rotate => self.on_rotate(),
            GameMsg::CancelDown => self.on_cancel_down(),
            GameMsg::CancelRight => self.on_cancel_sideways(true),
            GameMsg::CancelLeft => self.on_cancel_sideways(false),
            GameMsg::TouchStart(x, y) => self.on_touch_start(x, y),
            GameMsg::TouchMove(x, y) => self.on_touch_move(x, y),
            GameMsg::TouchEnd => self.on_touch_end(),
            GameMsg::Unfocus => self.on_unfocus(),
            GameMsg::Nothing => Effects::quiet(Vec::new()),
        }
    }

    /// Tells the session a message and returns what it asks of its host.
    /// For a hard drop in a running game the randomizer of the settings
    /// draws the pieces that fill the queue up, so that after the drop the
    /// queue holds at least as many pieces as the settings ask to show; for
    /// a step of gravity after the end of a game it draws the first piece of
    /// the new game. No other message draws anything.
    pub fn update(&mut self, msg: GameMsg) -> (effects: Effects)
        requires
            old(self)@.wf(),
            old(self)@.headroom(),
        ensures
            final(self)@.wf(),
            final(self)@.level == final(self)@.lines_cleared / 10 + 1,
            exists|supply: Seq<TetrisPieceType>, fresh: TetrisPieceType|
                ({
                    &&& final(self)@ == old(self)@.step(msg, supply, fresh).next
                    &&& effects@ == old(self)@.step(msg, supply, fresh).effects
                    &&& old(self)@.may_supply(msg, supply)
                    &&& old(self)@.may_start_with(msg, fresh)
                }),
            old(self)@.draws_supply(msg) && !final(self)@.game_end_screen ==> ({
                &&& final(self)@.piece_queue.len() >= old(self)@.settings.queue_display_len
                &&& final(self)@.piece_queue.len() >= old(self)@.piece_queue.len() - 1
            }),
    {
        let supply = match msg {
            GameMsg::Drop => if self.game_end_screen {
                Vec::new()
            } else {
                self.settings.randomizer.make_sequence(self.settings.queue_display_len)
            },
            _ => Vec::new(),
        };
        let fresh = match msg {
            GameMsg::Tick => if self.game_end_screen {
                TetrisPieceType::get_random()
            } else {
                TetrisPieceType::I
            },
            _ => TetrisPieceType::I,
        };
        let effects = self.update_with(msg, &supply, fresh);
        proof {
            let before = old(self)@;
            assert(self@ == before.step(msg, supply@, fresh).next && effects@ == before.step(
                msg,
                supply@,
                fresh,
            ).effects && before.may_supply(msg, supply@) && before.may_start_with(msg, fresh));
            if msg == GameMsg::Drop {
                lemma_drop_fills_queue(before, supply@);
            }
        }
        effects
    }
}

} // verus!
