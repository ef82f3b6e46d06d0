use crate::grid::{BoardView, BUFFER_ROWS};
use crate::piece::TetrisPieceType;
use crate::randomizer::{bag_len, is_bag_sequence, Randomizers};
use crate::scoring::{drop_score, level_of, line_score};
use crate::settings::Settings;
use vstd::prelude::*;

verus! {

/// The number of columns of the board of a session.
pub const BOARD_WIDTH: usize = 10;

/// The number of visible rows of the board of a session.
pub const BOARD_HEIGHT: usize = 20;

/// The length of the sequence of pieces that a session is made with.
pub const FIRST_DRAW: usize = 7;

/// A drag further down than this, in pixels, steps the piece down.
pub const SOFT_DROP_DRAG: i32 = 80;

/// A touch released further than this, in pixels, below or above where it
/// began drops the piece or holds it.
pub const RELEASE_DRAG: i32 = 40;

/// A touch released closer than this, in pixels, to the column where it
/// began rotates the piece.
pub const TAP_SLACK: i32 = 5;

/// Where a move comes from.
#[derive(Clone, Copy, PartialEq, Eq, Debug, Structural)]
pub enum InputTypes {
    /// A key has been pressed.
    Tap,
    /// The repeat timer of a held key has run out.
    Hold,
    /// A drag on a touch screen.
    Touch,
}

/// What a session is told: the commands of the player, the timers that run
/// out, and the touches on the board.
#[derive(Clone, Copy, PartialEq, Eq, Debug, Structural)]
pub enum GameMsg {
    /// Move the piece one column to the left.
    Left(InputTypes),
    /// Move the piece one column to the right.
    Right(InputTypes),
    /// Step the piece one row down.
    Down(InputTypes),
    /// Drop the piece and lock it; also what the lock timer tells.
    Drop,
    /// A step of gravity; also what the timer of gravity tells.
    Tick,
    /// Exchange the falling piece with the held one.
    Hold,
    /// Rotate the piece clockwise.
    Rotate,
    /// The down key has been released.
    CancelDown,
    /// The right key has been released.
    CancelRight,
    /// The left key has been released.
    CancelLeft,
    /// A touch has begun at this place, in pixels from the left and from
    /// the top.
    TouchStart(i32, i32),
    /// The touch has moved to this place.
    TouchMove(i32, i32),
    /// The touch has ended.
    TouchEnd,
    /// The game has lost the focus.
    Unfocus,
    /// Nothing has happened that concerns the session.
    Nothing,
}

/// How long a timer runs.
#[derive(Clone, Copy, PartialEq, Eq, Debug, Structural)]
pub enum TimerDelay {
    /// So many milliseconds.
    Millis(u32),
    /// The time between two steps of gravity at this level.
    Gravity(u32),
}

/// What becomes of one of the four timers of a session.
#[derive(Clone, Copy, PartialEq, Eq, Debug, Structural)]
pub enum TimerChange {
    /// It is left as it is.
    Keep,
    /// It is stopped, if it runs.
    Cancel,
    /// It is started anew, in place of the one that may run: after the delay
    /// the session is told the message.
    Arm(TimerDelay, GameMsg),
}

/// What a session lets its surroundings know.
#[derive(Clone, Copy, PartialEq, Eq, Debug, Structural)]
pub enum GameEvent {
    /// The score has changed to this.
    ScoreChanged(u32),
    /// So many rows have been cleared at once.
    LinesCleared(u32),
    /// The level has changed to this.
    LevelChanged(u32),
    /// The game has ended with this score.
    GameOver(u32),
}

/// What a session asks of its host after it has been told a message.
pub struct Effects {
    /// Whether the board is to be drawn anew.
    pub redraw: bool,
    /// The messages that the session is to be told next, in this order.
    pub messages: Vec<GameMsg>,
    /// What has happened, in this order.
    pub events: Vec<GameEvent>,
    /// The timer that repeats a sideways move.
    pub move_timer: TimerChange,
    /// The timer that repeats a step down.
    pub down_timer: TimerChange,
    /// The timer that locks a resting piece.
    pub lock_timer: TimerChange,
    /// The timer of gravity.
    pub gravity_timer: TimerChange,
}

/// The effects as contracts see them, field by field.
pub struct EffectsView {
    /// Whether the board is to be drawn anew.
    pub redraw: bool,
    /// The messages that the session is to be told next, in this order.
    pub messages: Seq<GameMsg>,
    /// What has happened, in this order.
    pub events: Seq<GameEvent>,
    /// The timer that repeats a sideways move.
    pub move_timer: TimerChange,
    /// The timer that repeats a step down.
    pub down_timer: TimerChange,
    /// The timer that locks a resting piece.
    pub lock_timer: TimerChange,
    /// The timer of gravity.
    pub gravity_timer: TimerChange,
}

impl View for Effects {
    type V = EffectsView;

    open spec fn view(&self) -> EffectsView {
        EffectsView {
            redraw: self.redraw,
            messages: self.messages@,
            events: self.events@,
            move_timer: self.move_timer,
            down_timer: self.down_timer,
            lock_timer: self.lock_timer,
            gravity_timer: self.gravity_timer,
        }
    }
}

impl EffectsView {
    /// No more than a request to draw, and the given messages.
    pub open spec fn quiet(messages: Seq<GameMsg>) -> Self {
        EffectsView {
            redraw: true,
            messages: messages,
            events: Seq::empty(),
            move_timer: TimerChange::Keep,
            down_timer: TimerChange::Keep,
            lock_timer: TimerChange::Keep,
            gravity_timer: TimerChange::Keep,
        }
    }
}

/// A session as contracts see it.
pub struct SessionView {
    /// The board.
    pub board: BoardView,
    /// The settings that the session was made with.
    pub settings: Settings,
    /// The level: one more than a tenth of the lines cleared.
    pub level: int,
    /// The score.
    pub score: int,
    /// The number of lines cleared.
    pub lines_cleared: int,
    /// How often the falling piece has come to rest and had its lock timer
    /// started.
    pub stick_counter: int,
    /// The piece that is held, if any.
    pub held_piece: Option<TetrisPieceType>,
    /// How often the falling piece has been exchanged since the last piece
    /// locked.
    pub held_piece_switch_count: int,
    /// The upcoming pieces, the next one first.
    pub piece_queue: Seq<TetrisPieceType>,
    /// Whether the game is over.
    pub game_end_screen: bool,
    /// Whether the timer of gravity has been started and not stopped.
    pub ticker_armed: bool,
    /// Whether the last sideways repeat was to the right, or none is under
    /// way.
    pub move_right: bool,
    /// Whether the timer that repeats a sideways move has been started and
    /// not stopped.
    pub move_armed: bool,
    /// Whether no repeat of the step down is under way.
    pub down_idle: bool,
    /// Whether the timer that repeats a step down has been started and not
    /// stopped.
    pub down_armed: bool,
    /// Whether the lock timer has been started and not stopped: the piece
    /// rests and waits to lock.
    pub stick_armed: bool,
    /// Where the touch began, in pixels from the left and from the top.
    pub touch_start_pos: (int, int),
    /// The column, in pixels, from which the next sideways drag counts.
    pub touch_anchor: int,
    /// Where the touch is.
    pub touch_pos: (int, int),
    /// Whether the touch has moved nothing yet, so that its release may
    /// rotate the piece.
    pub touch_can_rotate: bool,
}

/// The state after a message, and what the host is asked to do.
pub struct Outcome {
    /// The state after the message.
    pub next: SessionView,
    /// What the host is asked to do.
    pub effects: EffectsView,
}

/// The three states of a session.
#[derive(Clone, Copy, PartialEq, Eq, Debug, Structural)]
pub enum SessionState {
    /// A piece falls.
    Active,
    /// The piece rests and its lock timer runs.
    LockArmed,
    /// The last piece could not appear.
    GameOver,
}

/// The piece at the head of a queue, or I where the queue is empty.
pub open spec fn queue_head(queue: Seq<TetrisPieceType>) -> TetrisPieceType {
    if queue.len() > 0 {
        queue[0]
    } else {
        TetrisPieceType::I
    }
}

/// A queue without its head.
pub open spec fn queue_tail(queue: Seq<TetrisPieceType>) -> Seq<TetrisPieceType> {
    if queue.len() > 0 {
        queue.subrange(1, queue.len() as int)
    } else {
        queue
    }
}

/// The events for a change of score and level: the new score where it has
/// changed, the rows where some were cleared, the new level where it has
/// changed, and the end of the game with the final score.
pub open spec fn event_list(
    score_before: int,
    level_before: int,
    score: int,
    level: int,
    cleared: int,
    over: bool,
) -> Seq<GameEvent> {
    (if score != score_before {
        seq![GameEvent::ScoreChanged(score as u32)]
    } else {
        Seq::empty()
    }) + (if cleared > 0 {
        seq![GameEvent::LinesCleared(cleared as u32)]
    } else {
        Seq::empty()
    }) + (if level != level_before {
        seq![GameEvent::LevelChanged(level as u32)]
    } else {
        Seq::empty()
    }) + (if over {
        seq![GameEvent::GameOver(score as u32)]
    } else {
        Seq::empty()
    })
}

/// What has happened between two states.
pub open spec fn events_between(
    before: SessionView,
    after: SessionView,
    cleared: int,
    over: bool,
) -> Seq<GameEvent> {
    event_list(before.score, before.level, after.score, after.level, cleared, over)
}

/// The moves that a drag asks for: one to the right or to the left, and a
/// step down.
pub open spec fn drag_commands(right: bool, left: bool, down: bool) -> Seq<GameMsg> {
    (if right {
        seq![GameMsg::Right(InputTypes::Touch)]
    } else if left {
        seq![GameMsg::Left(InputTypes::Touch)]
    } else {
        Seq::empty()
    }) + (if down {
        seq![GameMsg::Down(InputTypes::Touch)]
    } else {
        Seq::empty()
    })
}

/// The command that the release of a touch asks for when it ends `dx` pixels
/// to the right of and `dy` pixels below where it began: a hard drop when it
/// ends lower by more than the release drag, a hold when higher, a rotation
/// when the touch has moved nothing and ends within the tap slack of its
/// first column.
pub open spec fn release_commands(dx: int, dy: int, can_rotate: bool) -> Seq<GameMsg> {
    if dy > RELEASE_DRAG {
        seq![GameMsg::Drop]
    } else if -dy > RELEASE_DRAG {
        seq![GameMsg::Hold]
    } else if can_rotate && -TAP_SLACK < dx < TAP_SLACK {
        seq![GameMsg::Rotate]
    } else {
        Seq::empty()
    }
}

/// What a session keeps of its board: it is valid and has the size of the
/// board of a session, and while the game is not over none of its rows is
/// full and its drop shadow is current.
#[verifier::opaque]
pub open spec fn board_ready(board: BoardView, over: bool) -> bool {
    &&& board.wf()
    &&& board.width == BOARD_WIDTH
    &&& board.rows == BOARD_HEIGHT + BUFFER_ROWS
    &&& (!over ==> board.full_rows() == 0)
    &&& (!over ==> board.shadow_current())
}

impl SessionView {
    /// The validity of a session.
    pub open spec fn wf(self) -> bool {
        &&& board_ready(self.board, self.game_end_screen)
        &&& 0 <= self.score <= u32::MAX
        &&& 0 <= self.lines_cleared <= u32::MAX
        &&& self.level == level_of(self.lines_cleared)
        &&& 0 <= self.stick_counter <= u32::MAX
        &&& (self.stick_armed || self.stick_counter == 0 || self.stick_counter
            < self.settings.moves_before_lock)
        &&& 0 <= self.held_piece_switch_count <= self.settings.max_num_held_piece_switches
        &&& self.settings.usable()
        &&& i32::MIN <= self.touch_start_pos.0 <= i32::MAX
        &&& i32::MIN <= self.touch_start_pos.1 <= i32::MAX
        &&& i32::MIN <= self.touch_pos.0 <= i32::MAX
        &&& i32::MIN <= self.touch_pos.1 <= i32::MAX
        &&& i32::MIN <= self.touch_anchor <= i32::MAX
    }

    /// Whether the counters have room for what one message can add: a hard
    /// drop and four rows at the current level, and four lines.
    pub open spec fn headroom(self) -> bool {
        &&& self.score + 800 * self.level + 64 <= u32::MAX
        &&& self.lines_cleared + 4 <= u32::MAX
    }

    /// The state of the session.
    pub open spec fn state(self) -> SessionState {
        if self.game_end_screen {
            SessionState::GameOver
        } else if self.stick_armed {
            SessionState::LockArmed
        } else {
            SessionState::Active
        }
    }

    /// The message that starts gravity, where its timer does not run.
    pub open spec fn wake(self) -> Seq<GameMsg> {
        if self.ticker_armed {
            Seq::empty()
        } else {
            seq![GameMsg::Tick]
        }
    }

    /// Whether a move puts the lock off: it has moved the piece, and the
    /// piece has not come to rest as often as the settings allow.
    pub open spec fn puts_lock_off(self, acted: bool) -> bool {
        acted && self.stick_counter < self.settings.moves_before_lock
    }

    /// What becomes of the lock timer after a move.
    pub open spec fn lock_after(self, acted: bool) -> TimerChange {
        if self.puts_lock_off(acted) && self.stick_armed {
            TimerChange::Cancel
        } else {
            TimerChange::Keep
        }
    }

    /// What becomes of the lock timer when a new piece appears.
    pub open spec fn lock_reset(self) -> TimerChange {
        if self.stick_armed {
            TimerChange::Cancel
        } else {
            TimerChange::Keep
        }
    }

    /// A move to the left or to the right. A key press is taken when no
    /// repeat is under way or the repeat goes the other way, a repeat and a
    /// drag always. The piece moves if it can; a key press starts the repeat
    /// timer with the hold time, a repeat with the repeat interval; a move
    /// that succeeded puts the lock off.
    pub open spec fn step_sideways(self, kind: InputTypes, right: bool) -> Outcome {
        if !self.move_armed || kind == InputTypes::Hold || self.move_right != right {
            let board = if right {
                self.board.moved_right()
            } else {
                self.board.moved_left()
            };
            let acted = board.loc != self.board.loc;
            let timed = kind != InputTypes::Touch;
            let again = if right {
                GameMsg::Right(InputTypes::Hold)
            } else {
                GameMsg::Left(InputTypes::Hold)
            };
            let delay = if kind == InputTypes::Hold {
                self.settings.hold_move_interval
            } else {
                self.settings.hold_time
            };
            Outcome {
                next: SessionView {
                    board: board,
                    move_right: if timed {
                        right
                    } else {
                        self.move_right
                    },
                    move_armed: timed || self.move_armed,
                    stick_armed: self.stick_armed && !self.puts_lock_off(acted),
                    ..self
                },
                effects: EffectsView {
                    move_timer: if timed {
                        TimerChange::Arm(TimerDelay::Millis(delay), again)
                    } else {
                        TimerChange::Keep
                    },
                    lock_timer: self.lock_after(acted),
                    ..EffectsView::quiet(self.wake())
                },
            }
        } else {
            Outcome { next: self, effects: EffectsView::quiet(self.wake()) }
        }
    }

    /// A step down, taken as a sideways move is. A step that succeeded adds
    /// one point and puts the lock off.
    pub open spec fn step_down(self, kind: InputTypes) -> Outcome {
        if !self.down_armed || kind == InputTypes::Hold || self.down_idle {
            let acted = self.board.fits_at(self.board.loc - self.board.width, self.board.rot);
            let timed = kind != InputTypes::Touch;
            let delay = if kind == InputTypes::Hold {
                self.settings.down_hold_move_interval
            } else {
                self.settings.down_hold_time
            };
            let next = SessionView {
                board: self.board.moved_down(),
                score: if acted {
                    self.score + 1
                } else {
                    self.score
                },
                down_idle: self.down_idle && !timed,
                down_armed: timed || self.down_armed,
                stick_armed: self.stick_armed && !self.puts_lock_off(acted),
                ..self
            };
            Outcome {
                next: next,
                effects: EffectsView {
                    down_timer: if timed {
                        TimerChange::Arm(TimerDelay::Millis(delay), GameMsg::Down(InputTypes::Hold))
                    } else {
                        TimerChange::Keep
                    },
                    lock_timer: self.lock_after(acted),
                    events: events_between(self, next, 0, false),
                    ..EffectsView::quiet(self.wake())
                },
            }
        } else {
            Outcome { next: self, effects: EffectsView::quiet(self.wake()) }
        }
    }

    /// A hard drop. After the end of the game it is ignored: nothing changes
    /// and nothing is asked of the host. Otherwise the piece falls to rest
    /// and settles, for two points a row, and the head of the queue appears.
    /// If it collides, the game is over. Otherwise the queue is filled up
    /// with `supply` if it holds no more than the settings ask to show, the
    /// full rows are cleared and scored at the level before, and the lock and
    /// hold counters start anew.
    pub open spec fn step_drop(self, supply: Seq<TetrisPieceType>) -> Outcome {
        if self.game_end_screen {
            Outcome {
                next: self,
                effects: EffectsView { redraw: false, ..EffectsView::quiet(Seq::empty()) },
            }
        } else {
            let rows = self.board.descent(self.board.loc);
            let spawned = self.board.dropped().spawned(queue_head(self.piece_queue));
            let rest = queue_tail(self.piece_queue);
            let landed_score = self.score + drop_score(rows as int);
            if spawned.overlaps_at(spawned.loc, spawned.rot) {
                let next = SessionView {
                    board: spawned,
                    score: landed_score,
                    piece_queue: rest,
                    game_end_screen: true,
                    ticker_armed: false,
                    ..self
                };
                Outcome {
                    next: next,
                    effects: EffectsView {
                        gravity_timer: TimerChange::Cancel,
                        events: events_between(self, next, 0, true),
                        ..EffectsView::quiet(self.wake())
                    },
                }
            } else {
                let cleared = spawned.full_rows();
                let lines = self.lines_cleared + cleared;
                let next = SessionView {
                    board: spawned.cleared().with_shadow(),
                    score: landed_score + line_score(cleared as int) * self.level,
                    lines_cleared: lines,
                    level: level_of(lines),
                    piece_queue: if rest.len() <= self.settings.queue_display_len {
                        rest + supply
                    } else {
                        rest
                    },
                    stick_counter: 0,
                    stick_armed: false,
                    held_piece_switch_count: 0,
                    ..self
                };
                Outcome {
                    next: next,
                    effects: EffectsView {
                        lock_timer: self.lock_reset(),
                        events: events_between(self, next, cleared as int, false),
                        ..EffectsView::quiet(self.wake())
                    },
                }
            }
        }
    }

    /// A session at its start with the given settings and pieces: the first
    /// of the pieces falls on an empty board and the others wait in the
    /// queue; no timer runs.
    pub open spec fn started(settings: Settings, pieces: Seq<TetrisPieceType>) -> Self {
        SessionView {
            board: BoardView::empty(BOARD_WIDTH as int, BOARD_HEIGHT + BUFFER_ROWS, queue_head(pieces)),
            settings: settings,
            level: 1,
            score: 0,
            lines_cleared: 0,
            stick_counter: 0,
            held_piece: None,
            held_piece_switch_count: 0,
            piece_queue: queue_tail(pieces),
            game_end_screen: false,
            ticker_armed: false,
            move_right: true,
            move_armed: false,
            down_idle: true,
            down_armed: false,
            stick_armed: false,
            touch_start_pos: (0, 0),
            touch_anchor: 0,
            touch_pos: (0, 0),
            touch_can_rotate: true,
        }
    }

    /// The session at the start of a new game with `fresh` as its first
    /// piece: an empty board, no score, no lines, nothing held.
    pub open spec fn restarted(self, fresh: TetrisPieceType) -> Self {
        SessionView {
            game_end_screen: false,
            board: BoardView::empty(BOARD_WIDTH as int, BOARD_HEIGHT + BUFFER_ROWS, fresh),
            level: 1,
            score: 0,
            lines_cleared: 0,
            held_piece: None,
            ..self
        }
    }

    /// A step of gravity. After the end of a game it first starts a new
    /// one. The piece moves down if it can; if it cannot and no lock timer
    /// runs, one is started and counted. The timer of gravity is started
    /// anew for the level.
    pub open spec fn step_tick(self, fresh: TetrisPieceType) -> Outcome {
        let base = if self.game_end_screen {
            self.restarted(fresh)
        } else {
            self
        };
        let rests = !base.board.fits_at(base.board.loc - base.board.width, base.board.rot);
        let arm = rests && !base.stick_armed;
        let next = SessionView {
            board: base.board.moved_down(),
            stick_counter: if arm {
                base.stick_counter + 1
            } else {
                base.stick_counter
            },
            stick_armed: base.stick_armed || arm,
            ticker_armed: true,
            ..base
        };
        Outcome {
            next: next,
            effects: EffectsView {
                lock_timer: if arm {
                    TimerChange::Arm(TimerDelay::Millis(self.settings.lock_delay), GameMsg::Drop)
                } else {
                    TimerChange::Keep
                },
                gravity_timer: TimerChange::Arm(
                    TimerDelay::Gravity(next.level as u32),
                    GameMsg::Tick,
                ),
                events: events_between(self, next, 0, false),
                ..EffectsView::quiet(Seq::empty())
            },
        }
    }

    /// Whether the falling piece may still be exchanged with the held one.
    pub open spec fn may_hold(self) -> bool {
        !self.game_end_screen && self.held_piece_switch_count
            < self.settings.max_num_held_piece_switches
    }

    /// An exchange of the falling piece with the held one. Where none is
    /// held, the head of the queue appears instead. After the end of the
    /// game the command is ignored: nothing changes and nothing is asked of
    /// the host but to draw. When the piece has been exchanged as often as
    /// the settings allow, nothing changes.
    pub open spec fn step_hold(self) -> Outcome {
        if self.game_end_screen {
            Outcome { next: self, effects: EffectsView::quiet(Seq::empty()) }
        } else if self.may_hold() {
            let incoming = match self.held_piece {
                Some(piece) => piece,
                None => queue_head(self.piece_queue),
            };
            Outcome {
                next: SessionView {
                    board: self.board.spawned(incoming).with_shadow(),
                    held_piece: Some(self.board.piece),
                    piece_queue: if self.held_piece is None {
                        queue_tail(self.piece_queue)
                    } else {
                        self.piece_queue
                    },
                    held_piece_switch_count: self.held_piece_switch_count + 1,
                    stick_counter: 0,
                    stick_armed: false,
                    ..self
                },
                effects: EffectsView {
                    lock_timer: self.lock_reset(),
                    ..EffectsView::quiet(self.wake())
                },
            }
        } else {
            Outcome { next: self, effects: EffectsView::quiet(self.wake()) }
        }
    }

    /// A clockwise rotation. One that succeeded puts the lock off.
    pub open spec fn step_rotate(self) -> Outcome {
        let board = self.board.rotated();
        let acted = board.rot != self.board.rot;
        Outcome {
            next: SessionView {
                board: board,
                stick_armed: self.stick_armed && !self.puts_lock_off(acted),
                ..self
            },
            effects: EffectsView {
                lock_timer: self.lock_after(acted),
                ..EffectsView::quiet(self.wake())
            },
        }
    }

    /// The release of the down key stops the repeat of the step down.
    pub open spec fn step_cancel_down(self) -> Outcome {
        if !self.down_idle {
            Outcome {
                next: SessionView { down_idle: true, down_armed: false, ..self },
                effects: EffectsView {
                    down_timer: TimerChange::Cancel,
                    ..EffectsView::quiet(Seq::empty())
                },
            }
        } else {
            Outcome { next: self, effects: EffectsView::quiet(Seq::empty()) }
        }
    }

    /// The release of a sideways key stops the repeat in its direction.
    pub open spec fn step_cancel_sideways(self, right: bool) -> Outcome {
        if self.move_right == right {
            Outcome {
                next: SessionView { move_right: true, move_armed: false, ..self },
                effects: EffectsView {
                    move_timer: TimerChange::Cancel,
                    ..EffectsView::quiet(Seq::empty())
                },
            }
        } else {
            Outcome { next: self, effects: EffectsView::quiet(Seq::empty()) }
        }
    }

    /// The loss of focus stops gravity.
    pub open spec fn step_unfocus(self) -> Outcome {
        Outcome {
            next: SessionView { ticker_armed: false, ..self },
            effects: EffectsView {
                gravity_timer: TimerChange::Cancel,
                ..EffectsView::quiet(Seq::empty())
            },
        }
    }

    /// The start of a touch is where its drags are measured from.
    pub open spec fn step_touch_start(self, x: int, y: int) -> Outcome {
        Outcome {
            next: SessionView {
                touch_start_pos: (x, y),
                touch_pos: (x, y),
                touch_anchor: x,
                ..self
            },
            effects: EffectsView::quiet(self.wake()),
        }
    }

    /// A touch that has moved sideways by the configured width since the
    /// last move asks for a move of one column that way, and one that has
    /// moved down by more than the soft-drop drag asks for a step down.
    pub open spec fn step_touch_move(self, x: int, y: int) -> Outcome {
        let dx = x - self.touch_anchor;
        let right = dx >= self.settings.touch_horiz_sens;
        let left = !right && dx <= -self.settings.touch_horiz_sens;
        let down = y - self.touch_start_pos.1 > SOFT_DROP_DRAG;
        Outcome {
            next: SessionView {
                touch_anchor: if right || left {
                    x
                } else {
                    self.touch_anchor
                },
                touch_can_rotate: self.touch_can_rotate && !right && !left && !down,
                touch_pos: (x, y),
                ..self
            },
            effects: EffectsView::quiet(drag_commands(right, left, down)),
        }
    }

    /// The command that the release of the touch asks for.
    pub open spec fn release_command(self) -> Seq<GameMsg> {
        release_commands(
            self.touch_pos.0 - self.touch_start_pos.0,
            self.touch_pos.1 - self.touch_start_pos.1,
            self.touch_can_rotate,
        )
    }

    /// The end of a touch.
    pub open spec fn step_touch_end(self) -> Outcome {
        Outcome {
            next: SessionView { touch_can_rotate: true, ..self },
            effects: EffectsView::quiet(self.release_command()),
        }
    }

    /// Whether a message draws pieces for the queue: a hard drop in a
    /// running game does, and no other message.
    pub open spec fn draws_supply(self, msg: GameMsg) -> bool {
        msg == GameMsg::Drop && !self.game_end_screen
    }

    /// Whether `supply` is what a session draws for a message: for a hard
    /// drop in a running game a sequence that the randomizer of the
    /// settings makes for a request as long as the settings ask to show,
    /// whole fair bags or as many single draws; for every other message
    /// nothing.
    pub open spec fn may_supply(self, msg: GameMsg, supply: Seq<TetrisPieceType>) -> bool {
        if self.draws_supply(msg) {
            match self.settings.randomizer {
                Randomizers::RandomGenerator => supply.len() == bag_len(
                    self.settings.queue_display_len as int,
                ) && is_bag_sequence(supply),
                Randomizers::Random => supply.len() == self.settings.queue_display_len,
            }
        } else {
            supply.len() == 0
        }
    }

    /// Whether `fresh` is what a session draws for a message as the first
    /// piece of a new game: any piece for a step of gravity after the end
    /// of a game; for every other message no piece is drawn, and I stands
    /// in.
    pub open spec fn may_start_with(self, msg: GameMsg, fresh: TetrisPieceType) -> bool {
        (msg == GameMsg::Tick && self.game_end_screen) || fresh == TetrisPieceType::I
    }

    /// What a message does to a session. `supply` is what the queue is
    /// filled up with where a hard drop finds it short, `fresh` the first
    /// piece of a game that a step of gravity starts.
    pub open spec fn step(
        self,
        msg: GameMsg,
        supply: Seq<TetrisPieceType>,
        fresh: TetrisPieceType,
    ) -> Outcome {
        match msg {
            GameMsg::Left(kind) => self.step_sideways(kind, false),
            GameMsg::Right(kind) => self.step_sideways(kind, true),
            GameMsg::Down(kind) => self.step_down(kind),
            GameMsg::Drop => self.step_drop(supply),
            GameMsg::Tick => self.step_tick(fresh),
            GameMsg::Hold => self.step_hold(),
            GameMsg::Rotate => self.step_rotate(),
            GameMsg::CancelDown => self.step_cancel_down(),
            GameMsg::CancelRight => self.step_cancel_sideways(true),
            GameMsg::CancelLeft => self.step_cancel_sideways(false),
            GameMsg::TouchStart(x, y) => self.step_touch_start(x as int, y as int),
            GameMsg::TouchMove(x, y) => self.step_touch_move(x as int, y as int),
            GameMsg::TouchEnd => self.step_touch_end(),
            GameMsg::Unfocus => self.step_unfocus(),
            GameMsg::Nothing => Outcome { next: self, effects: EffectsView::quiet(Seq::empty()) },
        }
    }
}

/// A hard drop in a running game adds two points for each row that the
/// piece falls. If the next piece can appear, it also adds what the rows
/// cleared are worth at the level before the drop, which for four rows at
/// level 1 is 800; the lines cleared are counted, and the level is one more
/// than a tenth of them, rounded down.
pub proof fn lemma_hard_drop_score(s: SessionView, supply: Seq<TetrisPieceType>)
    requires
        !s.game_end_screen,
    ensures
        ({
            let next = s.step_drop(supply).next;
            let rows = s.board.descent(s.board.loc) as int;
            let cleared = s.board.dropped().spawned(queue_head(s.piece_queue)).full_rows() as int;
            &&& next.game_end_screen ==> next.score == s.score + 2 * rows
            &&& !next.game_end_screen ==> {
                &&& next.score == s.score + 2 * rows + line_score(cleared) * s.level
                &&& next.lines_cleared == s.lines_cleared + cleared
                &&& next.level == next.lines_cleared / 10 + 1
                &&& next.held_piece_switch_count == 0
                &&& cleared == 4 && s.level == 1 ==> next.score == s.score + 2 * rows + 800
            }
        }),
{
}

/// The level follows the lines: where the level is one more than a tenth of
/// the lines cleared, rounded down, it is so again after every message,
/// whatever the session is supplied with. A hard drop after which the game
/// goes on counts the rows that it clears; no other message in a running
/// game changes the count.
pub proof fn lemma_level_follows_lines(
    s: SessionView,
    msg: GameMsg,
    supply: Seq<TetrisPieceType>,
    fresh: TetrisPieceType,
)
    requires
        s.level == s.lines_cleared / 10 + 1,
    ensures
        ({
            let next = s.step(msg, supply, fresh).next;
            let cleared = s.board.dropped().spawned(queue_head(s.piece_queue)).full_rows();
            &&& next.level == next.lines_cleared / 10 + 1
            &&& !s.game_end_screen ==> next.lines_cleared == if msg == GameMsg::Drop
                && !next.game_end_screen {
                s.lines_cleared + cleared
            } else {
                s.lines_cleared
            }
        }),
{
}

/// A hard drop in a running game after which the game goes on leaves the
/// queue with at least as many pieces as the settings ask to show, and with
/// at most one piece less than before, if what it is supplied with is what a
/// session draws for it.
pub proof fn lemma_drop_fills_queue(s: SessionView, supply: Seq<TetrisPieceType>)
    requires
        s.may_supply(GameMsg::Drop, supply),
    ensures
        !s.game_end_screen && !s.step_drop(supply).next.game_end_screen ==> ({
            &&& s.step_drop(supply).next.piece_queue.len() >= s.settings.queue_display_len
            &&& s.step_drop(supply).next.piece_queue.len() >= s.piece_queue.len() - 1
        }),
{
}

/// Where the settings allow one exchange for each piece, a second hold of
/// the same piece changes nothing.
pub proof fn lemma_second_hold_is_idle(s: SessionView)
    requires
        s.wf(),
        s.settings.max_num_held_piece_switches == 1,
    ensures
        s.step_hold().next.step_hold().next == s.step_hold().next,
{
}

/// The message that a key asks for when it is pressed: C holds, the arrows
/// move, step down and rotate, the space bar drops.
pub open spec fn key_down_message(code: u32) -> GameMsg {
    if code == 67 {
        GameMsg::Hold
    } else if code == 40 {
        GameMsg::Down(InputTypes::Tap)
    } else if code == 39 {
        GameMsg::Right(InputTypes::Tap)
    } else if code == 38 {
        GameMsg::Rotate
    } else if code == 37 {
        GameMsg::Left(InputTypes::Tap)
    } else if code == 32 {
        GameMsg::Drop
    } else {
        GameMsg::Nothing
    }
}

/// The message that a key asks for when it is released: the arrows stop
/// their repeats, the escape key takes the focus away.
pub open spec fn key_up_message(code: u32) -> GameMsg {
    if code == 40 {
        GameMsg::CancelDown
    } else if code == 39 {
        GameMsg::CancelRight
    } else if code == 37 {
        GameMsg::CancelLeft
    } else if code == 27 {
        GameMsg::Unfocus
    } else {
        GameMsg::Nothing
    }
}

impl GameMsg {
    /// The message for a key that has been pressed, by its key code.
    pub fn from_key_down(code: u32) -> (msg: GameMsg)
        ensures
            msg == key_down_message(code),
    {
        match code {
            67 => GameMsg::Hold,
            40 => GameMsg::Down(InputTypes::Tap),
            39 => GameMsg::Right(InputTypes::Tap),
            38 => GameMsg::Rotate,
            37 => GameMsg::Left(InputTypes::Tap),
            32 => GameMsg::Drop,
            _ => GameMsg::Nothing,
        }
    }

    /// The message for a key that has been released, by its key code.
    pub fn from_key_up(code: u32) -> (msg: GameMsg)
        ensures
            msg == key_up_message(code),
    {
        match code {
            40 => GameMsg::CancelDown,
            39 => GameMsg::CancelRight,
            37 => GameMsg::CancelLeft,
            27 => GameMsg::Unfocus,
            _ => GameMsg::Nothing,
        }
    }
}

} // verus!
