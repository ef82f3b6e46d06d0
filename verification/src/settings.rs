use crate::randomizer::Randomizers;
use crate::text::{parse_i32, parse_u32, parse_usize, parsed_i32, parsed_u32, parsed_usize};
use vstd::prelude::*;

verus! {

/// What a session is configured with. Times are in milliseconds.
#[derive(Clone, Copy, PartialEq, Eq, Debug, Structural)]
pub struct Settings {
    /// How long a sideways key is held before the piece starts to repeat
    /// the move.
    pub hold_time: u32,
    /// The time between two repeated sideways moves.
    pub hold_move_interval: u32,
    /// How long the down key is held before the piece starts to repeat the
    /// step down.
    pub down_hold_time: u32,
    /// The time between two repeated steps down.
    pub down_hold_move_interval: u32,
    /// How often the falling piece may be exchanged with the held piece
    /// before it locks.
    pub max_num_held_piece_switches: u32,
    /// The number of upcoming pieces that are shown; the queue is filled up
    /// when it holds no more than these.
    pub queue_display_len: usize,
    /// How long a piece rests on the ground before it locks.
    pub lock_delay: u32,
    /// How often a piece may come to rest, and have its lock put off by a
    /// move, before moves no longer put the lock off.
    pub moves_before_lock: u32,
    /// How upcoming pieces are drawn.
    pub randomizer: Randomizers,
    /// The width of a sideways drag, in pixels, that moves the piece by one
    /// column.
    pub touch_horiz_sens: i32,
}

/// The settings that a session has unless it is told otherwise.
pub open spec fn default_settings() -> Settings {
    Settings {
        hold_time: 150,
        hold_move_interval: 60,
        down_hold_time: 50,
        down_hold_move_interval: 50,
        max_num_held_piece_switches: 1,
        queue_display_len: 4,
        lock_delay: 500,
        moves_before_lock: 15,
        randomizer: Randomizers::RandomGenerator,
        touch_horiz_sens: 25,
    }
}

impl Default for Settings {
    fn default() -> (s: Settings)
        ensures
            s == default_settings(),
    {
        Settings {
            hold_time: 150,
            hold_move_interval: 60,
            max_num_held_piece_switches: 1,
            queue_display_len: 4,
            lock_delay: 500,
            moves_before_lock: 15,
            randomizer: Randomizers::RandomGenerator,
            touch_horiz_sens: 25,
            down_hold_time: 50,
            down_hold_move_interval: 50,
        }
    }
}

/// The number that a text writes, or `fallback` where it writes none.
pub open spec fn u32_or(text: Seq<char>, fallback: u32) -> u32 {
    match parsed_u32(text) {
        Some(v) => v,
        None => fallback,
    }
}

/// The number of pieces to show that a text writes, or `fallback` where it
/// writes no number or one that is out of range: too large for a session to
/// round up to whole blocks of seven.
pub open spec fn shown_or(text: Seq<char>, fallback: usize) -> usize {
    match parsed_usize(text) {
        Some(v) => if v + 6 <= usize::MAX {
            v
        } else {
            fallback
        },
        None => fallback,
    }
}

/// The width that a text writes, or `fallback` where it writes no number or
/// a negative one.
pub open spec fn width_or(text: Seq<char>, fallback: i32) -> i32 {
    match parsed_i32(text) {
        Some(v) => if v >= 0 {
            v
        } else {
            fallback
        },
        None => fallback,
    }
}

/// The policy that a stored name stands for: the name of the policy that
/// draws each piece on its own stands for it, every other text for the
/// bags.
pub open spec fn randomizer_of(text: Seq<char>) -> Randomizers {
    if text == "Random"@ {
        Randomizers::Random
    } else {
        Randomizers::RandomGenerator
    }
}

/// The other policy.
pub open spec fn other_randomizer(r: Randomizers) -> Randomizers {
    match r {
        Randomizers::Random => Randomizers::RandomGenerator,
        Randomizers::RandomGenerator => Randomizers::Random,
    }
}

/// Reads the number that a text writes, or takes `fallback`.
fn read_u32_or(text: &str, fallback: u32) -> (r: u32)
    ensures
        r == u32_or(text@, fallback),
{
    match parse_u32(text) {
        Some(v) => v,
        None => fallback,
    }
}

/// Reads the number of pieces to show that a text writes, or takes
/// `fallback`.
fn read_shown_or(text: &str, fallback: usize) -> (r: usize)
    ensures
        r == shown_or(text@, fallback),
{
    match parse_usize(text) {
        Some(v) => if v <= usize::MAX - 6 {
            v
        } else {
            fallback
        },
        None => fallback,
    }
}

/// Reads the width that a text writes, or takes `fallback`.
fn read_width_or(text: &str, fallback: i32) -> (r: i32)
    ensures
        r == width_or(text@, fallback),
{
    match parse_i32(text) {
        Some(v) => if v >= 0 {
            v
        } else {
            fallback
        },
        None => fallback,
    }
}

/// Whether two texts are the same.
fn same_text(a: &str, b: &str) -> (same: bool)
    ensures
        same == (a@ == b@),
{
    String::from_str(a) == String::from_str(b)
}

impl Settings {
    /// The settings after a stored option has been read back. The options
    /// are known by the names under which they are stored. A value that
    /// writes no number, a negative one or one out of range does not enter
    /// the settings: the option falls back to its default. An unknown name
    /// changes nothing.
    pub open spec fn restored(self, name: Seq<char>, value: Seq<char>) -> Settings {
        let d = default_settings();
        if name == "hold_time"@ {
            Settings { hold_time: u32_or(value, d.hold_time), ..self }
        } else if name == "hold_move_interval"@ {
            Settings { hold_move_interval: u32_or(value, d.hold_move_interval), ..self }
        } else if name == "max_switches"@ {
            Settings {
                max_num_held_piece_switches: u32_or(value, d.max_num_held_piece_switches),
                ..self
            }
        } else if name == "randomizer"@ {
            Settings { randomizer: randomizer_of(value), ..self }
        } else if name == "lock_delay"@ {
            Settings { lock_delay: u32_or(value, d.lock_delay), ..self }
        } else if name == "moves_before_lock"@ {
            Settings { moves_before_lock: u32_or(value, d.moves_before_lock), ..self }
        } else if name == "touch_horiz_sens"@ {
            Settings { touch_horiz_sens: width_or(value, d.touch_horiz_sens), ..self }
        } else if name == "down_hold_time"@ {
            Settings { down_hold_time: u32_or(value, d.down_hold_time), ..self }
        } else if name == "down_hold_move_interval"@ {
            Settings {
                down_hold_move_interval: u32_or(value, d.down_hold_move_interval),
                ..self
            }
        } else {
            self
        }
    }

    /// The settings after the option with the number `id` has been entered
    /// anew. A value that writes no number, a negative one or one out of
    /// range does not enter the settings: the option falls back to its
    /// default. Option 4 is the randomizer, which changes to the other
    /// policy whatever is entered. An unknown number changes nothing.
    pub open spec fn changed(self, id: u32, value: Seq<char>) -> Settings {
        let d = default_settings();
        if id == 0 {
            Settings { hold_time: u32_or(value, d.hold_time), ..self }
        } else if id == 1 {
            Settings { hold_move_interval: u32_or(value, d.hold_move_interval), ..self }
        } else if id == 2 {
            Settings {
                max_num_held_piece_switches: u32_or(value, d.max_num_held_piece_switches),
                ..self
            }
        } else if id == 3 {
            Settings { queue_display_len: shown_or(value, d.queue_display_len), ..self }
        } else if id == 4 {
            Settings { randomizer: other_randomizer(self.randomizer), ..self }
        } else if id == 5 {
            Settings { lock_delay: u32_or(value, d.lock_delay), ..self }
        } else if id == 6 {
            Settings { moves_before_lock: u32_or(value, d.moves_before_lock), ..self }
        } else if id == 7 {
            Settings { touch_horiz_sens: width_or(value, d.touch_horiz_sens), ..self }
        } else if id == 8 {
            Settings { down_hold_time: u32_or(value, d.down_hold_time), ..self }
        } else if id == 9 {
            Settings {
                down_hold_move_interval: u32_or(value, d.down_hold_move_interval),
                ..self
            }
        } else {
            self
        }
    }

    /// Whether a session can be made with the settings: the number of
    /// pieces to show, rounded up to whole blocks of seven, is one that the
    /// machine can count.
    pub open spec fn usable(self) -> bool {
        self.queue_display_len + 6 <= usize::MAX
    }

    /// Whether a session can be made with the settings.
    pub fn is_usable(&self) -> (ok: bool)
        ensures
            ok == self.usable(),
    {
        self.queue_display_len <= usize::MAX - 6
    }

    /// Reads a stored option back.
    pub fn restore(&mut self, name: &str, value: &str)
        ensures
            *final(self) == old(self).restored(name@, value@),
            old(self).usable() ==> final(self).usable(),
            old(self).touch_horiz_sens >= 0 ==> final(self).touch_horiz_sens >= 0,
    {
        let d = Settings::default();
        if same_text(name, "hold_time") {
            self.hold_time = read_u32_or(value, d.hold_time);
        } else if same_text(name, "hold_move_interval") {
            self.hold_move_interval = read_u32_or(value, d.hold_move_interval);
        } else if same_text(name, "max_switches") {
            self.max_num_held_piece_switches = read_u32_or(value, d.max_num_held_piece_switches);
        } else if same_text(name, "randomizer") {
            self.randomizer = if same_text(value, "Random") {
                Randomizers::Random
            } else {
                Randomizers::RandomGenerator
            };
        } else if same_text(name, "lock_delay") {
            self.lock_delay = read_u32_or(value, d.lock_delay);
        } else if same_text(name, "moves_before_lock") {
            self.moves_before_lock = read_u32_or(value, d.moves_before_lock);
        } else if same_text(name, "touch_horiz_sens") {
            self.touch_horiz_sens = read_width_or(value, d.touch_horiz_sens);
        } else if same_text(name, "down_hold_time") {
            self.down_hold_time = read_u32_or(value, d.down_hold_time);
        } else if same_text(name, "down_hold_move_interval") {
            self.down_hold_move_interval = read_u32_or(value, d.down_hold_move_interval);
        }
    }

    /// Enters the option with the number `id` anew.
    pub fn change(&mut self, id: u32, value: &str)
        ensures
            *final(self) == old(self).changed(id, value@),
            old(self).usable() ==> final(self).usable(),
            old(self).touch_horiz_sens >= 0 ==> final(self).touch_horiz_sens >= 0,
    {
        let d = Settings::default();
        match id {
            0 => {
                self.hold_time = read_u32_or(value, d.hold_time);
            },
            1 => {
                self.hold_move_interval = read_u32_or(value, d.hold_move_interval);
            },
            2 => {
                self.max_num_held_piece_switches = read_u32_or(
                    value,
                    d.max_num_held_piece_switches,
                );
            },
            3 => {
                self.queue_display_len = read_shown_or(value, d.queue_display_len);
            },
            4 => {
                self.randomizer = match self.randomizer {
                    Randomizers::Random => Randomizers::RandomGenerator,
                    _ => Randomizers::Random,
                };
            },
            5 => {
                self.lock_delay = read_u32_or(value, d.lock_delay);
            },
            6 => {
                self.moves_before_lock = read_u32_or(value, d.moves_before_lock);
            },
            7 => {
                self.touch_horiz_sens = read_width_or(value, d.touch_horiz_sens);
            },
            8 => {
                self.down_hold_time = read_u32_or(value, d.down_hold_time);
            },
            9 => {
                self.down_hold_move_interval = read_u32_or(value, d.down_hold_move_interval);
            },
            _ => {},
        }
    }
}

} // verus!
