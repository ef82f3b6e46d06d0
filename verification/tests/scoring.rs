use tetris_engine::randomizer::Randomizers;
use tetris_engine::scoring::{drop_award, level_for_lines, line_award};
use tetris_engine::settings::Settings;

#[test]
fn four_lines_at_level_one_are_worth_800() {
    assert_eq!(line_award(4, 1), 800);
}

#[test]
fn line_awards_grow_with_the_level() {
    assert_eq!(line_award(0, 5), 0);
    assert_eq!(line_award(1, 1), 100);
    assert_eq!(line_award(1, 3), 300);
    assert_eq!(line_award(2, 1), 300);
    assert_eq!(line_award(2, 4), 1200);
    assert_eq!(line_award(3, 2), 1000);
    assert_eq!(line_award(4, 7), 5600);
}

#[test]
fn level_rises_every_ten_lines() {
    assert_eq!(level_for_lines(0), 1);
    assert_eq!(level_for_lines(9), 1);
    assert_eq!(level_for_lines(10), 2);
    assert_eq!(level_for_lines(19), 2);
    assert_eq!(level_for_lines(25), 3);
    assert_eq!(level_for_lines(4294967295), 429496730);
}

#[test]
fn hard_drop_is_worth_two_points_a_row() {
    assert_eq!(drop_award(0), 0);
    assert_eq!(drop_award(1), 2);
    assert_eq!(drop_award(21), 42);
}

#[test]
fn default_settings() {
    let s = Settings::default();
    assert_eq!(s.hold_time, 150);
    assert_eq!(s.hold_move_interval, 60);
    assert_eq!(s.down_hold_time, 50);
    assert_eq!(s.down_hold_move_interval, 50);
    assert_eq!(s.max_num_held_piece_switches, 1);
    assert_eq!(s.queue_display_len, 4);
    assert_eq!(s.lock_delay, 500);
    assert_eq!(s.moves_before_lock, 15);
    assert_eq!(s.randomizer, Randomizers::RandomGenerator);
    assert_eq!(s.touch_horiz_sens, 25);
}
