use tetris_engine::piece::TetrisPieceType;
use tetris_engine::randomizer::{ordered_blocks, swap_in_block, Randomizers};

const ORDER: [TetrisPieceType; 7] = [
    TetrisPieceType::I,
    TetrisPieceType::J,
    TetrisPieceType::L,
    TetrisPieceType::O,
    TetrisPieceType::S,
    TetrisPieceType::T,
    TetrisPieceType::Z,
];

fn each_block_holds_each_type_once(seq: &[TetrisPieceType]) -> bool {
    seq.len() % 7 == 0
        && seq
            .chunks(7)
            .all(|block| ORDER.iter().all(|p| block.iter().filter(|q| *q == p).count() == 1))
}

#[test]
fn ordered_blocks_repeat_the_seven_types() {
    let seq = ordered_blocks(8);
    assert_eq!(seq.len(), 14);
    for (i, piece) in seq.iter().enumerate() {
        assert_eq!(*piece, ORDER[i % 7]);
    }
}

#[test]
fn ordered_blocks_round_up_to_whole_blocks() {
    assert_eq!(ordered_blocks(0).len(), 0);
    assert_eq!(ordered_blocks(1).len(), 7);
    assert_eq!(ordered_blocks(7).len(), 7);
    assert_eq!(ordered_blocks(8).len(), 14);
    assert_eq!(ordered_blocks(14).len(), 14);
    assert_eq!(ordered_blocks(15).len(), 21);
}

#[test]
fn swap_exchanges_within_the_block() {
    let mut seq = ordered_blocks(14);
    swap_in_block(&mut seq, 9, 0);
    let mut expected = ordered_blocks(14);
    expected[9] = TetrisPieceType::I;
    expected[7] = TetrisPieceType::L;
    assert_eq!(seq, expected);
    assert!(each_block_holds_each_type_once(&seq));
}

#[test]
fn swap_with_itself_changes_nothing() {
    let mut seq = ordered_blocks(7);
    swap_in_block(&mut seq, 3, 3);
    assert_eq!(seq, ordered_blocks(7));
}

#[test]
fn swap_in_the_first_block() {
    let mut seq = ordered_blocks(7);
    swap_in_block(&mut seq, 0, 6);
    assert_eq!(
        seq,
        vec![
            TetrisPieceType::Z,
            TetrisPieceType::J,
            TetrisPieceType::L,
            TetrisPieceType::O,
            TetrisPieceType::S,
            TetrisPieceType::T,
            TetrisPieceType::I,
        ]
    );
}

#[test]
fn bag_sequence_has_whole_fair_blocks() {
    for len in [1usize, 4, 7, 8, 20, 21] {
        let seq = Randomizers::RandomGenerator.make_sequence(len);
        assert_eq!(seq.len(), (len + 6) / 7 * 7);
        assert!(each_block_holds_each_type_once(&seq));
    }
}

#[test]
fn bag_sequence_of_one_block() {
    for _ in 0..40 {
        let seq = Randomizers::RandomGenerator.make_sequence(7);
        assert_eq!(seq.len(), 7);
        assert!(each_block_holds_each_type_once(&seq));
    }
}

#[test]
fn bag_sequence_for_no_piece_is_empty() {
    assert!(Randomizers::RandomGenerator.make_sequence(0).is_empty());
}

#[test]
fn uniform_sequence_has_the_length_asked_for() {
    for len in [0usize, 1, 6, 7, 8, 30] {
        assert_eq!(Randomizers::Random.make_sequence(len).len(), len);
    }
}

#[test]
fn randomizer_names() {
    assert_eq!(Randomizers::RandomGenerator.to_string(), "RandomGenerator");
    assert_eq!(Randomizers::Random.to_string(), "Random");
}

#[test]
fn bags_come_in_more_than_one_order() {
    let first = Randomizers::RandomGenerator.make_sequence(7);
    assert!((0..400).any(|_| Randomizers::RandomGenerator.make_sequence(7) != first));
}
