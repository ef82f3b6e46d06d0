use crate::piece::{piece_of_int, TetrisPieceType};
use rand::Rng;
use vstd::prelude::*;

verus! {

/// How upcoming pieces are drawn.
#[derive(Clone, Copy, PartialEq, Eq, Debug, Structural)]
pub enum Randomizers {
    /// Bags of seven: every block of seven pieces holds each type once.
    RandomGenerator,
    /// Each piece is drawn on its own.
    Random,
}

/// The number of pieces in a block.
pub const BLOCK: usize = 7;

/// The length of the sequence that the bag policy makes for a request of
/// `len` pieces: `len` rounded up to whole blocks.
pub open spec fn bag_len(len: int) -> int {
    ((len + 6) / 7) * 7
}

/// How often `piece` occurs among the seven entries of `s` from `start` on.
pub open spec fn occurrences(s: Seq<TetrisPieceType>, start: int, piece: TetrisPieceType) -> int {
    (if s[start] == piece { 1int } else { 0 })
    + (if s[start + 1] == piece { 1int } else { 0 })
    + (if s[start + 2] == piece { 1int } else { 0 })
    + (if s[start + 3] == piece { 1int } else { 0 })
    + (if s[start + 4] == piece { 1int } else { 0 })
    + (if s[start + 5] == piece { 1int } else { 0 })
    + (if s[start + 6] == piece { 1int } else { 0 })
}

/// Whether the `k`-th block of seven entries of `s` holds each piece type
/// exactly once.
pub open spec fn block_complete(s: Seq<TetrisPieceType>, k: int) -> bool {
    forall|piece: TetrisPieceType| #[trigger] occurrences(s, 7 * k, piece) == 1
}

/// Whether `s` is made of whole blocks of seven, each of which holds each
/// piece type exactly once.
pub open spec fn is_bag_sequence(s: Seq<TetrisPieceType>) -> bool {
    &&& s.len() % 7 == 0
    &&& forall|k: int| 0 <= k < s.len() / 7 ==> #[trigger] block_complete(s, k)
}

/// `s` with the entries at `i` and `j` exchanged.
pub open spec fn swapped(s: Seq<TetrisPieceType>, i: int, j: int) -> Seq<TetrisPieceType> {
    s.update(i, s[j]).update(j, s[i])
}

/// The pieces of whole blocks for a request of `len`, before they are
/// shuffled: the seven types in the order I, J, L, O, S, T, Z, again and
/// again.
pub open spec fn ordered(len: int) -> Seq<TetrisPieceType> {
    Seq::new(bag_len(len) as nat, |i: int| piece_of_int(i % 7))
}

/// Whether `picks` are places within a block: numbers in `0..7`.
pub open spec fn within_block(picks: Seq<int>) -> bool {
    forall|i: int| 0 <= i < picks.len() ==> 0 <= #[trigger] picks[i] < 7
}

/// The sequence `s` shuffled with the picks: one place after the other, from
/// the first on, the entry at place `i` is exchanged with the entry at
/// place `picks[i]` of the block of seven in which `i` lies.
pub open spec fn shuffled(s: Seq<TetrisPieceType>, picks: Seq<int>) -> Seq<TetrisPieceType>
    decreases picks.len(),
{
    if picks.len() == 0 {
        s
    } else {
        let i = picks.len() - 1;
        swapped(shuffled(s, picks.drop_last()), i, picks.last() + (i / 7) * 7)
    }
}

/// The name of a policy.
pub open spec fn randomizer_name(r: Randomizers) -> Seq<char> {
    match r {
        Randomizers::RandomGenerator => "RandomGenerator"@,
        Randomizers::Random => "Random"@,
    }
}

/// Draws a number below `bound`: calls `rand::thread_rng` for the generator
/// of the current thread and `Rng::gen_range` on it with the range from 0
/// up to, and without, `bound`. `gen_range` panics on an empty range, which
/// the precondition excludes, and returns a value of the range; that the
/// result is below `bound` is all that is claimed of it. Nothing is proved
/// of either call. The generator is seeded by the system when a thread
/// first uses it, and the call panics if the system has no seed to give.
#[verifier::external_body]
fn random_below(bound: usize) -> (r: usize)
    requires
        0 < bound,
    ensures
        r < bound,
{
    rand::thread_rng().gen_range(0..bound)
}

/// A sequence of `bag_len(len)` pieces that repeats the seven types in the
/// order I, J, L, O, S, T, Z.
pub fn ordered_blocks(len: usize) -> (seq: Vec<TetrisPieceType>)
    requires
        bag_len(len as int) <= usize::MAX,
    ensures
        seq@ == ordered(len as int),
        seq@.len() == bag_len(len as int),
        forall|i: int| 0 <= i < seq@.len() ==> #[trigger] seq@[i] == piece_of_int(i % 7),
        is_bag_sequence(seq@),
{
    let blocks: usize = if len % BLOCK == 0 {
        len / BLOCK
    } else {
        len / BLOCK + 1
    };
    let total: usize = blocks * BLOCK;
    let mut seq: Vec<TetrisPieceType> = Vec::new();
    let mut i: usize = 0;
    while i < total
        invariant
            total == bag_len(len as int),
            total % 7 == 0,
            i <= total,
            seq@.len() == i,
            forall|j: int| 0 <= j < i ==> #[trigger] seq@[j] == piece_of_int(j % 7),
        decreases total - i,
    {
        seq.push(TetrisPieceType::from_int((i % BLOCK) as i32));
        i += 1;
    }
    proof {
        assert(seq@ =~= ordered(len as int));
        lemma_ordered_is_bag(len as int);
    }
    seq
}

/// Exchanges the entry at `i` with the entry at place `pick` of the block of
/// seven in which `i` lies. Whole blocks that hold each type once still do
/// so afterwards.
pub fn swap_in_block(seq: &mut Vec<TetrisPieceType>, i: usize, pick: usize)
    requires
        i < old(seq)@.len(),
        old(seq)@.len() % 7 == 0,
        pick < 7,
    ensures
        final(seq)@ == swapped(old(seq)@, i as int, pick + (i / 7) * 7),
        is_bag_sequence(old(seq)@) ==> is_bag_sequence(final(seq)@),
{
    let len = seq.len();
    assert((i / 7) * 7 + 7 <= len);
    let swap_idx = pick + (i / BLOCK) * BLOCK;
    let tempt = seq[swap_idx];
    let here = seq[i];
    seq.set(swap_idx, here);
    seq.set(i, tempt);
    proof {
        assert(seq@ =~= swapped(old(seq)@, i as int, swap_idx as int));
        if is_bag_sequence(old(seq)@) {
            lemma_swap_keeps_blocks(old(seq)@, i as int, pick as int);
        }
    }
}

/// An exchange within a block keeps every block complete.
pub proof fn lemma_swap_keeps_blocks(s: Seq<TetrisPieceType>, i: int, pick: int)
    requires
        is_bag_sequence(s),
        0 <= i < s.len(),
        0 <= pick < 7,
    ensures
        is_bag_sequence(swapped(s, i, pick + (i / 7) * 7)),
{
    let b = i / 7;
    let j = pick + b * 7;
    let t = swapped(s, i, j);
    assert(t.len() == s.len());
    assert forall|k: int| 0 <= k < t.len() / 7 implies #[trigger] block_complete(t, k) by {
        assert(block_complete(s, k));
        assert forall|piece: TetrisPieceType| #[trigger] occurrences(t, 7 * k, piece) == 1 by {
            assert(occurrences(s, 7 * k, piece) == 1);
            assert(occurrences(t, 7 * k, piece) == occurrences(s, 7 * k, piece));
        }
    }
}

/// The ordered blocks for a request of any length are whole blocks that hold
/// each type once.
pub proof fn lemma_ordered_is_bag(len: int)
    requires
        0 <= len,
    ensures
        ordered(len).len() == bag_len(len),
        is_bag_sequence(ordered(len)),
{
    let s = ordered(len);
    assert forall|k: int| 0 <= k < s.len() / 7 implies #[trigger] block_complete(s, k) by {
        assert(s[7 * k] == piece_of_int((7 * k) % 7));
        assert(s[7 * k + 1] == piece_of_int((7 * k + 1) % 7));
        assert(s[7 * k + 2] == piece_of_int((7 * k + 2) % 7));
        assert(s[7 * k + 3] == piece_of_int((7 * k + 3) % 7));
        assert(s[7 * k + 4] == piece_of_int((7 * k + 4) % 7));
        assert(s[7 * k + 5] == piece_of_int((7 * k + 5) % 7));
        assert(s[7 * k + 6] == piece_of_int((7 * k + 6) % 7));
    }
}

/// Shuffling keeps bags: whole blocks that hold each type once still do so
/// after any number of their places have been exchanged with picked places
/// of the same block.
pub proof fn lemma_shuffled_keeps_blocks(s: Seq<TetrisPieceType>, picks: Seq<int>)
    requires
        is_bag_sequence(s),
        picks.len() <= s.len(),
        within_block(picks),
    ensures
        shuffled(s, picks).len() == s.len(),
        is_bag_sequence(shuffled(s, picks)),
    decreases picks.len(),
{
    if picks.len() > 0 {
        let before = picks.drop_last();
        assert(within_block(before)) by {
            assert forall|i: int| 0 <= i < before.len() implies 0 <= #[trigger] before[i] < 7 by {
                assert(before[i] == picks[i]);
            }
        }
        lemma_shuffled_keeps_blocks(s, before);
        assert(0 <= picks[picks.len() - 1] < 7);
        lemma_swap_keeps_blocks(shuffled(s, before), picks.len() - 1, picks.last());
    }
}

/// For the bag policy, every block of seven pieces holds each of the seven
/// types exactly once, whatever the length asked for and whatever places
/// are drawn.
pub proof fn lemma_bags_are_fair(len: int, picks: Seq<int>)
    requires
        0 <= len,
        picks.len() == bag_len(len),
        within_block(picks),
    ensures
        shuffled(ordered(len), picks).len() == bag_len(len),
        is_bag_sequence(shuffled(ordered(len), picks)),
{
    lemma_ordered_is_bag(len);
    lemma_shuffled_keeps_blocks(ordered(len), picks);
}

/// Bags laid end to end are bags: a sequence of whole complete blocks
/// followed by another is a sequence of whole complete blocks.
pub proof fn lemma_bags_in_a_row(a: Seq<TetrisPieceType>, b: Seq<TetrisPieceType>)
    requires
        is_bag_sequence(a),
        is_bag_sequence(b),
    ensures
        is_bag_sequence(a + b),
{
    let s = a + b;
    let blocks = a.len() as int / 7;
    assert(a.len() == 7 * blocks);
    assert forall|k: int| 0 <= k < s.len() / 7 implies #[trigger] block_complete(s, k) by {
        if k < blocks {
            assert(block_complete(a, k));
            assert forall|piece: TetrisPieceType| #[trigger] occurrences(s, 7 * k, piece) == 1 by {
                assert(occurrences(a, 7 * k, piece) == 1);
                assert(s[7 * k] == a[7 * k] && s[7 * k + 1] == a[7 * k + 1] && s[7 * k + 2] == a[7
                    * k + 2] && s[7 * k + 3] == a[7 * k + 3] && s[7 * k + 4] == a[7 * k + 4] && s[7
                    * k + 5] == a[7 * k + 5] && s[7 * k + 6] == a[7 * k + 6]);
            }
        } else {
            let j = k - blocks;
            assert(block_complete(b, j));
            assert forall|piece: TetrisPieceType| #[trigger] occurrences(s, 7 * k, piece) == 1 by {
                assert(occurrences(b, 7 * j, piece) == 1);
                assert(s[7 * k] == b[7 * j] && s[7 * k + 1] == b[7 * j + 1] && s[7 * k + 2] == b[7
                    * j + 2] && s[7 * k + 3] == b[7 * j + 3] && s[7 * k + 4] == b[7 * j + 4] && s[7
                    * k + 5] == b[7 * j + 5] && s[7 * k + 6] == b[7 * j + 6]);
            }
        }
    }
}

impl Randomizers {
    /// Makes a sequence of upcoming pieces for a request of `len`. The bag
    /// policy rounds `len` up to whole blocks and shuffles each block by
    /// exchanging each of its places with a place drawn from the same
    /// block, so every block holds each type once. The other policy draws
    /// `len` pieces, each on its own.
    pub fn make_sequence(&self, len: usize) -> (seq: Vec<TetrisPieceType>)
        requires
            *self == Randomizers::RandomGenerator ==> bag_len(len as int) <= usize::MAX,
        ensures
            *self == Randomizers::RandomGenerator ==> seq@.len() == bag_len(len as int)
                && is_bag_sequence(seq@),
            *self == Randomizers::RandomGenerator ==> exists|picks: Seq<int>|
                picks.len() == bag_len(len as int) && within_block(picks) && seq@
                    == #[trigger] shuffled(ordered(len as int), picks),
            *self == Randomizers::Random ==> seq@.len() == len,
    {
        match self {
            Self::RandomGenerator => {
                let mut temp = ordered_blocks(len);
                let ghost mut picks: Seq<int> = Seq::empty();
                let mut i: usize = 0;
                while i < temp.len()
                    invariant
                        temp@.len() == bag_len(len as int),
                        is_bag_sequence(temp@),
                        i <= temp@.len(),
                        picks.len() == i,
                        within_block(picks),
                        temp@ == shuffled(ordered(len as int), picks),
                    decreases temp@.len() - i,
                {
                    let pick = random_below(BLOCK);
                    swap_in_block(&mut temp, i, pick);
                    proof {
                        let drawn = picks.push(pick as int);
                        assert(drawn.drop_last() =~= picks);
                        picks = drawn;
                    }
                    i += 1;
                }
                temp
            },
            Self::Random => {
                let mut seq: Vec<TetrisPieceType> = Vec::new();
                let mut i: usize = 0;
                while i < len
                    invariant
                        i <= len,
                        seq@.len() == i,
                    decreases len - i,
                {
                    seq.push(TetrisPieceType::get_random());
                    i += 1;
                }
                seq
            },
        }
    }

    /// The name of the policy.
    pub fn to_string(&self) -> (s: String)
        ensures
            s@ == randomizer_name(*self),
    {
        match self {
            Self::RandomGenerator => "RandomGenerator".to_owned(),
            Self::Random => "Random".to_owned(),
        }
    }
}

impl TetrisPieceType {
    /// A piece drawn at random.
    pub fn get_random() -> Self {
        TetrisPieceType::from_int(random_below(BLOCK) as i32)
    }
}

} // verus!
