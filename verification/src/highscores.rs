use crate::settings::u32_or;
use crate::text::parse_u32;
use vstd::prelude::*;

verus! {

/// The number of scores from which on the list no longer grows.
pub const FULL_LIST: usize = 8;

/// The fields of a text, which commas part: a text without a comma is one
/// field, and every comma begins another.
pub open spec fn fields(s: Seq<char>) -> Seq<Seq<char>>
    decreases s.len(),
{
    if s.len() == 0 {
        seq![Seq::empty()]
    } else if s.last() == ',' {
        fields(s.drop_last()).push(Seq::empty())
    } else {
        let before = fields(s.drop_last());
        before.drop_last().push(before.last().push(s.last()))
    }
}

/// The scores that a stored text holds: one for each of its fields, 0 for a
/// field that writes no number.
pub open spec fn stored_scores(s: Seq<char>) -> Seq<u32> {
    fields(s).map_values(|field: Seq<char>| u32_or(field, 0))
}

/// Whether the scores stand in rising order.
pub open spec fn rising(scores: Seq<u32>) -> bool {
    forall|i: int, j: int| 0 <= i <= j < scores.len() ==> scores[i] <= scores[j]
}

/// The first place of the list at which no smaller score than `score`
/// stands; the length of the list if all are smaller.
pub open spec fn slot_for(scores: Seq<u32>, score: u32) -> int
    decreases scores.len(),
{
    if scores.len() == 0 || scores[0] >= score {
        0
    } else {
        1 + slot_for(scores.drop_first(), score)
    }
}

/// The list with `score` put in at its slot.
pub open spec fn put_in(scores: Seq<u32>, score: u32) -> Seq<u32> {
    scores.insert(slot_for(scores, score), score)
}

/// The list without the 0 that stands for "no score yet" at its head.
pub open spec fn without_blank(scores: Seq<u32>) -> Seq<u32> {
    if scores.len() > 0 && scores[0] == 0 {
        scores.drop_first()
    } else {
        scores
    }
}

/// The list of scores after a game has ended with `score`. A list that is
/// not full takes the score in at its slot. A full list keeps its last
/// score if that is larger than the new one, and else gives it up for the
/// new one.
pub open spec fn with_score(scores: Seq<u32>, score: u32) -> Seq<u32> {
    let known = without_blank(scores);
    if scores.len() < FULL_LIST {
        put_in(known, score)
    } else if known.len() > 0 && known.last() > score {
        known
    } else if known.len() > 0 {
        put_in(known.drop_last(), score)
    } else {
        put_in(known, score)
    }
}

/// The slot for a score lies within the list or at its end; in a rising
/// list, the scores before it are smaller and those from it on are not.
pub proof fn lemma_slot(scores: Seq<u32>, score: u32)
    ensures
        0 <= slot_for(scores, score) <= scores.len(),
        forall|i: int| 0 <= i < slot_for(scores, score) ==> scores[i] < score,
        slot_for(scores, score) < scores.len() ==> scores[slot_for(scores, score)] >= score,
        rising(scores) ==> forall|i: int|
            slot_for(scores, score) <= i < scores.len() ==> scores[i] >= score,
    decreases scores.len(),
{
    if scores.len() > 0 && scores[0] < score {
        let rest = scores.drop_first();
        lemma_slot(rest, score);
        assert forall|i: int| 0 <= i < slot_for(scores, score) implies scores[i] < score by {
            if i > 0 {
                assert(scores[i] == rest[i - 1]);
            }
        }
        if rising(scores) {
            assert(rising(rest)) by {
                assert forall|i: int, j: int| 0 <= i <= j < rest.len() implies rest[i]
                    <= rest[j] by {
                    assert(rest[i] == scores[i + 1] && rest[j] == scores[j + 1]);
                }
            }
            assert forall|i: int| slot_for(scores, score) <= i < scores.len() implies scores[i]
                >= score by {
                assert(scores[i] == rest[i - 1]);
            }
        }
    } else if scores.len() > 0 {
        if rising(scores) {
            assert forall|i: int| 0 <= i < scores.len() implies scores[i] >= score by {
                assert(scores[0] <= scores[i]);
            }
        }
    }
}

/// A rising list into which a score is put at its slot is a rising list.
pub proof fn lemma_put_in_keeps_rising(scores: Seq<u32>, score: u32)
    requires
        rising(scores),
    ensures
        rising(put_in(scores, score)),
        put_in(scores, score).len() == scores.len() + 1,
{
    lemma_slot(scores, score);
    let slot = slot_for(scores, score);
    let out = put_in(scores, score);
    assert forall|i: int, j: int| 0 <= i <= j < out.len() implies out[i] <= out[j] by {
        if i < slot && j > slot {
            assert(out[i] == scores[i] && out[j] == scores[j - 1]);
        } else if i > slot {
            assert(out[i] == scores[i - 1] && out[j] == scores[j - 1]);
        } else if j < slot {
            assert(out[i] == scores[i] && out[j] == scores[j]);
        } else if i == slot && j > slot {
            assert(out[j] == scores[j - 1]);
        } else if i < slot && j == slot {
            assert(out[i] == scores[i]);
        }
    }
}

/// The list after a game keeps rising if it did, and a full list does not
/// grow.
pub proof fn lemma_with_score_keeps_rising(scores: Seq<u32>, score: u32)
    requires
        rising(scores),
    ensures
        rising(with_score(scores, score)),
        with_score(scores, score).len() <= scores.len() + 1,
        scores.len() >= FULL_LIST ==> with_score(scores, score).len() <= scores.len(),
{
    let known = without_blank(scores);
    assert(rising(known)) by {
        assert forall|i: int, j: int| 0 <= i <= j < known.len() implies known[i] <= known[j] by {
            if scores.len() > 0 && scores[0] == 0 {
                assert(known[i] == scores[i + 1] && known[j] == scores[j + 1]);
            }
        }
    }
    if known.len() > 0 {
        let front = known.drop_last();
        assert(rising(front)) by {
            assert forall|i: int, j: int| 0 <= i <= j < front.len() implies front[i]
                <= front[j] by {
                assert(front[i] == known[i] && front[j] == known[j]);
            }
        }
        lemma_put_in_keeps_rising(front, score);
    }
    lemma_put_in_keeps_rising(known, score);
}

/// The first place of the list at which no smaller score stands.
fn find_slot(scores: &Vec<u32>, score: u32) -> (pos: usize)
    ensures
        pos == slot_for(scores@, score),
        pos <= scores@.len(),
{
    let mut pos: usize = 0;
    assert(scores@.subrange(0, scores@.len() as int) =~= scores@);
    while pos < scores.len() && scores[pos] < score
        invariant
            pos <= scores@.len(),
            slot_for(scores@, score) == pos + slot_for(
                scores@.subrange(pos as int, scores@.len() as int),
                score,
            ),
        decreases scores@.len() - pos,
    {
        proof {
            let here = scores@.subrange(pos as int, scores@.len() as int);
            assert(here.drop_first() =~= scores@.subrange(pos + 1, scores@.len() as int));
        }
        pos += 1;
    }
    proof {
        let here = scores@.subrange(pos as int, scores@.len() as int);
        if pos < scores@.len() {
            assert(here[0] == scores@[pos as int]);
        }
    }
    pos
}

/// Puts `score` into the list at its slot.
fn insert_score(scores: &mut Vec<u32>, score: u32)
    ensures
        final(scores)@ == put_in(old(scores)@, score),
{
    let pos = find_slot(scores, score);
    scores.insert(pos, score);
}

/// Reads the scores that a stored text holds.
pub fn parse_scores(text: &str) -> (scores: Vec<u32>)
    ensures
        scores@ == stored_scores(text@),
        scores@.len() >= 1,
{
    let len = text.unicode_len();
    let mut scores: Vec<u32> = Vec::new();
    let mut start: usize = 0;
    let mut i: usize = 0;
    proof {
        assert(text@.subrange(0, 0) =~= Seq::<char>::empty());
        assert(fields(text@.subrange(0, 0)) =~= Seq::<Seq<char>>::empty().push(
            text@.subrange(0, 0),
        ));
    }
    let ghost mut done: Seq<Seq<char>> = Seq::empty();
    while i < len
        invariant
            len == text@.len(),
            start <= i <= len,
            fields(text@.subrange(0, i as int)) == done.push(
                text@.subrange(start as int, i as int),
            ),
            scores@ == done.map_values(|field: Seq<char>| u32_or(field, 0)),
        decreases len - i,
    {
        let c = text.get_char(i);
        let ghost prefix = text@.subrange(0, i + 1);
        proof {
            assert(prefix.drop_last() =~= text@.subrange(0, i as int));
            assert(prefix.last() == c);
        }
        if c == ',' {
            let field = text.substring_char(start, i);
            let value = match parse_u32(field) {
                Some(v) => v,
                None => 0,
            };
            proof {
                let finished = done.push(text@.subrange(start as int, i as int));
                assert(finished.map_values(|field: Seq<char>| u32_or(field, 0)) =~= scores@.push(
                    value,
                ));
                done = finished;
                assert(text@.subrange(i + 1, i + 1) =~= Seq::<char>::empty());
            }
            scores.push(value);
            start = i + 1;
        } else {
            proof {
                let before = done.push(text@.subrange(start as int, i as int));
                assert(before.drop_last() =~= done);
                assert(before.last().push(c) =~= text@.subrange(start as int, i + 1));
            }
        }
        i += 1;
    }
    let field = text.substring_char(start, len);
    let value = match parse_u32(field) {
        Some(v) => v,
        None => 0,
    };
    proof {
        assert(text@.subrange(0, len as int) =~= text@);
        let finished = done.push(text@.subrange(start as int, len as int));
        assert(finished.map_values(|field: Seq<char>| u32_or(field, 0)) =~= scores@.push(value));
    }
    scores.push(value);
    scores
}

/// The list of scores after a game has ended with `score`.
pub fn add_score(scores: &Vec<u32>, score: u32) -> (list: Vec<u32>)
    requires
        scores@.len() > 0,
    ensures
        list@ == with_score(scores@, score),
        rising(scores@) ==> rising(list@),
        list@.len() <= scores@.len() + 1,
        scores@.len() >= FULL_LIST ==> list@.len() <= scores@.len(),
{
    proof {
        if rising(scores@) {
            lemma_with_score_keeps_rising(scores@, score);
        }
        lemma_slot(without_blank(scores@), score);
        if without_blank(scores@).len() > 0 {
            lemma_slot(without_blank(scores@).drop_last(), score);
        }
    }
    let mut cloned: Vec<u32> = Vec::new();
    let mut i: usize = if scores[0] == 0 {
        1
    } else {
        0
    };
    let ghost skipped = i;
    while i < scores.len()
        invariant
            skipped <= i <= scores@.len(),
            cloned@ == scores@.subrange(skipped as int, i as int),
        decreases scores@.len() - i,
    {
        cloned.push(scores[i]);
        assert(scores@.subrange(skipped as int, i + 1) =~= scores@.subrange(
            skipped as int,
            i as int,
        ).push(scores@[i as int]));
        i += 1;
    }
    assert(cloned@ =~= without_blank(scores@));
    if scores.len() < FULL_LIST {
        insert_score(&mut cloned, score);
    } else {
        match cloned.pop() {
            Some(last) => {
                if last > score {
                    cloned.push(last);
                    assert(cloned@ =~= without_blank(scores@));
                } else {
                    assert(cloned@ =~= without_blank(scores@).drop_last());
                    insert_score(&mut cloned, score);
                }
            },
            None => {
                insert_score(&mut cloned, score);
            },
        }
    }
    cloned
}

} // verus!
