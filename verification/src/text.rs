use vstd::prelude::*;

verus! {

/// Whether a character is one of the digits 0 to 9.
pub open spec fn is_digit(c: char) -> bool {
    48 <= c as u32 <= 57
}

/// The value of a digit.
pub open spec fn digit_value(c: char) -> int {
    c as u32 - 48
}

/// Whether every character is a digit.
pub open spec fn all_digits(s: Seq<char>) -> bool {
    forall|i: int| 0 <= i < s.len() ==> is_digit(#[trigger] s[i])
}

/// The number that a sequence of digits writes in base ten.
pub open spec fn digits_value(s: Seq<char>) -> int
    decreases s.len(),
{
    if s.len() == 0 {
        0
    } else {
        digits_value(s.drop_last()) * 10 + digit_value(s.last())
    }
}

/// The number that digits after an optional plus sign write; there is none
/// where a digit is missing or another character stands.
pub open spec fn unsigned_number(s: Seq<char>) -> Option<int> {
    let body = if s.len() > 0 && s[0] == '+' {
        s.subrange(1, s.len() as int)
    } else {
        s
    };
    if body.len() > 0 && all_digits(body) {
        Some(digits_value(body))
    } else {
        None
    }
}

/// The number that digits after an optional plus or minus sign write.
pub open spec fn signed_number(s: Seq<char>) -> Option<int> {
    if s.len() > 0 && s[0] == '-' {
        let body = s.subrange(1, s.len() as int);
        if body.len() > 0 && all_digits(body) {
            Some(-digits_value(body))
        } else {
            None
        }
    } else {
        unsigned_number(s)
    }
}

/// The `u32` that a text writes, if it writes one.
pub open spec fn parsed_u32(s: Seq<char>) -> Option<u32> {
    match unsigned_number(s) {
        Some(v) => if v <= u32::MAX {
            Some(v as u32)
        } else {
            None
        },
        None => None,
    }
}

/// The `usize` that a text writes, if it writes one.
pub open spec fn parsed_usize(s: Seq<char>) -> Option<usize> {
    match unsigned_number(s) {
        Some(v) => if v <= usize::MAX {
            Some(v as usize)
        } else {
            None
        },
        None => None,
    }
}

/// The `i32` that a text writes, if it writes one.
pub open spec fn parsed_i32(s: Seq<char>) -> Option<i32> {
    match signed_number(s) {
        Some(v) => if i32::MIN <= v <= i32::MAX {
            Some(v as i32)
        } else {
            None
        },
        None => None,
    }
}

/// More digits write no smaller a number: the first `k` digits of a
/// sequence write at most what the whole sequence writes.
pub proof fn lemma_digits_grow(s: Seq<char>, k: int)
    requires
        all_digits(s),
        0 <= k <= s.len(),
    ensures
        0 <= digits_value(s.subrange(0, k)) <= digits_value(s),
    decreases s.len() - k,
{
    if k == s.len() {
        assert(s.subrange(0, k) =~= s);
        lemma_digits_nonnegative(s);
    } else {
        lemma_digits_grow(s.drop_last(), k);
        assert(s.drop_last().subrange(0, k) =~= s.subrange(0, k));
        assert(is_digit(s.last()));
    }
}

/// Digits write a number that is not negative.
pub proof fn lemma_digits_nonnegative(s: Seq<char>)
    requires
        all_digits(s),
    ensures
        0 <= digits_value(s),
    decreases s.len(),
{
    if s.len() > 0 {
        lemma_digits_nonnegative(s.drop_last());
        assert(is_digit(s.last()));
    }
}

/// Reads the digits of `text` from place `from` to its end. Returns the
/// number that they write if there is at least one, all are digits, and the
/// number is at most `limit`.
fn read_digits(text: &str, from: usize, limit: u64) -> (r: Option<u64>)
    requires
        from <= text@.len(),
    ensures
        r is Some <==> ({
            let body = text@.subrange(from as int, text@.len() as int);
            body.len() > 0 && all_digits(body) && digits_value(body) <= limit
        }),
        r matches Some(v) ==> v == digits_value(
            text@.subrange(from as int, text@.len() as int),
        ),
{
    let len = text.unicode_len();
    if from == len {
        return None;
    }
    let ghost body = text@.subrange(from as int, len as int);
    let mut value: u128 = 0;
    let mut i: usize = from;
    while i < len
        invariant
            from <= i <= len,
            len == text@.len(),
            body == text@.subrange(from as int, len as int),
            all_digits(body.subrange(0, i - from)),
            value == digits_value(body.subrange(0, i - from)),
            value <= limit,
        decreases len - i,
    {
        let c = text.get_char(i);
        assert(body[i - from] == c);
        let code = c as u32;
        if code < 48 || code > 57 {
            assert(!is_digit(body[i - from]));
            return None;
        }
        let ghost longer = body.subrange(0, i - from + 1);
        assert(longer.drop_last() =~= body.subrange(0, i - from));
        assert(longer.last() == c);
        assert(all_digits(longer)) by {
            assert forall|j: int| 0 <= j < longer.len() implies is_digit(#[trigger] longer[j]) by {
                if j < i - from {
                    assert(longer[j] == body.subrange(0, i - from)[j]);
                }
            }
        }
        value = value * 10 + (code - 48) as u128;
        if value > limit as u128 {
            proof {
                if all_digits(body) {
                    lemma_digits_grow(body, i - from + 1);
                }
            }
            return None;
        }
        i += 1;
    }
    assert(body.subrange(0, i - from) =~= body);
    Some(value as u64)
}

/// Where the digits of an unsigned number begin: after the plus sign, if
/// there is one.
fn digits_start(text: &str) -> (from: usize)
    ensures
        from == if text@.len() > 0 && text@[0] == '+' {
            1int
        } else {
            0int
        },
{
    if text.unicode_len() > 0 && text.get_char(0) == '+' {
        1
    } else {
        0
    }
}

/// Reads the `u32` that a text writes: digits after an optional plus sign,
/// no larger than a `u32` can be.
pub fn parse_u32(text: &str) -> (r: Option<u32>)
    ensures
        r == parsed_u32(text@),
{
    assert(text@.subrange(0, text@.len() as int) =~= text@);
    match read_digits(text, digits_start(text), u32::MAX as u64) {
        Some(v) => Some(v as u32),
        None => None,
    }
}

/// Reads the `usize` that a text writes: digits after an optional plus
/// sign, no larger than a `usize` can be.
pub fn parse_usize(text: &str) -> (r: Option<usize>)
    ensures
        r == parsed_usize(text@),
{
    assert(text@.subrange(0, text@.len() as int) =~= text@);
    match read_digits(text, digits_start(text), usize::MAX as u64) {
        Some(v) => Some(v as usize),
        None => None,
    }
}

/// Reads the `i32` that a text writes: digits after an optional plus or
/// minus sign, within the range of an `i32`.
pub fn parse_i32(text: &str) -> (r: Option<i32>)
    ensures
        r == parsed_i32(text@),
{
    assert(text@.subrange(0, text@.len() as int) =~= text@);
    if text.unicode_len() > 0 && text.get_char(0) == '-' {
        match read_digits(text, 1, 0x8000_0000) {
            Some(v) => Some((-(v as i64)) as i32),
            None => None,
        }
    } else {
        match read_digits(text, digits_start(text), i32::MAX as u64) {
            Some(v) => Some(v as i32),
            None => None,
        }
    }
}

} // verus!
