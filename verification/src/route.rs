//! Which paths of a request name a cell of the board.
use vstd::prelude::*;
use vstd::string::StrSliceExecFns;

verus! {

/// The text is a decimal number of absolute value below four: an optional sign, then
/// zeros as many as one likes, and a last digit from zero to three.
pub open spec fn is_small_number(text: Seq<char>) -> bool {
    is_small_digits(without_sign(text))
}

/// The text without the sign that it may begin with.
pub open spec fn without_sign(text: Seq<char>) -> Seq<char> {
    if text.len() > 0 && (text[0] == '+' || text[0] == '-') {
        text.skip(1)
    } else {
        text
    }
}

/// At least one digit, the last of them from zero to three and each one before it a zero.
pub open spec fn is_small_digits(digits: Seq<char>) -> bool {
    &&& digits.len() >= 1
    &&& forall|i: int| 0 <= i < digits.len() - 1 ==> (#[trigger] digits[i]) == '0'
    &&& '0' <= digits.last() <= '3'
}

/// How many small numbers stand among the parts that the slashes cut the path into,
/// counted from position `at` on, where the part that holds `at` begins at `start`.
pub open spec fn small_numbers_from(path: Seq<char>, start: int, at: int) -> nat
    decreases path.len() - at,
{
    if at >= path.len() {
        if is_small_number(path.subrange(start, path.len() as int)) {
            1
        } else {
            0
        }
    } else if path[at] == '/' {
        small_numbers_from(path, at + 1, at + 1) + if is_small_number(path.subrange(start, at)) {
            1nat
        } else {
            0nat
        }
    } else {
        small_numbers_from(path, start, at + 1)
    }
}

/// How many small numbers stand among the parts that the slashes cut the path into.
pub open spec fn small_numbers(path: Seq<char>) -> nat {
    small_numbers_from(path, 0, 0)
}

/// Whether the part of `path` from `from` up to `to` is a small number.
fn part_is_small_number(path: &str, from: usize, to: usize) -> (small: bool)
    requires
        from <= to <= path@.len(),
    ensures
        small == is_small_number(path@.subrange(from as int, to as int)),
{
    let ghost text = path@.subrange(from as int, to as int);
    if from == to {
        return false;
    }
    let first = path.get_char(from);
    assert(text[0] == first);
    let begin: usize = if first == '+' || first == '-' {
        from + 1
    } else {
        from
    };
    let ghost digits = without_sign(text);
    assert(digits =~= path@.subrange(begin as int, to as int));
    if begin == to {
        return false;
    }
    let mut i: usize = begin;
    while i < to - 1
        invariant
            from <= begin <= i <= to - 1,
            to <= path@.len(),
            text == path@.subrange(from as int, to as int),
            digits == path@.subrange(begin as int, to as int),
            digits == without_sign(text),
            forall|k: int| 0 <= k < i - begin ==> digits[k] == '0',
        decreases to - i,
    {
        if path.get_char(i) != '0' {
            assert(digits[i - begin] == path@[i as int]);
            return false;
        }
        i += 1;
    }
    let last = path.get_char(to - 1);
    assert(digits.last() == last);
    '0' <= last && last <= '3'
}

/// Whether a path names a cell of the board or a step on it: exactly two of the parts
/// that its slashes cut it into are numbers of absolute value below four.
pub fn board_pos_guard(path: &str) -> (valid: bool)
    ensures
        valid == (small_numbers(path@) == 2),
{
    let len = path.unicode_len();
    let mut count: usize = 0;
    let mut start: usize = 0;
    let mut at: usize = 0;
    while at < len
        invariant
            start <= at <= len,
            len == path@.len(),
            count <= at,
            small_numbers(path@) == count + small_numbers_from(path@, start as int, at as int),
        decreases len - at,
    {
        if path.get_char(at) == '/' {
            if part_is_small_number(path, start, at) {
                count += 1;
            }
            start = at + 1;
        }
        at += 1;
    }
    if part_is_small_number(path, start, len) {
        count == 1
    } else {
        count == 2
    }
}

} // verus!
