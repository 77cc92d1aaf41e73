//! The little text handling the rules need: trimming names.

use vstd::prelude::*;
use vstd::string::{StrSliceExecFns, StringExecFns};

verus! {

/// Whether `c` has the Unicode property White_Space.
pub open spec fn is_whitespace(c: char) -> bool {
    let code = c as u32;
    ||| 0x09 <= code <= 0x0D
    ||| code == 0x20
    ||| code == 0x85
    ||| code == 0xA0
    ||| code == 0x1680
    ||| 0x2000 <= code <= 0x200A
    ||| code == 0x2028
    ||| code == 0x2029
    ||| code == 0x202F
    ||| code == 0x205F
    ||| code == 0x3000
}

/// Index of the first character at or after `from` that is not white space,
/// or the length of `s` if there is none.
pub open spec fn trim_start_index(s: Seq<char>, from: int) -> int
    decreases s.len() - from,
{
    if 0 <= from < s.len() && is_whitespace(s[from]) {
        trim_start_index(s, from + 1)
    } else {
        from
    }
}

/// One past the index of the last character before `to` and at or after
/// `low` that is not white space, or `low` if there is none.
pub open spec fn trim_end_index(s: Seq<char>, low: int, to: int) -> int
    decreases to,
{
    if 0 <= low < to <= s.len() && is_whitespace(s[to - 1]) {
        trim_end_index(s, low, to - 1)
    } else {
        to
    }
}

/// `s` without its leading and trailing white space.
pub open spec fn trimmed(s: Seq<char>) -> Seq<char> {
    let start = trim_start_index(s, 0);
    s.subrange(start, trim_end_index(s, start, s.len() as int))
}

pub fn char_is_whitespace(c: char) -> (white: bool)
    ensures
        white == is_whitespace(c),
{
    let code: u32 = c as u32;
    (0x09 <= code && code <= 0x0D) || code == 0x20 || code == 0x85 || code == 0xA0 || code
        == 0x1680 || (0x2000 <= code && code <= 0x200A) || code == 0x2028 || code == 0x2029
        || code == 0x202F || code == 0x205F || code == 0x3000
}

/// Skipping white space from `from` lands on `a` when everything in between
/// is white space and `a` is not.
proof fn lemma_trim_start(s: Seq<char>, from: int, a: int)
    requires
        0 <= from <= a <= s.len(),
        forall|i: int| from <= i < a ==> is_whitespace(#[trigger] s[i]),
        a < s.len() ==> !is_whitespace(s[a]),
    ensures
        trim_start_index(s, from) == a,
    decreases a - from,
{
    if from < a {
        lemma_trim_start(s, from + 1, a);
    }
}

/// Skipping white space backwards from `to` lands on `b` when everything in
/// between is white space and the character before `b` is not.
proof fn lemma_trim_end(s: Seq<char>, low: int, b: int, to: int)
    requires
        0 <= low <= b <= to <= s.len(),
        forall|i: int| b <= i < to ==> is_whitespace(#[trigger] s[i]),
        low < b ==> !is_whitespace(s[b - 1]),
    ensures
        trim_end_index(s, low, to) == b,
    decreases to - b,
{
    if b < to {
        lemma_trim_end(s, low, b, to - 1);
    }
}

/// The part of `s` between its leading and its trailing white space.
pub fn trim(s: &str) -> (t: &str)
    ensures
        t@ == trimmed(s@),
{
    let mut start: usize = 0;
    let mut end: usize = 0;
    let mut seen: bool = false;
    let mut index: usize = 0;
    let ghost text = s@;
    let length: usize = s.unicode_len();
    for c in it: s.chars()
        invariant
            it.seq() == text,
            text.len() == length,
            index == it.index(),
            !seen ==> start == 0 && end == 0,
            !seen ==> forall|i: int| 0 <= i < index ==> is_whitespace(#[trigger] text[i]),
            seen ==> start < end <= index,
            seen ==> !is_whitespace(text[start as int]) && !is_whitespace(text[end - 1]),
            seen ==> forall|i: int| 0 <= i < start ==> is_whitespace(#[trigger] text[i]),
            seen ==> forall|i: int| end <= i < index ==> is_whitespace(#[trigger] text[i]),
    {
        if !char_is_whitespace(c) {
            if !seen {
                start = index;
                seen = true;
            }
            end = index + 1;
        }
        index = index + 1;
    }
    proof {
        if seen {
            lemma_trim_start(text, 0, start as int);
            lemma_trim_end(text, start as int, end as int, text.len() as int);
        } else {
            lemma_trim_start(text, 0, text.len() as int);
        }
    }
    if seen {
        s.substring_char(start, end)
    } else {
        s.substring_char(0, 0)
    }
}

/// The decimal digit that stands for `digit`, which is below ten.
pub open spec fn digit_char(digit: nat) -> char {
    if digit == 0 {
        '0'
    } else if digit == 1 {
        '1'
    } else if digit == 2 {
        '2'
    } else if digit == 3 {
        '3'
    } else if digit == 4 {
        '4'
    } else if digit == 5 {
        '5'
    } else if digit == 6 {
        '6'
    } else if digit == 7 {
        '7'
    } else if digit == 8 {
        '8'
    } else {
        '9'
    }
}

/// `n` written in decimal, without leading zeros.
pub open spec fn decimal(n: nat) -> Seq<char>
    decreases n,
{
    if n < 10 {
        seq![digit_char(n)]
    } else {
        decimal(n / 10).push(digit_char(n % 10))
    }
}

fn digit_str(digit: u64) -> (text: &'static str)
    requires
        digit < 10,
    ensures
        text@ == seq![digit_char(digit as nat)],
{
    proof {
        reveal_strlit("0");
        reveal_strlit("1");
        reveal_strlit("2");
        reveal_strlit("3");
        reveal_strlit("4");
        reveal_strlit("5");
        reveal_strlit("6");
        reveal_strlit("7");
        reveal_strlit("8");
        reveal_strlit("9");
    }
    let text: &'static str = if digit == 0 {
        "0"
    } else if digit == 1 {
        "1"
    } else if digit == 2 {
        "2"
    } else if digit == 3 {
        "3"
    } else if digit == 4 {
        "4"
    } else if digit == 5 {
        "5"
    } else if digit == 6 {
        "6"
    } else if digit == 7 {
        "7"
    } else if digit == 8 {
        "8"
    } else {
        "9"
    };
    assert(text@ =~= seq![digit_char(digit as nat)]);
    text
}

/// Writes a number in decimal.
pub fn to_decimal(n: u64) -> (text: String)
    ensures
        text@ == decimal(n as nat),
{
    let mut digits: Vec<u64> = Vec::new();
    let mut rest: u64 = n;
    while rest >= 10
        invariant
            forall|i: int| 0 <= i < digits@.len() ==> #[trigger] digits@[i] < 10,
            decimal(n as nat) == decimal(rest as nat) + Seq::new(
                digits@.len(),
                |i: int| digit_char(digits@[digits@.len() - 1 - i] as nat),
            ),
        decreases rest,
    {
        let ghost before = digits@;
        digits.push(rest % 10);
        proof {
            let tail_before = Seq::new(
                before.len(),
                |i: int| digit_char(before[before.len() - 1 - i] as nat),
            );
            let tail_after = Seq::new(
                digits@.len(),
                |i: int| digit_char(digits@[digits@.len() - 1 - i] as nat),
            );
            assert(tail_after =~= seq![digit_char((rest % 10) as nat)] + tail_before);
            assert(decimal(rest as nat) =~= decimal((rest / 10) as nat) + seq![
                digit_char((rest % 10) as nat),
            ]);
            assert(decimal(rest as nat) + tail_before =~= decimal((rest / 10) as nat) + tail_after);
        }
        rest = rest / 10;
    }
    let mut text: String = String::from_str(digit_str(rest));
    let mut left: usize = digits.len();
    let ghost tail = Seq::new(
        digits@.len(),
        |i: int| digit_char(digits@[digits@.len() - 1 - i] as nat),
    );
    assert(text@ =~= decimal(rest as nat) + tail.take(0));
    while left > 0
        invariant
            left <= digits@.len(),
            forall|i: int| 0 <= i < digits@.len() ==> #[trigger] digits@[i] < 10,
            tail == Seq::new(
                digits@.len(),
                |i: int| digit_char(digits@[digits@.len() - 1 - i] as nat),
            ),
            text@ == decimal(rest as nat) + tail.take(digits@.len() - left),
        decreases left,
    {
        left = left - 1;
        let ghost before = text@;
        text.append(digit_str(digits[left]));
        proof {
            let written = digits@.len() - left;
            assert(tail.take(written) =~= tail.take(written - 1).push(tail[written - 1]));
            assert(text@ =~= decimal(rest as nat) + tail.take(written));
        }
    }
    assert(tail.take(digits@.len() as int) =~= tail);
    text
}

} // verus!
