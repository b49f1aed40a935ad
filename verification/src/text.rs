//! Text building blocks: decimal numbers and the removal of a pattern.
pub mod laws;

use vstd::prelude::*;
use vstd::string::*;

verus! {

/// The decimal digit for `value`.
pub open spec fn digit(value: nat) -> char {
    (48 + value) as char
}

/// `value` in decimal, without leading zeros.
pub open spec fn decimal(value: nat) -> Seq<char>
    decreases value,
{
    if value < 10 {
        seq![digit(value)]
    } else {
        decimal(value / 10).push(digit(value % 10))
    }
}

/// `text` without the occurrences of `pattern` in it, found from left to right without overlap.
pub open spec fn without(text: Seq<char>, pattern: Seq<char>) -> Seq<char>
    decreases text.len(),
{
    if pattern.len() == 0 || text.len() < pattern.len() {
        text
    } else if text.take(pattern.len() as int) == pattern {
        without(text.skip(pattern.len() as int), pattern)
    } else {
        seq![text[0]] + without(text.skip(1), pattern)
    }
}

fn digit_text(value: u32) -> (text: &'static str)
    requires
        value < 10,
    ensures
        text@ == seq![digit(value as nat)],
{
    proof {
        reveal_strlit("0");
        reveal_strlit("1");
        reveal_strlit("2");
        reveal_strlit("3");
        reveal_strlit("4");
        reveal_strlit("5");
        reveal_strlit("6");
        reveal_strlit("7");
        reveal_strlit("8");
        reveal_strlit("9");
    }
    let text = match value {
        0 => "0",
        1 => "1",
        2 => "2",
        3 => "3",
        4 => "4",
        5 => "5",
        6 => "6",
        7 => "7",
        8 => "8",
        _ => "9",
    };
    text
}

/// Appends `value` in decimal.
pub fn push_decimal(text: &mut String, value: u32)
    ensures
        final(text)@ == old(text)@ + decimal(value as nat),
    decreases value,
{
    if value >= 10 {
        push_decimal(text, value / 10);
    }
    text.append(digit_text(value % 10));
}

/// Whether `pattern` stands in `text` from position `start` on.
fn occurs_at(text: &str, start: usize, pattern: &str) -> (found: bool)
    requires
        start + pattern@.len() <= text@.len(),
    ensures
        found == (text@.subrange(start as int, start + pattern@.len()) == pattern@),
{
    let length: usize = pattern.unicode_len();
    let total: usize = text.unicode_len();
    let mut i: usize = 0;
    while i < length
        invariant
            i <= length == pattern@.len(),
            start + length <= text@.len() == total,
            forall|j: int| 0 <= j < i ==> text@[start + j] == pattern@[j],
        decreases length - i,
    {
        if text.get_char(start + i) != pattern.get_char(i) {
            proof {
                assert(text@.subrange(start as int, start + length)[i as int] != pattern@[i as int]);
            }
            return false;
        }
        i = i + 1;
    }
    proof {
        assert(text@.subrange(start as int, start + length) =~= pattern@);
    }
    true
}

/// Removes every occurrence of `pattern`, see [`without`].
pub fn remove_all(text: &str, pattern: &str) -> (rest: String)
    ensures
        rest@ == without(text@, pattern@),
{
    let total: usize = text.unicode_len();
    let length: usize = pattern.unicode_len();
    if length == 0 {
        return text.to_string();
    }
    let mut rest = String::new();
    let mut i: usize = 0;
    proof {
        assert(text@.skip(0) =~= text@);
        assert(rest@ + without(text@, pattern@) =~= without(text@, pattern@));
    }
    while length <= total - i
        invariant
            0 < length == pattern@.len(),
            i <= total == text@.len(),
            rest@ + without(text@.skip(i as int), pattern@) == without(text@, pattern@),
        decreases total - i,
    {
        let ghost tail = text@.skip(i as int);
        proof {
            assert(tail.take(length as int) =~= text@.subrange(i as int, i + length));
        }
        if occurs_at(text, i, pattern) {
            proof {
                assert(tail.skip(length as int) =~= text@.skip(i + length));
            }
            i = i + length;
        } else {
            let ghost before = rest@;
            rest.append(text.substring_char(i, i + 1));
            proof {
                assert(tail.skip(1) =~= text@.skip(i + 1));
                assert(text@.subrange(i as int, i + 1) =~= seq![tail[0]]);
                assert(rest@ + without(tail.skip(1), pattern@) =~= before + (seq![tail[0]]
                    + without(tail.skip(1), pattern@)));
            }
            i = i + 1;
        }
    }
    rest.append(text.substring_char(i, total));
    proof {
        assert(text@.subrange(i as int, total as int) =~= text@.skip(i as int));
    }
    rest
}

} // verus!
