//! What decimal numbers denote, and what is left when a pattern is removed.
use super::{decimal, push_decimal, remove_all, without};
use vstd::prelude::*;
use vstd::string::*;

verus! {

/// Every character of `text` is a decimal digit.
pub open spec fn is_digits(text: Seq<char>) -> bool {
    forall|i: int| 0 <= i < text.len() ==> '0' <= #[trigger] text[i] <= '9'
}

/// The number that a text of decimal digits denotes.
pub open spec fn number(text: Seq<char>) -> int
    decreases text.len(),
{
    if text.len() == 0 {
        0
    } else {
        10 * number(text.drop_last()) + (text.last() as int - '0' as int)
    }
}

/// `text` is a number written in decimal, without leading zeros.
pub open spec fn is_decimal_of(text: Seq<char>, value: int) -> bool {
    &&& is_digits(text)
    &&& text.len() > 0
    &&& text.len() > 1 ==> text[0] != '0'
    &&& number(text) == value
}

proof fn lemma_digits_of_decimal(value: nat)
    ensures
        is_digits(decimal(value)),
        decimal(value).len() > 0,
        value > 0 ==> decimal(value)[0] != '0',
        value == 0 ==> decimal(value).len() == 1,
        number(decimal(value)) == value,
    decreases value,
{
    reveal_with_fuel(number, 2);
    if value >= 10 {
        lemma_digits_of_decimal(value / 10);
        assert(decimal(value).drop_last() =~= decimal(value / 10));
    } else {
        assert(decimal(value).drop_last() =~= Seq::empty());
    }
}

/// A number in decimal consists of digits, has no leading zeros, and denotes that number.
pub proof fn law_decimal_denotes_its_number(value: nat)
    ensures
        is_decimal_of(decimal(value), value as int),
{
    lemma_digits_of_decimal(value);
}

/// What is appended to a text is the number in decimal, and the text before it stays.
pub proof fn law_number_is_appended(text: &mut String, value: u32)
    requires
        call_ensures(push_decimal, (text, value), ()),
    ensures
        final(text)@.len() > old(text)@.len(),
        final(text)@.take(old(text)@.len() as int) == old(text)@,
        is_decimal_of(final(text)@.skip(old(text)@.len() as int), value as int),
{
    lemma_digits_of_decimal(value as nat);
    assert(final(text)@.take(old(text)@.len() as int) =~= old(text)@);
    assert(final(text)@.skip(old(text)@.len() as int) =~= decimal(value as nat));
}

/// `pattern` stands in `text` from position `i` on.
pub open spec fn stands_at(pattern: Seq<char>, text: Seq<char>, i: int) -> bool {
    &&& 0 <= i <= text.len() - pattern.len()
    &&& forall|j: int| 0 <= j < pattern.len() ==> #[trigger] pattern[j] == text[i + j]
}

/// `pattern` stands in `text` nowhere before position `end`.
pub open spec fn nowhere_before(pattern: Seq<char>, text: Seq<char>, end: int) -> bool {
    forall|i: int| i < end ==> !#[trigger] stands_at(pattern, text, i)
}

proof fn lemma_without_from_first(text: Seq<char>, pattern: Seq<char>, first: int)
    requires
        pattern.len() > 0,
        0 <= first,
        first + pattern.len() <= text.len() ==> stands_at(pattern, text, first),
        first + pattern.len() > text.len() ==> first == text.len(),
        nowhere_before(pattern, text, first),
    ensures
        first < text.len() ==> without(text, pattern) == text.take(first) + without(
            text.skip(first + pattern.len()),
            pattern,
        ),
        first == text.len() ==> without(text, pattern) == text,
    decreases text.len(),
{
    if text.len() < pattern.len() {
    } else if first == 0 {
        assert(text.take(pattern.len() as int) =~= pattern) by {
            assert forall|j: int| 0 <= j < pattern.len() implies text[j] == pattern[j] by {
                assert(pattern[j] == text[0 + j]);
            }
        }
        assert(text.take(0) + without(text.skip(pattern.len() as int), pattern) =~= without(
            text.skip(pattern.len() as int),
            pattern,
        ));
    } else {
        let rest = text.skip(1);
        assert(text.take(pattern.len() as int) != pattern) by {
            assert(!stands_at(pattern, text, 0));
            if text.take(pattern.len() as int) == pattern {
                assert forall|j: int| 0 <= j < pattern.len() implies #[trigger] pattern[j]
                    == text[0 + j] by {
                    assert(text.take(pattern.len() as int)[j] == text[j]);
                }
            }
        }
        assert forall|i: int| i < first - 1 implies !#[trigger] stands_at(pattern, rest, i) by {
            if stands_at(pattern, rest, i) {
                assert forall|j: int| 0 <= j < pattern.len() implies #[trigger] pattern[j]
                    == text[i + 1 + j] by {
                    assert(pattern[j] == rest[i + j]);
                }
                assert(stands_at(pattern, text, i + 1));
            }
        }
        if first + pattern.len() <= text.len() {
            assert(stands_at(pattern, rest, first - 1)) by {
                assert forall|j: int| 0 <= j < pattern.len() implies #[trigger] pattern[j]
                    == rest[first - 1 + j] by {
                    assert(pattern[j] == text[first + j]);
                }
            }
            lemma_without_from_first(rest, pattern, first - 1);
            assert(rest.skip(first - 1 + pattern.len()) =~= text.skip(first + pattern.len()));
            assert(text.take(first) =~= seq![text[0]] + rest.take(first - 1));
            assert(without(text, pattern) =~= text.take(first) + without(
                text.skip(first + pattern.len()),
                pattern,
            ));
        } else {
            lemma_without_from_first(rest, pattern, first - 1);
            assert(text =~= seq![text[0]] + rest);
        }
    }
}

/// A text in which the pattern does not stand anywhere is kept as it is, and so is every text when
/// the pattern is empty.
pub proof fn law_text_without_the_pattern_is_kept(text: &str, pattern: &str, rest: String)
    requires
        call_ensures(remove_all, (text, pattern), rest),
        pattern@.len() == 0 || nowhere_before(pattern@, text@, text@.len() as int),
    ensures
        rest@ == text@,
{
    if pattern@.len() > 0 {
        lemma_without_from_first(text@, pattern@, text@.len() as int);
    }
}

/// Where the pattern stands in a text, what is left is what stands before its first occurrence,
/// followed by what is left of what stands behind it.
pub proof fn law_first_occurrence_is_removed(
    text: &str,
    pattern: &str,
    first: int,
    rest: String,
    tail: &str,
    tail_rest: String,
)
    requires
        pattern@.len() > 0,
        stands_at(pattern@, text@, first),
        nowhere_before(pattern@, text@, first),
        tail@ == text@.skip(first + pattern@.len()),
        call_ensures(remove_all, (text, pattern), rest),
        call_ensures(remove_all, (tail, pattern), tail_rest),
    ensures
        rest@ == text@.take(first) + tail_rest@,
{
    lemma_without_from_first(text@, pattern@, first);
}

} // verus!
