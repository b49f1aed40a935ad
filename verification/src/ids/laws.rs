//! What the text of an identifier says.
use super::{hex_digit, hex_digit_at, is_random_uuid, uuid_text, ParticipantId};
use vstd::arithmetic::div_mod::{lemma_div_denominator, lemma_fundamental_div_mod};
use vstd::arithmetic::power::{lemma_pow_positive, pow};
use vstd::prelude::*;

verus! {

/// `c` is a lower-case hexadecimal digit.
pub open spec fn is_hex(c: char) -> bool {
    '0' <= c <= '9' || 'a' <= c <= 'f'
}

/// The number that a text of hexadecimal digits denotes.
pub open spec fn hex_number(text: Seq<char>) -> int
    decreases text.len(),
{
    if text.len() == 0 {
        0
    } else {
        16 * hex_number(text.drop_last()) + if text.last() <= '9' {
            text.last() as int - '0' as int
        } else {
            text.last() as int - 'a' as int + 10
        }
    }
}

/// What is left of the text of an identifier without its four hyphens.
pub open spec fn without_hyphens(text: Seq<char>) -> Seq<char> {
    text.subrange(0, 8) + text.subrange(9, 13) + text.subrange(14, 18) + text.subrange(19, 23)
        + text.subrange(24, 36)
}

spec fn digits(value: u128) -> Seq<char> {
    Seq::new(32, |i: int| hex_digit_at(value, (31 - i) as nat))
}

proof fn lemma_digits_denote(value: u128, count: nat)
    requires
        count <= 32,
    ensures
        hex_number(digits(value).take(count as int)) == value as int / pow(16, (32 - count) as nat),
        forall|i: int| 0 <= i < count ==> is_hex(#[trigger] digits(value)[i]),
    decreases count,
{
    let rest = (32 - count) as nat;
    lemma_pow_positive(16, rest);
    if count == 0 {
        reveal_with_fuel(pow, 33);
        assert(pow(16, 32) == 0x1_0000_0000_0000_0000_0000_0000_0000_0000int);
        assert(value as int / pow(16, 32) == 0) by (nonlinear_arith)
            requires
                0 <= value < 0x1_0000_0000_0000_0000_0000_0000_0000_0000int,
                pow(16, 32) == 0x1_0000_0000_0000_0000_0000_0000_0000_0000int,
        ;
    } else {
        lemma_digits_denote(value, (count - 1) as nat);
        let taken = digits(value).take(count as int);
        assert(taken.drop_last() =~= digits(value).take(count - 1));
        let here = value as int / pow(16, rest);
        assert(pow(16, rest + 1) == 16 * pow(16, rest)) by {
            reveal(pow);
        }
        lemma_div_denominator(value as int, pow(16, rest), 16);
        assert(pow(16, rest) * 16 == pow(16, rest + 1)) by (nonlinear_arith)
            requires
                pow(16, rest + 1) == 16 * pow(16, rest),
        ;
        lemma_fundamental_div_mod(here, 16);
        assert(taken.last() == hex_digit(here % 16));
        assert(digits(value)[count - 1] == hex_digit(here % 16));
    }
}

proof fn lemma_text_is_its_digits(value: u128)
    ensures
        uuid_text(value).len() == 36,
        without_hyphens(uuid_text(value)) == digits(value),
        uuid_text(value)[8] == '-',
        uuid_text(value)[13] == '-',
        uuid_text(value)[18] == '-',
        uuid_text(value)[23] == '-',
{
    assert(without_hyphens(uuid_text(value)) =~= digits(value));
}

/// The text of an identifier is 36 characters long: 32 lower-case hexadecimal digits that denote
/// the identifier, with hyphens behind the first 8, 12, 16 and 20 of them.
pub proof fn law_text_denotes_the_identifier(id: ParticipantId, text: String)
    requires
        call_ensures(ParticipantId::to_string, (&id,), text),
    ensures
        text@.len() == 36,
        text@[8] == '-',
        text@[13] == '-',
        text@[18] == '-',
        text@[23] == '-',
        forall|i: int| 0 <= i < 32 ==> is_hex(#[trigger] without_hyphens(text@)[i]),
        hex_number(without_hyphens(text@)) == id.0,
{
    lemma_text_is_its_digits(id.0);
    lemma_digits_denote(id.0, 32);
    assert(digits(id.0).take(32) =~= digits(id.0));
    assert(pow(16, 0) == 1) by {
        reveal(pow);
    }
}

/// The text of a new identifier shows a random UUID: its version is 4, its variant that of
/// RFC 4122.
pub proof fn law_new_identifier_is_a_random_uuid(id: ParticipantId, text: String)
    requires
        call_ensures(ParticipantId::new, (), id),
        call_ensures(ParticipantId::to_string, (&id,), text),
    ensures
        text@[14] == '4',
        text@[19] == '8' || text@[19] == '9' || text@[19] == 'a' || text@[19] == 'b',
{
    let value = id.0;
    lemma_text_is_its_digits(value);
    assert(text@[14] == without_hyphens(text@)[12]);
    assert(text@[19] == without_hyphens(text@)[16]);
    reveal_with_fuel(pow, 20);
    assert(pow(16, 19) == 0x1000_0000_0000_0000_0000int);
    assert(pow(16, 15) == 0x1000_0000_0000_0000int);
    assert((value / 0x1000_0000_0000_0000_0000u128) % 16 == (value >> 76u128) & 0xf) by (bit_vector);
    assert((value / 0x1000_0000_0000_0000u128) % 16 == (value >> 60u128) & 0xf) by (bit_vector);
    assert((value >> 62u128) & 0x3 == 2 ==> 8 <= (value >> 60u128) & 0xf <= 11) by (bit_vector);
    assert(is_random_uuid(value));
}

} // verus!
