//! The text form of ids.

use vstd::arithmetic::power::pow;
use vstd::prelude::*;

use crate::ids::{hex_digit, hyphenated, is_version_7, lemma_below_power, nibble, Uuid};

verus! {

/// A hyphen stands at that position of the text form of an id.
pub open spec fn is_hyphen_place(at: int) -> bool {
    at == 8 || at == 13 || at == 18 || at == 23
}

/// The number that a lower-case hexadecimal digit stands for; negative for any other
/// character.
pub open spec fn hex_value(c: char) -> int {
    if '0' <= c <= '9' {
        c as int - '0' as int
    } else if 'a' <= c <= 'f' {
        c as int - 'a' as int + 10
    } else {
        -1
    }
}

/// The number that hexadecimal digits stand for, hyphens among them passed over.
pub open spec fn hex_number(text: Seq<char>) -> int
    decreases text.len(),
{
    if text.len() == 0 {
        0
    } else if text.last() == '-' {
        hex_number(text.drop_last())
    } else {
        16 * hex_number(text.drop_last()) + hex_value(text.last())
    }
}

/// How many digits stand before that position.
spec fn digits_before(at: int) -> int {
    if at <= 8 {
        at
    } else if at <= 13 {
        at - 1
    } else if at <= 18 {
        at - 2
    } else if at <= 23 {
        at - 3
    } else {
        at - 4
    }
}

/// The character at a position of the text form.
proof fn lemma_character(id: Uuid, at: int)
    requires
        0 <= at < 36,
    ensures
        hyphenated(id).len() == 36,
        is_hyphen_place(at) ==> hyphenated(id)[at] == '-',
        !is_hyphen_place(at) ==> hyphenated(id)[at] == hex_digit(nibble(id, digits_before(at))),
{
}

/// The digits before a position stand for the upper part of the id.
proof fn lemma_upper_part(id: Uuid, at: int)
    requires
        0 <= at <= 36,
    ensures
        hex_number(hyphenated(id).take(at)) == id.value as int / pow(
            16,
            (32 - digits_before(at)) as nat,
        ),
    decreases at,
{
    let text = hyphenated(id);
    if at == 0 {
        lemma_below_power(id);
    } else {
        lemma_upper_part(id, at - 1);
        lemma_character(id, at - 1);
        assert(text.take(at).drop_last() =~= text.take(at - 1));
        assert(text.take(at).last() == text[at - 1]);
        if !is_hyphen_place(at - 1) {
            let k = digits_before(at - 1);
            let low = pow(16, (31 - k) as nat);
            let value = id.value as int;
            vstd::arithmetic::power::lemma_pow_positive(16, (31 - k) as nat);
            assert(pow(16, (32 - k) as nat) == low * 16) by {
                reveal(pow);
                assert(16 * low == low * 16) by (nonlinear_arith);
            }
            vstd::arithmetic::div_mod::lemma_div_denominator(value, low, 16);
            assert(value / low == 16 * ((value / low) / 16) + (value / low) % 16);
            assert(nibble(id, k) == (value / low) % 16);
            assert(hex_value(hex_digit(nibble(id, k))) == nibble(id, k));
        }
    }
}

/// The text form of an id has 36 characters: hyphens after the first eight digits and
/// after each of the next three groups of four, and lower-case hexadecimal digits
/// elsewhere, which stand for the id.
pub proof fn law_text_of_an_id_stands_for_it(id: Uuid)
    ensures
        hyphenated(id).len() == 36,
        forall|at: int|
            0 <= at < 36 ==> (if is_hyphen_place(at) {
                #[trigger] hyphenated(id)[at] == '-'
            } else {
                0 <= hex_value(hyphenated(id)[at]) < 16
            }),
        hex_number(hyphenated(id)) == id.value,
{
    assert forall|at: int| 0 <= at < 36 implies (if is_hyphen_place(at) {
        #[trigger] hyphenated(id)[at] == '-'
    } else {
        0 <= hex_value(hyphenated(id)[at]) < 16
    }) by {
        lemma_character(id, at);
    }
    lemma_character(id, 0);
    lemma_upper_part(id, 36);
    assert(hyphenated(id).take(36) =~= hyphenated(id));
    assert(pow(16, 0) == 1) by {
        reveal(pow);
    }
}

/// A version 7 id has the digit 7 after the second hyphen and one of 8, 9, a and b after
/// the third.
pub proof fn law_version_7_shows_in_the_text(id: Uuid)
    ensures
        is_version_7(id) <==> hyphenated(id)[14] == '7' && (hyphenated(id)[19] == '8'
            || hyphenated(id)[19] == '9' || hyphenated(id)[19] == 'a' || hyphenated(id)[19]
            == 'b'),
{
    lemma_character(id, 14);
    lemma_character(id, 19);
}

} // verus!
