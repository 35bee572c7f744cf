//! Identifiers: universally unique ids and their text form.

use vstd::arithmetic::power::pow;
use vstd::prelude::*;

verus! {

/// A UUID, as the number that its sixteen bytes spell, most significant byte
/// first.
#[derive(Clone, Copy, Debug, PartialEq, Eq, Structural)]
pub struct Uuid {
    pub value: u128,
}

/// The `k`-th of the 32 hexadecimal digits of a UUID, counted from the left.
pub open spec fn nibble(id: Uuid, k: int) -> int {
    (id.value as int / pow(16, (31 - k) as nat)) % 16
}

/// A version 7 UUID of the variant that RFC 9562 lays down.
pub open spec fn is_version_7(id: Uuid) -> bool {
    &&& nibble(id, 12) == 7
    &&& 8 <= nibble(id, 16) < 12
}

/// The lower-case hexadecimal digit that stands for `d`.
pub open spec fn hex_digit(d: int) -> char {
    if d < 10 {
        ('0' as int + d) as char
    } else {
        ('a' as int + (d - 10)) as char
    }
}

/// The digits of a UUID from the `from`-th to the one before the `to`-th.
pub open spec fn hex_digits(id: Uuid, from: int, to: int) -> Seq<char> {
    Seq::new((to - from) as nat, |k: int| hex_digit(nibble(id, from + k)))
}

/// The text form of a UUID: lower-case hexadecimal digits in groups of eight,
/// four, four, four and twelve, with hyphens between the groups.
pub open spec fn hyphenated(id: Uuid) -> Seq<char> {
    hex_digits(id, 0, 8) + seq!['-'] + hex_digits(id, 8, 12) + seq!['-'] + hex_digits(id, 12, 16)
        + seq!['-'] + hex_digits(id, 16, 20) + seq!['-'] + hex_digits(id, 20, 32)
}

/// Two UUIDs with the same digits from the left up to the `k`-th agree up to there.
proof fn lemma_same_digits(a: Uuid, b: Uuid, k: int)
    requires
        0 <= k <= 32,
        forall|j: int| 0 <= j < k ==> nibble(a, j) == nibble(b, j),
    ensures
        a.value as int / pow(16, (32 - k) as nat) == b.value as int / pow(16, (32 - k) as nat),
    decreases k,
{
    if k == 0 {
        lemma_below_power(a);
        lemma_below_power(b);
    } else {
        lemma_same_digits(a, b, k - 1);
        let low = pow(16, (32 - k) as nat);
        let high = pow(16, (33 - k) as nat);
        vstd::arithmetic::power::lemma_pow_positive(16, (32 - k) as nat);
        assert(high == low * 16) by {
            reveal(pow);
            assert(16 * low == low * 16) by (nonlinear_arith);
        }
        vstd::arithmetic::div_mod::lemma_div_denominator(a.value as int, low, 16);
        vstd::arithmetic::div_mod::lemma_div_denominator(b.value as int, low, 16);
        assert(nibble(a, k - 1) == nibble(b, k - 1));
    }
}

/// A UUID has no more than 32 hexadecimal digits.
pub proof fn lemma_below_power(id: Uuid)
    ensures
        id.value as int / pow(16, 32) == 0,
{
    assert(pow(16, 8) == 0x1_0000_0000int) by {
        reveal(pow);
        reveal_with_fuel(pow, 9);
    }
    assert(pow(16, 16) == 0x1_0000_0000_0000_0000int) by {
        vstd::arithmetic::power::lemma_pow_adds(16, 8, 8);
    }
    assert(pow(16, 32) == 0x1_0000_0000_0000_0000_0000_0000_0000_0000int) by {
        vstd::arithmetic::power::lemma_pow_adds(16, 16, 16);
    }
    vstd::arithmetic::div_mod::lemma_basic_div(id.value as int, pow(16, 32));
}

/// The text form tells UUIDs apart.
pub proof fn lemma_hyphenated_is_injective(a: Uuid, b: Uuid)
    requires
        hyphenated(a) == hyphenated(b),
    ensures
        a == b,
{
    assert forall|k: int| 0 <= k < 32 implies nibble(a, k) == nibble(b, k) by {
        let at = if k < 8 {
            k
        } else if k < 12 {
            k + 1
        } else if k < 16 {
            k + 2
        } else if k < 20 {
            k + 3
        } else {
            k + 4
        };
        assert(hyphenated(a)[at] == hex_digit(nibble(a, k)));
        assert(hyphenated(b)[at] == hex_digit(nibble(b, k)));
        assert(0 <= nibble(a, k) < 16);
        assert(0 <= nibble(b, k) < 16);
    }
    lemma_same_digits(a, b, 32);
    assert(pow(16, 0) == 1) by {
        reveal(pow);
    }
}

/// A new id: `uuid::Uuid::now_v7` builds it from the clock, a counter and random
/// bits. Of every outcome only the version and the variant are claimed; that two
/// calls give different ids, and that ids grow with time, is not.
#[verifier::external_body]
pub(crate) fn new_id() -> (id: Uuid)
    ensures
        is_version_7(id),
{
    Uuid { value: uuid::Uuid::now_v7().as_u128() }
}

/// The text form of an id: the `Display` of `uuid::Uuid` writes the hyphenated
/// form in lower case.
#[verifier::external_body]
pub(crate) fn id_text(id: Uuid) -> (text: String)
    ensures
        text@ == hyphenated(id),
{
    uuid::Uuid::from_u128(id.value).to_string()
}

} // verus!
