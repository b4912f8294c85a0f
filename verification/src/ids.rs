//! Identifiers of queues, flows, groups, schedules and messages.

use vstd::arithmetic::div_mod::{
    lemma_basic_div, lemma_div_basics, lemma_div_denominator, lemma_fundamental_div_mod,
};
use vstd::arithmetic::power::{lemma_pow0, lemma_pow1, lemma_pow_adds, lemma_pow_positive, pow};
use vstd::prelude::*;

verus! {

/// A universally unique identifier, held as its 128-bit big-endian value.
#[derive(Clone, Copy, Debug, PartialEq, Eq, Structural)]
pub struct Uuid {
    /// The 128 bits of the identifier.
    pub bits: u128,
}

/// The lower-case hexadecimal digit `d`.
pub open spec fn hex_digit(d: int) -> char {
    seq!['0', '1', '2', '3', '4', '5', '6', '7', '8', '9', 'a', 'b', 'c', 'd', 'e', 'f'][d]
}

/// Whether a hyphen stands at position `p` of a hyphenated identifier.
pub open spec fn is_hyphen_position(p: int) -> bool {
    p == 8 || p == 13 || p == 18 || p == 23
}

/// How many hexadecimal digits of a hyphenated identifier precede position `p`.
pub open spec fn digits_before(p: int) -> int {
    if p <= 8 {
        p
    } else if p <= 13 {
        p - 1
    } else if p <= 18 {
        p - 2
    } else if p <= 23 {
        p - 3
    } else {
        p - 4
    }
}

/// The value of the `k`-th hexadecimal digit of an identifier, the most significant first.
pub open spec fn nibble(id: Uuid, k: int) -> int {
    (id.bits as int / pow(16, (31 - k) as nat)) % 16
}

/// The text of an identifier without hyphens: 32 lower-case hexadecimal digits, the most
/// significant first.
pub open spec fn simple_text(id: Uuid) -> Seq<char> {
    Seq::new(32, |k: int| hex_digit(nibble(id, k)))
}

/// The hyphenated text of an identifier: its digits in groups of 8, 4, 4, 4 and 12.
pub open spec fn uuid_text(id: Uuid) -> Seq<char> {
    Seq::new(
        36,
        |p: int|
            if is_hyphen_position(p) {
                '-'
            } else {
                hex_digit(nibble(id, digits_before(p)))
            },
    )
}

/// An ASCII letter in lower case; any other character as it is.
pub open spec fn lower(c: char) -> char {
    if 'A' <= c <= 'Z' {
        (c as int + 32) as char
    } else {
        c
    }
}

/// Whether a text stands for an identifier: as its 32 digits, as its hyphenated text, as that in
/// braces or as that behind `urn:uuid:`, with letters in either case.
pub open spec fn stands_for(text: Seq<char>, id: Uuid) -> bool {
    let t = text.map_values(|c: char| lower(c));
    ||| t == simple_text(id)
    ||| t == uuid_text(id)
    ||| t == "{"@ + uuid_text(id) + "}"@
    ||| t == "urn:uuid:"@ + uuid_text(id)
}

/// The identifier that a text stands for.
pub open spec fn uuid_of(text: Seq<char>) -> Option<Uuid> {
    if exists|id: Uuid| stands_for(text, id) {
        Some(choose|id: Uuid| stands_for(text, id))
    } else {
        None
    }
}

/// Whether `c` is a lower-case hexadecimal digit.
pub open spec fn is_hex_digit(c: char) -> bool {
    '0' <= c <= '9' || 'a' <= c <= 'f'
}

/// The hyphenated text of an identifier is a fixed number of characters, none of them a dot.
pub proof fn lemma_uuid_text_has_no_dot(id: Uuid)
    ensures
        uuid_text(id).len() == 36,
        forall|p: int| 0 <= p < 36 ==> #[trigger] uuid_text(id)[p] != '.',
{
    lemma_uuid_text_is_hex(id);
    assert forall|p: int| 0 <= p < 36 implies #[trigger] uuid_text(id)[p] != '.' by {
        if !is_hyphen_position(p) {
            assert(is_hex_digit(uuid_text(id)[p]));
        }
    }
}

/// The hyphenated text of an identifier holds a hexadecimal digit wherever no hyphen stands.
pub proof fn lemma_uuid_text_is_hex(id: Uuid)
    ensures
        forall|p: int|
            0 <= p < 36 && !is_hyphen_position(p) ==> is_hex_digit(#[trigger] uuid_text(id)[p]),
{
    assert forall|p: int| 0 <= p < 36 && !is_hyphen_position(p) implies is_hex_digit(
        #[trigger] uuid_text(id)[p],
    ) by {
        let d = nibble(id, digits_before(p));
        assert(0 <= d < 16);
        assert(is_hex_digit(hex_digit(d)));
    }
}

/// An identifier has no more than 32 digits.
proof fn lemma_digits_hold_all_bits()
    ensures
        pow(16, 32) == u128::MAX + 1,
{
    assert(pow(16, 4) == 0x1_0000) by {
        reveal_with_fuel(pow, 5);
    }
    lemma_pow_adds(16, 4, 4);
    assert(pow(16, 4) * pow(16, 4) == 0x1_0000_0000) by (nonlinear_arith)
        requires
            pow(16, 4) == 0x1_0000,
    ;
    lemma_pow_adds(16, 8, 8);
    assert(pow(16, 8) * pow(16, 8) == 0x1_0000_0000_0000_0000) by (nonlinear_arith)
        requires
            pow(16, 8) == 0x1_0000_0000,
    ;
    lemma_pow_adds(16, 16, 16);
    assert(pow(16, 16) * pow(16, 16) == u128::MAX + 1) by (nonlinear_arith)
        requires
            pow(16, 16) == 0x1_0000_0000_0000_0000,
    ;
}

/// The code point of a hexadecimal digit.
proof fn lemma_hex_digit(d: int)
    requires
        0 <= d < 16,
    ensures
        hex_digit(d) as int == (if d < 10 {
            '0' as int + d
        } else {
            'a' as int + d - 10
        }),
{
    assert(d == 0 || d == 1 || d == 2 || d == 3 || d == 4 || d == 5 || d == 6 || d == 7 || d == 8
        || d == 9 || d == 10 || d == 11 || d == 12 || d == 13 || d == 14 || d == 15);
}

/// The bits above a digit are the same where the digits down to it are.
proof fn lemma_same_bits(a: Uuid, b: Uuid, k: nat)
    requires
        k <= 32,
        forall|i: int| 0 <= i < 32 ==> #[trigger] nibble(a, i) == nibble(b, i),
    ensures
        a.bits as int / pow(16, k) == b.bits as int / pow(16, k),
    decreases 32 - k,
{
    let x = a.bits as int;
    let y = b.bits as int;
    lemma_pow_positive(16, k);
    if k == 32 {
        lemma_digits_hold_all_bits();
        lemma_basic_div(x, pow(16, 32));
        lemma_basic_div(y, pow(16, 32));
    } else {
        let p = pow(16, k);
        lemma_same_bits(a, b, k + 1);
        lemma_pow1(16);
        lemma_pow_adds(16, k, 1);
        lemma_div_denominator(x, p, 16);
        lemma_div_denominator(y, p, 16);
        assert(nibble(a, 31 - k) == nibble(b, 31 - k));
        lemma_fundamental_div_mod(x / p, 16);
        lemma_fundamental_div_mod(y / p, 16);
    }
}

/// Where a hyphenated text shows the `k`-th digit.
spec fn position_of(k: int) -> int {
    if k < 8 {
        k
    } else if k < 12 {
        k + 1
    } else if k < 16 {
        k + 2
    } else if k < 20 {
        k + 3
    } else {
        k + 4
    }
}

/// Identifiers with the same digits are one.
proof fn lemma_simple_text_injective(a: Uuid, b: Uuid)
    requires
        simple_text(a) == simple_text(b),
    ensures
        a == b,
{
    assert forall|i: int| 0 <= i < 32 implies #[trigger] nibble(a, i) == nibble(b, i) by {
        assert(simple_text(a)[i] == simple_text(b)[i]);
        assert(simple_text(a)[i] == hex_digit(nibble(a, i)));
        assert(simple_text(b)[i] == hex_digit(nibble(b, i)));
        lemma_hex_digit(nibble(a, i));
        lemma_hex_digit(nibble(b, i));
    }
    lemma_same_bits(a, b, 0);
    lemma_pow0(16);
    lemma_div_basics(a.bits as int);
    lemma_div_basics(b.bits as int);
}

/// The hyphenated text shows all digits.
proof fn lemma_hyphenated_shows_digits(a: Uuid, b: Uuid)
    requires
        uuid_text(a) == uuid_text(b),
    ensures
        a == b,
{
    assert forall|k: int| 0 <= k < 32 implies #[trigger] simple_text(a)[k] == simple_text(b)[k] by {
        let p = position_of(k);
        assert(!is_hyphen_position(p) && digits_before(p) == k);
        assert(uuid_text(a)[p] == hex_digit(nibble(a, k)));
        assert(uuid_text(b)[p] == hex_digit(nibble(b, k)));
    }
    assert(simple_text(a) =~= simple_text(b));
    lemma_simple_text_injective(a, b);
}

proof fn lemma_stands_for_one(text: Seq<char>, a: Uuid, b: Uuid)
    requires
        stands_for(text, a),
        stands_for(text, b),
    ensures
        a == b,
{
    let t = text.map_values(|c: char| lower(c));
    reveal_strlit("{");
    reveal_strlit("}");
    reveal_strlit("urn:uuid:");
    if t.len() == 32 {
        lemma_simple_text_injective(a, b);
    } else {
        let from: int = if t.len() == 36 {
            0
        } else if t.len() == 38 {
            1
        } else {
            9
        };
        assert(uuid_text(a) =~= t.subrange(from, from + 36));
        assert(uuid_text(b) =~= t.subrange(from, from + 36));
        lemma_hyphenated_shows_digits(a, b);
    }
}

/// A text stands for one identifier at most.
pub proof fn law_text_stands_for_one(text: Seq<char>, a: Uuid, b: Uuid)
    requires
        stands_for(text, a),
        stands_for(text, b),
    ensures
        a == b,
        uuid_of(text) == Some(a),
{
    lemma_stands_for_one(text, a, b);
    lemma_stands_for_one(text, a, choose|id: Uuid| stands_for(text, id));
}

/// The hyphenated text of an identifier, which is in lower case, stands for it.
pub proof fn law_hyphenated_text_stands_for_its_identifier(id: Uuid)
    ensures
        uuid_of(uuid_text(id)) == Some(id),
{
    let text = uuid_text(id);
    lemma_uuid_text_is_hex(id);
    assert forall|p: int| 0 <= p < 36 implies lower(#[trigger] text[p]) == text[p] by {
        if !is_hyphen_position(p) {
            assert(is_hex_digit(text[p]));
        }
    }
    assert(text.map_values(|c: char| lower(c)) =~= text);
    law_text_stands_for_one(text, id, id);
}

/// A text that stands for an identifier has 32, 36, 38 or 45 characters.
pub proof fn law_length_of_an_identifier(text: Seq<char>)
    requires
        uuid_of(text) is Some,
    ensures
        text.len() == 32 || text.len() == 36 || text.len() == 38 || text.len() == 45,
{
    reveal_strlit("{");
    reveal_strlit("}");
    reveal_strlit("urn:uuid:");
    let id = choose|id: Uuid| stands_for(text, id);
    assert(stands_for(text, id));
    assert(text.map_values(|c: char| lower(c)).len() == text.len());
    assert(simple_text(id).len() == 32 && uuid_text(id).len() == 36);
}

} // verus!
