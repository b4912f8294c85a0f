//! Laws on texts.

use crate::text::{
    chars_of, contains_text, copy_of, decimal_text, ends_with, find_text, is_whitespace, joined,
    lemma_find_from, lemma_rfind_below, lex_lt, occurs_at, precedes, rfind_char, rsplit_once, same_text,
    split_once, starts_with, strip_prefix, strip_suffix, trim_back, trim_brackets, trim_end_of,
    trim_front, trim_start_of, trim_whitespace, CharClass,
};
use vstd::prelude::*;

verus! {

/// The characters of a text, and a copy of an optional text, are that text.
pub proof fn law_characters_and_copies(
    s: &str,
    chars: Vec<char>,
    t: Option<String>,
    copy: Option<String>,
)
    requires
        call_ensures(chars_of, (s,), chars),
        call_ensures(copy_of, (&t,), copy),
    ensures
        chars@ == s@,
        copy == t,
{
}

/// Two texts are the same where they hold the same characters, and only then.
pub proof fn law_same_text(a: &str, b: &str, res: bool)
    requires
        call_ensures(same_text, (a, b), res),
    ensures
        res <==> a@ == b@,
{
}

/// A text is found where it first stands, counted in characters, and is contained exactly where it
/// is found.
pub proof fn law_finding(s: &str, pattern: &str, at: Option<usize>, contained: bool)
    requires
        call_ensures(find_text, (s, pattern), at),
        call_ensures(contains_text, (s, pattern), contained),
    ensures
        at matches Some(i) ==> {
            &&& i + pattern@.len() <= s@.len()
            &&& s@.subrange(i as int, i + pattern@.len()) == pattern@
            &&& forall|j: int|
                0 <= j < i && j + pattern@.len() <= s@.len() ==> #[trigger] s@.subrange(
                    j,
                    j + pattern@.len(),
                ) != pattern@
        },
        at is None ==> forall|j: int|
            0 <= j && j + pattern@.len() <= s@.len() ==> #[trigger] s@.subrange(
                j,
                j + pattern@.len(),
            ) != pattern@,
        contained <==> at is Some,
{
    lemma_find_from(s@, pattern@, 0);
    assert forall|j: int|
        0 <= j && j + pattern@.len() <= s@.len() && (at matches Some(i) ==> j
            < i) implies #[trigger] s@.subrange(j, j + pattern@.len()) != pattern@ by {
        assert(!occurs_at(s@, pattern@, j));
    }
}

/// A character is found where it last stands, counted in characters.
pub proof fn law_finding_last(s: &str, c: char, at: Option<usize>)
    requires
        call_ensures(rfind_char, (s, c), at),
    ensures
        at matches Some(i) ==> i < s@.len() && s@[i as int] == c && (forall|j: int|
            i < j < s@.len() ==> s@[j] != c),
        at is None ==> forall|j: int| 0 <= j < s@.len() ==> s@[j] != c,
{
    lemma_rfind_below(s@, c, s@.len() as int);
}

/// A text begins with a prefix exactly where the prefix can be stripped, and is then the prefix
/// followed by what is left.
pub proof fn law_prefix(s: &str, prefix: &str, res: bool, rest: Option<&str>)
    requires
        call_ensures(starts_with, (s, prefix), res),
        call_ensures(strip_prefix, (s, prefix), rest),
    ensures
        res <==> rest is Some,
        rest matches Some(r) ==> s@ == prefix@ + r@,
        rest is None ==> forall|r: Seq<char>| s@ != #[trigger] (prefix@ + r),
{
    if prefix@.len() <= s@.len() && s@.subrange(0, prefix@.len() as int) == prefix@ {
        assert(s@ =~= prefix@ + s@.skip(prefix@.len() as int));
    }
    assert forall|r: Seq<char>| s@ == #[trigger] (prefix@ + r) implies rest is Some by {
        assert((prefix@ + r).subrange(0, prefix@.len() as int) =~= prefix@);
    }
}

/// A text ends with a suffix exactly where the suffix can be stripped, and is then what is left
/// followed by the suffix.
pub proof fn law_suffix(s: &str, suffix: &str, res: bool, rest: Option<&str>)
    requires
        call_ensures(ends_with, (s, suffix), res),
        call_ensures(strip_suffix, (s, suffix), rest),
    ensures
        res <==> rest is Some,
        rest matches Some(r) ==> s@ == r@ + suffix@,
        rest is None ==> forall|r: Seq<char>| s@ != #[trigger] (r + suffix@),
{
    let cut = s@.len() - suffix@.len();
    if cut >= 0 && s@.subrange(cut, s@.len() as int) == suffix@ {
        assert(s@ =~= s@.take(cut) + suffix@);
    }
    assert forall|r: Seq<char>| s@ == #[trigger] (r + suffix@) implies rest is Some by {
        assert((r + suffix@).subrange(cut, s@.len() as int) =~= suffix@);
    }
}

/// Splitting a text once gives it back with the pattern between the parts, and the pattern does not
/// stand before where it was split.
pub proof fn law_splitting(
    s: &str,
    pattern: &str,
    res: Option<(&str, &str)>,
    at: Option<usize>,
)
    requires
        call_ensures(split_once, (s, pattern), res),
        call_ensures(find_text, (s, pattern), at),
    ensures
        res is Some <==> at is Some,
        res matches Some((a, b)) ==> s@ == a@ + pattern@ + b@ && at == Some(a@.len() as usize)
            && a@.len() <= usize::MAX,
{
    lemma_find_from(s@, pattern@, 0);
    if let Some(i) = at {
        assert(s@ =~= s@.take(i as int) + s@.subrange(i as int, i + pattern@.len()) + s@.skip(
            i + pattern@.len(),
        ));
    }
}

/// Splitting a text at a last character gives it back with that character between the parts, and
/// the character does not stand in the second.
pub proof fn law_splitting_last(s: &str, c: char, res: Option<(&str, &str)>)
    requires
        call_ensures(rsplit_once, (s, c), res),
    ensures
        res matches Some((a, b)) ==> s@ == a@ + seq![c] + b@ && (forall|j: int|
            0 <= j < b@.len() ==> b@[j] != c),
        res is None ==> forall|j: int| 0 <= j < s@.len() ==> s@[j] != c,
{
    lemma_rfind_below(s@, c, s@.len() as int);
    if let Some((a, b)) = res {
        assert(s@ =~= a@ + seq![c] + b@);
        assert forall|j: int| 0 <= j < b@.len() implies b@[j] != c by {
            assert(b@[j] == s@[a@.len() + 1 + j]);
        }
    }
}

proof fn lemma_trim_front_splits(s: Seq<char>, class: CharClass)
    ensures
        ({
            let n = s.len() - trim_front(s, class).len();
            &&& 0 <= n <= s.len()
            &&& trim_front(s, class) == s.skip(n)
            &&& forall|i: int| 0 <= i < n ==> class.has(#[trigger] s[i])
            &&& n < s.len() ==> !class.has(s[n])
        }),
    decreases s.len(),
{
    if s.len() > 0 && class.has(s[0]) {
        lemma_trim_front_splits(s.skip(1), class);
        let n = s.len() - trim_front(s, class).len();
        assert(s.skip(1).skip(n - 1) =~= s.skip(n));
        assert forall|i: int| 0 <= i < n implies class.has(#[trigger] s[i]) by {
            if i > 0 {
                assert(s[i] == s.skip(1)[i - 1]);
            }
        }
    } else {
        assert(s.skip(0) =~= s);
    }
}

proof fn lemma_trim_back_splits(s: Seq<char>, class: CharClass)
    ensures
        ({
            let n = trim_back(s, class).len();
            &&& n <= s.len()
            &&& trim_back(s, class) == s.take(n as int)
            &&& forall|i: int| n <= i < s.len() ==> class.has(#[trigger] s[i])
            &&& n > 0 ==> !class.has(s[n - 1])
        }),
    decreases s.len(),
{
    if s.len() > 0 && class.has(s.last()) {
        lemma_trim_back_splits(s.drop_last(), class);
        let n = trim_back(s, class).len() as int;
        assert(s.drop_last().take(n) =~= s.take(n));
        assert forall|i: int| n <= i < s.len() implies class.has(#[trigger] s[i]) by {
            if i < s.len() - 1 {
                assert(s[i] == s.drop_last()[i]);
            }
        }
    } else {
        assert(s.take(s.len() as int) =~= s);
    }
}

/// The brackets are `[` and `]`, the slash is `/`, and white space holds the blank, the tabulator and
/// the ends of a line, but no other ASCII character that can be seen.
pub proof fn law_classes(c: char, bracket: bool, slash: bool, white: bool)
    requires
        call_ensures(CharClass::holds, (&CharClass::Bracket, c), bracket),
        call_ensures(CharClass::holds, (&CharClass::Slash, c), slash),
        call_ensures(CharClass::holds, (&CharClass::Whitespace, c), white),
    ensures
        bracket <==> c == '[' || c == ']',
        slash <==> c == '/',
        c == ' ' || c == '\t' || c == '\n' || c == '\r' ==> white,
        '!' <= c <= '~' ==> !white,
        CharClass::Bracket.has(c) == bracket,
        CharClass::Slash.has(c) == slash,
        CharClass::Whitespace.has(c) == white,
        is_whitespace(c) == white,
{
}

/// Trimming the end of a text takes characters of the class off it, and leaves none there.
pub proof fn law_trimming_the_end(s: &str, class: CharClass, res: &str)
    requires
        call_ensures(trim_end_of, (s, class), res),
    ensures
        res@.len() <= s@.len(),
        res@ == s@.take(res@.len() as int),
        forall|i: int| res@.len() <= i < s@.len() ==> class.has(#[trigger] s@[i]),
        res@.len() > 0 ==> !class.has(res@.last()),
{
    lemma_trim_back_splits(s@, class);
}

/// Trimming the front of a text takes characters of the class off it, and leaves none there.
pub proof fn law_trimming_the_front(s: &str, class: CharClass, res: &str)
    requires
        call_ensures(trim_start_of, (s, class), res),
    ensures
        res@.len() <= s@.len(),
        res@ == s@.skip(s@.len() - res@.len()),
        forall|i: int| 0 <= i < s@.len() - res@.len() ==> class.has(#[trigger] s@[i]),
        res@.len() > 0 ==> !class.has(res@[0]),
{
    lemma_trim_front_splits(s@, class);
}

/// A text without white space at either end is the text from its first to its last character that
/// is none; it is empty exactly where there is no such character.
pub proof fn law_trimming_white_space(s: &str, res: &str) -> (from: int)
    requires
        call_ensures(trim_whitespace, (s,), res),
    ensures
        0 <= from && from + res@.len() <= s@.len(),
        res@ == s@.subrange(from, from + res@.len()),
        forall|i: int|
            0 <= i < from || from + res@.len() <= i < s@.len() ==> is_whitespace(#[trigger] s@[i]),
        res@.len() > 0 ==> !is_whitespace(res@[0]) && !is_whitespace(res@.last()),
        res@.len() == 0 <==> forall|i: int| 0 <= i < s@.len() ==> is_whitespace(#[trigger] s@[i]),
{
    let class = CharClass::Whitespace;
    let front = trim_front(s@, class);
    lemma_trim_front_splits(s@, class);
    lemma_trim_back_splits(front, class);
    let from = s@.len() - front.len();
    assert(res@ =~= s@.subrange(from, from + res@.len()));
    assert forall|i: int| from + res@.len() <= i < s@.len() implies is_whitespace(#[trigger] s@[i]) by {
        assert(s@[i] == front[i - from]);
    }
    if res@.len() > 0 {
        assert(res@[0] == s@[from]);
        assert(!is_whitespace(s@[from]));
    }
    from
}

/// A text without brackets at either end is a part of it that neither begins nor ends with one, and
/// only brackets are taken off.
pub proof fn law_trimming_brackets(s: &str, res: &str) -> (from: int)
    requires
        call_ensures(trim_brackets, (s,), res),
    ensures
        0 <= from && from + res@.len() <= s@.len(),
        res@ == s@.subrange(from, from + res@.len()),
        forall|i: int|
            0 <= i < from || from + res@.len() <= i < s@.len() ==> #[trigger] s@[i] == '[' || s@[i]
                == ']',
        res@.len() > 0 ==> res@[0] != '[' && res@[0] != ']' && res@.last() != '[' && res@.last()
            != ']',
{
    let class = CharClass::Bracket;
    let front = trim_front(s@, class);
    lemma_trim_front_splits(s@, class);
    lemma_trim_back_splits(front, class);
    let from = s@.len() - front.len();
    assert(res@ =~= s@.subrange(from, from + res@.len()));
    assert forall|i: int|
        0 <= i < from || from + res@.len() <= i < s@.len() implies #[trigger] s@[i] == '[' || s@[i]
        == ']' by {
        if i >= from {
            assert(s@[i] == front[i - from]);
        }
        assert(class.has(s@[i]));
    }
    if res@.len() > 0 {
        assert(res@[0] == s@[from]);
        assert(!class.has(s@[from]));
        assert(!class.has(res@.last()));
    }
    from
}

/// The first position at which two texts differ, or the length of the shorter.
spec fn first_difference(a: Seq<char>, b: Seq<char>) -> int
    decreases a.len(),
{
    if a.len() == 0 || b.len() == 0 || a[0] != b[0] {
        0
    } else {
        1 + first_difference(a.skip(1), b.skip(1))
    }
}

proof fn lemma_first_difference(a: Seq<char>, b: Seq<char>)
    ensures
        ({
            let n = first_difference(a, b);
            &&& 0 <= n <= a.len() && n <= b.len()
            &&& forall|i: int| 0 <= i < n ==> a[i] == b[i]
            &&& n < a.len() && n < b.len() ==> a[n] != b[n]
            &&& lex_lt(a, b) <==> n < b.len() && (n == a.len() || (a[n] as int) < (b[n] as int))
        }),
    decreases a.len(),
{
    if a.len() > 0 && b.len() > 0 && a[0] == b[0] {
        lemma_first_difference(a.skip(1), b.skip(1));
        let n = first_difference(a, b);
        assert forall|i: int| 0 <= i < n implies a[i] == b[i] by {
            if i > 0 {
                assert(a[i] == a.skip(1)[i - 1]);
                assert(b[i] == b.skip(1)[i - 1]);
            }
        }
    }
}

/// A text precedes another where it is a beginning of it, or where it holds the smaller character
/// at the first place at which they differ; otherwise it does not.
pub proof fn law_order(a: &str, b: &str, res: bool) -> (n: int)
    requires
        call_ensures(precedes, (a, b), res),
    ensures
        0 <= n <= a@.len() && n <= b@.len(),
        forall|i: int| 0 <= i < n ==> a@[i] == b@[i],
        n < a@.len() && n < b@.len() ==> a@[n] != b@[n],
        res <==> n < b@.len() && (n == a@.len() || (a@[n] as int) < (b@[n] as int)),
{
    lemma_first_difference(a@, b@);
    first_difference(a@, b@)
}

/// A number below ten is one digit; any other is its tenth followed by its last digit.
pub proof fn law_decimal_text(n: u64, text: String, tenth: String)
    requires
        call_ensures(decimal_text, (n,), text),
        call_ensures(decimal_text, (n / 10,), tenth),
    ensures
        text@.len() > 0,
        text@.last() as int == '0' as int + n % 10,
        n < 10 ==> text@.len() == 1,
        n >= 10 ==> text@.drop_last() == tenth@,
{
    if n >= 10 {
        assert(text@.drop_last() =~= tenth@);
    }
}

/// Two texts joined are the one followed by the other.
pub proof fn law_joining(a: &str, b: &str, res: String)
    requires
        call_ensures(joined, (a, b), res),
    ensures
        res@.len() == a@.len() + b@.len(),
        forall|i: int| 0 <= i < a@.len() ==> res@[i] == a@[i],
        forall|i: int| 0 <= i < b@.len() ==> res@[a@.len() + i] == b@[i],
{
}

} // verus!
