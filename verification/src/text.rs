//! Text operations on `&str` and `String`, stated over sequences of characters.

use vstd::prelude::*;

verus! {

/// Whether `pattern` stands in `s` at position `i`.
pub open spec fn occurs_at(s: Seq<char>, pattern: Seq<char>, i: int) -> bool {
    0 <= i && i + pattern.len() <= s.len() && s.subrange(i, i + pattern.len()) == pattern
}

/// The first position at or after `from` at which `pattern` stands in `s`.
pub open spec fn find_from(s: Seq<char>, pattern: Seq<char>, from: int) -> Option<int>
    decreases s.len() - from + 1,
{
    if from < 0 || from + pattern.len() > s.len() {
        None
    } else if occurs_at(s, pattern, from) {
        Some(from)
    } else {
        find_from(s, pattern, from + 1)
    }
}

/// The first position at which `pattern` stands in `s`.
pub open spec fn find(s: Seq<char>, pattern: Seq<char>) -> Option<int> {
    find_from(s, pattern, 0)
}

/// The last position below `end` that holds `c`.
pub open spec fn rfind_below(s: Seq<char>, c: char, end: int) -> Option<int>
    decreases end,
{
    if end <= 0 || end > s.len() {
        None
    } else if s[end - 1] == c {
        Some(end - 1)
    } else {
        rfind_below(s, c, end - 1)
    }
}

/// The last position that holds `c`.
pub open spec fn rfind(s: Seq<char>, c: char) -> Option<int> {
    rfind_below(s, c, s.len() as int)
}

/// The characters of `s`.
pub fn chars_of(s: &str) -> (res: Vec<char>)
    ensures
        res@ == s@,
{
    let mut res: Vec<char> = Vec::new();
    for c in it: s.chars()
        invariant
            res@ == it.seq().take(it.index()),
            it.seq() == s@,
    {
        res.push(c);
        proof {
            assert(it.seq().take(it.index() + 1) == it.seq().take(it.index()).push(c));
        }
    }
    res
}

/// Whether `pattern` stands in `s` at position `i`.
fn matches_at(s: &Vec<char>, pattern: &Vec<char>, i: usize) -> (res: bool)
    requires
        i + pattern@.len() <= s@.len(),
    ensures
        res == occurs_at(s@, pattern@, i as int),
{
    let end: usize = s.len();
    let mut k: usize = 0;
    while k < pattern.len()
        invariant
            end == s@.len(),
            i + pattern@.len() <= s@.len(),
            k <= pattern@.len(),
            forall|m: int| 0 <= m < k ==> s@[i + m] == pattern@[m],
        decreases pattern@.len() - k,
    {
        if s[i + k] != pattern[k] {
            proof {
                assert(s@.subrange(i as int, i + pattern@.len())[k as int] != pattern@[k as int]);
            }
            return false;
        }
        k = k + 1;
    }
    proof {
        assert(s@.subrange(i as int, i + pattern@.len()) =~= pattern@);
    }
    true
}

/// The position of the first occurrence of `pattern` in `s`, counted in characters.
pub fn find_text(s: &str, pattern: &str) -> (res: Option<usize>)
    ensures
        match res {
            Some(i) => find(s@, pattern@) == Some(i as int),
            None => find(s@, pattern@) is None,
        },
{
    let text: Vec<char> = chars_of(s);
    let wanted: Vec<char> = chars_of(pattern);
    if wanted.len() > text.len() {
        return None;
    }
    let last: usize = text.len() - wanted.len();
    let mut i: usize = 0;
    loop
        invariant
            text@ == s@,
            wanted@ == pattern@,
            last + wanted@.len() == text@.len(),
            i <= last,
            find(s@, pattern@) == find_from(s@, pattern@, i as int),
        decreases last - i,
    {
        if matches_at(&text, &wanted, i) {
            return Some(i);
        }
        if i == last {
            proof {
                reveal_with_fuel(find_from, 2);
            }
            return None;
        }
        i = i + 1;
    }
}

/// Whether `pattern` stands somewhere in `s`.
pub fn contains_text(s: &str, pattern: &str) -> (res: bool)
    ensures
        res == (find(s@, pattern@) is Some),
{
    find_text(s, pattern).is_some()
}

/// The position of the last occurrence of `c` in `s`, counted in characters.
pub fn rfind_char(s: &str, c: char) -> (res: Option<usize>)
    ensures
        match res {
            Some(i) => rfind(s@, c) == Some(i as int),
            None => rfind(s@, c) is None,
        },
{
    let text: Vec<char> = chars_of(s);
    let mut end: usize = text.len();
    while end > 0
        invariant
            text@ == s@,
            end <= text@.len(),
            rfind(s@, c) == rfind_below(s@, c, end as int),
        decreases end,
    {
        if text[end - 1] == c {
            return Some(end - 1);
        }
        end = end - 1;
    }
    None
}

/// Whether two texts hold the same characters.
pub fn same_text(a: &str, b: &str) -> (res: bool)
    ensures
        res == (a@ == b@),
{
    let x: Vec<char> = chars_of(a);
    let y: Vec<char> = chars_of(b);
    if x.len() != y.len() {
        return false;
    }
    let res: bool = matches_at(&x, &y, 0);
    proof {
        assert(a@.subrange(0, a@.len() as int) =~= a@);
    }
    res
}

/// Whether `s` begins with `prefix`.
pub fn starts_with(s: &str, prefix: &str) -> (res: bool)
    ensures
        res == prefix@.is_prefix_of(s@),
{
    let text: Vec<char> = chars_of(s);
    let wanted: Vec<char> = chars_of(prefix);
    if wanted.len() > text.len() {
        return false;
    }
    matches_at(&text, &wanted, 0)
}

/// Whether `s` ends with `suffix`.
pub fn ends_with(s: &str, suffix: &str) -> (res: bool)
    ensures
        res == suffix@.is_suffix_of(s@),
{
    let text: Vec<char> = chars_of(s);
    let wanted: Vec<char> = chars_of(suffix);
    if wanted.len() > text.len() {
        return false;
    }
    matches_at(&text, &wanted, text.len() - wanted.len())
}

/// What is left of `s` once `prefix` is taken off its front.
pub open spec fn without_prefix(s: Seq<char>, prefix: Seq<char>) -> Option<Seq<char>> {
    if prefix.is_prefix_of(s) {
        Some(s.skip(prefix.len() as int))
    } else {
        None
    }
}

/// What is left of `s` once `suffix` is taken off its end.
pub open spec fn without_suffix(s: Seq<char>, suffix: Seq<char>) -> Option<Seq<char>> {
    if suffix.is_suffix_of(s) {
        Some(s.take(s.len() - suffix.len()))
    } else {
        None
    }
}

/// The content of an optional text.
pub open spec fn view_of(s: Option<String>) -> Option<Seq<char>> {
    match s {
        Some(t) => Some(t@),
        None => None,
    }
}

/// The content of an optional borrowed text.
pub open spec fn view_of_str(s: Option<&str>) -> Option<Seq<char>> {
    match s {
        Some(t) => Some(t@),
        None => None,
    }
}

/// `s` without `prefix` at its front, or `None` where it does not begin with it.
pub fn strip_prefix<'a>(s: &'a str, prefix: &str) -> (res: Option<&'a str>)
    ensures
        view_of_str(res) == without_prefix(s@, prefix@),
{
    if starts_with(s, prefix) {
        let from: usize = prefix.unicode_len();
        let to: usize = s.unicode_len();
        proof {
            assert(s@.subrange(from as int, to as int) =~= s@.skip(from as int));
        }
        Some(s.substring_char(from, to))
    } else {
        None
    }
}

/// `s` without `suffix` at its end, or `None` where it does not end with it.
pub fn strip_suffix<'a>(s: &'a str, suffix: &str) -> (res: Option<&'a str>)
    ensures
        view_of_str(res) == without_suffix(s@, suffix@),
{
    if ends_with(s, suffix) {
        let to: usize = s.unicode_len() - suffix.unicode_len();
        proof {
            assert(s@.subrange(0, to as int) =~= s@.take(to as int));
        }
        Some(s.substring_char(0, to))
    } else {
        None
    }
}

/// `s` cut round the first occurrence of `pattern`: what precedes it and what follows it.
pub open spec fn cut_once(s: Seq<char>, pattern: Seq<char>) -> Option<(Seq<char>, Seq<char>)> {
    match find(s, pattern) {
        Some(i) => Some((s.take(i), s.skip(i + pattern.len()))),
        None => None,
    }
}

/// An occurrence that was found is one, and no occurrence precedes it.
pub proof fn lemma_find_from(s: Seq<char>, pattern: Seq<char>, from: int)
    requires
        0 <= from,
    ensures
        find_from(s, pattern, from) matches Some(i) ==> from <= i && occurs_at(s, pattern, i) && (
        forall|j: int| from <= j < i ==> !occurs_at(s, pattern, j)),
        find_from(s, pattern, from) is None ==> (forall|j: int|
            from <= j ==> !occurs_at(s, pattern, j)),
    decreases s.len() - from + 1,
{
    if from + pattern.len() <= s.len() && !occurs_at(s, pattern, from) {
        lemma_find_from(s, pattern, from + 1);
    }
}

/// `s` cut round the first occurrence of `pattern`.
pub fn split_once<'a>(s: &'a str, pattern: &str) -> (res: Option<(&'a str, &'a str)>)
    ensures
        match res {
            Some((a, b)) => cut_once(s@, pattern@) == Some((a@, b@)),
            None => cut_once(s@, pattern@) is None,
        },
{
    match find_text(s, pattern) {
        Some(i) => {
            proof {
                lemma_find_from(s@, pattern@, 0);
            }
            let end: usize = s.unicode_len();
            let after: usize = i + pattern.unicode_len();
            proof {
                assert(s@.subrange(0, i as int) =~= s@.take(i as int));
                assert(s@.subrange(after as int, end as int) =~= s@.skip(after as int));
            }
            Some((s.substring_char(0, i), s.substring_char(after, end)))
        },
        None => None,
    }
}

/// `s` cut round the last `c`: what precedes it and what follows it.
pub open spec fn cut_last(s: Seq<char>, c: char) -> Option<(Seq<char>, Seq<char>)> {
    match rfind(s, c) {
        Some(i) => Some((s.take(i), s.skip(i + 1))),
        None => None,
    }
}

/// A last position that was found holds the character, and none after it does.
pub proof fn lemma_rfind_below(s: Seq<char>, c: char, end: int)
    requires
        0 <= end <= s.len(),
    ensures
        rfind_below(s, c, end) matches Some(i) ==> 0 <= i < end && s[i] == c && (forall|j: int|
            i < j < end ==> s[j] != c),
        rfind_below(s, c, end) is None ==> (forall|j: int| 0 <= j < end ==> s[j] != c),
    decreases end,
{
    if end > 0 && s[end - 1] != c {
        lemma_rfind_below(s, c, end - 1);
    }
}

/// What follows a colon and holds none is cut off at that colon.
pub proof fn lemma_cut_before_port(host: Seq<char>, port: Seq<char>)
    requires
        forall|i: int| 0 <= i < port.len() ==> port[i] != ':',
    ensures
        cut_last(host + ":"@ + port, ':') == Some((host, port)),
{
    reveal_strlit(":");
    let s = host + ":"@ + port;
    lemma_rfind_below(s, ':', s.len() as int);
    assert(s[host.len() as int] == ':');
    assert forall|j: int| host.len() < j < s.len() implies s[j] != ':' by {
        assert(s[j] == port[j - host.len() - 1]);
    }
    assert(s.take(host.len() as int) =~= host);
    assert(s.skip(host.len() as int + 1) =~= port);
}

/// `s` cut round the last `c`.
pub fn rsplit_once<'a>(s: &'a str, c: char) -> (res: Option<(&'a str, &'a str)>)
    ensures
        match res {
            Some((a, b)) => cut_last(s@, c) == Some((a@, b@)),
            None => cut_last(s@, c) is None,
        },
{
    match rfind_char(s, c) {
        Some(i) => {
            proof {
                lemma_rfind_below(s@, c, s@.len() as int);
            }
            let end: usize = s.unicode_len();
            proof {
                assert(s@.subrange(0, i as int) =~= s@.take(i as int));
                assert(s@.subrange(i + 1, end as int) =~= s@.skip(i + 1));
            }
            Some((s.substring_char(0, i), s.substring_char(i + 1, end)))
        },
        None => None,
    }
}

/// The sets of characters that get trimmed off a text.
pub enum CharClass {
    /// The characters with the Unicode property `White_Space`.
    Whitespace,
    /// `[` and `]`.
    Bracket,
    /// `/`.
    Slash,
}

/// The characters with the Unicode property `White_Space`.
pub open spec fn is_whitespace(c: char) -> bool {
    let n = c as int;
    ||| 0x09 <= n <= 0x0d
    ||| n == 0x20
    ||| n == 0x85
    ||| n == 0xa0
    ||| n == 0x1680
    ||| 0x2000 <= n <= 0x200a
    ||| n == 0x2028
    ||| n == 0x2029
    ||| n == 0x202f
    ||| n == 0x205f
    ||| n == 0x3000
}

impl CharClass {
    /// Whether the class holds `c`.
    pub open spec fn has(self, c: char) -> bool {
        match self {
            CharClass::Whitespace => is_whitespace(c),
            CharClass::Bracket => c == '[' || c == ']',
            CharClass::Slash => c == '/',
        }
    }

    /// Whether the class holds `c`.
    pub fn holds(&self, c: char) -> (res: bool)
        ensures
            res == self.has(c),
    {
        match self {
            CharClass::Whitespace => {
                let n: u32 = c as u32;
                (0x09 <= n && n <= 0x0d) || n == 0x20 || n == 0x85 || n == 0xa0 || n == 0x1680 || (
                0x2000 <= n && n <= 0x200a) || n == 0x2028 || n == 0x2029 || n == 0x202f || n
                    == 0x205f || n == 0x3000
            },
            CharClass::Bracket => c == '[' || c == ']',
            CharClass::Slash => c == '/',
        }
    }
}

/// `s` without the characters of `class` at its front.
pub open spec fn trim_front(s: Seq<char>, class: CharClass) -> Seq<char>
    decreases s.len(),
{
    if s.len() > 0 && class.has(s[0]) {
        trim_front(s.skip(1), class)
    } else {
        s
    }
}

/// `s` without the characters of `class` at its end.
pub open spec fn trim_back(s: Seq<char>, class: CharClass) -> Seq<char>
    decreases s.len(),
{
    if s.len() > 0 && class.has(s.last()) {
        trim_back(s.drop_last(), class)
    } else {
        s
    }
}

/// `s` without the characters of `class` at either end.
pub open spec fn trim(s: Seq<char>, class: CharClass) -> Seq<char> {
    trim_back(trim_front(s, class), class)
}

/// `s` without the characters of `class` at its end.
pub fn trim_end_of<'a>(s: &'a str, class: CharClass) -> (res: &'a str)
    ensures
        res@ == trim_back(s@, class),
{
    let text: Vec<char> = chars_of(s);
    let mut end: usize = text.len();
    proof {
        assert(s@.take(end as int) =~= s@);
    }
    while end > 0 && class.holds(text[end - 1])
        invariant
            text@ == s@,
            end <= text@.len(),
            trim_back(s@, class) == trim_back(s@.take(end as int), class),
        decreases end,
    {
        proof {
            assert(s@.take(end as int).drop_last() =~= s@.take(end - 1));
        }
        end = end - 1;
    }
    proof {
        assert(s@.subrange(0, end as int) =~= s@.take(end as int));
    }
    s.substring_char(0, end)
}

/// `s` without the characters of `class` at its front.
pub fn trim_start_of<'a>(s: &'a str, class: CharClass) -> (res: &'a str)
    ensures
        res@ == trim_front(s@, class),
{
    let text: Vec<char> = chars_of(s);
    let end: usize = text.len();
    let mut from: usize = 0;
    proof {
        assert(s@.skip(0) =~= s@);
    }
    while from < end && class.holds(text[from])
        invariant
            text@ == s@,
            end == text@.len(),
            from <= end,
            trim_front(s@, class) == trim_front(s@.skip(from as int), class),
        decreases end - from,
    {
        proof {
            assert(s@.skip(from as int).skip(1) =~= s@.skip(from + 1));
        }
        from = from + 1;
    }
    proof {
        assert(s@.subrange(from as int, end as int) =~= s@.skip(from as int));
    }
    s.substring_char(from, end)
}

/// `s` without white space at either end.
pub fn trim_whitespace<'a>(s: &'a str) -> (res: &'a str)
    ensures
        res@ == trim(s@, CharClass::Whitespace),
{
    trim_end_of(trim_start_of(s, CharClass::Whitespace), CharClass::Whitespace)
}

/// `s` without square brackets at either end.
pub fn trim_brackets<'a>(s: &'a str) -> (res: &'a str)
    ensures
        res@ == trim(s@, CharClass::Bracket),
{
    trim_end_of(trim_start_of(s, CharClass::Bracket), CharClass::Bracket)
}

/// Whether `a` precedes `b` in the order of code points.
pub open spec fn lex_lt(a: Seq<char>, b: Seq<char>) -> bool
    decreases a.len(),
{
    if b.len() == 0 {
        false
    } else if a.len() == 0 {
        true
    } else if a[0] == b[0] {
        lex_lt(a.skip(1), b.skip(1))
    } else {
        (a[0] as int) < (b[0] as int)
    }
}

/// The code point of `c`.
fn code_of(c: char) -> (res: u32)
    ensures
        res as int == c as int,
{
    c as u32
}

/// Whether `a` precedes `b` in the order of code points, which is the order of `str`.
pub fn precedes(a: &str, b: &str) -> (res: bool)
    ensures
        res == lex_lt(a@, b@),
{
    let x: Vec<char> = chars_of(a);
    let y: Vec<char> = chars_of(b);
    let mut i: usize = 0;
    proof {
        assert(a@.skip(0) =~= a@);
        assert(b@.skip(0) =~= b@);
    }
    while i < x.len() && i < y.len()
        invariant
            x@ == a@,
            y@ == b@,
            i <= x@.len(),
            i <= y@.len(),
            lex_lt(a@, b@) == lex_lt(a@.skip(i as int), b@.skip(i as int)),
        decreases x@.len() - i,
    {
        let p: char = x[i];
        let q: char = y[i];
        if p != q {
            return code_of(p) < code_of(q);
        }
        proof {
            assert(a@.skip(i as int).skip(1) =~= a@.skip(i + 1));
            assert(b@.skip(i as int).skip(1) =~= b@.skip(i + 1));
        }
        i = i + 1;
    }
    i < y.len()
}

/// The order of texts is strict and total.
pub proof fn lemma_lex_lt_order(a: Seq<char>, b: Seq<char>)
    ensures
        lex_lt(a, b) ==> a != b && !lex_lt(b, a),
        a != b ==> lex_lt(a, b) || lex_lt(b, a),
    decreases a.len(),
{
    if a.len() > 0 && b.len() > 0 && a[0] == b[0] {
        lemma_lex_lt_order(a.skip(1), b.skip(1));
        if a.skip(1) == b.skip(1) {
            assert(a =~= seq![a[0]] + a.skip(1));
            assert(b =~= seq![b[0]] + b.skip(1));
        }
    } else if a.len() == 0 && b.len() == 0 {
        assert(a =~= b);
    }
}

/// The order of texts is transitive.
pub proof fn lemma_lex_lt_transitive(a: Seq<char>, b: Seq<char>, c: Seq<char>)
    requires
        lex_lt(a, b),
        lex_lt(b, c),
    ensures
        lex_lt(a, c),
    decreases a.len(),
{
    if a.len() > 0 && b.len() > 0 && c.len() > 0 && a[0] == b[0] && b[0] == c[0] {
        lemma_lex_lt_transitive(a.skip(1), b.skip(1), c.skip(1));
    }
}

/// The decimal digit `d`.
pub open spec fn digit(d: nat) -> char {
    if d == 0 {
        '0'
    } else if d == 1 {
        '1'
    } else if d == 2 {
        '2'
    } else if d == 3 {
        '3'
    } else if d == 4 {
        '4'
    } else if d == 5 {
        '5'
    } else if d == 6 {
        '6'
    } else if d == 7 {
        '7'
    } else if d == 8 {
        '8'
    } else {
        '9'
    }
}

/// `n` in decimal, without leading zeros.
pub open spec fn decimal(n: nat) -> Seq<char>
    decreases n,
{
    if n < 10 {
        seq![digit(n)]
    } else {
        decimal(n / 10).push(digit(n % 10))
    }
}

/// A number in decimal is made of one or more digits.
pub proof fn lemma_decimal(n: nat)
    ensures
        decimal(n).len() >= 1,
        forall|i: int| 0 <= i < decimal(n).len() ==> '0' <= #[trigger] decimal(n)[i] <= '9',
    decreases n,
{
    if n >= 10 {
        lemma_decimal(n / 10);
    }
}

/// No two numbers are written alike.
pub proof fn lemma_decimal_injective(a: nat, b: nat)
    requires
        decimal(a) == decimal(b),
    ensures
        a == b,
    decreases a,
{
    lemma_decimal(a);
    lemma_decimal(b);
    assert(decimal(a).last() == digit(a % 10));
    assert(decimal(b).last() == digit(b % 10));
    if a >= 10 {
        lemma_decimal(a / 10);
    }
    if b >= 10 {
        lemma_decimal(b / 10);
    }
    if a >= 10 && b >= 10 {
        assert(decimal(a).drop_last() =~= decimal(a / 10));
        assert(decimal(b).drop_last() =~= decimal(b / 10));
        lemma_decimal_injective(a / 10, b / 10);
    }
}

/// The decimal digit `d` as a text.
fn digit_text(d: u64) -> (res: &'static str)
    requires
        d < 10,
    ensures
        res@ == seq![digit(d as nat)],
{
    proof {
        reveal_strlit("0");
        reveal_strlit("1");
        reveal_strlit("2");
        reveal_strlit("3");
        reveal_strlit("4");
        reveal_strlit("5");
        reveal_strlit("6");
        reveal_strlit("7");
        reveal_strlit("8");
        reveal_strlit("9");
    }
    match d {
        0 => "0",
        1 => "1",
        2 => "2",
        3 => "3",
        4 => "4",
        5 => "5",
        6 => "6",
        7 => "7",
        8 => "8",
        _ => "9",
    }
}

/// `n` in decimal.
pub fn decimal_text(n: u64) -> (res: String)
    ensures
        res@ == decimal(n as nat),
    decreases n,
{
    if n < 10 {
        digit_text(n).to_owned()
    } else {
        let mut head: String = decimal_text(n / 10);
        let ghost before = head@;
        let last: &str = digit_text(n % 10);
        head.append(last);
        proof {
            assert(before + last@ =~= before.push(digit((n % 10) as nat)));
        }
        head
    }
}

/// `a` followed by `b`.
pub fn joined(a: &str, b: &str) -> (res: String)
    ensures
        res@ == a@ + b@,
{
    let mut res: String = a.to_owned();
    res.append(b);
    res
}

/// A copy of an optional text.
pub fn copy_of(s: &Option<String>) -> (res: Option<String>)
    ensures
        res == *s,
{
    match s {
        Some(t) => Some(t.clone()),
        None => None,
    }
}

} // verus!
