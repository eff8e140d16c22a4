//! String operations with contracts over sequences of characters.
//!
//! Every function here works on whole characters, never on bytes, so that the
//! contracts can speak of a string's view directly.

use vstd::prelude::*;
use vstd::string::StrSliceExecFns;
use vstd::string::StringExecFns;

verus! {

/// `str`'s own equality compares the two strings character by character.
pub assume_specification[ <str as PartialEq>::eq ](a: &str, b: &str) -> (same: bool)
    ensures
        same == (a@ == b@),
;

/// `s` without the longest run of `c` at its end.
pub open spec fn trim_end(s: Seq<char>, c: char) -> Seq<char>
    decreases s.len(),
{
    if s.len() > 0 && s.last() == c {
        trim_end(s.drop_last(), c)
    } else {
        s
    }
}

/// The lower-case form of an ASCII capital; every other character is itself.
pub open spec fn ascii_lower(c: char) -> char {
    if 'A' <= c && c <= 'Z' {
        ((c as u8) + 32) as u8 as char
    } else {
        c
    }
}

/// `s` with each ASCII capital replaced by its lower-case form.
pub open spec fn lower(s: Seq<char>) -> Seq<char> {
    s.map_values(|c: char| ascii_lower(c))
}

/// Whether `a` and `b` differ at most in the case of ASCII letters.
pub open spec fn eq_ignore_case(a: Seq<char>, b: Seq<char>) -> bool {
    lower(a) == lower(b)
}

/// Whether `part` occurs in `s` as a block of neighbouring characters.
pub open spec fn has_infix(s: Seq<char>, part: Seq<char>) -> bool {
    exists|i: int| is_infix_at(s, part, i)
}

/// Whether `part` occurs in `s` starting at position `i`.
pub open spec fn is_infix_at(s: Seq<char>, part: Seq<char>, i: int) -> bool {
    0 <= i && i + part.len() <= s.len() && s.subrange(i, i + part.len()) == part
}

/// Trimming never lengthens, leaves a prefix, and leaves no `c` at the end.
pub proof fn lemma_trim_end(s: Seq<char>, c: char)
    ensures
        trim_end(s, c).len() <= s.len(),
        trim_end(s, c) == s.take(trim_end(s, c).len() as int),
        trim_end(s, c).len() > 0 ==> trim_end(s, c).last() != c,
        forall|i: int| trim_end(s, c).len() <= i < s.len() ==> s[i] == c,
    decreases s.len(),
{
    if s.len() > 0 && s.last() == c {
        lemma_trim_end(s.drop_last(), c);
        let t = trim_end(s, c);
        assert(s.drop_last().take(t.len() as int) == s.take(t.len() as int));
        assert forall|i: int| t.len() <= i < s.len() implies s[i] == c by {
            if i < s.len() - 1 {
                assert(s.drop_last()[i] == s[i]);
            }
        }
    } else {
        assert(s.take(s.len() as int) == s);
    }
}

/// A prefix of `s` that ends in no `c` and is followed by `c` alone is `trim_end(s, c)`.
pub proof fn lemma_trim_end_unique(s: Seq<char>, c: char, n: int)
    requires
        0 <= n <= s.len(),
        n > 0 ==> s[n - 1] != c,
        forall|i: int| n <= i < s.len() ==> s[i] == c,
    ensures
        trim_end(s, c) == s.take(n),
    decreases s.len(),
{
    if s.len() > 0 && s.last() == c {
        assert(n < s.len());
        lemma_trim_end_unique(s.drop_last(), c, n);
        assert(s.drop_last().take(n) == s.take(n));
    } else {
        assert(n == s.len());
        assert(s.take(n) == s);
    }
}

/// The string `s` without the characters `c` at its end.
pub fn trim_end_matches(s: &str, c: char) -> (r: &str)
    ensures
        r@ == trim_end(s@, c),
{
    let mut n: usize = s.unicode_len();
    while n > 0 && s.get_char(n - 1) == c
        invariant
            n <= s@.len(),
            forall|i: int| n <= i < s@.len() ==> s@[i] == c,
        decreases n,
    {
        n = n - 1;
    }
    proof {
        lemma_trim_end_unique(s@, c, n as int);
    }
    s.substring_char(0, n)
}

/// The two strings one after the other.
pub fn concat(a: &str, b: &str) -> (r: String)
    ensures
        r@ == a@ + b@,
{
    let mut out = String::from_str(a);
    out.append(b);
    out
}

/// The three strings one after the other.
pub fn concat3(a: &str, b: &str, c: &str) -> (r: String)
    ensures
        r@ == a@ + b@ + c@,
{
    let mut out = String::from_str(a);
    out.append(b);
    out.append(c);
    out
}

/// Whether `s` begins with `prefix`.
pub fn starts_with(s: &str, prefix: &str) -> (r: bool)
    ensures
        r == prefix@.is_prefix_of(s@),
{
    let n = prefix.unicode_len();
    if s.unicode_len() < n {
        false
    } else {
        let head = s.substring_char(0, n);
        head.eq(prefix)
    }
}

/// Whether `s` ends with `suffix`.
pub fn ends_with(s: &str, suffix: &str) -> (r: bool)
    ensures
        r == suffix@.is_suffix_of(s@),
{
    let n = suffix.unicode_len();
    let len = s.unicode_len();
    if len < n {
        false
    } else {
        let tail = s.substring_char(len - n, len);
        tail.eq(suffix)
    }
}

/// What follows `prefix` in `s`, where `s` begins with it.
pub fn strip_prefix<'a>(s: &'a str, prefix: &str) -> (r: Option<&'a str>)
    ensures
        r is Some <==> prefix@.is_prefix_of(s@),
        r matches Some(rest) ==> rest@ == s@.skip(prefix@.len() as int),
{
    if starts_with(s, prefix) {
        let n = prefix.unicode_len();
        let len = s.unicode_len();
        Some(s.substring_char(n, len))
    } else {
        None
    }
}

/// Whether `part` occurs somewhere in `s`.
pub fn contains(s: &str, part: &str) -> (r: bool)
    ensures
        r == has_infix(s@, part@),
{
    let n = part.unicode_len();
    let len = s.unicode_len();
    if len < n {
        return false;
    }
    let last = len - n;
    let mut i: usize = 0;
    loop
        invariant
            n == part@.len(),
            len == s@.len(),
            last == len - n,
            i <= last,
            forall|j: int| 0 <= j < i ==> !is_infix_at(s@, part@, j),
        decreases last - i,
    {
        if s.substring_char(i, i + n).eq(part) {
            assert(is_infix_at(s@, part@, i as int));
            return true;
        }
        if i == last {
            return false;
        }
        i = i + 1;
    }
}

/// The lower-case form of an ASCII capital; every other character is itself.
pub fn to_ascii_lower(c: char) -> (r: char)
    ensures
        r == ascii_lower(c),
{
    if 'A' <= c && c <= 'Z' {
        let n: u8 = c as u8;
        (n + 32) as char
    } else {
        c
    }
}

/// Whether the two strings are equal once ASCII capitals are made lower case.
pub fn eq_ignore_ascii_case(a: &str, b: &str) -> (r: bool)
    ensures
        r == eq_ignore_case(a@, b@),
{
    let n = a.unicode_len();
    if b.unicode_len() != n {
        return false;
    }
    let mut i: usize = 0;
    while i < n
        invariant
            n == a@.len(),
            n == b@.len(),
            i <= n,
            forall|j: int| 0 <= j < i ==> ascii_lower(a@[j]) == ascii_lower(b@[j]),
        decreases n - i,
    {
        if to_ascii_lower(a.get_char(i)) != to_ascii_lower(b.get_char(i)) {
            proof {
                assert(lower(a@)[i as int] != lower(b@)[i as int]);
            }
            return false;
        }
        i = i + 1;
    }
    proof {
        assert(lower(a@) =~= lower(b@));
    }
    true
}

/// The position of the first `c` in `s`, or the length of `s` where it holds none.
pub open spec fn first_index(s: Seq<char>, c: char) -> int
    decreases s.len(),
{
    if s.len() == 0 || s[0] == c {
        0
    } else {
        1 + first_index(s.skip(1), c)
    }
}

/// `s` split at its first `c`: what stands before it and what stands after it.
pub open spec fn split_at_first(s: Seq<char>, c: char) -> Option<(Seq<char>, Seq<char>)> {
    let k = first_index(s, c);
    if k < s.len() {
        Some((s.take(k), s.skip(k + 1)))
    } else {
        None
    }
}

/// Whether `c` is a blank, a tab or a line break.
pub open spec fn is_space(c: char) -> bool {
    c == ' ' || c == '\t' || c == '\n' || c == '\r'
}

/// `s` without the spaces at its start.
pub open spec fn trim_start(s: Seq<char>) -> Seq<char>
    decreases s.len(),
{
    if s.len() > 0 && is_space(s[0]) {
        trim_start(s.skip(1))
    } else {
        s
    }
}

/// `s` without the spaces at its end.
pub open spec fn trim_end_spaces(s: Seq<char>) -> Seq<char>
    decreases s.len(),
{
    if s.len() > 0 && is_space(s.last()) {
        trim_end_spaces(s.drop_last())
    } else {
        s
    }
}

/// `s` without the spaces at its start and at its end.
pub open spec fn trimmed(s: Seq<char>) -> Seq<char> {
    trim_end_spaces(trim_start(s))
}

/// A position that holds `c`, or is the end, with no `c` before it, is the
/// first index of `c`.
pub proof fn lemma_first_index(s: Seq<char>, c: char, k: int)
    requires
        0 <= k <= s.len(),
        forall|j: int| 0 <= j < k ==> s[j] != c,
        k < s.len() ==> s[k] == c,
    ensures
        first_index(s, c) == k,
    decreases s.len(),
{
    if s.len() == 0 || s[0] == c {
    } else {
        lemma_first_index(s.skip(1), c, k - 1);
    }
}

/// A text without `c`, then `c`, then any text, is split between the two.
pub proof fn lemma_split_at_first(before: Seq<char>, c: char, after: Seq<char>)
    requires
        !before.contains(c),
    ensures
        split_at_first(before + seq![c] + after, c) == Some((before, after)),
{
    let s = before + seq![c] + after;
    let k = before.len() as int;
    assert forall|j: int| 0 <= j < k implies s[j] != c by {
        assert(before.contains(before[j]));
    }
    lemma_first_index(s, c, k);
    assert(s.take(k) =~= before);
    assert(s.skip(k + 1) =~= after);
}

/// A part of `s` that begins and ends with no space, with spaces alone
/// before it and behind it, is `s` trimmed.
pub proof fn lemma_trimmed(s: Seq<char>, from: int, to: int)
    requires
        0 <= from <= to <= s.len(),
        forall|j: int| 0 <= j < from ==> is_space(s[j]),
        forall|j: int| to <= j < s.len() ==> is_space(s[j]),
        from < to ==> !is_space(s[from]) && !is_space(s[to - 1]),
        from == to ==> to == s.len(),
    ensures
        trimmed(s) == s.subrange(from, to),
    decreases s.len(),
{
    lemma_trim_start(s, from);
    lemma_trim_end_spaces(s.skip(from), to - from);
    assert(s.skip(from).take(to - from) =~= s.subrange(from, to));
}

/// `s` with `n` spaces at its start and none right behind them loses these.
pub proof fn lemma_trim_start(s: Seq<char>, n: int)
    requires
        0 <= n <= s.len(),
        forall|j: int| 0 <= j < n ==> is_space(s[j]),
        n < s.len() ==> !is_space(s[n]),
    ensures
        trim_start(s) == s.skip(n),
    decreases n,
{
    if n == 0 {
        assert(s.skip(0) =~= s);
    } else {
        assert(is_space(s[0]));
        lemma_trim_start(s.skip(1), n - 1);
        assert(s.skip(1).skip(n - 1) =~= s.skip(n));
    }
}

/// `s` with spaces alone from position `n` on and none right before keeps
/// its first `n` characters.
pub proof fn lemma_trim_end_spaces(s: Seq<char>, n: int)
    requires
        0 <= n <= s.len(),
        forall|j: int| n <= j < s.len() ==> is_space(s[j]),
        n > 0 ==> !is_space(s[n - 1]),
    ensures
        trim_end_spaces(s) == s.take(n),
    decreases s.len(),
{
    if s.len() > 0 && is_space(s.last()) {
        assert(n < s.len());
        lemma_trim_end_spaces(s.drop_last(), n);
        assert(s.drop_last().take(n) =~= s.take(n));
    } else {
        assert(n == s.len());
        assert(s.take(n) =~= s);
    }
}

/// The characters of `s`, in order.
pub fn to_chars(s: &str) -> (chars: Vec<char>)
    ensures
        chars@ == s@,
{
    let mut chars: Vec<char> = Vec::new();
    for c in it: s.chars()
        invariant
            it.seq() == s@,
            chars@ == it.seq().take(it.index() as int),
    {
        chars.push(c);
    }
    chars
}

/// The position of the first `c` among `chars[from..to]`, or `to` where
/// there is none.
pub fn find_char(chars: &Vec<char>, from: usize, to: usize, c: char) -> (at: usize)
    requires
        from <= to <= chars.len(),
    ensures
        from <= at <= to,
        at - from == first_index(chars@.subrange(from as int, to as int), c),
{
    let mut at = from;
    while at < to && chars[at] != c
        invariant
            from <= at <= to,
            to <= chars.len(),
            forall|j: int| from <= j < at ==> chars@[j] != c,
        decreases to - at,
    {
        at = at + 1;
    }
    proof {
        lemma_first_index(chars@.subrange(from as int, to as int), c, at - from);
    }
    at
}

/// Whether `c` is a blank, a tab or a line break.
pub fn is_space_char(c: char) -> (r: bool)
    ensures
        r == is_space(c),
{
    c == ' ' || c == '\t' || c == '\n' || c == '\r'
}

/// The bounds of `chars[from..to]` without the spaces at its two ends.
pub fn trim_range(chars: &Vec<char>, from: usize, to: usize) -> (bounds: (usize, usize))
    requires
        from <= to <= chars.len(),
    ensures
        from <= bounds.0 <= bounds.1 <= to,
        chars@.subrange(bounds.0 as int, bounds.1 as int) == trimmed(
            chars@.subrange(from as int, to as int),
        ),
{
    let mut a = from;
    while a < to && is_space_char(chars[a])
        invariant
            from <= a <= to,
            to <= chars.len(),
            forall|j: int| from <= j < a ==> is_space(chars@[j]),
        decreases to - a,
    {
        a = a + 1;
    }
    let mut b = to;
    while b > a && is_space_char(chars[b - 1])
        invariant
            a <= b <= to,
            to <= chars.len(),
            forall|j: int| b <= j < to ==> is_space(chars@[j]),
        decreases b,
    {
        b = b - 1;
    }
    proof {
        let part = chars@.subrange(from as int, to as int);
        lemma_trimmed(part, a - from, b - from);
        assert(part.subrange(a - from, b - from) =~= chars@.subrange(a as int, b as int));
    }
    (a, b)
}

/// The characters `from..to` of `s` as a string of their own.
pub fn slice_string(s: &str, from: usize, to: usize) -> (part: String)
    requires
        from <= to <= s@.len(),
    ensures
        part@ == s@.subrange(from as int, to as int),
{
    s.substring_char(from, to).to_owned()
}

/// The character of the decimal digit `d`.
pub open spec fn digit(d: nat) -> char {
    ((48 + d) as u8) as char
}

/// The decimal text of a number, without leading zeros.
pub open spec fn decimal(n: nat) -> Seq<char>
    decreases n,
{
    if n < 10 {
        seq![digit(n)]
    } else {
        decimal(n / 10).push(digit(n % 10))
    }
}

/// The text of one decimal digit.
pub fn digit_text(d: u8) -> (text: &'static str)
    requires
        d < 10,
    ensures
        text@ == seq![digit(d as nat)],
{
    proof {
        reveal_strlit("0");
        reveal_strlit("1");
        reveal_strlit("2");
        reveal_strlit("3");
        reveal_strlit("4");
        reveal_strlit("5");
        reveal_strlit("6");
        reveal_strlit("7");
        reveal_strlit("8");
        reveal_strlit("9");
    }
    let text = if d == 0 {
        "0"
    } else if d == 1 {
        "1"
    } else if d == 2 {
        "2"
    } else if d == 3 {
        "3"
    } else if d == 4 {
        "4"
    } else if d == 5 {
        "5"
    } else if d == 6 {
        "6"
    } else if d == 7 {
        "7"
    } else if d == 8 {
        "8"
    } else {
        "9"
    };
    assert(text@ =~= seq![digit(d as nat)]);
    text
}

/// The decimal text of `n`.
pub fn decimal_text(n: u128) -> (text: String)
    ensures
        text@ == decimal(n as nat),
    decreases n,
{
    if n < 10 {
        digit_text(n as u8).to_owned()
    } else {
        let mut text = decimal_text(n / 10);
        let last = digit_text((n % 10) as u8);
        text.append(last);
        text
    }
}

} // verus!
