//! Character-level text operations with exact specifications.
//!
//! Every function here works on the characters of a string (its view, a
//! `Seq<char>`) and says in its contract exactly which characters come out.

use vstd::prelude::*;

verus! {

/// The characters that count as white space: the Unicode `White_Space` set.
pub open spec fn is_space(c: char) -> bool {
    ||| ('\u{9}' <= c && c <= '\u{d}')
    ||| c == ' '
    ||| c == '\u{85}'
    ||| c == '\u{a0}'
    ||| c == '\u{1680}'
    ||| ('\u{2000}' <= c && c <= '\u{200a}')
    ||| c == '\u{2028}'
    ||| c == '\u{2029}'
    ||| c == '\u{202f}'
    ||| c == '\u{205f}'
    ||| c == '\u{3000}'
}

/// `s` without its leading white space.
pub open spec fn skip_spaces(s: Seq<char>) -> Seq<char>
    decreases s.len(),
{
    if s.len() > 0 && is_space(s[0]) {
        skip_spaces(s.drop_first())
    } else {
        s
    }
}

/// `s` without its trailing white space.
pub open spec fn drop_trailing_spaces(s: Seq<char>) -> Seq<char>
    decreases s.len(),
{
    if s.len() > 0 && is_space(s.last()) {
        drop_trailing_spaces(s.drop_last())
    } else {
        s
    }
}

/// `s` without leading and trailing white space.
pub open spec fn trimmed(s: Seq<char>) -> Seq<char> {
    drop_trailing_spaces(skip_spaces(s))
}

/// The position of the first `c` in `s`, or the length of `s` where there is none.
pub open spec fn index_of(s: Seq<char>, c: char) -> int
    decreases s.len(),
{
    if s.len() == 0 || s[0] == c {
        0
    } else {
        1 + index_of(s.drop_first(), c)
    }
}

/// The pieces of `s` between occurrences of `sep`; always at least one piece.
pub open spec fn split(s: Seq<char>, sep: char) -> Seq<Seq<char>>
    decreases s.len(),
{
    let i = index_of(s, sep);
    if 0 <= i < s.len() {
        seq![s.take(i)] + split(s.skip(i + 1), sep)
    } else {
        seq![s]
    }
}

/// `line` without one trailing carriage return.
pub open spec fn strip_cr(line: Seq<char>) -> Seq<char> {
    if line.len() > 0 && line.last() == '\r' {
        line.drop_last()
    } else {
        line
    }
}

/// The lines of `s`. A line ends at a line feed, or at a carriage return
/// directly followed by one; the last line needs no line ending, and keeps a
/// carriage return that nothing follows.
pub open spec fn lines(s: Seq<char>) -> Seq<Seq<char>>
    decreases s.len(),
{
    if s.len() == 0 {
        Seq::empty()
    } else {
        let i = index_of(s, '\n');
        if 0 <= i < s.len() {
            seq![strip_cr(s.take(i))] + lines(s.skip(i + 1))
        } else {
            seq![s]
        }
    }
}

/// Whether `needle` occurs in `s` as a contiguous run.
pub open spec fn contains(s: Seq<char>, needle: Seq<char>) -> bool {
    exists|i: int| occurs_at(s, needle, i)
}

/// Whether `needle` occurs in `s` starting at position `i`.
pub open spec fn occurs_at(s: Seq<char>, needle: Seq<char>, i: int) -> bool {
    0 <= i && i + needle.len() <= s.len() && s.subrange(i, i + needle.len()) == needle
}

/// `s` without the prefix `p`, where it starts with `p`.
pub open spec fn strip_prefix(s: Seq<char>, p: Seq<char>) -> Option<Seq<char>> {
    if p.is_prefix_of(s) {
        Some(s.skip(p.len() as int))
    } else {
        None
    }
}

/// The longest run of characters at the end of `s` that holds no white space.
pub open spec fn word_tail(s: Seq<char>) -> Seq<char>
    decreases s.len(),
{
    if s.len() == 0 || is_space(s.last()) {
        Seq::empty()
    } else {
        word_tail(s.drop_last()).push(s.last())
    }
}

/// The last of the words that white space separates in `s`, if there is one.
pub open spec fn last_word(s: Seq<char>) -> Option<Seq<char>> {
    let t = drop_trailing_spaces(s);
    if t.len() == 0 {
        None
    } else {
        Some(word_tail(t))
    }
}

/// Whether `c` is one of the ten decimal digits.
pub open spec fn is_digit(c: char) -> bool {
    '0' <= c && c <= '9'
}

/// The number that the decimal digit `c` stands for.
pub open spec fn digit_value(c: char) -> int {
    c as int - '0' as int
}

/// Whether `s` holds decimal digits only.
pub open spec fn all_digits(s: Seq<char>) -> bool {
    forall|i: int| 0 <= i < s.len() ==> is_digit(#[trigger] s[i])
}

/// The number that the decimal digits `s` write, most significant digit first.
pub open spec fn decimal_value(s: Seq<char>) -> int
    decreases s.len(),
{
    if s.len() == 0 {
        0
    } else {
        decimal_value(s.drop_last()) * 10 + digit_value(s.last())
    }
}

/// The 64-bit signed integer that `s` writes in decimal: an optional sign,
/// then at least one digit and nothing else, the number within range.
pub open spec fn decimal_i64(s: Seq<char>) -> Option<i64> {
    let signed = s.len() > 0 && (s[0] == '-' || s[0] == '+');
    let digits = if signed {
        s.skip(1)
    } else {
        s
    };
    let value = if s.len() > 0 && s[0] == '-' {
        -decimal_value(digits)
    } else {
        decimal_value(digits)
    };
    if digits.len() > 0 && all_digits(digits) && i64::MIN <= value <= i64::MAX {
        Some(value as i64)
    } else {
        None
    }
}

/// Whether `c` is white space.
pub fn is_whitespace(c: char) -> (b: bool)
    ensures
        b == is_space(c),
{
    ('\u{9}' <= c && c <= '\u{d}') || c == ' ' || c == '\u{85}' || c == '\u{a0}' || c == '\u{1680}'
        || ('\u{2000}' <= c && c <= '\u{200a}') || c == '\u{2028}' || c == '\u{2029}' || c
        == '\u{202f}' || c == '\u{205f}' || c == '\u{3000}'
}

/// The characters of `s`, one by one.
pub fn to_chars(s: &str) -> (v: Vec<char>)
    ensures
        v@ == s@,
{
    let mut v: Vec<char> = Vec::new();
    for c in it: s.chars()
        invariant
            v@ == it.seq().take(it.index()),
            it.seq() == s@,
    {
        v.push(c);
    }
    v
}

/// The characters of `s` from position `from` up to, not including, `to`, as a string of its own.
fn substring(s: &str, from: usize, to: usize) -> (r: String)
    requires
        from <= to <= s@.len(),
    ensures
        r@ == s@.subrange(from as int, to as int),
{
    s.substring_char(from, to).to_owned()
}

/// `a` followed by `b`.
pub fn join_text(a: &str, b: &str) -> (r: String)
    ensures
        r@ == a@ + b@,
{
    let mut r = a.to_owned();
    r.append(b);
    r
}

/// Whether `a` and `b` hold the same characters.
pub fn same_text(a: &str, b: &str) -> (r: bool)
    ensures
        r == (a@ == b@),
{
    let x = to_chars(a);
    let y = to_chars(b);
    if x.len() != y.len() {
        return false;
    }
    let mut i: usize = 0;
    while i < x.len()
        invariant
            x.len() == y.len(),
            i <= x.len(),
            x@ == a@,
            y@ == b@,
            forall|j: int| 0 <= j < i ==> x@[j] == y@[j],
        decreases x.len() - i,
    {
        if x[i] != y[i] {
            return false;
        }
        i += 1;
    }
    assert(x@ =~= y@);
    true
}

/// `s` without leading and trailing white space.
pub fn trim(s: &str) -> (r: String)
    ensures
        r@ == trimmed(s@),
{
    let chars = to_chars(s);
    let n = chars.len();
    let mut a: usize = 0;
    assert(chars@.skip(0) =~= chars@);
    while a < n && is_whitespace(chars[a])
        invariant
            n == chars.len(),
            a <= n,
            skip_spaces(chars@) == skip_spaces(chars@.skip(a as int)),
        decreases n - a,
    {
        assert(chars@.skip(a as int).drop_first() =~= chars@.skip(a + 1));
        a += 1;
    }
    assert(skip_spaces(chars@) == chars@.skip(a as int));
    let mut b: usize = n;
    assert(chars@.skip(a as int) =~= chars@.subrange(a as int, b as int));
    while b > a && is_whitespace(chars[b - 1])
        invariant
            n == chars.len(),
            a <= b <= n,
            trimmed(chars@) == drop_trailing_spaces(chars@.subrange(a as int, b as int)),
        decreases b,
    {
        assert(chars@.subrange(a as int, b as int).drop_last() =~= chars@.subrange(
            a as int,
            b - 1,
        ));
        b -= 1;
    }
    substring(s, a, b)
}

/// Where the first `c` stands: at `k`, if no character before `k` is `c`
/// and the one at `k` is; past the end, if there is none.
pub proof fn lemma_index_of(s: Seq<char>, c: char, k: int)
    requires
        0 <= k <= s.len(),
        forall|j: int| 0 <= j < k ==> s[j] != c,
        k < s.len() ==> s[k] == c,
    ensures
        index_of(s, c) == k,
    decreases s.len(),
{
    if k > 0 {
        lemma_index_of(s.drop_first(), c, k - 1);
    }
}

/// Splitting what was put together gives the parts back: where `head` holds
/// no `sep`, the pieces of `head`, `sep`, `tail` are `head` and the pieces
/// of `tail`; and what holds no `sep` is one piece.
pub proof fn lemma_split_joined(head: Seq<char>, sep: char, tail: Seq<char>)
    requires
        !head.contains(sep),
    ensures
        split(head + seq![sep] + tail, sep) == seq![head] + split(tail, sep),
        split(head, sep) == seq![head],
{
    let whole = head + seq![sep] + tail;
    assert forall|j: int| 0 <= j < head.len() implies whole[j] != sep && head[j] != sep by {
        assert(head.contains(head[j]));
    }
    lemma_index_of(whole, sep, head.len() as int);
    lemma_index_of(head, sep, head.len() as int);
    assert(whole.take(head.len() as int) =~= head);
    assert(whole.skip(head.len() as int + 1) =~= tail);
}

/// The pieces of `s` between occurrences of `sep`.
pub fn split_at_char(s: &str, sep: char) -> (r: Vec<String>)
    ensures
        r.deep_view() == split(s@, sep),
{
    let chars = to_chars(s);
    let n = chars.len();
    let mut out: Vec<String> = Vec::new();
    let mut start: usize = 0;
    let mut i: usize = 0;
    assert(chars@.skip(0) =~= chars@);
    assert(out.deep_view() =~= Seq::<Seq<char>>::empty());
    while i < n
        invariant
            n == chars.len(),
            chars@ == s@,
            start <= i <= n,
            forall|j: int| start <= j < i ==> chars@[j] != sep,
            split(chars@, sep) == out.deep_view() + split(chars@.skip(start as int), sep),
        decreases n - i,
    {
        if chars[i] == sep {
            let piece = substring(s, start, i);
            proof {
                let rest = chars@.skip(start as int);
                lemma_index_of(rest, sep, i - start);
                assert(rest.take(i - start) =~= chars@.subrange(start as int, i as int));
                assert(rest.skip(i - start + 1) =~= chars@.skip(i + 1));
                assert(out.deep_view().push(piece@) + split(chars@.skip(i + 1), sep) =~= out.deep_view() + (
                seq![piece@] + split(chars@.skip(i + 1), sep)));
            }
            let ghost before = out.deep_view();
            out.push(piece);
            assert(out.deep_view() =~= before.push(piece@));
            start = i + 1;
        }
        i += 1;
    }
    let piece = substring(s, start, n);
    proof {
        let rest = chars@.skip(start as int);
        lemma_index_of(rest, sep, n - start);
        assert(rest =~= chars@.subrange(start as int, n as int));
    }
    let ghost before = out.deep_view();
    out.push(piece);
    assert(out.deep_view() =~= before.push(piece@));
    assert(before.push(piece@) =~= before + seq![piece@]);
    out
}

/// The lines of `s`, without their line endings.
pub fn split_lines(s: &str) -> (r: Vec<String>)
    ensures
        r.deep_view() == lines(s@),
{
    let chars = to_chars(s);
    let n = chars.len();
    let mut out: Vec<String> = Vec::new();
    let mut start: usize = 0;
    let mut i: usize = 0;
    assert(chars@.skip(0) =~= chars@);
    assert(out.deep_view() =~= Seq::<Seq<char>>::empty());
    while i < n
        invariant
            n == chars.len(),
            chars@ == s@,
            start <= i <= n,
            forall|j: int| start <= j < i ==> chars@[j] != '\n',
            lines(chars@) == out.deep_view() + lines(chars@.skip(start as int)),
        decreases n - i,
    {
        if chars[i] == '\n' {
            let end = if i > start && chars[i - 1] == '\r' {
                i - 1
            } else {
                i
            };
            let piece = substring(s, start, end);
            proof {
                let rest = chars@.skip(start as int);
                lemma_index_of(rest, '\n', i - start);
                assert(rest.take(i - start) =~= chars@.subrange(start as int, i as int));
                assert(strip_cr(chars@.subrange(start as int, i as int)) =~= piece@);
                assert(rest.skip(i - start + 1) =~= chars@.skip(i + 1));
                assert(out.deep_view().push(piece@) + lines(chars@.skip(i + 1))
                    =~= out.deep_view() + (seq![piece@] + lines(chars@.skip(i + 1))));
            }
            let ghost before = out.deep_view();
            out.push(piece);
            assert(out.deep_view() =~= before.push(piece@));
            start = i + 1;
        }
        i += 1;
    }
    if start < n {
        let piece = substring(s, start, n);
        proof {
            let rest = chars@.skip(start as int);
            lemma_index_of(rest, '\n', n - start);
            assert(rest =~= chars@.subrange(start as int, n as int));
        }
        let ghost before = out.deep_view();
        out.push(piece);
        assert(out.deep_view() =~= before.push(piece@));
        assert(before.push(piece@) =~= before + seq![piece@]);
    } else {
        assert(out.deep_view() + Seq::<Seq<char>>::empty() =~= out.deep_view());
    }
    out
}

/// Whether `s` starts with `p`.
pub fn starts_with(s: &str, p: &str) -> (b: bool)
    ensures
        b == p@.is_prefix_of(s@),
{
    let x = to_chars(s);
    let y = to_chars(p);
    if x.len() < y.len() {
        return false;
    }
    let mut i: usize = 0;
    while i < y.len()
        invariant
            i <= y.len() <= x.len(),
            x@ == s@,
            y@ == p@,
            forall|j: int| 0 <= j < i ==> x@[j] == y@[j],
        decreases y.len() - i,
    {
        if x[i] != y[i] {
            return false;
        }
        i += 1;
    }
    assert(y@ =~= x@.subrange(0, y@.len() as int));
    true
}

/// `s` without the prefix `p`, where it starts with `p`.
pub fn remove_prefix(s: &str, p: &str) -> (r: Option<String>)
    ensures
        r.deep_view() == strip_prefix(s@, p@),
{
    if starts_with(s, p) {
        let from = p.unicode_len();
        let to = s.unicode_len();
        Some(substring(s, from, to))
    } else {
        None
    }
}

/// Whether `needle` occurs somewhere in `s`.
pub fn has_substring(s: &str, needle: &str) -> (b: bool)
    ensures
        b == contains(s@, needle@),
{
    let x = to_chars(s);
    let y = to_chars(needle);
    let n = x.len();
    let m = y.len();
    if m > n {
        assert forall|k: int| !occurs_at(s@, needle@, k) by {}
        return false;
    }
    let mut i: usize = 0;
    while i <= n - m
        invariant
            n == x.len(),
            m == y.len(),
            m <= n,
            i <= n - m + 1,
            x@ == s@,
            y@ == needle@,
            forall|k: int| 0 <= k < i ==> !occurs_at(s@, needle@, k),
        decreases n - m + 1 - i,
    {
        let mut j: usize = 0;
        while j < m && x[i + j] == y[j]
            invariant
                n == x.len(),
                m == y.len(),
                i + m <= n,
                j <= m,
                forall|k: int| 0 <= k < j ==> x@[i + k] == y@[k],
            decreases m - j,
        {
            j += 1;
        }
        if j == m {
            assert(x@.subrange(i as int, i + m) =~= y@);
            assert(occurs_at(s@, needle@, i as int));
            return true;
        }
        assert(!occurs_at(s@, needle@, i as int)) by {
            if occurs_at(s@, needle@, i as int) {
                assert(x@.subrange(i as int, i + m)[j as int] == y@[j as int]);
            }
        }
        i += 1;
    }
    assert forall|k: int| !occurs_at(s@, needle@, k) by {}
    false
}

proof fn lemma_decimal_prefix(s: Seq<char>, k: int)
    requires
        all_digits(s),
        0 <= k <= s.len(),
    ensures
        0 <= decimal_value(s.take(k)) <= decimal_value(s),
    decreases s.len(),
{
    if s.len() == 0 {
        assert(s.take(k) =~= s);
    } else {
        assert(is_digit(s[s.len() - 1]));
        lemma_decimal_prefix(s.drop_last(), 0);
        if k == s.len() {
            assert(s.take(k) =~= s);
        } else {
            lemma_decimal_prefix(s.drop_last(), k);
            assert(s.drop_last().take(k) =~= s.take(k));
        }
    }
}

/// The number that `c` stands for, where it is a decimal digit.
fn digit_of(c: char) -> (d: Option<u8>)
    ensures
        (d is Some) == is_digit(c),
        d matches Some(v) ==> v == digit_value(c),
{
    match c {
        '0' => Some(0),
        '1' => Some(1),
        '2' => Some(2),
        '3' => Some(3),
        '4' => Some(4),
        '5' => Some(5),
        '6' => Some(6),
        '7' => Some(7),
        '8' => Some(8),
        '9' => Some(9),
        _ => None,
    }
}

/// Reads `s` as a 64-bit signed integer written in decimal.
pub fn parse_i64(s: &str) -> (r: Option<i64>)
    ensures
        r == decimal_i64(s@),
{
    let chars = to_chars(s);
    let n = chars.len();
    if n == 0 {
        return None;
    }
    let negative = chars[0] == '-';
    let first: usize = if chars[0] == '-' || chars[0] == '+' {
        1
    } else {
        0
    };
    if first == n {
        return None;
    }
    let ghost digits = chars@.skip(first as int);
    let mut acc: i128 = 0;
    let mut i: usize = first;
    assert(digits.take(0) =~= Seq::<char>::empty());
    assert(chars@.skip(0) =~= chars@);
    while i < n
        invariant
            n == chars.len(),
            n > 0,
            chars@ == s@,
            negative == (chars@[0] == '-'),
            first == if chars@[0] == '-' || chars@[0] == '+' { 1usize } else { 0usize },
            first <= i <= n,
            digits == chars@.skip(first as int),
            first == 0 ==> digits == chars@,
            all_digits(digits.take(i - first)),
            acc == decimal_value(digits.take(i - first)),
            0 <= acc <= 0x8000_0000_0000_0000,
        decreases n - i,
    {
        let ghost seen = digits.take(i - first);
        let ghost next = digits.take(i + 1 - first);
        assert(next.drop_last() =~= seen);
        assert(next.last() == chars@[i as int]);
        match digit_of(chars[i]) {
            None => {
                assert(!is_digit(digits[i - first]));
                return None;
            },
            Some(d) => {
                assert(all_digits(next)) by {
                    assert forall|j: int| 0 <= j < next.len() implies is_digit(#[trigger] next[j]) by {
                        if j < seen.len() {
                            assert(next[j] == seen[j]);
                        }
                    }
                }
                acc = acc * 10 + d as i128;
                if acc > 0x8000_0000_0000_0000 {
                    proof {
                        if all_digits(digits) {
                            lemma_decimal_prefix(digits, i + 1 - first);
                        }
                    }
                    return None;
                }
            },
        }
        i += 1;
    }
    assert(digits.take(n - first) =~= digits);
    if negative {
        Some((-acc) as i64)
    } else if acc > 0x7fff_ffff_ffff_ffff {
        None
    } else {
        Some(acc as i64)
    }
}

/// The last of the words that white space separates in `s`, if there is one.
pub fn find_last_word(s: &str) -> (r: Option<String>)
    ensures
        r.deep_view() == last_word(s@),
{
    let chars = to_chars(s);
    let n = chars.len();
    let mut b: usize = n;
    assert(chars@.take(n as int) =~= chars@);
    while b > 0 && is_whitespace(chars[b - 1])
        invariant
            n == chars.len(),
            b <= n,
            drop_trailing_spaces(chars@) == drop_trailing_spaces(chars@.take(b as int)),
        decreases b,
    {
        assert(chars@.take(b as int).drop_last() =~= chars@.take(b - 1));
        b -= 1;
    }
    if b == 0 {
        return None;
    }
    let ghost t = chars@.take(b as int);
    assert(drop_trailing_spaces(chars@) == t);
    let mut a: usize = b;
    assert(chars@.subrange(b as int, b as int) =~= Seq::<char>::empty());
    assert(word_tail(t) + Seq::<char>::empty() =~= word_tail(t));
    while a > 0 && !is_whitespace(chars[a - 1])
        invariant
            n == chars.len(),
            a <= b <= n,
            t == chars@.take(b as int),
            word_tail(t) == word_tail(chars@.take(a as int)) + chars@.subrange(a as int, b as int),
        decreases a,
    {
        proof {
            let u = chars@.take(a as int);
            assert(u.drop_last() =~= chars@.take(a - 1));
            assert(word_tail(u.drop_last()).push(u.last()) + chars@.subrange(a as int, b as int)
                =~= word_tail(u.drop_last()) + chars@.subrange(a - 1, b as int));
        }
        a -= 1;
    }
    assert(word_tail(chars@.take(a as int)) =~= Seq::<char>::empty());
    assert(Seq::<char>::empty() + chars@.subrange(a as int, b as int) =~= chars@.subrange(
        a as int,
        b as int,
    ));
    Some(substring(s, a, b))
}

} // verus!
