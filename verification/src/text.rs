//! Character-sequence helpers shared by the analysis rules: substring
//! search, prefix/suffix tests, line splitting and decimal rendering.
use vstd::prelude::*;

verus! {

/// `p` occurs in `t` starting at index `i`.
pub open spec fn matches_at(t: Seq<char>, p: Seq<char>, i: int) -> bool {
    &&& 0 <= i
    &&& i + p.len() <= t.len()
    &&& t.subrange(i, i + p.len()) == p
}

/// `p` occurs somewhere in `t` (the empty sequence occurs everywhere).
pub open spec fn seq_contains(t: Seq<char>, p: Seq<char>) -> bool {
    exists|i: int| matches_at(t, p, i)
}

/// `t` begins with `p`.
pub open spec fn seq_starts_with(t: Seq<char>, p: Seq<char>) -> bool {
    matches_at(t, p, 0)
}

/// `t` ends with `p`.
pub open spec fn seq_ends_with(t: Seq<char>, p: Seq<char>) -> bool {
    matches_at(t, p, t.len() - p.len())
}

/// An element of either part of a concatenation is an element of the whole.
pub proof fn lemma_concat_contains<A>(a: Seq<A>, b: Seq<A>, x: A)
    ensures
        a.contains(x) ==> (a + b).contains(x),
        b.contains(x) ==> (a + b).contains(x),
{
    if a.contains(x) {
        let i = choose|i: int| 0 <= i < a.len() && a[i] == x;
        assert((a + b)[i] == x);
    }
    if b.contains(x) {
        let i = choose|i: int| 0 <= i < b.len() && b[i] == x;
        assert((a + b)[a.len() + i] == x);
    }
}

/// The character of the decimal digit `d` (`0 <= d < 10`).
pub open spec fn digit_char(d: nat) -> char {
    ((d + 48) as u32) as char
}

/// The decimal rendering of `n`, without sign or leading zeros.
pub open spec fn decimal(n: nat) -> Seq<char>
    decreases n,
{
    if n < 10 {
        seq![digit_char(n)]
    } else {
        decimal(n / 10).push(digit_char(n % 10))
    }
}

/// The chars of `s`, in order.
pub fn chars_of(s: &str) -> (v: Vec<char>)
    ensures
        v@ == s@,
{
    let mut v: Vec<char> = Vec::new();
    for c in it: s.chars()
        invariant
            v@ == it.seq().take(it.index() as int),
    {
        v.push(c);
    }
    v
}

/// Whether `p` occurs in `t` at index `i`.
pub fn matches_at_exec(t: &Vec<char>, p: &Vec<char>, i: usize) -> (r: bool)
    ensures
        r == matches_at(t@, p@, i as int),
{
    if i > t.len() || p.len() > t.len() - i {
        return false;
    }
    let mut k: usize = 0;
    while k < p.len()
        invariant
            i + p.len() <= t.len(),
            k <= p.len(),
            forall|j: int| 0 <= j < k ==> t@[i + j] == p@[j],
        decreases p.len() - k,
    {
        if t[i + k] != p[k] {
            assert(t@.subrange(i as int, i + p.len())[k as int] != p@[k as int]);
            return false;
        }
        k = k + 1;
    }
    assert(t@.subrange(i as int, i + p.len()) =~= p@);
    true
}

/// Whether `p` occurs somewhere in `t`.
pub fn contains_exec(t: &Vec<char>, p: &Vec<char>) -> (r: bool)
    ensures
        r == seq_contains(t@, p@),
{
    if p.len() > t.len() {
        return false;
    }
    let last = t.len() - p.len();
    let mut i: usize = 0;
    loop
        invariant
            last == t.len() - p.len(),
            i <= last,
            forall|j: int| 0 <= j < i ==> !matches_at(t@, p@, j),
        decreases last - i,
    {
        if matches_at_exec(t, p, i) {
            return true;
        }
        if i == last {
            assert forall|j: int| !matches_at(t@, p@, j) by {
                if 0 <= j && j + p.len() <= t.len() {
                    assert(j <= last);
                }
            }
            return false;
        }
        i = i + 1;
    }
}

/// Whether `t` begins with `p`.
pub fn starts_with_exec(t: &Vec<char>, p: &Vec<char>) -> (r: bool)
    ensures
        r == seq_starts_with(t@, p@),
{
    matches_at_exec(t, p, 0)
}

/// Whether `t` ends with `p`.
pub fn ends_with_exec(t: &Vec<char>, p: &Vec<char>) -> (r: bool)
    ensures
        r == seq_ends_with(t@, p@),
{
    if p.len() > t.len() {
        return false;
    }
    matches_at_exec(t, p, t.len() - p.len())
}

/// Appends `c` to `s` (`String::push`).
#[verifier::external_body]
pub(crate) fn push_char(s: &mut String, c: char)
    ensures
        final(s)@ == old(s)@.push(c),
{
    s.push(c)
}

/// A `String` holding the chars of `v`.
pub fn string_of(v: &Vec<char>) -> (s: String)
    ensures
        s@ == v@,
{
    let mut s = String::new();
    let mut i: usize = 0;
    while i < v.len()
        invariant
            i <= v.len(),
            s@ == v@.take(i as int),
        decreases v.len() - i,
    {
        push_char(&mut s, v[i]);
        assert(v@.take(i + 1) =~= v@.take(i as int).push(v@[i as int]));
        i = i + 1;
    }
    assert(v@.take(v.len() as int) =~= v@);
    s
}

/// Appends the decimal rendering of `n` to `s`.
pub fn push_decimal(s: &mut String, n: usize)
    ensures
        final(s)@ == old(s)@ + decimal(n as nat),
    decreases n,
{
    if n >= 10 {
        push_decimal(s, n / 10);
    }
    let d = n % 10;
    let c = char_of_digit(d);
    push_char(s, c);
    proof {
        if n >= 10 {
            assert(old(s)@ + decimal(n as nat) =~= old(s)@ + decimal((n / 10) as nat) + seq![c]);
        } else {
            assert(old(s)@ + decimal(n as nat) =~= old(s)@ + seq![c]);
        }
    }
}

/// The char of the decimal digit `d`.
fn char_of_digit(d: usize) -> (c: char)
    requires
        d < 10,
    ensures
        c == digit_char(d as nat),
{
    if d == 0 { '0' }
    else if d == 1 { '1' }
    else if d == 2 { '2' }
    else if d == 3 { '3' }
    else if d == 4 { '4' }
    else if d == 5 { '5' }
    else if d == 6 { '6' }
    else if d == 7 { '7' }
    else if d == 8 { '8' }
    else { '9' }
}

/// Whether the literal `p` occurs in `t`.
pub fn contains_str(t: &Vec<char>, p: &str) -> (r: bool)
    ensures
        r == seq_contains(t@, p@),
{
    let pc = chars_of(p);
    contains_exec(t, &pc)
}

/// What `str::to_lowercase` returns for a string of the given chars that
/// are not all ASCII: the Unicode lowercase mapping of each char, with the
/// context rule for a final capital sigma.
pub uninterp spec fn lowercase(s: Seq<char>) -> Seq<char>;

/// The char is ASCII.
pub open spec fn ascii_char(c: char) -> bool {
    (c as u32) < 128
}

/// Every char of `s` is ASCII.
pub open spec fn all_ascii(s: Seq<char>) -> bool {
    forall|i: int| 0 <= i < s.len() ==> ascii_char(#[trigger] s[i])
}

/// The ASCII lowercase of a char: `A` to `Z` become `a` to `z`; every
/// other char stays.
pub open spec fn ascii_lower_char(c: char) -> char {
    if 65 <= (c as u32) <= 90 {
        ((c as u32) + 32) as char
    } else {
        c
    }
}

/// `s` with each char in ASCII lowercase.
pub open spec fn ascii_lower(s: Seq<char>) -> Seq<char> {
    s.map_values(|c: char| ascii_lower_char(c))
}

/// What `str::to_lowercase` returns: for ASCII text, the ASCII lowercase
/// of each char; for other text, the Unicode mapping named by `lowercase`.
pub open spec fn lowercase_of(s: Seq<char>) -> Seq<char> {
    if all_ascii(s) {
        ascii_lower(s)
    } else {
        lowercase(s)
    }
}

/// `str::to_lowercase`: ASCII text is lowercased char by char (`A`-`Z` to
/// `a`-`z`, all else kept); the result for other text is named by
/// `lowercase`.
#[verifier::external_body]
pub(crate) fn to_lowercase(s: &str) -> (r: String)
    ensures
        all_ascii(s@) ==> r@ == ascii_lower(s@),
        !all_ascii(s@) ==> r@ == lowercase(s@),
{
    s.to_lowercase()
}

/// What `char::is_whitespace` returns: whether the char has the Unicode
/// `White_Space` property, which holds of these 25 code points:
/// U+0009 to U+000D, U+0020, U+0085, U+00A0, U+1680, U+2000 to U+200A,
/// U+2028, U+2029, U+202F, U+205F and U+3000.
pub open spec fn white_space(c: char) -> bool {
    let n = c as u32;
    ||| 0x09 <= n <= 0x0d
    ||| n == 0x20
    ||| n == 0x85
    ||| n == 0xa0
    ||| n == 0x1680
    ||| 0x2000 <= n <= 0x200a
    ||| n == 0x2028
    ||| n == 0x2029
    ||| n == 0x202f
    ||| n == 0x205f
    ||| n == 0x3000
}

/// Whether `c` is white space, as `char::is_whitespace` decides it: one of
/// the 25 code points listed at `white_space`.
pub(crate) fn is_white_space(c: char) -> (r: bool)
    ensures
        r == white_space(c),
{
    let n = c as u32;
    (0x09 <= n && n <= 0x0d) || n == 0x20 || n == 0x85 || n == 0xa0 || n == 0x1680 || (0x2000 <= n && n
        <= 0x200a) || n == 0x2028 || n == 0x2029 || n == 0x202f || n == 0x205f || n == 0x3000
}

/// The string `prefix` followed by the decimal rendering of `n`.
pub fn text_with_number(prefix: &str, n: usize) -> (s: String)
    ensures
        s@ == prefix@ + decimal(n as nat),
{
    let mut s = String::from_str(prefix);
    push_decimal(&mut s, n);
    s
}

/// The concatenation of `a`, `b` and `c`.
pub fn concat3(a: &str, b: &str, c: &str) -> (s: String)
    ensures
        s@ == a@ + b@ + c@,
{
    let mut s = String::from_str(a);
    s.append(b);
    s.append(c);
    s
}

/// Index of the first `\n` of `t` at or after `i` (`t.len()` if none).
pub open spec fn next_newline(t: Seq<char>, i: int) -> int
    decreases t.len() - i,
{
    if i < 0 || i >= t.len() {
        t.len() as int
    } else if t[i] == '\n' {
        i
    } else {
        next_newline(t, i + 1)
    }
}

/// `l` without one trailing carriage return.
pub open spec fn strip_cr(l: Seq<char>) -> Seq<char> {
    if l.len() > 0 && l.last() == '\r' {
        l.drop_last()
    } else {
        l
    }
}

pub proof fn lemma_next_newline_bounds(t: Seq<char>, i: int)
    requires
        0 <= i <= t.len(),
    ensures
        i <= next_newline(t, i) <= t.len(),
    decreases t.len() - i,
{
    if i < t.len() && t[i] != '\n' {
        lemma_next_newline_bounds(t, i + 1);
    }
}

/// The lines of `t` from index `start` on: pieces ended by `\n` lose the
/// `\n` and one `\r` before it; a last piece without `\n` is kept as it is,
/// and an empty one is no line.
pub open spec fn lines_from(t: Seq<char>, start: int) -> Seq<Seq<char>>
    decreases t.len() - start,
{
    if start < 0 || start >= t.len() {
        Seq::empty()
    } else {
        let e = next_newline(t, start);
        proof {
            lemma_next_newline_bounds(t, start);
        }
        if e >= t.len() {
            seq![t.subrange(start, t.len() as int)]
        } else {
            seq![strip_cr(t.subrange(start, e))] + lines_from(t, e + 1)
        }
    }
}

/// The lines of `t`, as `str::lines` gives them.
pub open spec fn text_lines(t: Seq<char>) -> Seq<Seq<char>> {
    lines_from(t, 0)
}

proof fn lemma_next_newline_skip(t: Seq<char>, start: int, i: int)
    requires
        0 <= start <= i <= t.len(),
        forall|j: int| start <= j < i ==> t[j] != '\n',
    ensures
        next_newline(t, start) == next_newline(t, i),
    decreases i - start,
{
    if start < i {
        lemma_next_newline_skip(t, start + 1, i);
    }
}

/// The lines of `t`.
pub fn split_lines(t: &Vec<char>) -> (r: Vec<Vec<char>>)
    ensures
        r@.len() == text_lines(t@).len(),
        forall|k: int| 0 <= k < r@.len() ==> #[trigger] r@[k]@ == text_lines(t@)[k],
{
    let mut r: Vec<Vec<char>> = Vec::new();
    let mut cur: Vec<char> = Vec::new();
    let mut start: usize = 0;
    let mut i: usize = 0;
    while i < t.len()
        invariant
            start <= i <= t.len(),
            cur@ == t@.subrange(start as int, i as int),
            forall|j: int| start <= j < i ==> t@[j] != '\n',
            r@.len() + lines_from(t@, start as int).len() == text_lines(t@).len(),
            forall|k: int| 0 <= k < r@.len() ==> #[trigger] r@[k]@ == text_lines(t@)[k],
            forall|k: int|
                0 <= k < lines_from(t@, start as int).len() ==> #[trigger] lines_from(
                    t@,
                    start as int,
                )[k] == text_lines(t@)[r@.len() + k],
        decreases t.len() - i,
    {
        let c = t[i];
        if c == '\n' {
            proof {
                lemma_next_newline_skip(t@, start as int, i as int);
                assert(next_newline(t@, start as int) == i);
            }
            let ghost rest = lines_from(t@, start as int);
            let ghost line = strip_cr(t@.subrange(start as int, i as int));
            assert(rest == seq![line] + lines_from(t@, i + 1));
            assert(rest[0] == line);
            let n = cur.len();
            if n > 0 && cur[n - 1] == '\r' {
                cur.pop();
            }
            assert(cur@ == line);
            let ghost k0 = r@.len();
            r.push(cur);
            cur = Vec::new();
            start = i + 1;
            assert forall|k: int|
                0 <= k < lines_from(t@, start as int).len() implies #[trigger] lines_from(
                t@,
                start as int,
            )[k] == text_lines(t@)[r@.len() + k] by {
                assert(lines_from(t@, start as int)[k] == rest[k + 1]);
            }
            assert(t@.subrange(start as int, start as int) =~= Seq::<char>::empty());
        } else {
            cur.push(c);
            assert(t@.subrange(start as int, i + 1) =~= t@.subrange(start as int, i as int).push(c));
        }
        i = i + 1;
    }
    if start < t.len() {
        proof {
            lemma_next_newline_skip(t@, start as int, i as int);
        }
        assert(lines_from(t@, start as int) == seq![t@.subrange(start as int, t.len() as int)]);
        assert(lines_from(t@, start as int)[0] == text_lines(t@)[r@.len() as int]);
        r.push(cur);
    }
    r
}

} // verus!
