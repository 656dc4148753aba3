//! The wildcard name patterns of custom rules.
//!
//! A pattern without `*` matches every text that contains it. A pattern with
//! exactly one `*` matches the texts that begin with what stands before the
//! star and end with what stands after it. A pattern with two or more stars
//! matches the texts that contain it once its leading and trailing stars are
//! removed.
use vstd::prelude::*;
use crate::text::{chars_of, contains_exec, ends_with_exec, matches_at, seq_contains, seq_ends_with, seq_starts_with, starts_with_exec};

verus! {

/// `p` holds a `*`.
pub open spec fn has_star(p: Seq<char>) -> bool {
    exists|i: int| 0 <= i < p.len() && p[i] == '*'
}

/// `p` holds exactly one `*`, at index `k`.
pub open spec fn single_star_at(p: Seq<char>, k: int) -> bool {
    &&& 0 <= k < p.len()
    &&& p[k] == '*'
    &&& forall|j: int| 0 <= j < p.len() && j != k ==> p[j] != '*'
}

/// `p` without its leading stars.
pub open spec fn trim_leading_stars(p: Seq<char>) -> Seq<char>
    decreases p.len(),
{
    if p.len() > 0 && p[0] == '*' {
        trim_leading_stars(p.drop_first())
    } else {
        p
    }
}

/// `p` without its trailing stars.
pub open spec fn trim_trailing_stars(p: Seq<char>) -> Seq<char>
    decreases p.len(),
{
    if p.len() > 0 && p.last() == '*' {
        trim_trailing_stars(p.drop_last())
    } else {
        p
    }
}

/// `p` without its leading and trailing stars.
pub open spec fn trim_stars(p: Seq<char>) -> Seq<char> {
    trim_trailing_stars(trim_leading_stars(p))
}

/// Whether `text` matches the wildcard `pattern`.
pub open spec fn pattern_matches(text: Seq<char>, pattern: Seq<char>) -> bool {
    if !has_star(pattern) {
        seq_contains(text, pattern)
    } else if exists|k: int| single_star_at(pattern, k) {
        let k = choose|k: int| single_star_at(pattern, k);
        &&& seq_starts_with(text, pattern.subrange(0, k))
        &&& seq_ends_with(text, pattern.subrange(k + 1, pattern.len() as int))
    } else {
        seq_contains(text, trim_stars(pattern))
    }
}

proof fn lemma_trim_leading_is_suffix(p: Seq<char>)
    ensures
        exists|a: int| 0 <= a <= p.len() && trim_leading_stars(p) == p.subrange(a, p.len() as int),
    decreases p.len(),
{
    if p.len() > 0 && p[0] == '*' {
        lemma_trim_leading_is_suffix(p.drop_first());
        let a = choose|a: int|
            0 <= a <= p.drop_first().len() && trim_leading_stars(p.drop_first())
                == p.drop_first().subrange(a, p.drop_first().len() as int);
        assert(p.drop_first().subrange(a, p.drop_first().len() as int) =~= p.subrange(
            a + 1,
            p.len() as int,
        ));
    } else {
        assert(p.subrange(0, p.len() as int) =~= p);
    }
}

proof fn lemma_trim_trailing_is_prefix(p: Seq<char>)
    ensures
        exists|b: int| 0 <= b <= p.len() && trim_trailing_stars(p) == p.subrange(0, b),
    decreases p.len(),
{
    if p.len() > 0 && p.last() == '*' {
        lemma_trim_trailing_is_prefix(p.drop_last());
        let b = choose|b: int|
            0 <= b <= p.drop_last().len() && trim_trailing_stars(p.drop_last())
                == p.drop_last().subrange(0, b);
        assert(p.drop_last().subrange(0, b) =~= p.subrange(0, b));
    } else {
        assert(p.subrange(0, p.len() as int) =~= p);
    }
}

/// Removing the leading and trailing stars leaves a piece of the pattern.
pub proof fn lemma_trim_stars_occurs_in_pattern(p: Seq<char>)
    ensures
        seq_contains(p, trim_stars(p)),
{
    lemma_trim_leading_is_suffix(p);
    let a = choose|a: int| 0 <= a <= p.len() && trim_leading_stars(p) == p.subrange(a, p.len() as int);
    let q = trim_leading_stars(p);
    lemma_trim_trailing_is_prefix(q);
    let b = choose|b: int| 0 <= b <= q.len() && trim_trailing_stars(q) == q.subrange(0, b);
    assert(p.subrange(a, a + b) =~= q.subrange(0, b));
    assert(matches_at(p, trim_stars(p), a));
}

/// Every pattern matches its own text.
pub proof fn law_pattern_matches_itself(p: Seq<char>)
    ensures
        pattern_matches(p, p),
{
    if !has_star(p) {
        assert(p.subrange(0, p.len() as int) =~= p);
        assert(matches_at(p, p, 0));
    } else if exists|k: int| single_star_at(p, k) {
        let k = choose|k: int| single_star_at(p, k);
        assert(p.subrange(0, 0 + k) =~= p.subrange(0, k));
        let s = p.subrange(k + 1, p.len() as int);
        assert(p.subrange(p.len() - s.len(), p.len() - s.len() + s.len()) =~= s);
    } else {
        lemma_trim_stars_occurs_in_pattern(p);
    }
}

/// A pattern without `*` matches exactly the texts that contain it.
pub proof fn law_plain_pattern_is_substring_test(text: Seq<char>, p: Seq<char>)
    requires
        forall|i: int| 0 <= i < p.len() ==> p[i] != '*',
    ensures
        pattern_matches(text, p) == seq_contains(text, p),
{
}

/// The empty pattern matches every text.
pub proof fn law_empty_pattern_matches_all(text: Seq<char>)
    ensures
        pattern_matches(text, Seq::empty()),
{
    assert(text.subrange(0, 0) =~= Seq::<char>::empty());
    assert(matches_at(text, Seq::empty(), 0));
}

/// A pattern `prefix*`, with no other star, matches exactly the texts that
/// begin with `prefix`.
pub proof fn law_trailing_star_is_prefix_test(text: Seq<char>, prefix: Seq<char>)
    requires
        forall|i: int| 0 <= i < prefix.len() ==> prefix[i] != '*',
    ensures
        pattern_matches(text, prefix.push('*')) == seq_starts_with(text, prefix),
{
    let p = prefix.push('*');
    let k = prefix.len() as int;
    assert(single_star_at(p, k));
    let c = choose|c: int| single_star_at(p, c);
    assert(c == k);
    assert(p.subrange(0, k) =~= prefix);
    assert(p.subrange(k + 1, p.len() as int) =~= Seq::<char>::empty());
    assert(text.subrange(text.len() - 0, text.len() - 0 + 0) =~= Seq::<char>::empty());
}

/// A pattern `*suffix`, with no other star, matches exactly the texts that
/// end with `suffix`.
pub proof fn law_leading_star_is_suffix_test(text: Seq<char>, suffix: Seq<char>)
    requires
        forall|i: int| 0 <= i < suffix.len() ==> suffix[i] != '*',
    ensures
        pattern_matches(text, seq!['*'] + suffix) == seq_ends_with(text, suffix),
{
    let p = seq!['*'] + suffix;
    assert(p[0] == '*');
    assert forall|j: int| 0 <= j < p.len() && j != 0 implies p[j] != '*' by {
        assert(p[j] == suffix[j - 1]);
    }
    assert(single_star_at(p, 0));
    let c = choose|c: int| single_star_at(p, c);
    assert(c == 0);
    assert(p.subrange(0, 0) =~= Seq::<char>::empty());
    assert(p.subrange(1, p.len() as int) =~= suffix);
    assert(text.subrange(0, 0) =~= Seq::<char>::empty());
}

/// Index of the first `*` of `p`, if any.
fn first_star(p: &Vec<char>, from: usize) -> (r: Option<usize>)
    requires
        from <= p.len(),
    ensures
        match r {
            Some(k) => from <= k < p.len() && p@[k as int] == '*' && forall|j: int|
                from <= j < k ==> p@[j] != '*',
            None => forall|j: int| from <= j < p.len() ==> p@[j] != '*',
        },
{
    let mut i = from;
    while i < p.len()
        invariant
            from <= i <= p.len(),
            forall|j: int| from <= j < i ==> p@[j] != '*',
        decreases p.len() - i,
    {
        if p[i] == '*' {
            return Some(i);
        }
        i = i + 1;
    }
    None
}

/// The chars of `p[from..to]`.
pub fn slice_chars(p: &Vec<char>, from: usize, to: usize) -> (r: Vec<char>)
    requires
        from <= to <= p.len(),
    ensures
        r@ == p@.subrange(from as int, to as int),
{
    let mut r: Vec<char> = Vec::new();
    let mut i = from;
    while i < to
        invariant
            from <= i <= to <= p.len(),
            r@ == p@.subrange(from as int, i as int),
        decreases to - i,
    {
        r.push(p[i]);
        assert(p@.subrange(from as int, i + 1) =~= p@.subrange(from as int, i as int).push(p@[i as int]));
        i = i + 1;
    }
    r
}

/// `p` without its leading and trailing stars.
fn trim_stars_exec(p: &Vec<char>) -> (r: Vec<char>)
    ensures
        r@ == trim_stars(p@),
{
    let n = p.len();
    let mut a: usize = 0;
    assert(p@.subrange(0, n as int) =~= p@);
    while a < n && p[a] == '*'
        invariant
            a <= n == p.len(),
            trim_leading_stars(p@) == trim_leading_stars(p@.subrange(a as int, n as int)),
        decreases n - a,
    {
        assert(p@.subrange(a as int, n as int).drop_first() =~= p@.subrange(a + 1, n as int));
        a = a + 1;
    }
    assert(p@.subrange(a as int, n as int).len() == 0 || p@.subrange(a as int, n as int)[0] != '*');
    let mut b: usize = n;
    while b > a && p[b - 1] == '*'
        invariant
            a <= b <= n == p.len(),
            trim_leading_stars(p@) == p@.subrange(a as int, n as int),
            trim_trailing_stars(p@.subrange(a as int, n as int)) == trim_trailing_stars(
                p@.subrange(a as int, b as int),
            ),
        decreases b - a,
    {
        assert(p@.subrange(a as int, b as int).drop_last() =~= p@.subrange(a as int, b - 1));
        b = b - 1;
    }
    slice_chars(p, a, b)
}

/// Whether `text` matches the wildcard `pattern` (see the module
/// documentation).
pub fn matches_pattern(text: &str, pattern: &str) -> (r: bool)
    ensures
        r == pattern_matches(text@, pattern@),
{
    let t = chars_of(text);
    let p = chars_of(pattern);
    match first_star(&p, 0) {
        None => contains_exec(&t, &p),
        Some(k) => {
            match first_star(&p, k + 1) {
                None => {
                    proof {
                        assert(single_star_at(p@, k as int));
                        let c = choose|c: int| single_star_at(p@, c);
                        assert(c == k);
                    }
                    let head = slice_chars(&p, 0, k);
                    let tail = slice_chars(&p, k + 1, p.len());
                    starts_with_exec(&t, &head) && ends_with_exec(&t, &tail)
                },
                Some(k2) => {
                    assert(!exists|c: int| single_star_at(p@, c)) by {
                        if exists|c: int| single_star_at(p@, c) {
                            let c = choose|c: int| single_star_at(p@, c);
                            assert(c == k || c == k2);
                        }
                    }
                    let core = trim_stars_exec(&p);
                    contains_exec(&t, &core)
                },
            }
        },
    }
}

} // verus!
