//! Report text: XML escaping and JUnit test suites for machine-readable
//! output, and the name of the contract that a source file declares.
use vstd::prelude::*;
use crate::pattern::slice_chars;
use crate::text::{
    chars_of, decimal, is_white_space, push_char, push_decimal, seq_contains, seq_starts_with,
    split_lines, starts_with_exec, string_of, text_lines, white_space, contains_str,
};

verus! {

/// The XML text of one char: `&`, `<`, `>`, `"` and `'` become entities.
pub open spec fn escaped_char(c: char) -> Seq<char> {
    if c == '&' {
        "&amp;"@
    } else if c == '<' {
        "&lt;"@
    } else if c == '>' {
        "&gt;"@
    } else if c == '"' {
        "&quot;"@
    } else if c == '\'' {
        "&apos;"@
    } else {
        seq![c]
    }
}

/// `s` with every char escaped for XML text and attribute values.
pub open spec fn xml_escaped(s: Seq<char>) -> Seq<char>
    decreases s.len(),
{
    if s.len() == 0 {
        Seq::empty()
    } else {
        xml_escaped(s.drop_last()) + escaped_char(s.last())
    }
}

/// Escapes `s` for XML: `&`, `<`, `>`, `"` and `'` are written as entities.
pub fn xml_escape(s: &str) -> (r: String)
    ensures
        r@ == xml_escaped(s@),
{
    let cs = chars_of(s);
    let mut out = String::new();
    let mut i: usize = 0;
    while i < cs.len()
        invariant
            i <= cs.len(),
            cs@ == s@,
            out@ == xml_escaped(cs@.take(i as int)),
        decreases cs.len() - i,
    {
        let c = cs[i];
        assert(cs@.take(i + 1).drop_last() =~= cs@.take(i as int));
        assert(cs@.take(i + 1).last() == c);
        let ghost before = out@;
        if c == '&' {
            out.append("&amp;");
        } else if c == '<' {
            out.append("&lt;");
        } else if c == '>' {
            out.append("&gt;");
        } else if c == '"' {
            out.append("&quot;");
        } else if c == '\'' {
            out.append("&apos;");
        } else {
            push_char(&mut out, c);
            assert(out@ =~= before + seq![c]);
        }
        i = i + 1;
    }
    assert(cs@.take(cs.len() as int) =~= cs@);
    out
}

/// How many of the test cases report a failure (hold `<failure`).
pub open spec fn failure_count(cases: Seq<String>) -> nat
    decreases cases.len(),
{
    if cases.len() == 0 {
        0
    } else {
        failure_count(cases.drop_last()) + if seq_contains(cases.last()@, "<failure"@) {
            1nat
        } else {
            0nat
        }
    }
}

/// The test cases, one per line.
pub open spec fn case_lines(cases: Seq<String>) -> Seq<char>
    decreases cases.len(),
{
    if cases.len() == 0 {
        Seq::empty()
    } else {
        case_lines(cases.drop_last()) + cases.last()@ + seq!['\n']
    }
}

/// A JUnit `<testsuite>` element holding the given test cases, with their
/// number and the number of failures among them.
pub open spec fn junit_suite_text(name: Seq<char>, cases: Seq<String>) -> Seq<char> {
    "  <testsuite name=\""@ + name + "\" tests=\""@ + decimal(cases.len()) + "\" failures=\""@
        + decimal(failure_count(cases)) + "\" errors=\"0\" time=\"0\">\n"@ + case_lines(cases)
        + "  </testsuite>"@
}

/// The JUnit `<testsuite>` element named `name` around the test cases.
pub fn junit_suite(name: &str, cases: &[String]) -> (r: String)
    ensures
        r@ == junit_suite_text(name@, cases@),
{
    let mut failures: usize = 0;
    let mut i: usize = 0;
    while i < cases.len()
        invariant
            i <= cases.len(),
            failures == failure_count(cases@.take(i as int)),
            failures <= i,
        decreases cases.len() - i,
    {
        assert(cases@.take(i + 1).drop_last() =~= cases@.take(i as int));
        assert(cases@.take(i + 1).last() == cases@[i as int]);
        let c = chars_of(cases[i].as_str());
        if contains_str(&c, "<failure") {
            failures = failures + 1;
        }
        i = i + 1;
    }
    assert(cases@.take(cases.len() as int) =~= cases@);
    let mut out = String::from_str("  <testsuite name=\"");
    out.append(name);
    out.append("\" tests=\"");
    push_decimal(&mut out, cases.len());
    out.append("\" failures=\"");
    push_decimal(&mut out, failures);
    out.append("\" errors=\"0\" time=\"0\">\n");
    let ghost head = out@;
    let mut j: usize = 0;
    while j < cases.len()
        invariant
            j <= cases.len(),
            out@ == head + case_lines(cases@.take(j as int)),
        decreases cases.len() - j,
    {
        assert(cases@.take(j + 1).drop_last() =~= cases@.take(j as int));
        assert(cases@.take(j + 1).last() == cases@[j as int]);
        out.append(cases[j].as_str());
        push_char(&mut out, '\n');
        assert(out@ =~= head + case_lines(cases@.take(j + 1)));
        j = j + 1;
    }
    assert(cases@.take(cases.len() as int) =~= cases@);
    out.append("  </testsuite>");
    out
}

/// A char that would end XML text or an attribute value: `<`, `>`, `"`
/// or `'`.
pub open spec fn markup_char(c: char) -> bool {
    c == '<' || c == '>' || c == '"' || c == '\''
}

/// Escaped text holds no markup char, so it can stand inside an element or
/// a quoted attribute.
pub proof fn law_escaped_text_has_no_markup(s: Seq<char>)
    ensures
        forall|i: int| 0 <= i < xml_escaped(s).len() ==> !markup_char(#[trigger] xml_escaped(s)[i]),
    decreases s.len(),
{
    reveal_strlit("&amp;");
    reveal_strlit("&lt;");
    reveal_strlit("&gt;");
    reveal_strlit("&quot;");
    reveal_strlit("&apos;");
    if s.len() > 0 {
        law_escaped_text_has_no_markup(s.drop_last());
        let a = xml_escaped(s.drop_last());
        let b = escaped_char(s.last());
        assert forall|i: int| 0 <= i < b.len() implies !markup_char(#[trigger] b[i]) by {}
        assert forall|i: int| 0 <= i < xml_escaped(s).len() implies !markup_char(
            #[trigger] xml_escaped(s)[i],
        ) by {
            if i < a.len() {
                assert(xml_escaped(s)[i] == a[i]);
            } else {
                assert(xml_escaped(s)[i] == b[i - a.len()]);
            }
        }
    }
}

/// A suite never counts more failures than test cases.
pub proof fn law_failures_within_tests(cases: Seq<String>)
    ensures
        failure_count(cases) <= cases.len(),
    decreases cases.len(),
{
    if cases.len() > 0 {
        law_failures_within_tests(cases.drop_last());
    }
}

/// How many white-space chars `s` begins with.
pub open spec fn leading_ws(s: Seq<char>) -> nat
    decreases s.len(),
{
    if s.len() > 0 && white_space(s[0]) {
        1 + leading_ws(s.drop_first())
    } else {
        0
    }
}

/// How many white-space chars `s` ends with.
pub open spec fn trailing_ws(s: Seq<char>) -> nat
    decreases s.len(),
{
    if s.len() > 0 && white_space(s.last()) {
        1 + trailing_ws(s.drop_last())
    } else {
        0
    }
}

/// `s` without its leading and trailing white space (`str::trim`).
pub open spec fn trim_ws(s: Seq<char>) -> Seq<char> {
    let a = s.skip(leading_ws(s) as int);
    a.take(a.len() - trailing_ws(a))
}

/// `s` without its trailing semicolons (`str::trim_end_matches(';')`).
pub open spec fn trim_semicolons(s: Seq<char>) -> Seq<char>
    decreases s.len(),
{
    if s.len() > 0 && s.last() == ';' {
        trim_semicolons(s.drop_last())
    } else {
        s
    }
}

/// How many chars other than white space `s` begins with.
pub open spec fn word_len(s: Seq<char>) -> nat
    decreases s.len(),
{
    if s.len() > 0 && !white_space(s[0]) {
        1 + word_len(s.drop_first())
    } else {
        0
    }
}

/// The first word of `s`, words being separated by white space
/// (`split_whitespace().next()`).
pub open spec fn first_word(s: Seq<char>) -> Option<Seq<char>> {
    let a = s.skip(leading_ws(s) as int);
    if a.len() == 0 {
        None
    } else {
        Some(a.take(word_len(a) as int))
    }
}

/// For a trimmed line that declares a struct (`pub struct ` or `struct `
/// followed by the name), what the search returns: the first word after
/// the keyword, once trailing semicolons are dropped; `None` for other
/// lines.
pub open spec fn struct_decl_name(l: Seq<char>) -> Option<Option<Seq<char>>> {
    if seq_starts_with(l, "pub struct "@) {
        Some(first_word(trim_semicolons(l.skip("pub struct "@.len() as int))))
    } else if seq_starts_with(l, "struct "@) {
        Some(first_word(trim_semicolons(l.skip("struct "@.len() as int))))
    } else {
        None
    }
}

/// The name found in `lines`: after a line starting with `#[contract]`
/// has been seen (`saw`), the first struct declaration decides.
pub open spec fn infer_from(lines: Seq<Seq<char>>, saw: bool) -> Option<Seq<char>>
    decreases lines.len(),
{
    if lines.len() == 0 {
        None
    } else {
        let l = trim_ws(lines[0]);
        if seq_starts_with(l, "#[contract]"@) {
            infer_from(lines.drop_first(), true)
        } else if saw {
            match struct_decl_name(l) {
                Some(r) => r,
                None => infer_from(lines.drop_first(), saw),
            }
        } else {
            infer_from(lines.drop_first(), saw)
        }
    }
}

/// The name of the contract struct that `source` declares after a
/// `#[contract]` attribute, if any.
pub open spec fn contract_name_of(source: Seq<char>) -> Option<Seq<char>> {
    infer_from(text_lines(source), false)
}

/// The number of white-space chars `s` begins with.
fn leading_ws_exec(s: &Vec<char>) -> (k: usize)
    ensures
        k == leading_ws(s@),
        k <= s.len(),
{
    let mut i: usize = 0;
    assert(s@.skip(0) =~= s@);
    while i < s.len() && is_white_space(s[i])
        invariant
            i <= s.len(),
            leading_ws(s@) == i + leading_ws(s@.skip(i as int)),
        decreases s.len() - i,
    {
        assert(s@.skip(i as int).drop_first() =~= s@.skip(i + 1));
        i = i + 1;
    }
    i
}

/// The number of white-space chars `s` ends with.
fn trailing_ws_exec(s: &Vec<char>) -> (k: usize)
    ensures
        k == trailing_ws(s@),
        k <= s.len(),
{
    let mut j: usize = s.len();
    assert(s@.take(s.len() as int) =~= s@);
    while j > 0 && is_white_space(s[j - 1])
        invariant
            j <= s.len(),
            trailing_ws(s@) == (s.len() - j) + trailing_ws(s@.take(j as int)),
        decreases j,
    {
        assert(s@.take(j as int).drop_last() =~= s@.take(j - 1));
        j = j - 1;
    }
    s.len() - j
}

/// `s` without leading and trailing white space.
fn trim_exec(s: &Vec<char>) -> (r: Vec<char>)
    ensures
        r@ == trim_ws(s@),
{
    let lo = leading_ws_exec(s);
    let a = slice_chars(s, lo, s.len());
    assert(a@ =~= s@.skip(lo as int));
    let t = trailing_ws_exec(&a);
    let r = slice_chars(&a, 0, a.len() - t);
    assert(r@ =~= a@.take(a.len() - t));
    r
}

/// `s` without trailing semicolons.
fn trim_semicolons_exec(s: &Vec<char>) -> (r: Vec<char>)
    ensures
        r@ == trim_semicolons(s@),
{
    let mut j: usize = s.len();
    assert(s@.take(s.len() as int) =~= s@);
    while j > 0 && s[j - 1] == ';'
        invariant
            j <= s.len(),
            trim_semicolons(s@) == trim_semicolons(s@.take(j as int)),
        decreases j,
    {
        assert(s@.take(j as int).drop_last() =~= s@.take(j - 1));
        j = j - 1;
    }
    let r = slice_chars(s, 0, j);
    assert(r@ =~= s@.take(j as int));
    r
}

/// The first white-space separated word of `s`, if any.
fn first_word_exec(s: &Vec<char>) -> (r: Option<Vec<char>>)
    ensures
        match first_word(s@) {
            None => r is None,
            Some(w) => r matches Some(v) && v@ == w,
        },
{
    let lo = leading_ws_exec(s);
    let a = slice_chars(s, lo, s.len());
    assert(a@ =~= s@.skip(lo as int));
    if a.len() == 0 {
        return None;
    }
    let mut k: usize = 0;
    assert(a@.skip(0) =~= a@);
    while k < a.len() && !is_white_space(a[k])
        invariant
            k <= a.len(),
            word_len(a@) == k + word_len(a@.skip(k as int)),
        decreases a.len() - k,
    {
        assert(a@.skip(k as int).drop_first() =~= a@.skip(k + 1));
        k = k + 1;
    }
    let w = slice_chars(&a, 0, k);
    assert(w@ =~= a@.take(k as int));
    Some(w)
}

/// The name after a struct keyword of length `n` at the start of `l`.
fn name_after(l: &Vec<char>, n: usize) -> (r: Option<String>)
    requires
        n <= l.len(),
    ensures
        match first_word(trim_semicolons(l@.skip(n as int))) {
            None => r is None,
            Some(w) => r matches Some(x) && x@ == w,
        },
{
    let rest = slice_chars(l, n, l.len());
    assert(rest@ =~= l@.skip(n as int));
    let t = trim_semicolons_exec(&rest);
    match first_word_exec(&t) {
        Some(w) => Some(string_of(&w)),
        None => None,
    }
}

/// The name of the contract struct declared after a `#[contract]`
/// attribute: the first `pub struct` or `struct` line after such an
/// attribute gives it, `None` when there is none.
pub fn infer_contract_name(source: &str) -> (r: Option<String>)
    ensures
        match contract_name_of(source@) {
            None => r is None,
            Some(n) => r matches Some(x) && x@ == n,
        },
{
    let text = chars_of(source);
    let lines = split_lines(&text);
    let ghost all = text_lines(source@);
    let contract_attr = chars_of("#[contract]");
    let pub_struct = chars_of("pub struct ");
    let plain_struct = chars_of("struct ");
    let mut saw = false;
    let mut i: usize = 0;
    assert(all.skip(0) =~= all);
    while i < lines.len()
        invariant
            i <= lines.len() == all.len(),
            all == text_lines(source@),
            forall|k: int| 0 <= k < lines@.len() ==> #[trigger] lines@[k]@ == all[k],
            contract_attr@ == "#[contract]"@,
            pub_struct@ == "pub struct "@,
            plain_struct@ == "struct "@,
            contract_name_of(source@) == infer_from(all.skip(i as int), saw),
        decreases lines.len() - i,
    {
        let l = trim_exec(&lines[i]);
        assert(all.skip(i as int)[0] == all[i as int]);
        assert(all.skip(i as int).drop_first() =~= all.skip(i + 1));
        if starts_with_exec(&l, &contract_attr) {
            saw = true;
        } else if saw {
            if starts_with_exec(&l, &pub_struct) {
                return name_after(&l, pub_struct.len());
            }
            if starts_with_exec(&l, &plain_struct) {
                return name_after(&l, plain_struct.len());
            }
        }
        i = i + 1;
    }
    None
}

} // verus!
