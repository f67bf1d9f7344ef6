use vstd::prelude::*;

verus! {

/// Whether `c` carries the Unicode `White_Space` property, the set that
/// `char::is_whitespace` and `str::trim` use.
pub open spec fn is_white(c: char) -> bool {
    ('\u{9}' <= c && c <= '\u{d}') || c == ' ' || c == '\u{85}' || c == '\u{a0}'
        || c == '\u{1680}' || ('\u{2000}' <= c && c <= '\u{200a}') || c == '\u{2028}'
        || c == '\u{2029}' || c == '\u{202f}' || c == '\u{205f}' || c == '\u{3000}'
}

/// `s` without its leading white space.
pub open spec fn trim_start_ws(s: Seq<char>) -> Seq<char>
    decreases s.len(),
{
    if s.len() > 0 && is_white(s[0]) {
        trim_start_ws(s.drop_first())
    } else {
        s
    }
}

/// `s` without its trailing white space.
pub open spec fn trim_end_ws(s: Seq<char>) -> Seq<char>
    decreases s.len(),
{
    if s.len() > 0 && is_white(s.last()) {
        trim_end_ws(s.drop_last())
    } else {
        s
    }
}

/// `s` without leading and trailing white space.
pub open spec fn trim_ws(s: Seq<char>) -> Seq<char> {
    trim_end_ws(trim_start_ws(s))
}

/// A line is blank when nothing but white space is left after trimming.
pub open spec fn is_blank(s: Seq<char>) -> bool {
    trim_ws(s).len() == 0
}

/// `needle` occurs in `hay` as a contiguous run of characters.
pub open spec fn has_substring(hay: Seq<char>, needle: Seq<char>) -> bool {
    exists|i: int|
        0 <= i && i + needle.len() <= hay.len() && #[trigger] hay.subrange(i, i + needle.len())
            == needle
}

/// Some rule of `rules` occurs in `line`.
pub open spec fn matches_any(rules: Seq<Seq<char>>, line: Seq<char>) -> bool {
    exists|k: int| 0 <= k < rules.len() && has_substring(line, #[trigger] rules[k])
}

/// The filter's decision: blank lines are always rejected; otherwise a line
/// passes when no rules are configured, or when it contains one of them.
pub open spec fn accepts(rules: Option<Seq<Seq<char>>>, line: Seq<char>) -> bool {
    !is_blank(line) && match rules {
        None => true,
        Some(rs) => matches_any(rs, line),
    }
}

/// The rules as a mathematical value.
pub open spec fn rules_view(rules: &Option<Vec<String>>) -> Option<Seq<Seq<char>>> {
    match rules {
        None => None,
        Some(v) => Some(v@.map_values(|s: String| s@)),
    }
}

/// Relies on `str::trim`: removes leading and trailing `White_Space` characters.
#[verifier::external_body]
fn trim(s: &str) -> (r: &str)
    ensures
        r@ == trim_ws(s@),
{
    s.trim()
}

/// Relies on `str::contains` with a `&str` pattern: true exactly when the
/// pattern occurs in the string.
#[verifier::external_body]
fn contains(hay: &str, needle: &str) -> (r: bool)
    ensures
        r == has_substring(hay@, needle@),
{
    hay.contains(needle)
}

/// Whether the line is nothing but white space.
pub fn line_is_blank(line: &str) -> (r: bool)
    ensures
        r == is_blank(line@),
{
    trim(line).is_empty()
}

/// Whether some rule of `rules` occurs in `line`; stops at the first match.
pub fn matches_any_rule(rules: &Vec<String>, line: &str) -> (r: bool)
    ensures
        r == matches_any(rules@.map_values(|s: String| s@), line@),
{
    let ghost rs = rules@.map_values(|s: String| s@);
    let mut k: usize = 0;
    while k < rules.len()
        invariant
            k <= rules.len(),
            rs == rules@.map_values(|s: String| s@),
            forall|j: int| 0 <= j < k ==> !has_substring(line@, #[trigger] rs[j]),
        decreases rules.len() - k,
    {
        if contains(line, rules[k].as_str()) {
            assert(has_substring(line@, rs[k as int]));
            return true;
        }
        k = k + 1;
    }
    false
}

/// The filter: rejects blank lines, then accepts a line when no rules are
/// configured or when it contains at least one rule (case-sensitive).
pub fn should_process_line(rules: &Option<Vec<String>>, line: &str) -> (r: bool)
    ensures
        r == accepts(rules_view(rules), line@),
{
    if line_is_blank(line) {
        return false;
    }
    match rules {
        None => true,
        Some(v) => matches_any_rule(v, line),
    }
}

} // verus!
