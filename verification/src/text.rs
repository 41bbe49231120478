//! Small helpers on strings.

use vstd::prelude::*;
use vstd::string::StrSliceExecFns;
use vstd::string::StringExecFns;

verus! {

/// Compare two string slices.
///
/// Trusted: stands for `str::eq` of the standard library, which holds exactly
/// when both slices are the same sequence of characters.
#[verifier::external_body]
pub(crate) fn str_eq(a: &str, b: &str) -> (r: bool)
    ensures
        r == (a@ == b@),
{
    a == b
}

/// Append one character to a string.
///
/// Trusted: stands for `String::push` of the standard library, which appends
/// the given character to the end of the string.
#[verifier::external_body]
pub(crate) fn push_char(s: &mut String, c: char)
    ensures
        final(s)@ == old(s)@.push(c),
{
    s.push(c)
}

/// Take a prefix off a text.
///
/// Trusted: stands for `str::strip_prefix` of the standard library, which
/// returns the rest of the text after the prefix where the text starts with
/// it, and nothing where it does not.
#[verifier::external_body]
pub(crate) fn strip_prefix<'a>(s: &'a str, prefix: &str) -> (r: Option<&'a str>)
    ensures
        match r {
            Some(rest) => s@ == prefix@ + rest@,
            None => !prefix@.is_prefix_of(s@),
        },
{
    s.strip_prefix(prefix)
}

/// Does `pattern` occur in `s` as a run of consecutive characters?
pub open spec fn occurs_in(pattern: Seq<char>, s: Seq<char>) -> bool {
    exists|i: int|
        0 <= i && i + pattern.len() <= s.len() && #[trigger] s.subrange(i, i + pattern.len())
            == pattern
}

/// Search a text for another.
///
/// Trusted: stands for `str::contains` of the standard library with a string
/// pattern, which holds exactly when the pattern matches a sub-slice of the text.
#[verifier::external_body]
pub(crate) fn str_contains(s: &str, pattern: &str) -> (r: bool)
    ensures
        r == occurs_in(pattern@, s@),
{
    s.contains(pattern)
}

/// A fresh string that holds one character.
pub fn char_to_string(c: char) -> (r: String)
    ensures
        r@ == seq![c],
{
    let mut s = String::new();
    push_char(&mut s, c);
    assert(s@ =~= seq![c]);
    s
}

/// A copy of a text with the character at `index` replaced.
pub fn replace_char(s: &str, index: usize, c: char) -> (r: String)
    requires
        index < s@.len(),
    ensures
        r@ == s@.update(index as int, c),
{
    let n = s.unicode_len();
    let mut r = s.substring_char(0, index).to_owned();
    push_char(&mut r, c);
    r.append(s.substring_char(index + 1, n));
    assert(r@ =~= s@.update(index as int, c));
    r
}

/// Join two texts into a fresh string.
pub fn join(a: &str, b: &str) -> (r: String)
    ensures
        r@ == a@ + b@,
{
    let mut s = a.to_owned();
    s.append(b);
    s
}

} // verus!
