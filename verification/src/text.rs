use vstd::prelude::*;
use vstd::string::*;

verus! {

/// Name for the text `format!("{:?}", s)` gives for a string `s` (the standard
/// library's `Debug` for `str`: the string in double quotes, with escapes).
pub uninterp spec fn debug_text(s: Seq<char>) -> Seq<char>;

/// Calls `format!("{:?}", s)`. Claimed: the result is `debug_text(s@)` and, as
/// the standard library documents for `Debug` on strings, it begins and ends with
/// a double quote. Which characters are escaped, and how, is not stated.
#[verifier::external_body]
pub(crate) fn debug_quoted(s: &str) -> (r: String)
    ensures
        r@ == debug_text(s@),
        r@.len() >= 2,
        r@[0] == '"',
        r@[r@.len() - 1] == '"',
{
    format!("{:?}", s)
}

/// `prefix`, then `name` as `Debug` prints it, then `suffix`.
pub fn quoted_between(prefix: &str, name: &str, suffix: &str) -> (r: String)
    ensures
        r@ == prefix@ + debug_text(name@) + suffix@,
{
    let mut s = prefix.to_owned();
    let q = debug_quoted(name);
    s.append(q.as_str());
    s.append(suffix);
    s
}

} // verus!
