//! Normalization of model names before they are submitted upstream.

use vstd::prelude::*;
use vstd::string::StrSliceExecFns;
use vstd::string::StringExecFns;

verus! {

/// True when some character of `s` is the ':' that separates a model
/// name from its version tag.
pub open spec fn has_tag_separator(s: Seq<char>) -> bool {
    exists|i: int| 0 <= i < s.len() && s[i] == ':'
}

/// A model name as it is submitted upstream: unchanged when it already
/// carries a version tag, with ":latest" appended when it carries none.
pub open spec fn normalized_name(s: Seq<char>) -> Seq<char> {
    if has_tag_separator(s) {
        s
    } else {
        s + ":latest"@
    }
}

/// Appends the default ":latest" version tag to a model name that has
/// none, so that "foo" and "foo:latest" denote the same operand.
pub fn normalize_model_name(model_name: &str) -> (r: String)
    ensures
        r@ == normalized_name(model_name@),
{
    let n = model_name.unicode_len();
    let mut i: usize = 0;
    let mut found = false;
    while i < n
        invariant
            i <= n,
            n == model_name@.len(),
            found <==> exists|j: int| 0 <= j < i && model_name@[j] == ':',
        decreases n - i,
    {
        if model_name.get_char(i) == ':' {
            found = true;
        }
        i += 1;
    }
    if found {
        model_name.to_owned()
    } else {
        let mut r = model_name.to_owned();
        r.append(":latest");
        r
    }
}

} // verus!
