//! Composition of note paths under the notes root.
//!
//! A note is identified by a caller-supplied relative path, which is
//! appended to the resolved root with a single separator between them.

use vstd::prelude::*;

verus! {

/// The path of `rel` placed under the directory `root`: the two joined by
/// `/`, with no separator doubled when `root` already ends in one.
pub open spec fn join_spec(root: Seq<char>, rel: Seq<char>) -> Seq<char> {
    if root.len() > 0 && root.last() == '/' {
        root + rel
    } else {
        root + seq!['/'] + rel
    }
}

/// Joins `rel` onto the directory `root` with a single `/` separator.
pub fn join_path(root: &str, rel: &str) -> (r: String)
    ensures
        r@ == join_spec(root@, rel@),
{
    let n = root.unicode_len();
    let mut out = String::from_str(root);
    if n == 0 || root.get_char(n - 1) != '/' {
        proof {
            reveal_strlit("/");
            assert("/"@ =~= seq!['/']);
        }
        out.append("/");
    }
    out.append(rel);
    out
}

} // verus!
