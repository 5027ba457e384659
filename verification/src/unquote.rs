//! The fixed two-character strip applied to every field taken from a payload.

use vstd::prelude::*;
use vstd::string::StrSliceExecFns;

verus! {

/// `s` without its first and its last character; empty where `s` has fewer
/// than two characters.
pub open spec fn unquoted(s: Seq<char>) -> Seq<char> {
    if s.len() < 2 {
        Seq::empty()
    } else {
        s.subrange(1, s.len() - 1)
    }
}

/// `x` between two double quotes, as a JSON string without escapes renders.
pub open spec fn quoted(x: Seq<char>) -> Seq<char> {
    seq!['"'] + x + seq!['"']
}

/// Strips exactly the first and the last character of `s`. Nothing inside is
/// unescaped. A text of fewer than two characters gives the empty text.
pub fn clean_received(s: &String) -> (cleaned: &str)
    ensures
        cleaned@ == unquoted(s@),
{
    let text = s.as_str();
    let n: usize = text.unicode_len();
    if n < 2 {
        proof {
            reveal_strlit("");
        }
        ""
    } else {
        text.substring_char(1, n - 1)
    }
}

/// Stripping undoes quoting: whatever `x` holds, the strip of `"x"` is `x`.
pub proof fn lemma_unquote_quoted(x: Seq<char>)
    ensures
        unquoted(quoted(x)) == x,
{
    assert(quoted(x).subrange(1, quoted(x).len() - 1) =~= x);
}

} // verus!
