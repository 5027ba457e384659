//! The session credential: the value of a cookie, sent in a `Cookie` header.

use vstd::prelude::*;

verus! {

/// The header in which the credential is sent.
pub const COOKIE_HEADER: &'static str = "Cookie";

/// Whether `c` may stand in the value of an HTTP header: a tab, or anything
/// from the space upwards but the delete character.
pub open spec fn header_char(c: char) -> bool {
    c == '\t' || (c as u32 >= 32 && c as u32 != 127)
}

/// Whether `value` may be sent as the value of an HTTP header.
pub open spec fn header_value_ok(value: Seq<char>) -> bool {
    forall|i: int| 0 <= i < value.len() ==> header_char(#[trigger] value[i])
}

/// Whether the answer of the service's identity endpoint accepts a
/// credential: a status from 200 to 299 does. `None` stands for a request
/// that got no answer, which accepts nothing.
pub open spec fn accepts(status: Option<u16>) -> bool {
    status matches Some(code) && 200 <= code < 300
}

/// `cookie` without its newline characters: the form in which it is sent.
pub open spec fn strip_newlines(cookie: Seq<char>) -> Seq<char> {
    cookie.filter(|c: char| c != '\n')
}

/// `HeaderValue::from_str` of `reqwest::header`, asked only whether it
/// accepts `value`. It walks the bytes of the text and refuses the first that
/// is below 32 and no tab, or is 127. A character above 127 is encoded in
/// bytes that are all above 127, so the test on bytes is the test on
/// characters that the contract states.
#[verifier::external_body]
pub(crate) fn is_header_value(value: &str) -> (accepted: bool)
    ensures
        accepted == header_value_ok(value@),
{
    reqwest::header::HeaderValue::from_str(value).is_ok()
}

/// `String::push` of std: appends one character.
#[verifier::external_body]
fn push_char(text: &mut String, c: char)
    ensures
        final(text)@ == old(text)@.push(c),
{
    text.push(c)
}

/// Tells whether the answer of the identity endpoint accepts a credential.
pub fn accepted(status: Option<u16>) -> (yes: bool)
    ensures
        yes == accepts(status),
{
    match status {
        Some(code) => 200 <= code && code < 300,
        None => false,
    }
}

/// The credential as it is put into the `Cookie` header of the handshake:
/// every newline taken out, everything else kept in its order.
pub fn normalized(cookie: &str) -> (header: String)
    ensures
        header@ == strip_newlines(cookie@),
{
    broadcast use vstd::string::group_string_axioms;

    let mut header = String::new();
    let chars = cookie.chars();
    for c in it: chars
        invariant
            it.seq() == cookie@,
            header@ == strip_newlines(cookie@.take(it.index())),
    {
        proof {
            assert(cookie@.take(it.index() + 1) =~= cookie@.take(it.index()).push(c));
            Seq::lemma_filter_push(cookie@.take(it.index()), c, |c: char| c != '\n');
        }
        if c != '\n' {
            push_char(&mut header, c);
        }
    }
    proof {
        assert(cookie@.take(cookie@.len() as int) =~= cookie@);
    }
    header
}

/// The normalized form holds no newline.
pub proof fn lemma_normalized_has_no_newline(cookie: Seq<char>)
    ensures
        forall|i: int| 0 <= i < strip_newlines(cookie).len() ==> strip_newlines(cookie)[i] != '\n',
{
    let keep = |c: char| c != '\n';
    assert forall|i: int| 0 <= i < strip_newlines(cookie).len() implies strip_newlines(cookie)[i]
        != '\n' by {
        cookie.lemma_filter_pred(keep, i);
    }
}

/// Normalizing changes nothing in a credential that is a valid header value:
/// such a credential holds no newline to begin with.
pub proof fn lemma_valid_cookie_is_normalized(cookie: Seq<char>)
    requires
        header_value_ok(cookie),
    ensures
        strip_newlines(cookie) == cookie,
    decreases cookie.len(),
{
    let keep = |c: char| c != '\n';
    reveal(Seq::filter);
    if cookie.len() > 0 {
        let front = cookie.drop_last();
        assert(header_value_ok(front)) by {
            assert forall|i: int| 0 <= i < front.len() implies header_char(#[trigger] front[i]) by {
                assert(front[i] == cookie[i]);
            }
        }
        lemma_valid_cookie_is_normalized(front);
        assert(header_char(cookie[cookie.len() - 1]));
        assert(keep(cookie.last()));
        assert(front.push(cookie.last()) =~= cookie);
    } else {
        assert(cookie.filter(keep) =~= cookie);
    }
}

} // verus!
