//! What the engine takes from `serde_json`: reading a payload, the text of
//! one member of what was read, and the words of a refusal. Nothing in this
//! file is proved: the contracts say what `serde_json` is trusted to do.

use vstd::prelude::*;

verus! {

/// `serde_json::Value`, a JSON document. Nothing inside it is visible here.
#[verifier::external_type_specification]
#[verifier::external_body]
pub struct ExValue(serde_json::Value);

/// `serde_json::Error`, the refusal of a text. Nothing inside it is visible
/// here.
#[verifier::external_type_specification]
#[verifier::external_body]
pub struct ExError(serde_json::Error);

/// What `serde_json::from_str` makes of `text`: for a text that it accepts,
/// the members of the value read; for one that it refuses, the message of its
/// error.
pub uninterp spec fn json_reading(text: Seq<char>) -> Result<Map<Seq<char>, Seq<char>>, Seq<char>>;

/// What a JSON value holds under its keys: for an object, each key with the
/// compact rendering of the value under it. A value that is no object holds
/// nothing.
pub uninterp spec fn members(value: serde_json::Value) -> Map<Seq<char>, Seq<char>>;

/// The message that an error of `serde_json` displays.
pub uninterp spec fn error_message(error: serde_json::Error) -> Seq<char>;

/// The rendering of the member `key` among `members`: the text kept for the
/// key, and `null` for a key that is not there.
pub open spec fn member_text(members: Map<Seq<char>, Seq<char>>, key: Seq<char>) -> Seq<char> {
    if members.dom().contains(key) {
        members[key]
    } else {
        seq!['n', 'u', 'l', 'l']
    }
}

/// `serde_json::from_str`, reading a `serde_json::Value`. The contract gives
/// the outcome its name and claims one thing with it: what comes out depends
/// on the text alone.
#[verifier::external_body]
pub(crate) fn parse(text: &str) -> (parsed: Result<serde_json::Value, serde_json::Error>)
    ensures
        match parsed {
            Ok(value) => json_reading(text@) == Ok::<Map<Seq<char>, Seq<char>>, Seq<char>>(
                members(value),
            ),
            Err(error) => json_reading(text@) == Err::<Map<Seq<char>, Seq<char>>, Seq<char>>(
                error_message(error),
            ),
        },
{
    serde_json::from_str::<serde_json::Value>(text)
}

/// The index of a `serde_json::Value` by a key, handed out as text through
/// the value's `Display`. The index gives the value under `key` where `value`
/// is an object that has the key, and JSON's null in every other case; the
/// display is the compact rendering, which for null is `null`.
#[verifier::external_body]
pub(crate) fn field_text(value: &serde_json::Value, key: &str) -> (text: String)
    ensures
        text@ == member_text(members(*value), key@),
{
    value[key].to_string()
}

/// `to_string` of a `serde_json::Error`: the message that it displays.
#[verifier::external_body]
pub(crate) fn error_text(error: &serde_json::Error) -> (text: String)
    ensures
        text@ == error_message(*error),
{
    error.to_string()
}

} // verus!
