//! The members of JSON documents (item snapshots, provider payloads) that
//! the order logic reads.
use vstd::prelude::*;

verus! {

/// What the order logic reads of one member of a JSON document.
#[derive(Clone, Debug, PartialEq, Eq)]
pub enum JsonMember {
    /// The pointer names no member.
    Absent,
    /// A string member.
    Text(String),
    /// A number member that fits in `i64`.
    Integer(i64),
    /// Any other member: null, a boolean, an array, an object, or a number
    /// that is not an `i64`.
    Other,
}

/// What `serde_json` finds at the JSON pointer `pointer` (such as
/// `/amount/total`) of the document `text`; `None` when `text` is not a
/// JSON document.
pub uninterp spec fn json_pointer_member(text: Seq<char>, pointer: Seq<char>) -> Option<JsonMember>;

/// `serde_json::from_str` into a `Value`, then `Value::pointer`: the member
/// at `pointer`, told apart by its variant (a string's text; a number's
/// `as_i64`). The result is claimed to depend on `text` and `pointer` only.
#[verifier::external_body]
pub(crate) fn json_member_at(text: &str, pointer: &str) -> (r: Option<JsonMember>)
    ensures
        r == json_pointer_member(text@, pointer@),
{
    match serde_json::from_str::<serde_json::Value>(text) {
        Err(_) => None,
        Ok(value) => Some(
            match value.pointer(pointer) {
                None => JsonMember::Absent,
                Some(serde_json::Value::String(s)) => JsonMember::Text(s.clone()),
                Some(serde_json::Value::Number(n)) => match n.as_i64() {
                    Some(i) => JsonMember::Integer(i),
                    None => JsonMember::Other,
                },
                Some(_) => JsonMember::Other,
            },
        ),
    }
}

/// The text of a string member, as `Value::as_str` gives it.
pub open spec fn member_text(m: Option<JsonMember>) -> Option<Seq<char>> {
    match m {
        Some(JsonMember::Text(s)) => Some(s@),
        _ => None,
    }
}

/// The value of an integer member, as `Value::as_i64` gives it.
pub open spec fn member_integer(m: Option<JsonMember>) -> Option<i64> {
    match m {
        Some(JsonMember::Integer(i)) => Some(i),
        _ => None,
    }
}

} // verus!
