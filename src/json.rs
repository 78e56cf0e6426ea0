use vstd::prelude::*;
use vstd::string::*;

verus! {

broadcast use vstd::string::group_string_axioms;

/// Whether serde_json accepts the text as one JSON document.
pub uninterp spec fn json_parses(text: Seq<char>) -> bool;

/// The text of the member `key` of the JSON object in `text`, when that
/// member is a string.
pub uninterp spec fn string_member(text: Seq<char>, key: Seq<char>) -> Option<Seq<char>>;

/// Whether the member `key` of the JSON object in `text` is `null`; `None`
/// when there is no such member.
pub uninterp spec fn null_member(text: Seq<char>, key: Seq<char>) -> Option<bool>;

/// The value of the member `key` of the JSON object in `text`, when that
/// member is a non-negative integer within `u64`.
pub uninterp spec fn u64_member(text: Seq<char>, key: Seq<char>) -> Option<u64>;

/// The JSON string literal (quotes and escapes included) that serde_json
/// writes for a text.
pub uninterp spec fn json_string_literal(s: Seq<char>) -> Seq<char>;

/// A text that serde_json writes between quotes without escaping anything:
/// no control character, no quote, no backslash.
pub open spec fn plain_text(s: Seq<char>) -> bool {
    forall|i: int| 0 <= i < s.len() ==> ' ' <= #[trigger] s[i] && s[i] != '"' && s[i] != '\\'
}

/// The body of an error reply: an object whose single member `error` holds
/// the given string literal.
pub open spec fn error_object(literal: Seq<char>) -> Seq<char> {
    "{\"error\":"@ + literal + "}"@
}

/// `{"error":"<message>"}` for a message that needs no escapes.
pub open spec fn error_text(message: Seq<char>) -> Seq<char> {
    "{\"error\":\""@ + message + "\"}"@
}

/// Relies on serde_json::from_str into a `Value`: it succeeds exactly when
/// the text is JSON.
#[verifier::external_body]
pub(crate) fn parse_json(text: &str) -> (r: bool)
    ensures
        r == json_parses(text@),
{
    serde_json::from_str::<serde_json::Value>(text).is_ok()
}

/// Relies on serde_json::from_str into a `Value`, then Value::get and
/// Value::as_str: the member `key` of the document, when it is a string.
#[verifier::external_body]
pub(crate) fn member_str(text: &str, key: &str) -> (r: Option<String>)
    ensures
        r matches Some(m) ==> string_member(text@, key@) == Some(m@),
        r is None ==> string_member(text@, key@) is None,
{
    let doc = serde_json::from_str::<serde_json::Value>(text).ok()?;
    doc.get(key)?.as_str().map(String::from)
}

/// Relies on serde_json::from_str into a `Value`, then Value::get and
/// Value::is_null: whether the member `key` of the document is `null`.
#[verifier::external_body]
pub(crate) fn member_is_null(text: &str, key: &str) -> (r: Option<bool>)
    ensures
        r == null_member(text@, key@),
{
    let doc = serde_json::from_str::<serde_json::Value>(text).ok()?;
    doc.get(key).map(|m| m.is_null())
}

/// Relies on serde_json::from_str into a `Value`, then Value::get and
/// Value::as_u64: the member `key` of the document, when it is a
/// non-negative integer within `u64`.
#[verifier::external_body]
pub(crate) fn member_u64(text: &str, key: &str) -> (r: Option<u64>)
    ensures
        r == u64_member(text@, key@),
{
    let doc = serde_json::from_str::<serde_json::Value>(text).ok()?;
    doc.get(key)?.as_u64()
}

/// Relies on serde_json::to_string on a `str`: it writes the text between
/// quotes and escapes only control characters, quotes and backslashes, so a
/// plain text comes out unchanged between its quotes, and every literal
/// starts and ends with a quote. Serialising a `str`
/// into memory does not fail.
#[verifier::external_body]
fn quote_json(s: &str) -> (r: String)
    ensures
        r@ == json_string_literal(s@),
        r@.len() >= 2,
        r@[0] == '"',
        r@[r@.len() - 1] == '"',
        plain_text(s@) ==> r@ == seq!['"'] + s@ + seq!['"'],
{
    serde_json::to_string(s).unwrap()
}

/// The JSON body `{"error":<message>}` of an error reply.
pub fn error_body(message: &str) -> (r: String)
    ensures
        r@ == error_object(json_string_literal(message@)),
        exists|inner: Seq<char>| r@ == error_text(inner),
        plain_text(message@) ==> r@ == error_text(message@),
{
    let literal = quote_json(message);
    let body = String::from_str("{\"error\":").concat(literal.as_str()).concat("}");
    proof {
        assert(body@ =~= error_object(json_string_literal(message@)));
        reveal_strlit("{\"error\":");
        reveal_strlit("}");
        reveal_strlit("{\"error\":\"");
        reveal_strlit("\"}");
        let inner = literal@.subrange(1, literal@.len() - 1);
        assert(literal@ =~= seq!['"'] + inner + seq!['"']);
        assert(body@ =~= error_text(inner));
        if plain_text(message@) {
            assert(body@ =~= error_text(message@));
        }
    }
    body
}

} // verus!
