use vstd::prelude::*;

verus! {

/// JSON values are carried through the library as they are; only
/// serde_json looks inside them.
#[verifier::external_type_specification]
#[verifier::external_body]
pub struct ExJsonValue(serde_json::Value);

/// Whether `serde_json::from_str::<serde_json::Value>` accepts the text.
/// Parsing is deterministic, so acceptance depends on the text alone.
pub uninterp spec fn json_parses(text: Seq<char>) -> bool;

/// The value `serde_json::from_str::<serde_json::Value>` gives for a text
/// it accepts. Parsing is deterministic, so the value depends on the text
/// alone.
pub uninterp spec fn parsed_json_value(text: Seq<char>) -> serde_json::Value;

/// The text `serde_json::to_string` writes for a JSON value. Serializing is
/// deterministic, so the text depends on the value alone.
pub uninterp spec fn json_text_of(value: serde_json::Value) -> Seq<char>;

/// The empty JSON object: what serde_json parses `{}` into.
pub open spec fn empty_json_object_value() -> serde_json::Value {
    parsed_json_value(seq!['{', '}'])
}

/// The metadata value of a stored user: the stored JSON text parsed, when
/// there is text and it parses; else the empty JSON object.
pub open spec fn stored_metadata_value(text: Option<String>) -> serde_json::Value {
    match text {
        Some(t) => if json_parses(t@) {
            parsed_json_value(t@)
        } else {
            empty_json_object_value()
        },
        None => empty_json_object_value(),
    }
}

/// Calls `serde_json::from_str::<serde_json::Value>` and keeps the value
/// when the text parses. Claimed: a value comes back exactly when the text
/// parses, and it is the text's `parsed_json_value`.
#[verifier::external_body]
pub(crate) fn parse_json(text: &str) -> (r: Option<serde_json::Value>)
    ensures
        r is Some <==> json_parses(text@),
        r matches Some(v) ==> v == parsed_json_value(text@),
{
    serde_json::from_str::<serde_json::Value>(text).ok()
}

/// Calls `serde_json::to_string` on a JSON value, keeping the text when
/// serialization succeeds. Claimed: it succeeds, since a JSON value's map
/// keys are strings and writing into a byte vector cannot fail; the text is
/// the value's `json_text_of`.
#[verifier::external_body]
pub(crate) fn json_text(value: &serde_json::Value) -> (r: Option<String>)
    ensures
        r is Some,
        r matches Some(t) ==> t@ == json_text_of(*value),
{
    serde_json::to_string(value).ok()
}

/// Builds `serde_json::Value::Object` around an empty `serde_json::Map`.
/// Claimed: it is the value serde_json parses `{}` into (its map visitor
/// answers a map without entries with exactly this value).
#[verifier::external_body]
pub(crate) fn empty_json_object() -> (r: serde_json::Value)
    ensures
        r == empty_json_object_value(),
{
    serde_json::Value::Object(serde_json::Map::new())
}

/// The metadata value of a stored user: the stored JSON text when there is
/// one and it parses, else an empty JSON object.
pub fn metadata_value(text: &Option<String>) -> (r: serde_json::Value)
    ensures
        r == stored_metadata_value(*text),
{
    match text {
        Some(t) => match parse_json(t.as_str()) {
            Some(v) => v,
            None => empty_json_object(),
        },
        None => empty_json_object(),
    }
}

} // verus!
