use vstd::prelude::*;

verus! {

#[verifier::external_type_specification]
#[verifier::external_body]
pub struct ExJsonValue(serde_json::Value);

#[verifier::external_type_specification]
#[verifier::external_body]
pub struct ExJsonError(serde_json::Error);

/// Whether serde_json reads these bytes as one JSON value.
pub uninterp spec fn json_parses(b: Seq<u8>) -> bool;

/// The value that serde_json reads from these bytes, when it reads one.
pub uninterp spec fn json_value_of(b: Seq<u8>) -> serde_json::Value;

/// Relies on serde_json::from_slice: whether it accepts the bytes, and the
/// value it reads from them, depend on the bytes alone.
#[verifier::external_body]
pub(crate) fn parse_json(b: &[u8]) -> (r: Result<serde_json::Value, serde_json::Error>)
    ensures
        r is Ok <==> json_parses(b@),
        r matches Ok(v) ==> v == json_value_of(b@),
{
    serde_json::from_slice::<serde_json::Value>(b)
}

/// Relies on serde_json::Error's Display impl, for a diagnostic message.
#[verifier::external_body]
pub(crate) fn json_error_text(e: &serde_json::Error) -> String {
    e.to_string()
}

/// The string that a JSON document holds at a JSON pointer, if the document
/// parses and holds a string there.
pub uninterp spec fn json_str_at(doc: Seq<u8>, pointer: Seq<char>) -> Option<Seq<char>>;

/// Relies on serde_json::from_slice and Value::pointer (with Value::as_str
/// on what it finds): the string at a pointer depends on the bytes alone.
#[verifier::external_body]
pub(crate) fn json_string_at(doc: &[u8], pointer: &str) -> (r: Option<String>)
    ensures
        match r {
            Some(s) => json_str_at(doc@, pointer@) == Some(s@),
            None => json_str_at(doc@, pointer@) is None,
        },
{
    let v = serde_json::from_slice::<serde_json::Value>(doc).ok()?;
    v.pointer(pointer).and_then(|m| m.as_str()).map(|s| s.to_string())
}

/// Relies on serde_json::to_vec on a `Value`: its `Serialize` impl fails only
/// through the writer, and writing into a `Vec` does not fail.
#[verifier::external_body]
pub(crate) fn json_to_vec(v: &serde_json::Value) -> (r: Result<Vec<u8>, serde_json::Error>)
    ensures
        r is Ok,
{
    serde_json::to_vec(v)
}

/// The text of some bytes read as UTF-8, with each invalid sequence
/// replaced by U+FFFD.
pub uninterp spec fn utf8_lossy(b: Seq<u8>) -> Seq<char>;

/// Relies on String::from_utf8_lossy, for the text of a response body.
#[verifier::external_body]
pub(crate) fn lossy_text(b: &[u8]) -> (r: String)
    ensures
        r@ == utf8_lossy(b@),
{
    String::from_utf8_lossy(b).into_owned()
}

} // verus!
