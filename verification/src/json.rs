//! The view the todo logic takes of untrusted JSON text: a document either
//! fails to parse with a diagnostic, or yields a top-level object whose
//! fields are read as text, number, boolean, or something else.

use vstd::prelude::*;

verus! {

/// What the todo logic can read out of one JSON value: its character content
/// when it is a string, its integral value (if it has one) when it is a
/// number, its truth value when it is a boolean, and nothing otherwise.
pub enum JsonField {
    /// A JSON string and its characters.
    Text(Seq<char>),
    /// A JSON number; `Some(n)` when it is integral and representable as an
    /// `i64`, `None` for any other number.
    Num(Option<int>),
    /// A JSON boolean.
    Flag(bool),
    /// Null, an array, or a nested object.
    Other,
}

/// What parsing a piece of text yields: the top-level fields of the document
/// on success, or the parser's diagnostic — its code text, line and column —
/// on failure.
pub uninterp spec fn parsed_doc(s: Seq<char>) -> Result<
    Map<Seq<char>, JsonField>,
    (Seq<char>, int, int),
>;

/// The top-level fields of a parsed document: what the document holds under
/// each key when it is an object (a key lookup on any other document finds
/// nothing).
pub uninterp spec fn doc_fields(doc: rustc_serialize::json::Json) -> Map<Seq<char>, JsonField>;

/// The summary of a single JSON value, as `JsonField` describes it.
pub uninterp spec fn field_view(v: rustc_serialize::json::Json) -> JsonField;

#[verifier::external_type_specification]
#[verifier::external_body]
pub struct ExJson(rustc_serialize::json::Json);

/// Relies on `rustc_serialize::json::Json::from_str` and `error_str`:
/// well-formed JSON text yields the document, anything else a syntax
/// diagnostic made of an error-code text, a line and a column. Parsing a
/// string never reports an I/O failure; that arm of the error type is dead
/// and mapped to the failure's text at position zero.
#[verifier::external_body]
pub(crate) fn parse_json(text: &str) -> (r: Result<
    rustc_serialize::json::Json,
    (String, u64, u64),
>)
    ensures
        (r is Ok) == (parsed_doc(text@) is Ok),
        r matches Ok(doc) ==> doc_fields(doc) == parsed_doc(text@)->Ok_0,
        r matches Err(e) ==> (e.0@, e.1 as int, e.2 as int) == parsed_doc(text@)->Err_0,
{
    match rustc_serialize::json::Json::from_str(text) {
        Ok(doc) => Ok(doc),
        Err(rustc_serialize::json::ParserError::SyntaxError(code, line, col)) => Err(
            (rustc_serialize::json::error_str(code).to_string(), line as u64, col as u64),
        ),
        Err(rustc_serialize::json::ParserError::IoError(e)) => Err((e.to_string(), 0, 0)),
    }
}

/// Relies on `rustc_serialize::json::Json::find`: the value under `key` when
/// the document is an object containing that key, and `None` otherwise.
#[verifier::external_body]
pub(crate) fn json_find<'a>(
    doc: &'a rustc_serialize::json::Json,
    key: &str,
) -> (r: Option<&'a rustc_serialize::json::Json>)
    ensures
        (r is Some) == doc_fields(*doc).contains_key(key@),
        r matches Some(v) ==> field_view(*v) == doc_fields(*doc)[key@],
{
    doc.find(key)
}

/// Relies on `rustc_serialize::json::Json::as_string`: the character content
/// of a JSON string, and `None` for every other kind of value.
#[verifier::external_body]
pub(crate) fn json_as_text(v: &rustc_serialize::json::Json) -> (r: Option<String>)
    ensures
        (r is Some) == (field_view(*v) is Text),
        r matches Some(t) ==> field_view(*v) == JsonField::Text(t@),
{
    v.as_string().map(|s| s.to_string())
}

/// Relies on `rustc_serialize::json::Json::is_number`: whether the value is a
/// JSON number of any kind.
#[verifier::external_body]
pub(crate) fn json_is_number(v: &rustc_serialize::json::Json) -> (r: bool)
    ensures
        r == (field_view(*v) is Num),
{
    v.is_number()
}

/// Relies on `rustc_serialize::json::Json::as_i64`: the value of an integral
/// JSON number that fits in an `i64`, and `None` for every other value,
/// numbers that do not fit included.
#[verifier::external_body]
pub(crate) fn json_as_int(v: &rustc_serialize::json::Json) -> (r: Option<i64>)
    ensures
        (r is Some) == (field_view(*v) matches JsonField::Num(Some(_))),
        r matches Some(n) ==> field_view(*v) == JsonField::Num(Some(n as int)),
{
    v.as_i64()
}

/// Relies on `rustc_serialize::json::Json::as_boolean`: the truth value of a
/// JSON boolean, and `None` for every other kind of value.
#[verifier::external_body]
pub(crate) fn json_as_flag(v: &rustc_serialize::json::Json) -> (r: Option<bool>)
    ensures
        (r is Some) == (field_view(*v) is Flag),
        r matches Some(b) ==> field_view(*v) == JsonField::Flag(b),
{
    v.as_boolean()
}

} // verus!
