//! The structured payload of a successful run, and the decoder that reads it
//! out of the captured standard output.

use vstd::prelude::*;
use crate::error::{CommandError, ErrorModel};

verus! {

/// The decoded payload: a recursive tree of null, booleans, numbers,
/// strings, ordered sequences and string-keyed mappings — the one value
/// handed back across the system boundary on success. A number is carried as
/// its rendered literal text, which keeps the tree exact at every magnitude.
#[derive(Debug, PartialEq, Eq)]
pub enum StructuredValue {
    Null,
    Boolean(bool),
    Number(String),
    Text(String),
    Sequence(Vec<StructuredValue>),
    Mapping(Vec<(String, StructuredValue)>),
}

#[verifier::external_type_specification]
#[verifier::external_body]
pub struct ExJsonValue(serde_json::Value);

/// The document that the parser reads out of a text, or the diagnostic it
/// reports when the text is no well-formed document. Parsing depends on the
/// characters alone, so the outcome bears a name rather than a grammar.
pub uninterp spec fn raw_document(text: Seq<char>) -> Result<serde_json::Value, Seq<char>>;

/// The image of a parsed document as a [`StructuredValue`] tree, variant for
/// variant; a function of the document alone.
pub uninterp spec fn structured_of(doc: serde_json::Value) -> StructuredValue;

/// The text that lossy UTF-8 decoding reads out of a byte sequence, each
/// ill-formed sequence replaced; a function of the bytes alone.
pub uninterp spec fn lossy_text(bytes: Seq<u8>) -> Seq<char>;

/// Relies on serde_json::from_str: parses the text as exactly one JSON
/// document; the parsed document and the diagnostic on failure both depend
/// on the text alone.
#[verifier::external_body]
fn parse_document(text: &str) -> (r: Result<serde_json::Value, String>)
    ensures
        r is Ok <==> raw_document(text@) is Ok,
        r is Ok ==> Ok::<serde_json::Value, Seq<char>>(r->Ok_0) == raw_document(text@),
        r is Err ==> Err::<serde_json::Value, Seq<char>>(r->Err_0@) == raw_document(text@),
{
    serde_json::from_str::<serde_json::Value>(text).map_err(|e| e.to_string())
}

/// Relies on the published shape of serde_json::Value: each variant is
/// carried over one for one — null, booleans and strings verbatim, a number
/// as its rendered literal text, arrays element by element in order, and
/// objects entry by entry in the order the underlying map yields them.
#[verifier::external_body]
fn to_structured(doc: serde_json::Value) -> (r: StructuredValue)
    ensures
        r == structured_of(doc),
{
    match doc {
        serde_json::Value::Null => StructuredValue::Null,
        serde_json::Value::Bool(b) => StructuredValue::Boolean(b),
        serde_json::Value::Number(n) => StructuredValue::Number(n.to_string()),
        serde_json::Value::String(s) => StructuredValue::Text(s),
        serde_json::Value::Array(items) => StructuredValue::Sequence(
            items.into_iter().map(to_structured).collect(),
        ),
        serde_json::Value::Object(entries) => StructuredValue::Mapping(
            entries.into_iter().map(|e| (e.0, to_structured(e.1))).collect(),
        ),
    }
}

/// Relies on String::from_utf8_lossy: decodes the bytes as UTF-8 text with
/// each ill-formed sequence replaced by the replacement character; it never
/// fails and never panics.
#[verifier::external_body]
pub(crate) fn utf8_lossy(bytes: &Vec<u8>) -> (r: String)
    ensures
        r@ == lossy_text(bytes@),
{
    String::from_utf8_lossy(bytes).into_owned()
}

/// The document decoded from a text, or the parser's diagnostic when the
/// text is no well-formed document.
pub open spec fn decoded_document(text: Seq<char>) -> Result<StructuredValue, Seq<char>> {
    match raw_document(text) {
        Ok(d) => Ok(structured_of(d)),
        Err(m) => Err(m),
    }
}

/// What decoding the success-path standard output yields: the bytes are read
/// as lossy UTF-8 text and parsed as one structured document; a text that is
/// no such document yields a decode failure carrying the parser's
/// diagnostic, even though the process itself reported success.
pub open spec fn spec_decode(stdout: Seq<u8>) -> Result<StructuredValue, ErrorModel> {
    match decoded_document(lossy_text(stdout)) {
        Ok(v) => Ok(v),
        Err(m) => Err(ErrorModel::Decode(m)),
    }
}

/// The result `r` realises the model `m`: the same success or failure, the
/// same decoded value on success, and on failure an error of the same kind
/// whose detail text is the model's.
pub open spec fn models(
    r: Result<StructuredValue, CommandError>,
    m: Result<StructuredValue, ErrorModel>,
) -> bool {
    match r {
        Ok(v) => m == Ok::<StructuredValue, ErrorModel>(v),
        Err(e) => m == Err::<StructuredValue, ErrorModel>(e@),
    }
}

/// Decode the success-path standard output: read it as lossy UTF-8 text and
/// parse exactly one structured document out of it. A fully decoded value
/// and a decode failure are the only outcomes, never both, never neither.
pub fn decode_payload(stdout: Vec<u8>) -> (r: Result<StructuredValue, CommandError>)
    ensures
        models(r, spec_decode(stdout@)),
{
    let text = utf8_lossy(&stdout);
    match parse_document(text.as_str()) {
        Ok(doc) => Ok(to_structured(doc)),
        Err(m) => Err(CommandError::DecodeFailure(m)),
    }
}

} // verus!
