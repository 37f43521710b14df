//! The response decoder: raw response bytes in, the quoted price out.
//!
//! Decoding has three steps, each with its own failure: the bytes must be
//! valid text, the text must parse as a JSON document, and the document
//! must carry a string under `data.priceUsd`. The extracted value stays an
//! opaque byte string; no numeric conversion is performed here.

use vstd::prelude::*;
use vstd::utf8::decode_utf8;
use vstd::utf8::valid_utf8;

verus! {

/// Every way decoding can fail.
#[derive(Clone, Copy, Debug, PartialEq, Eq, Structural)]
pub enum DecodeError {
    /// The bytes are not valid text.
    Encoding,
    /// The text is not a well-formed JSON document.
    ParseFailure,
    /// The document has no string under `data.priceUsd`.
    FieldMissing,
}

/// Whether a text parses as a JSON document. What serde_json::from_str
/// answers for a given text; a function of the characters alone.
pub uninterp spec fn json_well_formed(s: Seq<char>) -> bool;

/// The string member under `data.priceUsd` of the document a text parses
/// to, as bytes, if the document has one. A function of the characters
/// alone.
pub uninterp spec fn price_field(s: Seq<char>) -> Option<Seq<u8>>;

/// Relies on core::str::from_utf8: it succeeds exactly on valid UTF-8
/// bytes, and yields the characters they decode to.
#[verifier::external_body]
fn bytes_as_str(bytes: &[u8]) -> (r: Option<&str>)
    ensures
        r is Some <==> valid_utf8(bytes@),
        r matches Some(s) ==> s@ == decode_utf8(bytes@),
{
    core::str::from_utf8(bytes).ok()
}

/// Relies on serde_json::from_str to parse the text as a JSON document,
/// and on serde_json's Value indexing and Value::as_str to look up the
/// string under `data.priceUsd`; both answers depend on the text alone.
/// The outer Option reports whether the text parsed, the inner one whether
/// the parsed document carries the field.
#[verifier::external_body]
fn parse_price_document(s: &str) -> (r: Option<Option<Vec<u8>>>)
    ensures
        match r {
            Option::None => !json_well_formed(s@),
            Option::Some(f) => json_well_formed(s@) && (match f {
                Option::None => price_field(s@) is None,
                Option::Some(p) => price_field(s@) matches Some(q) && p@ == q,
            }),
        },
{
    let doc: serde_json::Value = match serde_json::from_str(s) {
        Ok(v) => v,
        Err(_) => return None,
    };
    match doc["data"]["priceUsd"].as_str() {
        Some(p) => Some(Some(p.as_bytes().to_vec())),
        None => Some(None),
    }
}

/// What decoding a byte string yields, step by step: text, document,
/// field.
pub open spec fn decode_spec(bytes: Seq<u8>) -> Result<Seq<u8>, DecodeError> {
    if !valid_utf8(bytes) {
        Err(DecodeError::Encoding)
    } else if !json_well_formed(decode_utf8(bytes)) {
        Err(DecodeError::ParseFailure)
    } else {
        match price_field(decode_utf8(bytes)) {
            Option::Some(p) => Ok(p),
            Option::None => Err(DecodeError::FieldMissing),
        }
    }
}

/// Extracts the quoted price from raw response bytes, classifying each way
/// the bytes can fall short: not text, not a document, no such field.
pub fn decode(bytes: &[u8]) -> (r: Result<Vec<u8>, DecodeError>)
    ensures
        match decode_spec(bytes@) {
            Ok(p) => r matches Ok(v) && v@ == p,
            Err(e) => r matches Err(e2) && e2 == e,
        },
{
    let s = match bytes_as_str(bytes) {
        Option::Some(s) => s,
        Option::None => {
            return Err(DecodeError::Encoding);
        },
    };
    match parse_price_document(s) {
        Option::None => Err(DecodeError::ParseFailure),
        Option::Some(Option::None) => Err(DecodeError::FieldMissing),
        Option::Some(Option::Some(p)) => Ok(p),
    }
}

} // verus!
