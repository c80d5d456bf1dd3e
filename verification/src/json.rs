//! Reading the lookup service's body: a JSON document whose `url` field, a
//! string, is the destination URL.
//!
//! The parse itself is delegated to serde_json behind one trusted wrapper;
//! its result is only named here ([`json_parses`], [`json_string_field`]),
//! never restated. Everything that follows the parse is verified code over
//! the wrapper's result ([`render_extraction`]).

use crate::html::{redirect_page_spec, render_redirect_page};
use crate::response::{RenderedResponse, ResponseKind};
use vstd::prelude::*;
use vstd::string::*;

verus! {

/// Whether serde_json accepts `s` as a JSON document. Named, not stated: the
/// grammar is serde_json's and is a function of the text alone.
pub uninterp spec fn json_parses(s: Seq<char>) -> bool;

/// The string held by field `name` of the JSON document `s`: what
/// `serde_json::Value::get(name)` followed by `Value::as_str` finds, a
/// function of the text and the field name alone. `None` where the document
/// is not an object, lacks the field, or holds a non-string there.
pub uninterp spec fn json_string_field(s: Seq<char>, name: Seq<char>) -> Option<Seq<char>>;

/// What came of looking for a string field in a JSON body.
pub enum FieldExtraction {
    /// The body is not a JSON document at all.
    Unparsable,
    /// The body parsed, but the field is absent or is not a string.
    Missing,
    /// The field's string value.
    Present(String),
}

/// Relies on `serde_json::from_str::<Value>` to parse the body, and on
/// `serde_json::Value::get` and `serde_json::Value::as_str` to pick field
/// `name` out of the parsed document; all three are pure functions of the
/// text and the name.
#[verifier::external_body]
fn extract_string_field(body: &str, name: &str) -> (r: FieldExtraction)
    ensures
        (r is Unparsable) == !json_parses(body@),
        (r is Missing) == (json_parses(body@) && json_string_field(body@, name@) is None),
        (r is Present) == (json_parses(body@) && json_string_field(body@, name@) is Some),
        r matches FieldExtraction::Present(v) ==> json_string_field(body@, name@) == Some(v@),
{
    match serde_json::from_str::<serde_json::Value>(body) {
        Err(_) => FieldExtraction::Unparsable,
        Ok(doc) => match doc.get(name) {
            None => FieldExtraction::Missing,
            Some(value) => match value.as_str() {
                None => FieldExtraction::Missing,
                Some(url) => FieldExtraction::Present(url.to_string()),
            },
        },
    }
}

/// Look for the string field `url` in a lookup-service body.
pub fn extract_url_field(body: &str) -> (r: FieldExtraction)
    ensures
        (r is Unparsable) == !json_parses(body@),
        (r is Missing) == (json_parses(body@) && json_string_field(body@, "url"@) is None),
        (r is Present) == (json_parses(body@) && json_string_field(body@, "url"@) is Some),
        r matches FieldExtraction::Present(v) ==> json_string_field(body@, "url"@) == Some(v@),
{
    extract_string_field(body, "url")
}

/// Render the response owed for a success-status body whose `url` field came
/// out as `x`: the redirect page for a present destination, and the two
/// distinct malformed-response bodies otherwise.
pub fn render_extraction(x: &FieldExtraction) -> (r: RenderedResponse)
    ensures
        x is Unparsable ==> r.kind == ResponseKind::MalformedUpstreamResponse && r.body@
            == "Failed to parse API response"@,
        x is Missing ==> r.kind == ResponseKind::MalformedUpstreamResponse && r.body@
            == "Invalid response from API"@,
        x matches FieldExtraction::Present(url) ==> r.kind == ResponseKind::Redirect && r.body@
            == redirect_page_spec(url@),
{
    match x {
        FieldExtraction::Unparsable => RenderedResponse {
            kind: ResponseKind::MalformedUpstreamResponse,
            body: "Failed to parse API response".to_owned(),
        },
        FieldExtraction::Missing => RenderedResponse {
            kind: ResponseKind::MalformedUpstreamResponse,
            body: "Invalid response from API".to_owned(),
        },
        FieldExtraction::Present(url) => RenderedResponse {
            kind: ResponseKind::Redirect,
            body: render_redirect_page(url.as_str()),
        },
    }
}

} // verus!
