//! The redirect resolver: which paths are reserved, which short code a path
//! carries, and which response each lookup outcome earns.
//!
//! Resolution is split at the one point where the network stands: a path is
//! first turned into a [`Resolution`]; when that asks for a lookup, the
//! caller performs the GET against [`lookup_url`] and hands the
//! [`LookupOutcome`] back to [`resolve_outcome`], which renders the response.

use crate::html::{not_found_page_spec, redirect_page_spec, render_not_found_page};
use crate::json::{extract_url_field, json_parses, json_string_field, render_extraction};
use crate::response::{RenderedResponse, ResponseKind};
use crate::text::str_eq;
use vstd::prelude::*;
use vstd::string::*;

verus! {

/// The paths reserved for other handlers: the root page and the script
/// asset. They must never reach the lookup service.
pub open spec fn is_reserved_path(path: Seq<char>) -> bool {
    path == "/"@ || path == "/script.lua"@
}

/// What a path asks for: either the reserved-path answer, ready to send, or
/// a lookup of the short code the path carries.
pub enum Resolution {
    Reserved { response: RenderedResponse },
    Lookup { short_code: String },
}

/// Decide a request path. Reserved paths are answered at once with a plain
/// "Not found"; any other path yields its short code — the path with exactly
/// one leading separator stripped, used verbatim, with no further decoding
/// or validation.
pub fn resolve_path(path: &str) -> (r: Resolution)
    requires
        path@.len() >= 1,
        path@[0] == '/',
    ensures
        (r is Reserved) == is_reserved_path(path@),
        r matches Resolution::Reserved { response } ==> response.kind == ResponseKind::ReservedPath
            && response.body@ == "Not found"@,
        r matches Resolution::Lookup { short_code } ==> short_code@ == path@.skip(1),
{
    if str_eq(path, "/") || str_eq(path, "/script.lua") {
        Resolution::Reserved {
            response: RenderedResponse {
                kind: ResponseKind::ReservedPath,
                body: "Not found".to_owned(),
            },
        }
    } else {
        let n = path.unicode_len();
        let code = path.substring_char(1, n);
        proof {
            assert(path@.subrange(1, path@.len() as int) =~= path@.skip(1));
        }
        Resolution::Lookup { short_code: code.to_owned() }
    }
}

/// The lookup service address the front end queries unless configured
/// otherwise.
pub fn default_lookup_base() -> (r: &'static str)
    ensures
        r@ == "http://localhost:3333/api/redirect"@,
{
    "http://localhost:3333/api/redirect"
}

/// The URL to GET for a short code: the base, a separator, and the code
/// verbatim.
pub fn lookup_url(base: &str, short_code: &str) -> (r: String)
    ensures
        r@ == base@ + "/"@ + short_code@,
{
    let mut url = base.to_owned();
    url.append("/");
    url.append(short_code);
    proof {
        assert(url@ =~= base@ + "/"@ + short_code@);
    }
    url
}

/// How the lookup call went: unreachable at the transport level, or an
/// answer with its status and body.
pub enum LookupOutcome {
    Unreachable,
    Response { status: u16, body: String },
}

/// The mathematical shape of a [`LookupOutcome`]: the body as its character
/// sequence.
pub enum LookupOutcomeView {
    Unreachable,
    Response { status: u16, body: Seq<char> },
}

impl View for LookupOutcome {
    type V = LookupOutcomeView;

    open spec fn view(&self) -> LookupOutcomeView {
        match *self {
            LookupOutcome::Unreachable => LookupOutcomeView::Unreachable,
            LookupOutcome::Response { status, body } => LookupOutcomeView::Response {
                status,
                body: body@,
            },
        }
    }
}

/// The statuses the lookup service answers success with.
pub open spec fn is_success_status(status: u16) -> bool {
    200 <= status <= 299
}

/// The kind of response owed for a short code and a lookup outcome.
pub open spec fn resolved_kind(code: Seq<char>, outcome: LookupOutcomeView) -> ResponseKind {
    match outcome {
        LookupOutcomeView::Unreachable => ResponseKind::UpstreamUnavailable,
        LookupOutcomeView::Response { status, body } => {
            if is_success_status(status) {
                if json_parses(body) && json_string_field(body, "url"@) is Some {
                    ResponseKind::Redirect
                } else {
                    ResponseKind::MalformedUpstreamResponse
                }
            } else if status == 404 {
                ResponseKind::NotFound
            } else {
                ResponseKind::UpstreamError
            }
        },
    }
}

/// The exact body owed for a short code and a lookup outcome.
pub open spec fn resolved_body(code: Seq<char>, outcome: LookupOutcomeView) -> Seq<char> {
    match outcome {
        LookupOutcomeView::Unreachable => "Failed to connect to API"@,
        LookupOutcomeView::Response { status, body } => {
            if is_success_status(status) {
                if !json_parses(body) {
                    "Failed to parse API response"@
                } else {
                    match json_string_field(body, "url"@) {
                        Option::Some(url) => redirect_page_spec(url),
                        Option::None => "Invalid response from API"@,
                    }
                }
            } else if status == 404 {
                not_found_page_spec(code)
            } else {
                "API request failed"@
            }
        },
    }
}

/// Render the response for a short code once its lookup outcome is known:
/// the redirect page on a success-status body carrying a string `url` field,
/// the not-found page naming the code on a 404, and the three plain error
/// bodies otherwise. Every failure is caught here; nothing propagates.
pub fn resolve_outcome(short_code: &str, outcome: &LookupOutcome) -> (r: RenderedResponse)
    ensures
        r.kind == resolved_kind(short_code@, outcome@),
        r.body@ == resolved_body(short_code@, outcome@),
{
    match outcome {
        LookupOutcome::Unreachable => RenderedResponse {
            kind: ResponseKind::UpstreamUnavailable,
            body: "Failed to connect to API".to_owned(),
        },
        LookupOutcome::Response { status, body } => {
            if 200 <= *status && *status <= 299 {
                let extraction = extract_url_field(body.as_str());
                render_extraction(&extraction)
            } else if *status == 404 {
                RenderedResponse {
                    kind: ResponseKind::NotFound,
                    body: render_not_found_page(short_code),
                }
            } else {
                RenderedResponse {
                    kind: ResponseKind::UpstreamError,
                    body: "API request failed".to_owned(),
                }
            }
        },
    }
}

/// Resolution is stateless and deterministic: two requests with the same
/// short code and byte-identical lookup outcomes are owed responses of the
/// same kind with byte-identical bodies.
pub proof fn lemma_resolution_idempotent(
    code1: Seq<char>,
    outcome1: LookupOutcomeView,
    code2: Seq<char>,
    outcome2: LookupOutcomeView,
)
    requires
        code1 == code2,
        outcome1 == outcome2,
    ensures
        resolved_kind(code1, outcome1) == resolved_kind(code2, outcome2),
        resolved_body(code1, outcome1) == resolved_body(code2, outcome2),
{
}

} // verus!
