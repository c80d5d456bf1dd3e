//! Rendered responses and their status codes.

use vstd::prelude::*;

verus! {

/// How a request was answered. Each kind fixes the status code; the kinds
/// that embed request data (`NotFound`, `Redirect`) have their bodies pinned
/// by the rendering contracts.
#[derive(Clone, Copy, Debug, PartialEq, Eq, Structural)]
pub enum ResponseKind {
    /// The path is reserved for other handlers and never reaches the lookup.
    ReservedPath,
    /// The lookup service knows no mapping for the short code.
    NotFound,
    /// A destination URL was found; the body redirects the browser to it.
    Redirect,
    /// The lookup service could not be reached at the transport level.
    UpstreamUnavailable,
    /// The lookup service answered with an unexpected non-success status.
    UpstreamError,
    /// The lookup service answered with a success status but a body that
    /// does not parse, or that lacks a string `url` field.
    MalformedUpstreamResponse,
}

/// The status code that a front end must send with each response kind.
pub open spec fn status_of(k: ResponseKind) -> u16 {
    match k {
        ResponseKind::ReservedPath => 404,
        ResponseKind::NotFound => 404,
        ResponseKind::Redirect => 200,
        ResponseKind::UpstreamUnavailable => 500,
        ResponseKind::UpstreamError => 500,
        ResponseKind::MalformedUpstreamResponse => 500,
    }
}

/// A fully rendered response: its kind and the exact body to send. The
/// caller supplies the status code ([`RenderedResponse::status`]) and, for
/// the HTML kinds ([`RenderedResponse::is_html`]), an HTML content type.
pub struct RenderedResponse {
    pub kind: ResponseKind,
    pub body: String,
}

impl RenderedResponse {
    /// The status code matching this response's kind.
    pub fn status(&self) -> (s: u16)
        ensures
            s == status_of(self.kind),
    {
        match self.kind {
            ResponseKind::ReservedPath => 404,
            ResponseKind::NotFound => 404,
            ResponseKind::Redirect => 200,
            ResponseKind::UpstreamUnavailable => 500,
            ResponseKind::UpstreamError => 500,
            ResponseKind::MalformedUpstreamResponse => 500,
        }
    }

    /// Whether the body is an HTML document rather than a plain message.
    pub fn is_html(&self) -> (b: bool)
        ensures
            b == (self.kind is NotFound || self.kind is Redirect),
    {
        match self.kind {
            ResponseKind::NotFound => true,
            ResponseKind::Redirect => true,
            _ => false,
        }
    }
}

} // verus!
