//! A small short-URL redirect front end.
//!
//! A request path either is one of the reserved paths (the root page and the
//! script asset, which belong to other handlers) or carries a short code. For
//! a short code the front end asks an external lookup service for the
//! destination URL and renders one of four responses: an HTML page that
//! redirects the browser to the destination, an HTML page saying the code is
//! unknown, or one of two plain error bodies when the lookup service is
//! unreachable or misbehaves.
//!
//! The library holds every decision and all rendering. The surrounding
//! program performs the network call: it turns a path into a
//! [`resolve::Resolution`] with [`resolve::resolve_path`], performs the lookup
//! only when told to, and hands the outcome back to
//! [`resolve::resolve_outcome`] for rendering.

pub mod html;
pub mod json;
pub mod resolve;
pub mod response;
pub mod text;
