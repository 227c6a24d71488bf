//! Caching for good of what never changes.

use vstd::prelude::*;

verus! {

/// The tag of every response that never changes.
pub const IMMUTABLE_ETAG: &'static str = "\"immutable\"";

/// How long a response may be kept that never changes.
pub const CACHE_FOREVER: &'static str = "public, no-transform, max-age=31536000, stale-while-revalidate=31536000, immutable";

/// The headers by which a response is kept for good.
#[derive(Clone, Copy, Debug, PartialEq, Eq)]
pub struct CacheHeaders {
    pub etag: &'static str,
    pub cache_control: &'static str,
}

/// What is done with a request for something that never changes.
#[derive(Clone, Copy, Debug, PartialEq, Eq, Structural)]
pub enum CacheStep {
    /// The client is told that nothing changed.
    NotModified,
    /// The request is handled.
    Handle,
}

/// Takes a request, by whether it names a tag that the client already has.
/// Which tag does not matter: what is served here never changes.
pub fn cache_forever(has_if_none_match: bool) -> (step: CacheStep)
    ensures
        step == if has_if_none_match {
            CacheStep::NotModified
        } else {
            CacheStep::Handle
        },
{
    if has_if_none_match {
        CacheStep::NotModified
    } else {
        CacheStep::Handle
    }
}

/// The headers that a response gets, by its status. Only a `200` response is
/// kept for good.
pub fn cache_headers(status: u16) -> (headers: Option<CacheHeaders>)
    ensures
        headers is Some <==> status == 200,
        headers is Some ==> headers->0.etag@ == IMMUTABLE_ETAG@ && headers->0.cache_control@
            == CACHE_FOREVER@,
        headers is Some ==> headers->0.etag@ == "\"immutable\""@,
        headers is Some ==> headers->0.cache_control@
            == "public, no-transform, max-age=31536000, stale-while-revalidate=31536000, immutable"@,
{
    if status == 200 {
        Some(CacheHeaders { etag: IMMUTABLE_ETAG, cache_control: CACHE_FOREVER })
    } else {
        None
    }
}

} // verus!
