//! Routing of the blob-viewing HTTP front end: which request gets the
//! container listing and which the plain greeting, and the response
//! metadata of the listing.  Rendering the listing body and serving HTTP
//! are the caller's work.

use vstd::prelude::*;

use crate::strutil::{ascii_upper, spec_upper};

verus! {

/// Which response a request gets.
pub enum RouteDecision {
    /// The container listing, as JSON.
    ContainerListing,
    /// The plain greeting.
    Greeting,
}

/// Routes one HTTP request: exactly a `GET` (in any case) of
/// `/containers` gets the container listing; everything else gets the
/// greeting.
pub fn route_request(method: &str, path: &str) -> (r: RouteDecision)
    ensures
        r is ContainerListing <==> (spec_upper(method@) == "GET"@ && path@ == "/containers"@),
{
    let upper = ascii_upper(method);
    let get: String = "GET".to_owned();
    let containers: String = "/containers".to_owned();
    if upper == get && path.to_owned() == containers {
        RouteDecision::ContainerListing
    } else {
        RouteDecision::Greeting
    }
}

/// The response headers of the container listing: its content type and the
/// range of containers it covers.
pub fn container_listing_headers() -> (r: Vec<(String, Vec<String>)>)
    ensures
        r@.len() == 2,
        r@[0].0@ == "content-type"@ && r@[0].1.deep_view() == seq!["application/json"@],
        r@[1].0@ == "content-range"@ && r@[1].1.deep_view() == seq!["containers 0-0/1"@],
{
    let mut content_type: Vec<String> = Vec::new();
    content_type.push("application/json".to_owned());
    let mut content_range: Vec<String> = Vec::new();
    content_range.push("containers 0-0/1".to_owned());
    let mut out: Vec<(String, Vec<String>)> = Vec::new();
    out.push(("content-type".to_owned(), content_type));
    out.push(("content-range".to_owned(), content_range));
    proof {
        assert(out@[0].1.deep_view() =~= seq!["application/json"@]);
        assert(out@[1].1.deep_view() =~= seq!["containers 0-0/1"@]);
    }
    out
}

} // verus!
