//! What the registry answers, and where to ask.
use vstd::prelude::*;
use crate::nav::Request;

verus! {

/// The catalog answer: every repository's name.
#[derive(Debug)]
pub struct Catalog {
    pub repositories: Vec<String>,
}

/// The tag-list answer for one repository.
#[derive(Debug)]
pub struct Image {
    pub name: String,
    pub tags: Vec<String>,
}

/// The catalog endpoint under the base address `addr`.
pub fn catalog_url(addr: &str) -> (r: String)
    ensures
        r@ == addr@ + "/v2/_catalog"@,
{
    let mut u = String::from_str(addr);
    u.append("/v2/_catalog");
    u
}

/// The tag-list endpoint of repository `image` under the base address `addr`.
pub fn tags_url(addr: &str, image: &str) -> (r: String)
    ensures
        r@ == addr@ + "/v2/"@ + image@ + "/tags/list"@,
{
    let mut u = String::from_str(addr);
    u.append("/v2/");
    u.append(image);
    u.append("/tags/list");
    u
}

/// The endpoint that answers `req`.
pub fn request_url(addr: &str, req: &Request) -> (r: String)
    ensures
        r@ == match req {
            Request::Catalog => addr@ + "/v2/_catalog"@,
            Request::Tags(image) => addr@ + "/v2/"@ + image@ + "/tags/list"@,
        },
{
    match req {
        Request::Catalog => catalog_url(addr),
        Request::Tags(image) => tags_url(addr, image.as_str()),
    }
}

} // verus!
