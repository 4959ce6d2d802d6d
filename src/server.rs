use vstd::prelude::*;

use crate::client_req::{chars_match, opt_origin_view, opt_string_view, parse_origin, render_origin, Origin};
use crate::consent::Domain;

verus! {

/// The origin that an optional `Origin` header denotes, if it is an accepted one.
pub open spec fn header_origin(header: Option<Seq<char>>) -> Option<(Domain, Option<Seq<char>>)> {
    match header {
        Some(raw) => parse_origin(raw),
        None => None,
    }
}

pub open spec fn opt_str_view(o: Option<&str>) -> Option<Seq<char>> {
    match o {
        Some(s) => Some(s@),
        None => None,
    }
}

/// The domain a record is made for when the request carries no accepted origin.
pub open spec fn default_domain() -> Domain {
    Domain::MathSweCom
}

/// The domain a record is made for, given the origin served.
pub open spec fn served_domain(origin: Option<(Domain, Option<Seq<char>>)>) -> Domain {
    match origin {
        Some((domain, _)) => domain,
        None => default_domain(),
    }
}

/// The origin that cross-origin response headers name, given the origin served.
pub open spec fn cors_target(origin: Option<(Domain, Option<Seq<char>>)>) -> Option<Seq<char>> {
    match origin {
        Some((domain, subdomain)) => Some(render_origin(domain, subdomain)),
        None => None,
    }
}

/// The origin a request is served for: an accepted `Origin`, or none at all in
/// local development mode. A value exists only for a request that may go on.
pub struct OriginProxy(Option<Origin>);

impl View for OriginProxy {
    type V = Option<(Domain, Option<Seq<char>>)>;

    closed spec fn view(&self) -> Option<(Domain, Option<Seq<char>>)> {
        opt_origin_view(self.0)
    }
}

impl OriginProxy {
    /// Applies the origin policy to the `Origin` header of a request: an
    /// accepted origin is served; without one, the request is served without an
    /// origin in local development mode and refused otherwise.
    pub fn from_header(header: Option<&str>, local_mode: bool) -> (r: Option<OriginProxy>)
        ensures
            r is Some <==> (header_origin(opt_str_view(header)) is Some || local_mode),
            r matches Some(proxy) ==> proxy@ == header_origin(opt_str_view(header)),
    {
        let origin = match header {
            Some(raw) => Origin::from_str(raw),
            None => None,
        };
        match origin {
            Some(origin) => Some(OriginProxy(Some(origin))),
            None => {
                if local_mode {
                    Some(OriginProxy(None))
                } else {
                    None
                }
            },
        }
    }

    /// The domain of the origin, or the default domain when there is none.
    pub fn domain(self) -> (r: Domain)
        ensures
            r == served_domain(self@),
    {
        match self.0 {
            Some(origin) => origin.domain(),
            None => Domain::MathSweCom,
        }
    }

    /// The origin that cross-origin response headers name, if any.
    pub fn cors_origin(self) -> (r: Option<String>)
        ensures
            opt_string_view(r) == cors_target(self@),
    {
        match self.0 {
            Some(origin) => Some(origin.to_string()),
            None => None,
        }
    }
}

impl Clone for OriginProxy {
    fn clone(&self) -> (r: Self)
        ensures
            r@ == self@,
    {
        match &self.0 {
            Some(origin) => OriginProxy(Some(origin.clone())),
            None => OriginProxy(None),
        }
    }
}

/// Whether the configured mode is local development.
pub fn is_local_dev_mode(mode: &str) -> (r: bool)
    ensures
        r == (mode@ == "local"@),
{
    let local = "local";
    if mode.unicode_len() != local.unicode_len() {
        return false;
    }
    let same = chars_match(mode, 0, local);
    assert(mode@.subrange(0, local@.len() as int) =~= mode@);
    same
}

} // verus!
