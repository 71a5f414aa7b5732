//! Endpoint URIs, reduced to the parts the control loop works with.
//!
//! A server-commanded redirect carries a bare scheme-plus-authority URI; the
//! loop swaps those parts into both endpoints while each keeps its own path.

use vstd::prelude::*;

verus! {

/// A URI as the control loop sees it: scheme, authority, and the path (with
/// query) behind them.
#[derive(Clone)]
pub struct UriParts {
    pub scheme: String,
    pub authority: String,
    pub path_and_query: String,
}

/// The same three parts as character sequences.
pub ghost struct UriView {
    pub scheme: Seq<char>,
    pub authority: Seq<char>,
    pub path_and_query: Seq<char>,
}

impl View for UriParts {
    type V = UriView;

    open spec fn view(&self) -> UriView {
        UriView {
            scheme: self.scheme@,
            authority: self.authority@,
            path_and_query: self.path_and_query@,
        }
    }
}

/// What http's URI parser makes of a string: its scheme, authority and
/// path-and-query, or `None` where the string is no URI or lacks a scheme
/// or an authority.  A function of the text alone.
pub uninterp spec fn spec_uri_parse(s: Seq<char>) -> Option<UriView>;

/// Relies on `http::Uri`'s `FromStr` together with its part accessors: the
/// parse of a URI string, a function of the text alone.
#[verifier::external_body]
pub fn parse_uri(s: &str) -> (r: Option<UriParts>)
    ensures
        r is Some <==> spec_uri_parse(s@) is Some,
        r matches Some(p) ==> spec_uri_parse(s@) matches Some(u) && p@ == u,
{
    let uri: http::Uri = match s.parse() {
        Ok(u) => u,
        Err(_) => return None,
    };
    let p = uri.into_parts();
    let (Some(scheme), Some(authority)) = (p.scheme, p.authority) else { return None };
    Some(UriParts {
        scheme: scheme.as_str().to_string(),
        authority: authority.as_str().to_string(),
        path_and_query: p.path_and_query.map(|q| q.as_str().to_string()).unwrap_or_default(),
    })
}

impl UriParts {
    /// An identical copy.
    pub fn duplicate(&self) -> (r: UriParts)
        ensures
            r == *self,
    {
        UriParts {
            scheme: self.scheme.clone(),
            authority: self.authority.clone(),
            path_and_query: self.path_and_query.clone(),
        }
    }
}

/// Take scheme and authority from `new_host`, keep the URI's own path and
/// query: how a redirect lands on an endpoint.
pub fn replace_host(uri: &UriParts, new_host: &UriParts) -> (r: UriParts)
    ensures
        r == (UriParts {
            scheme: new_host.scheme,
            authority: new_host.authority,
            path_and_query: uri.path_and_query,
        }),
        r@.scheme == new_host@.scheme,
        r@.authority == new_host@.authority,
        r@.path_and_query == uri@.path_and_query,
{
    UriParts {
        scheme: new_host.scheme.clone(),
        authority: new_host.authority.clone(),
        path_and_query: uri.path_and_query.clone(),
    }
}

} // verus!
