use vstd::prelude::*;
use vstd::string::*;

verus! {

/// Whether or not to use SSL.
#[derive(Debug, Clone, Copy, PartialEq, Eq, Structural)]
pub enum Ssl {
    /// Use SSL.
    Yes,
    /// Do not use SSL.
    No,
}

/// The URL scheme that goes with a transport security mode.
pub open spec fn scheme_of(ssl: Ssl) -> Seq<char> {
    match ssl {
        Ssl::Yes => "https"@,
        Ssl::No => "http"@,
    }
}

/// `"{scheme}://{endpoint}/"`.
pub open spec fn base_url_of(endpoint: Seq<char>, ssl: Ssl) -> Seq<char> {
    scheme_of(ssl) + "://"@ + endpoint + "/"@
}

/// Builds the base URL of a bucket from its endpoint (host, optional port,
/// no scheme). The endpoint is taken as it is.
pub fn base_url(endpoint: &str, ssl: Ssl) -> (r: String)
    ensures
        r@ == base_url_of(endpoint@, ssl),
{
    let scheme = match ssl {
        Ssl::Yes => "https",
        Ssl::No => "http",
    };
    let mut r = String::from_str(scheme);
    r.append("://");
    r.append(endpoint);
    r.append("/");
    r
}

} // verus!
