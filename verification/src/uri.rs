use vstd::prelude::*;
use vstd::string::StringExecFns;

verus! {

/// The URI this adapter assembles: `scheme://hostname` followed by the
/// canonical path, and, when the canonical query string is non-empty, a `?`
/// and the query string verbatim. Nothing is re-encoded here.
pub open spec fn spec_uri(
    scheme: Seq<char>,
    hostname: Seq<char>,
    path: Seq<char>,
    query: Seq<char>,
) -> Seq<char> {
    let base = scheme + "://"@ + hostname + path;
    if query.len() == 0 {
        base
    } else {
        base + "?"@ + query
    }
}

/// Assembles the transport request's URI from the descriptor's parts.
pub fn assemble_uri(scheme: &str, hostname: &str, path: &str, query: &str) -> (r: String)
    ensures
        r@ == spec_uri(scheme@, hostname@, path@, query@),
{
    let mut uri = scheme.to_owned();
    uri.append("://");
    uri.append(hostname);
    uri.append(path);
    if !query.is_empty() {
        uri.append("?");
        uri.append(query);
    }
    proof {
        assert(uri@ =~= spec_uri(scheme@, hostname@, path@, query@));
    }
    uri
}

} // verus!
