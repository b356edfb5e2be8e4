use vstd::prelude::*;

use crate::body::RusotoBody;
use crate::body::SignedRequestPayload;
use crate::error::DispatchError;
use crate::headers::spec_translate_fields;
use crate::headers::translate_headers;
use crate::method::parse_method;
use crate::method::spec_parse_method;
use crate::method::Method;
use crate::uri::assemble_uri;
use crate::uri::spec_uri;

verus! {

/// A signed request descriptor, as the dispatch caller hands it in: plain
/// values, already canonicalized and percent-encoded upstream.
#[derive(Debug)]
pub struct SignedRequest {
    pub method: String,
    pub scheme: String,
    pub hostname: String,
    pub canonical_path: String,
    pub canonical_query_string: String,
    pub headers: Vec<(String, Vec<Vec<u8>>)>,
    pub payload: Option<SignedRequestPayload>,
}

/// A transport-native request: the verb, the assembled URI, the translated
/// header entries in order, and the attached body source.
#[derive(Debug)]
pub struct TransportRequest {
    pub method: Method,
    pub uri: String,
    pub headers: Vec<(String, Vec<u8>)>,
    pub body: RusotoBody,
}

/// When request translation succeeds: no timeout was supplied, the method
/// token is supported, and every header field translates.
pub open spec fn spec_translate_ok(request: SignedRequest, timeout: Option<u64>) -> bool {
    &&& timeout is None
    &&& spec_parse_method(request.method@) is Some
    &&& spec_translate_fields(request.headers.deep_view()) is Ok
}

/// Translates a signed request descriptor into a transport request, or
/// rejects it: a supplied timeout is refused outright (timeouts are not
/// supported at this layer), then the method token, then the headers; the
/// payload is attached as the request's body source unchanged.
pub fn translate_request(request: SignedRequest, timeout: Option<u64>) -> (r: Result<
    TransportRequest,
    DispatchError,
>)
    ensures
        r is Ok <==> spec_translate_ok(request, timeout),
        timeout is Some ==> r == Err::<TransportRequest, DispatchError>(
            DispatchError::UnsupportedOption,
        ),
        timeout is None && spec_parse_method(request.method@) is None ==> r == Err::<
            TransportRequest,
            DispatchError,
        >(DispatchError::UnsupportedMethod),
        timeout is None && spec_parse_method(request.method@) is Some ==> (spec_translate_fields(
            request.headers.deep_view(),
        ) matches Err(e) ==> r == Err::<TransportRequest, DispatchError>(e)),
        r matches Ok(t) ==> {
            &&& Some(t.method) == spec_parse_method(request.method@)
            &&& t.uri@ == spec_uri(
                request.scheme@,
                request.hostname@,
                request.canonical_path@,
                request.canonical_query_string@,
            )
            &&& Ok::<Seq<(Seq<char>, Seq<u8>)>, DispatchError>(t.headers.deep_view())
                == spec_translate_fields(request.headers.deep_view())
            &&& t.body.inner == request.payload
        },
{
    if timeout.is_some() {
        return Err(DispatchError::UnsupportedOption);
    }
    let method = match parse_method(&request.method) {
        Ok(m) => m,
        Err(e) => {
            return Err(e);
        },
    };
    let headers = match translate_headers(&request.headers) {
        Ok(hs) => hs,
        Err(e) => {
            return Err(e);
        },
    };
    let uri = assemble_uri(
        request.scheme.as_str(),
        request.hostname.as_str(),
        request.canonical_path.as_str(),
        request.canonical_query_string.as_str(),
    );
    let body = RusotoBody { inner: request.payload };
    Ok(TransportRequest { method, uri, headers, body })
}

} // verus!
