use vstd::prelude::*;
use vstd::string::StringExecFns;

use crate::error::DispatchError;

verus! {

/// The transport verbs this adapter supports.
#[derive(Clone, Copy, Debug, PartialEq, Eq, Structural)]
pub enum Method {
    Get,
    Head,
    Post,
    Put,
    Delete,
}

/// The method translation: exactly the tokens GET, HEAD, POST, PUT and
/// DELETE map to a transport verb; every other token is unsupported.
pub open spec fn spec_parse_method(m: Seq<char>) -> Option<Method> {
    if m == "GET"@ {
        Some(Method::Get)
    } else if m == "HEAD"@ {
        Some(Method::Head)
    } else if m == "POST"@ {
        Some(Method::Post)
    } else if m == "PUT"@ {
        Some(Method::Put)
    } else if m == "DELETE"@ {
        Some(Method::Delete)
    } else {
        None
    }
}

/// Maps a method token to the transport verb, or rejects it.
pub fn parse_method(m: &String) -> (r: Result<Method, DispatchError>)
    ensures
        spec_parse_method(m@) matches Some(v) ==> r == Ok::<Method, DispatchError>(v),
        spec_parse_method(m@) is None ==> r == Err::<Method, DispatchError>(
            DispatchError::UnsupportedMethod,
        ),
{
    if *m == String::from_str("GET") {
        Ok(Method::Get)
    } else if *m == String::from_str("HEAD") {
        Ok(Method::Head)
    } else if *m == String::from_str("POST") {
        Ok(Method::Post)
    } else if *m == String::from_str("PUT") {
        Ok(Method::Put)
    } else if *m == String::from_str("DELETE") {
        Ok(Method::Delete)
    } else {
        Err(DispatchError::UnsupportedMethod)
    }
}

} // verus!
