use vstd::prelude::*;
use vstd::string::StringExecFns;

verus! {

/// The error taxonomy of a dispatch: a caller-supplied option this layer
/// rejects, the translation failures, and failures reported by the transport
/// or by a body stream.
#[derive(Debug, Clone)]
pub enum DispatchError {
    /// A timeout was supplied; timeouts are not supported at this layer.
    UnsupportedOption,
    /// The method token is outside the supported set.
    UnsupportedMethod,
    /// A header name is not valid HTTP header-name syntax.
    InvalidHeaderName,
    /// A header value is not valid HTTP header-value syntax.
    InvalidHeaderValue,
    /// A response header value is not valid UTF-8.
    HeaderDecodeError,
    /// The transport failed; carries the transport's message.
    Transport(String),
    /// A body stream failed; carries the source's message.
    Io(String),
}

/// The human-readable cause each error carries.
pub open spec fn spec_message(e: DispatchError) -> Seq<char> {
    match e {
        DispatchError::UnsupportedOption => "timeout is not supported at this level"@,
        DispatchError::UnsupportedMethod => "unsupported method"@,
        DispatchError::InvalidHeaderName => "invalid header name"@,
        DispatchError::InvalidHeaderValue => "invalid header value"@,
        DispatchError::HeaderDecodeError => "non-UTF-8 header value"@,
        DispatchError::Transport(m) => m@,
        DispatchError::Io(m) => m@,
    }
}

impl DispatchError {
    /// The human-readable cause string this error carries.
    pub fn message(&self) -> (r: String)
        ensures
            r@ == spec_message(*self),
    {
        match self {
            DispatchError::UnsupportedOption => String::from_str(
                "timeout is not supported at this level",
            ),
            DispatchError::UnsupportedMethod => String::from_str("unsupported method"),
            DispatchError::InvalidHeaderName => String::from_str("invalid header name"),
            DispatchError::InvalidHeaderValue => String::from_str("invalid header value"),
            DispatchError::HeaderDecodeError => String::from_str("non-UTF-8 header value"),
            DispatchError::Transport(m) => m.clone(),
            DispatchError::Io(m) => m.clone(),
        }
    }
}

} // verus!
