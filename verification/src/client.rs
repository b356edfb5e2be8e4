use vstd::prelude::*;

verus! {

/// A dispatch adapter around a caller-supplied transport capability.
///
/// The capability itself is opaque to this crate: request and response
/// translation is done by the verified functions of the other modules, and
/// the event loop that actually drives the transport lives outside.
#[derive(Clone)]
pub struct HttpClient<T> {
    client: T,
}

impl<T> HttpClient<T> {
    /// The transport capability held by this client.
    pub closed spec fn spec_client(&self) -> T {
        self.client
    }

    pub fn new(client: T) -> (r: Self)
        ensures
            r.spec_client() == client,
    {
        HttpClient { client }
    }

    /// Borrows the transport capability, for the loop that drives it.
    pub fn client(&self) -> (r: &T)
        ensures
            *r == self.spec_client(),
    {
        &self.client
    }
}

} // verus!
