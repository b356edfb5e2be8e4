use vstd::prelude::*;

use crate::error::DispatchError;

verus! {

/// One pull of a body through the transport's pull interface: a ready chunk,
/// end of data, or not ready yet (to be retried once the source is ready).
#[derive(Debug)]
pub enum BodyPoll {
    Chunk(Vec<u8>),
    End,
    Pending,
}

/// What the asynchronous source behind a streaming payload reported for one
/// pull.
#[derive(Debug)]
pub enum StreamEvent {
    Chunk(Vec<u8>),
    End,
    Pending,
    Failed(String),
}

/// A request payload with data: a fully buffered byte block, or a stream
/// whose handle stays with the loop that drives the transport.
#[derive(Debug)]
pub enum SignedRequestPayload {
    Buffer(Vec<u8>),
    Stream,
}

/// The outbound body: the request payload as attached to a transport
/// request, presented through the transport's pull interface.
#[derive(Debug)]
pub struct RusotoBody {
    pub inner: Option<SignedRequestPayload>,
}

impl RusotoBody {
    /// A payload backed by an external stream: its pulls are forwarded
    /// through `forward_stream_event` by the loop holding the stream.
    pub open spec fn spec_is_streaming(&self) -> bool {
        self.inner matches Some(SignedRequestPayload::Stream)
    }

    /// A payload observed exhausted: absent, or a drained buffer. Once
    /// exhausted, every later pull yields end of data — no resurrection.
    pub open spec fn spec_exhausted(&self) -> bool {
        match self.inner {
            None => true,
            Some(SignedRequestPayload::Buffer(b)) => b@.len() == 0,
            Some(SignedRequestPayload::Stream) => false,
        }
    }

    /// The bytes still held by a buffered payload (empty for the others).
    pub open spec fn spec_buffer_bytes(&self) -> Seq<u8> {
        match self.inner {
            Some(SignedRequestPayload::Buffer(b)) => b@,
            _ => Seq::empty(),
        }
    }

    pub fn is_streaming(&self) -> (r: bool)
        ensures
            r == self.spec_is_streaming(),
    {
        match &self.inner {
            Some(SignedRequestPayload::Stream) => true,
            _ => false,
        }
    }

    /// One pull of an absent or buffered payload: an absent payload yields
    /// end of data on every pull; a buffered payload hands out its entire
    /// remaining contents as one chunk, draining the buffer, and yields end
    /// of data on every pull thereafter.
    pub fn poll_buf(&mut self) -> (r: BodyPoll)
        requires
            !old(self).spec_is_streaming(),
        ensures
            old(self).inner is None ==> r is End && final(self).inner is None,
            old(self).spec_exhausted() ==> r is End && *final(self) == *old(self),
            old(self).inner matches Some(SignedRequestPayload::Buffer(b)) && b@.len() > 0
                ==> (r matches BodyPoll::Chunk(c) && c@ == old(self).spec_buffer_bytes()),
            final(self).spec_exhausted(),
    {
        match &mut self.inner {
            Some(SignedRequestPayload::Buffer(buf)) => {
                if buf.len() > 0 {
                    let chunk = buf.split_off(0);
                    proof {
                        assert(chunk@ =~= old(self).inner->Some_0->Buffer_0@);
                        assert(buf@ =~= Seq::<u8>::empty());
                    }
                    BodyPoll::Chunk(chunk)
                } else {
                    BodyPoll::End
                }
            },
            Some(SignedRequestPayload::Stream) => BodyPoll::End,
            None => BodyPoll::End,
        }
    }

    /// Trailer pulls: this adapter never produces trailing headers.
    pub fn poll_trailers(&mut self) -> (r: Option<Vec<(String, Vec<u8>)>>)
        ensures
            r is None,
            *final(self) == *old(self),
    {
        None
    }
}

impl From<Option<SignedRequestPayload>> for RusotoBody {
    fn from(inner: Option<SignedRequestPayload>) -> (r: RusotoBody) {
        RusotoBody { inner }
    }
}

impl vstd::std_specs::convert::FromSpecImpl<Option<SignedRequestPayload>> for RusotoBody {
    open spec fn obeys_from_spec() -> bool {
        true
    }

    open spec fn from_spec(inner: Option<SignedRequestPayload>) -> RusotoBody {
        RusotoBody { inner }
    }
}

/// What the outbound adapter yields for one event of a streaming source.
pub open spec fn spec_forward_event(ev: StreamEvent) -> Result<BodyPoll, DispatchError> {
    match ev {
        StreamEvent::Chunk(c) => Ok(BodyPoll::Chunk(c)),
        StreamEvent::End => Ok(BodyPoll::End),
        StreamEvent::Pending => Ok(BodyPoll::Pending),
        StreamEvent::Failed(m) => Err(DispatchError::Io(m)),
    }
}

/// One pull of a streaming payload: the source's chunks, end and not-ready
/// signals pass through unchanged; a source failure is classified as an I/O
/// error.
pub fn forward_stream_event(ev: StreamEvent) -> (r: Result<BodyPoll, DispatchError>)
    ensures
        r == spec_forward_event(ev),
{
    match ev {
        StreamEvent::Chunk(c) => Ok(BodyPoll::Chunk(c)),
        StreamEvent::End => Ok(BodyPoll::End),
        StreamEvent::Pending => Ok(BodyPoll::Pending),
        StreamEvent::Failed(m) => Err(DispatchError::Io(m)),
    }
}

/// The outbound adapter's outputs over a whole run of its streaming source.
pub open spec fn spec_forward_all(evs: Seq<StreamEvent>) -> Seq<Result<BodyPoll, DispatchError>> {
    evs.map_values(|e: StreamEvent| spec_forward_event(e))
}

/// Forwarding is one for one: over any sequence of source events, the
/// adapter's outputs match the events in count and order, and every chunk
/// passes through with its bytes unchanged.
pub proof fn lemma_forward_stream_order(evs: Seq<StreamEvent>)
    ensures
        spec_forward_all(evs).len() == evs.len(),
        forall|i: int|
            0 <= i < evs.len() ==> #[trigger] spec_forward_all(evs)[i] == spec_forward_event(
                evs[i],
            ),
        forall|i: int|
            0 <= i < evs.len() && evs[i] is Chunk ==> #[trigger] spec_forward_all(evs)[i] == Ok::<
                BodyPoll,
                DispatchError,
            >(BodyPoll::Chunk(evs[i]->Chunk_0)),
{
}

/// One pull of the transport response's buffer body, as the loop driving it
/// reports it: a borrowed buffer view, end, not ready, or a failure.
#[derive(Debug)]
pub enum BufPoll<'a> {
    Buf(&'a [u8]),
    End,
    Pending,
    Failed(String),
}

/// Copies a borrowed buffer view into an independent owned byte sequence.
pub fn copy_bytes(view: &[u8]) -> (r: Vec<u8>)
    ensures
        r@ == view@,
{
    let mut out: Vec<u8> = Vec::new();
    let mut i: usize = 0;
    while i < view.len()
        invariant
            i <= view@.len(),
            out@ == view@.subrange(0, i as int),
        decreases view@.len() - i,
    {
        out.push(view[i]);
        i += 1;
    }
    proof {
        assert(out@ =~= view@);
    }
    out
}

/// The inbound stream adapter's translation of one pull of the transport
/// body: a ready buffer view is eagerly copied into a newly allocated owned
/// chunk, end and not-ready pass through unchanged, and an underlying error
/// is reclassified as an I/O error, terminating the stream.
pub fn translate_buf_poll(ev: BufPoll) -> (r: Result<BodyPoll, DispatchError>)
    ensures
        ev matches BufPoll::Buf(v) ==> (r matches Ok(BodyPoll::Chunk(c)) && c@ == v@),
        ev is End ==> r == Ok::<BodyPoll, DispatchError>(BodyPoll::End),
        ev is Pending ==> r == Ok::<BodyPoll, DispatchError>(BodyPoll::Pending),
        ev matches BufPoll::Failed(m) ==> r == Err::<BodyPoll, DispatchError>(
            DispatchError::Io(m),
        ),
{
    match ev {
        BufPoll::Buf(v) => Ok(BodyPoll::Chunk(copy_bytes(v))),
        BufPoll::End => Ok(BodyPoll::End),
        BufPoll::Pending => Ok(BodyPoll::Pending),
        BufPoll::Failed(m) => Err(DispatchError::Io(m)),
    }
}

} // verus!
