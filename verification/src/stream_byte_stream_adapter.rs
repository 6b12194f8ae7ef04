use crate::chunk::bytes_view;
use bytes::Bytes;
use http_body::Frame;
use vstd::prelude::*;

verus! {

#[verifier::external_type_specification]
#[verifier::external_body]
#[verifier::reject_recursive_types(T)]
pub struct ExFrame<T>(Frame<T>);

/// The payload of a frame that carries data; a frame of another kind has
/// none.
pub uninterp spec fn frame_data(frame: Frame<Bytes>) -> Option<Seq<u8>>;

/// `Frame::data`: a data frame around the chunk it is given.
#[verifier::external_body]
pub(crate) fn data_frame(chunk: Bytes) -> (frame: Frame<Bytes>)
    ensures
        frame_data(frame) == Some(bytes_view(chunk)),
{
    Frame::data(chunk)
}

/// What one pull on a source brought: a value, or the news that none is
/// there yet.
pub enum Polled<T> {
    Ready(T),
    Pending,
}

/// Whether `frame` is what the body hands on for `pulled`: a chunk as one
/// data frame with the same bytes, an error as the same error, the end of
/// the stream as the end of the body, and no news as no news.
pub open spec fn hands_on<E>(
    pulled: Polled<Option<Result<Bytes, E>>>,
    frame: Polled<Option<Result<Frame<Bytes>, E>>>,
) -> bool {
    match pulled {
        Polled::Ready(Some(Ok(chunk))) => frame matches Polled::Ready(Some(Ok(made)))
            && frame_data(made) == Some(bytes_view(chunk)),
        Polled::Ready(Some(Err(error))) => frame == Polled::<
            Option<Result<Frame<Bytes>, E>>,
        >::Ready(Some(Err(error))),
        Polled::Ready(None) => frame == Polled::<Option<Result<Frame<Bytes>, E>>>::Ready(None),
        Polled::Pending => frame == Polled::<Option<Result<Frame<Bytes>, E>>>::Pending,
    }
}

/// All bytes that a run of pulls on a stream brought, in order.
pub open spec fn pulled_text<E>(pulls: Seq<Polled<Option<Result<Bytes, E>>>>) -> Seq<u8>
    decreases pulls.len(),
{
    if pulls.len() == 0 {
        Seq::empty()
    } else {
        match pulls.last() {
            Polled::Ready(Some(Ok(chunk))) => pulled_text(pulls.drop_last()) + bytes_view(chunk),
            _ => pulled_text(pulls.drop_last()),
        }
    }
}

/// All bytes that a run of pulls on a body brought in data frames, in
/// order.
pub open spec fn body_text<E>(frames: Seq<Polled<Option<Result<Frame<Bytes>, E>>>>) -> Seq<u8>
    decreases frames.len(),
{
    if frames.len() == 0 {
        Seq::empty()
    } else {
        match frames.last() {
            Polled::Ready(Some(Ok(frame))) => match frame_data(frame) {
                Some(bytes) => body_text(frames.drop_last()) + bytes,
                None => body_text(frames.drop_last()),
            },
            _ => body_text(frames.drop_last()),
        }
    }
}

/// However many pulls it takes, the body carries what the stream brought:
/// the same bytes in the same order, nothing added and nothing left out.
pub proof fn lemma_body_carries_the_stream<E>(
    pulls: Seq<Polled<Option<Result<Bytes, E>>>>,
    frames: Seq<Polled<Option<Result<Frame<Bytes>, E>>>>,
)
    requires
        frames.len() == pulls.len(),
        forall|i: int| 0 <= i < pulls.len() ==> hands_on(pulls[i], frames[i]),
    ensures
        body_text(frames) == pulled_text(pulls),
    decreases pulls.len(),
{
    if pulls.len() > 0 {
        lemma_body_carries_the_stream(pulls.drop_last(), frames.drop_last());
        assert(hands_on(pulls.last(), frames.last()));
    }
}

/// Turns a stream of chunks into the body that a sink reads frame by frame.
pub struct StreamByteStreamAdapter;

impl StreamByteStreamAdapter {
    /// An adapter; it holds no state of its own.
    pub fn new() -> Self {
        Self
    }

    /// One pull of the body: what one pull on the stream brought, handed on
    /// with its content unchanged.
    pub fn poll_frame<E>(&self, pulled: Polled<Option<Result<Bytes, E>>>) -> (frame: Polled<
        Option<Result<Frame<Bytes>, E>>,
    >)
        ensures
            hands_on(pulled, frame),
    {
        match pulled {
            Polled::Ready(Some(Ok(chunk))) => Polled::Ready(Some(Ok(data_frame(chunk)))),
            Polled::Ready(Some(Err(error))) => Polled::Ready(Some(Err(error))),
            Polled::Ready(None) => Polled::Ready(None),
            Polled::Pending => Polled::Pending,
        }
    }
}

} // verus!
