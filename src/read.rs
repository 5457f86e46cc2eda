use vstd::prelude::*;

use crate::codec::{Bincode, Decoder, Encoder, Format};
use crate::error::Error;
use crate::poll::Async;

verus! {

/// What the wrapped transport reported when polled for its next frame.
pub type FramePoll = Result<Async<Option<Vec<u8>>>, std::io::Error>;

/// What the reading adapter reports when polled for its next value.
pub type ValuePoll<U> = Result<Async<Option<U>>, Error>;

/// A stream of values of type `U`, read from a transport `T` that delivers
/// one bincode-encoded value per frame.
pub struct ReadBincode<T, U> {
    inner: T,
    codec: Bincode<U>,
}

/// `r` is what the reading adapter reports for `frame`: transport
/// failures become `Io`, frames that do not decode become `Serde`, and
/// "not ready" and end-of-stream pass through.
pub open spec fn read_result<U>(frame: FramePoll, r: ValuePoll<U>) -> bool
    where Bincode<U>: Decoder<U>,
{
    match frame {
        Err(e) => r == Err::<Async<Option<U>>, Error>(Error::Io(e)),
        Ok(Async::NotReady) => r == Ok::<Async<Option<U>>, Error>(Async::NotReady),
        Ok(Async::Ready(None)) => r == Ok::<Async<Option<U>>, Error>(Async::Ready(None)),
        Ok(Async::Ready(Some(b))) => match <Bincode<U> as Decoder<U>>::decoded(b@) {
            Some(v) => r == Ok::<Async<Option<U>>, Error>(Async::Ready(Some(v))),
            None => r matches Err(Error::Serde(_)),
        },
    }
}

impl<T, U> ReadBincode<T, U> {
    /// The wrapped transport.
    pub closed spec fn transport(&self) -> T {
        self.inner
    }

    pub fn new(inner: T) -> (r: Self)
        ensures
            r.transport() == inner,
    {
        ReadBincode { inner, codec: Bincode::new() }
    }

    /// The wrapped transport, for what the adapter does not do itself
    /// (writing, when it is also a sink, or its own settings).
    pub fn get_mut(&mut self) -> (r: &mut T)
        ensures
            *r == old(self).transport(),
            final(self).transport() == *final(r),
    {
        &mut self.inner
    }
}

impl<T, U> ReadBincode<T, U> where Bincode<U>: Decoder<U> {
    /// Takes what the wrapped transport reported when polled for a frame,
    /// and reports the next value: a frame is decoded into one value, and
    /// nothing is kept from one call to the next.
    pub fn poll(&mut self, frame: FramePoll) -> (r: ValuePoll<U>)
        ensures
            read_result(frame, r),
            final(self).transport() == old(self).transport(),
    {
        match frame {
            Err(e) => Err(Error::from(e)),
            Ok(Async::NotReady) => Ok(Async::NotReady),
            Ok(Async::Ready(None)) => Ok(Async::Ready(None)),
            Ok(Async::Ready(Some(bytes))) => match self.codec.decode(bytes.as_slice()) {
                Ok(v) => Ok(Async::Ready(Some(v))),
                Err(e) => Err(e),
            },
        }
    }
}

/// `results` are what successive polls of a reading adapter report when the
/// wrapped transport reports `frames`, one for one.
pub open spec fn reads<U>(frames: Seq<FramePoll>, results: Seq<ValuePoll<U>>) -> bool
    where Bincode<U>: Decoder<U>,
{
    &&& frames.len() == results.len()
    &&& forall|i: int| 0 <= i < frames.len() ==> #[trigger] read_result(frames[i], results[i])
}

/// `frame` delivers the encoding of `v`.
pub open spec fn is_frame_of<U>(frame: FramePoll, v: U) -> bool
    where Bincode<U>: Encoder<U>,
{
    match frame {
        Ok(Async::Ready(Some(b))) => <Bincode<U> as Encoder<U>>::encoded(v) == Some(b@),
        _ => false,
    }
}

/// The first `vs.len()` of `frames` deliver the encodings of `vs`, in order.
pub open spec fn frames_of<U>(frames: Seq<FramePoll>, vs: Seq<U>) -> bool
    where Bincode<U>: Encoder<U>,
{
    &&& vs.len() <= frames.len()
    &&& forall|i: int| 0 <= i < vs.len() ==> #[trigger] is_frame_of(frames[i], vs[i])
}

/// Where the frames first deliver the encodings of `vs`, the first polls
/// report exactly `vs`, in order.
pub proof fn lemma_frames_give_values<U>(
    vs: Seq<U>,
    frames: Seq<FramePoll>,
    results: Seq<ValuePoll<U>>,
) where Bincode<U>: Format<U>
    requires
        frames_of(frames, vs),
        reads(frames, results),
    ensures
        forall|i: int|
            0 <= i < vs.len() ==> results[i] == Ok::<Async<Option<U>>, Error>(
                Async::Ready(Some(vs[i])),
            ),
{
    assert forall|i: int| 0 <= i < vs.len() implies results[i] == Ok::<Async<Option<U>>, Error>(
        Async::Ready(Some(vs[i])),
    ) by {
        <Bincode<U> as Format<U>>::lemma_round_trip(vs[i]);
        assert(is_frame_of(frames[i], vs[i]));
        assert(read_result(frames[i], results[i]));
    }
}

/// Frames that deliver the encodings of `vs` and then the end of the stream
/// are read as exactly `vs`, in order, and then the end of the stream.
pub proof fn lemma_one_chunk_one_value<U>(
    vs: Seq<U>,
    frames: Seq<FramePoll>,
    results: Seq<ValuePoll<U>>,
) where Bincode<U>: Format<U>
    requires
        frames.len() == vs.len() + 1,
        frames_of(frames, vs),
        frames.last() == Ok::<Async<Option<Vec<u8>>>, std::io::Error>(Async::Ready(None)),
        reads(frames, results),
    ensures
        forall|i: int|
            0 <= i < vs.len() ==> results[i] == Ok::<Async<Option<U>>, Error>(
                Async::Ready(Some(vs[i])),
            ),
        results.last() == Ok::<Async<Option<U>>, Error>(Async::Ready(None)),
{
    lemma_frames_give_values(vs, frames, results);
    assert(read_result(frames[vs.len() as int], results[vs.len() as int]));
}

/// A frame that does not decode, after frames that deliver the encodings of
/// `vs`, is reported as a `Serde` error at its own position, and the values
/// before it are read unchanged.
pub proof fn lemma_malformed_frame_isolated<U>(
    vs: Seq<U>,
    frames: Seq<FramePoll>,
    results: Seq<ValuePoll<U>>,
) where Bincode<U>: Format<U>
    requires
        frames.len() > vs.len(),
        frames_of(frames, vs),
        frames[vs.len() as int] matches Ok(Async::Ready(Some(b))) && <Bincode<U> as Decoder<
            U,
        >>::decoded(b@) is None,
        reads(frames, results),
    ensures
        forall|i: int|
            0 <= i < vs.len() ==> results[i] == Ok::<Async<Option<U>>, Error>(
                Async::Ready(Some(vs[i])),
            ),
        results[vs.len() as int] matches Err(Error::Serde(_)),
{
    lemma_frames_give_values(vs, frames, results);
    assert(read_result(frames[vs.len() as int], results[vs.len() as int]));
}

/// A transport failure `e`, after frames that deliver the encodings of `vs`,
/// is reported as `Io(e)` at its own position, and the values before it are
/// read unchanged.
pub proof fn lemma_transport_failure_isolated<U>(
    vs: Seq<U>,
    e: std::io::Error,
    frames: Seq<FramePoll>,
    results: Seq<ValuePoll<U>>,
) where Bincode<U>: Format<U>
    requires
        frames.len() > vs.len(),
        frames_of(frames, vs),
        frames[vs.len() as int] == Err::<Async<Option<Vec<u8>>>, std::io::Error>(e),
        reads(frames, results),
    ensures
        forall|i: int|
            0 <= i < vs.len() ==> results[i] == Ok::<Async<Option<U>>, Error>(
                Async::Ready(Some(vs[i])),
            ),
        results[vs.len() as int] == Err::<Async<Option<U>>, Error>(Error::Io(e)),
{
    lemma_frames_give_values(vs, frames, results);
    assert(read_result(frames[vs.len() as int], results[vs.len() as int]));
}

/// A poll on which the transport is not ready reports "not ready", and the
/// poll after it, once the transport delivers the encoding of `v`, reports
/// `v`: nothing is skipped or repeated.
pub proof fn lemma_not_ready_suspends<U>(
    v: U,
    frames: Seq<FramePoll>,
    results: Seq<ValuePoll<U>>,
) where Bincode<U>: Format<U>
    requires
        frames.len() == 2,
        frames[0] == Ok::<Async<Option<Vec<u8>>>, std::io::Error>(Async::NotReady),
        is_frame_of(frames[1], v),
        reads(frames, results),
    ensures
        results[0] == Ok::<Async<Option<U>>, Error>(Async::NotReady),
        results[1] == Ok::<Async<Option<U>>, Error>(Async::Ready(Some(v))),
{
    <Bincode<U> as Format<U>>::lemma_round_trip(v);
    assert(read_result(frames[0], results[0]));
    assert(read_result(frames[1], results[1]));
}

} // verus!
