use vstd::prelude::*;

use crate::codec::{Bincode, Encoder};
use crate::poll::AsyncSink;

verus! {

/// A sink of values of type `U`, written to a transport `T` that takes one
/// frame per bincode-encoded value.
pub struct WriteBincode<T, U> {
    inner: T,
    codec: Bincode<U>,
}

impl<T, U> WriteBincode<T, U> {
    /// The wrapped transport.
    pub closed spec fn transport(&self) -> T {
        self.inner
    }

    pub fn new(inner: T) -> (r: Self)
        ensures
            r.transport() == inner,
    {
        WriteBincode { inner, codec: Bincode::new() }
    }

    /// The wrapped transport, for what the adapter does not do itself
    /// (reading, when it is also a stream, or its own settings).
    pub fn get_mut(&mut self) -> (r: &mut T)
        ensures
            *r == old(self).transport(),
            final(self).transport() == *final(r),
    {
        &mut self.inner
    }
}

impl<T, U> WriteBincode<T, U> where Bincode<U>: Encoder<U> {
    /// The frame that carries `item`, to be handed to the wrapped transport;
    /// an item that cannot be encoded gives an I/O error.
    pub fn frame(&mut self, item: &U) -> (r: Result<Vec<u8>, std::io::Error>)
        ensures
            match <Bincode<U> as Encoder<U>>::encoded(*item) {
                Some(b) => r is Ok && r->Ok_0@ == b,
                None => r is Err,
            },
            final(self).transport() == old(self).transport(),
    {
        self.codec.encode(item)
    }

    /// Takes what the wrapped transport did with the frame of `item`, and
    /// reports what became of `item`: taken, handed back because the
    /// transport cannot take a frame now, or the transport's error.
    pub fn start_send(&mut self, item: U, sent: Result<AsyncSink<Vec<u8>>, std::io::Error>) -> (r:
        Result<AsyncSink<U>, std::io::Error>)
        ensures
            match sent {
                Ok(AsyncSink::Ready) => r == Ok::<AsyncSink<U>, std::io::Error>(AsyncSink::Ready),
                Ok(AsyncSink::NotReady(_)) => r == Ok::<AsyncSink<U>, std::io::Error>(
                    AsyncSink::NotReady(item),
                ),
                Err(e) => r == Err::<AsyncSink<U>, std::io::Error>(e),
            },
            final(self).transport() == old(self).transport(),
    {
        match sent {
            Ok(AsyncSink::Ready) => Ok(AsyncSink::Ready),
            Ok(AsyncSink::NotReady(_)) => Ok(AsyncSink::NotReady(item)),
            Err(e) => Err(e),
        }
    }
}

} // verus!
