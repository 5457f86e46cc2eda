use vstd::prelude::*;

verus! {

/// Where a non-blocking operation stands: finished with a value, or not
/// finished yet (the caller polls again later).
#[derive(Debug)]
pub enum Async<T> {
    Ready(T),
    NotReady,
}

/// What a sink did with an item offered to it: took it, or handed it back
/// because it cannot take one now.
#[derive(Debug)]
pub enum AsyncSink<T> {
    Ready,
    NotReady(T),
}

} // verus!
