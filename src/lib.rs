//! Typed bincode adapters over framed transports: a reading adapter that
//! decodes one value from each frame a transport delivers, and a writing
//! adapter that encodes each value into one frame for a transport to send.
//! Each adapter step takes what the wrapped transport reported and decides
//! what to report to the caller; the caller drives the transport itself.

mod codec;
mod error;
mod poll;
mod read;
mod write;

pub use codec::{Bincode, Decoder, Encoder, Format};
pub use error::Error;
pub use poll::{Async, AsyncSink};
pub use read::{FramePoll, ReadBincode, ValuePoll};
pub use write::WriteBincode;
