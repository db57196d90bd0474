//! Decoding of a byte stream into the packets of a length-prefixed RPC framing.
//!
//! The decoder does no I/O of its own: it holds the byte source, says how many
//! bytes it wants next, and is handed what each read produced.

pub mod frame;
pub mod packet;
pub mod stream;

pub use packet::{BodyType, IsEnd, IsStream, Packet};
pub use stream::{Error, PacketStream, Phase, Step};
