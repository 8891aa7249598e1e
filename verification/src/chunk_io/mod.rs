//! The chunk stream: messages cut into chunks on the way out, and put
//! together again on the way in.

use vstd::prelude::*;

pub mod deserializer;
pub mod format;
pub mod laws;
pub mod round_trip;
pub mod serializer;

pub use deserializer::ChunkDeserializer;
pub use serializer::ChunkSerializer;

verus! {

/// Bytes that are ready for the transport.
#[derive(Debug, Clone, PartialEq)]
pub struct Packet {
    pub bytes: Vec<u8>,
    /// Whether the transport may drop the packet when it cannot keep up.
    pub can_be_dropped: bool,
}

/// Why a message could not be cut into chunks.
#[derive(Debug, Clone, Copy, PartialEq, Eq, Structural)]
pub enum ChunkSerializationErrorKind {
    /// The body has more bytes than the 24 bit length field can tell.
    MessageTooLarge,
    /// A chunk size must be at least 1 and fit in 31 bits.
    InvalidChunkSize,
}

#[derive(Debug, Clone, Copy, PartialEq, Eq, Structural)]
pub struct ChunkSerializationError {
    pub kind: ChunkSerializationErrorKind,
}

/// Why the bytes received are not a chunk stream.
#[derive(Debug, Clone, Copy, PartialEq, Eq, Structural)]
pub enum ChunkDeserializationErrorKind {
    /// A chunk relies on an earlier header of its chunk stream, and there is none.
    MissingPreviousChunkHeader,
    /// A chunk with a header of its own arrived in the middle of a message.
    InvalidChunkFormat,
    /// A chunk size must be at least 1 and fit in 31 bits.
    InvalidChunkSize,
}

#[derive(Debug, Clone, Copy, PartialEq, Eq, Structural)]
pub struct ChunkDeserializationError {
    pub kind: ChunkDeserializationErrorKind,
}

} // verus!
