//! Core of an RTMP library: wrapping timestamps, the message codecs, the chunk
//! stream codec and the client and server session state machines.
//!
//! Every function is verified against the contract it carries. The few places
//! where the library calls into `byteorder` and `rml_amf0` are marked
//! `external_body`; their contracts are believed, not proved.
//!
//! The modules, leaves first: `time` and `wire` hold timestamps and integers on
//! the wire; `amf0` holds the values of commands and metadata; `messages` the
//! messages and the byte format of their bodies; `chunk_io` the chunk stream;
//! `sessions` the client and the server.

pub mod amf0;
pub mod chunk_io;
pub mod messages;
pub mod sessions;
pub mod text;
pub mod time;
pub mod wire;
