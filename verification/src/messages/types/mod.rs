//! The byte format of each message type's body.

pub mod abort;
pub mod acknowledgement;
pub mod window_acknowledgement_size;
pub mod audio_data;
pub mod set_chunk_size;
pub mod set_peer_bandwidth;
pub mod user_control;
pub mod video_data;
pub mod amf0_command;
pub mod amf0_data;
