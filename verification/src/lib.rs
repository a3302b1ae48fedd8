//! Signaling, message conversion and controls logic of a WebRTC streaming host.

pub mod messages;
pub mod msg_ext;
pub mod host;
pub mod client;
pub mod media;
pub mod video_stream;
