//! A GStreamer plugin's logic for publishing and subscribing to OpenTok audio and video streams.

pub mod common;
pub mod element;
pub mod helper;
pub mod laws;
pub mod media;
pub mod opentoksink_remote;
pub mod opentoksrc;
pub mod plan;
pub mod sample;
pub mod socket;
pub mod subscribers;
pub mod text;

pub use self::opentoksink_remote::OpenTokSinkRemote;
pub use self::opentoksrc::OpenTokSrc;
