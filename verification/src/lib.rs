//! Session streaming server: the verified decision logic behind the WHIP
//! endpoint, the data channels, the video tracks and the REST interface.

pub mod codecs;
pub mod data_channels;
pub mod messages;
pub mod path_ext;
pub mod rest;
pub mod sdp;
pub mod session;
pub mod text;
pub mod video_track;
