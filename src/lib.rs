//! Backend-agnostic core of a video-capture library: value ranges, the control
//! capability model, format negotiation and the streaming protocol, with the pure
//! parts of the Video4Linux2 backend (format tags, control ids, control descriptions).
pub mod camera;
pub mod control;
pub mod error;
pub mod format_request;
pub mod frame_buffer;
pub mod frame_format;
pub mod platform;
pub mod ranges;
pub mod stream;
pub mod types;
pub mod v4l2;
