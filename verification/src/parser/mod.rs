//! Decoding of the framing in which video and audio arrive.

pub mod aac;
pub mod annexb;
pub mod frame;
pub mod nal;
pub mod preview;
pub mod split;
