//! MPEG transport stream multiplexer: program tables, PES framing and the
//! 188-byte packets that carry them.

pub mod av;
pub mod clock;
pub mod continuity;
pub mod crc;
pub mod laws;
pub mod packet;
pub mod pes;
pub mod tables;
pub mod video;
