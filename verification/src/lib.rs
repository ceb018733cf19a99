//! Low-latency stream relay: frame parsing, access-unit assembly and
//! MPEG-TS multiplexing, with the session rules that drive them.

pub mod octets;
pub mod parser;
pub mod pipe;
pub mod session;
pub mod text;
pub mod assembler;
pub mod feed;
pub mod http;
pub mod ingest;
pub mod layout;
pub mod mux;
