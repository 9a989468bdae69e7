//! A tagged multiplexing core: one bidirectional connection carries many
//! concurrent request/response exchanges, each response correlated to its
//! request by a small integer tag.

pub mod codec;
pub mod deframer;
pub mod error;
pub mod frame;
pub mod mux;
pub mod tagger;
