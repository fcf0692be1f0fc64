//! AMCP protocol client: connection state, envelope codec, response
//! classification and composite command sequences.

pub mod client;
pub mod codec;
pub mod commands;
