//! Client-side support for the AMCP line protocol used to remote-control a
//! CasparCG playback server, together with the configuration data model that
//! the surrounding GUI edits.
//!
//! The crate covers the protocol client proper — connection lifecycle,
//! command framing, response envelope decoding, response classification and
//! composite multi-command sequences — plus the plain-data configuration
//! schema, DeckLink device descriptions and small helpers for building
//! protocol and HTTP URLs.

pub mod amcp;
pub mod config;
pub mod decklink;
pub mod http_server;
pub mod system;
pub mod text;
