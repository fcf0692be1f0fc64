//! DeckLink device descriptions and duplex-mode configuration.

pub mod devices;
pub mod duplex;
