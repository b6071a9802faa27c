//! LoRa radio types.

pub mod types;
