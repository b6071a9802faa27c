//! LoRaWAN 1.0.4 end-device support: frame encoding and decoding, MAC commands,
//! regional parameters and channel plans.

pub mod channel_mask;
pub mod device;
pub mod frequency;
pub mod encoding;
pub mod mac;
pub mod radio;
