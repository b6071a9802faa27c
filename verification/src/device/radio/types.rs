//! Types used to control communication with the LoRa physical layer.

use vstd::prelude::*;

verus! {

#[derive(Debug, Clone, Copy, PartialEq, Eq, Structural)]
#[allow(missing_docs)]
pub enum Bandwidth {
    _125KHz,
    _250KHz,
    _500KHz,
}

#[derive(Debug, Clone, Copy, PartialEq, Eq, Structural)]
#[allow(missing_docs)]
pub enum SpreadingFactor {
    _7,
    _8,
    _9,
    _10,
    _11,
    _12,
}

#[derive(Debug, Clone, Copy, PartialEq, Eq, Structural)]
#[allow(missing_docs)]
pub enum CodingRate {
    _4_5,
    _4_6,
    _4_7,
    _4_8,
}

/// LoRaWAN data rate.
#[derive(Debug, Clone, Copy, PartialEq, Eq, Structural)]
pub struct Datarate {
    /// Bandwidth.
    pub bandwidth: Bandwidth,
    /// Spreading factor.
    pub spreading_factor: SpreadingFactor,
}

/// LoRaWAN radio signal configuration.
#[derive(Debug, Clone, Copy, PartialEq, Eq, Structural)]
pub struct RfConfig {
    /// Frequency in Hz.
    pub frequency: u32,
    /// Coding rate (ratio of actual data bits to error-correcting data bits).
    pub coding_rate: CodingRate,
    /// Data rate (bandwidth and spreading factor).
    pub data_rate: Datarate,
}

/// LoRaWAN packet transmission configuration.
#[derive(Debug, Clone, Copy, PartialEq, Eq, Structural)]
pub struct TxConfig {
    /// Power in dBm.
    pub pw: i8,
    /// Radio signal configuration.
    pub rf: RfConfig,
}

/// LoRaWAN packet reception quality.
#[derive(Debug, Clone, Copy, PartialEq, Eq, Structural)]
pub struct RxQuality {
    /// Received signal strength indication.
    pub rssi: i16,
    /// Signal-to-noise ratio.
    pub snr: i8,
}

impl RxQuality {
    /// Creation.
    pub fn new(rssi: i16, snr: i8) -> (res: RxQuality)
        ensures
            res.rssi == rssi && res.snr == snr,
    {
        RxQuality { rssi, snr }
    }

    /// Get the RSSI property.
    pub fn rssi(self) -> (res: i16)
        ensures
            res == self.rssi,
    {
        self.rssi
    }

    /// Get the SNR property.
    pub fn snr(self) -> (res: i8)
        ensures
            res == self.snr,
    {
        self.snr
    }
}

} // verus!
