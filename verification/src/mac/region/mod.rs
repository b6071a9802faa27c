//! Specification of functionality implemented for each supported LoRaWAN region.

use vstd::prelude::*;

use self::channel_plan::dynamic::DynamicChannel;
use crate::device::radio::types::{CodingRate, Datarate};
use crate::mac::types::{dr_value, Frame, DR};

pub mod channel_plan;
pub mod eu868;
pub mod us915;

verus! {

#[derive(Debug, Clone, Copy, PartialEq, Eq)]
#[allow(missing_docs)]
pub enum Error {
    InvalidTxPower,
    InvalidChannelIndex,
    InvalidChannelMaskCtrl,
    InvalidFrequency,
    DataRateNotSupported(DR),
    UnsupportedRx1DROffset(DR, u8),
    NoValidChannelFound,
    InvalidCfListType,
    CommandNotImplementedForRegion,
    UnsupportedChannelListForRegion,
}

/// Specification of functionality to describe regional characteristics.
///
/// Each operation has a specification function of the same name, prefixed with `spec_`,
/// that the region defines and that the operation's result equals.
pub trait Region {
    spec fn spec_default_channels(is_uplink: bool) -> usize;

    spec fn spec_channel_from_list(channel_id: usize) -> Result<DynamicChannel, Error>;

    spec fn spec_mandatory_frequency(index: usize, is_uplink: bool) -> u32;

    spec fn spec_mandatory_ul_data_rate_range(index: usize) -> (DR, DR);

    spec fn spec_ul_data_rate_range() -> (DR, DR);

    spec fn spec_default_data_rate() -> DR;

    spec fn spec_override_ul_data_rate_if_necessary(dr: DR, frame: Frame, ul_frequency: u32) -> DR;

    spec fn spec_default_coding_rate() -> CodingRate;

    spec fn spec_default_rx2_frequency() -> u32;

    spec fn spec_default_rx2_data_rate() -> DR;

    spec fn spec_max_eirp() -> i8;

    spec fn spec_min_frequency() -> u32;

    spec fn spec_max_frequency() -> u32;

    spec fn spec_convert_data_rate(dr: DR) -> Result<Datarate, Error>;

    spec fn spec_next_adr_data_rate(current_dr: Option<DR>) -> Option<DR>;

    spec fn spec_get_rx1_dr(ul_dr: DR, rx1_dr_offset: u8) -> Result<DR, Error>;

    spec fn spec_supports_tx_param_setup() -> bool;

    spec fn spec_modify_dbm(tx_power: u8, cur_dbm: Option<i8>, max_eirp: i8) -> Result<Option<i8>, Error>;

    spec fn spec_default_rx1_data_rate_offset() -> u8;

    /// Get the number of default uplink or downlink channels for the region.
    fn default_channels(is_uplink: bool) -> (res: usize)
        ensures
            res == Self::spec_default_channels(is_uplink),
            res <= 80,
    ;

    /// There is at least one downlink channel, no more downlink than uplink channels,
    /// and no more uplink channels than a plan holds.
    proof fn lemma_default_channels()
        ensures
            1 <= Self::spec_default_channels(false) <= Self::spec_default_channels(true) <= 80,
    ;

    /// For a dynamic channel plan, get the channel with this index from the region's
    /// channel list.
    fn channel_from_list(channel_id: usize) -> (res: Result<DynamicChannel, Error>)
        ensures
            res == Self::spec_channel_from_list(channel_id),
    ;

    /// Get the default uplink or downlink frequency based on channel index for the region.
    fn mandatory_frequency(index: usize, is_uplink: bool) -> (res: u32)
        requires
            index < Self::spec_default_channels(true),
        ensures
            res == Self::spec_mandatory_frequency(index, is_uplink),
    ;

    /// Get the default uplink data rate based on channel index for the region.
    fn mandatory_ul_data_rate_range(index: usize) -> (res: (DR, DR))
        ensures
            res == Self::spec_mandatory_ul_data_rate_range(index),
    ;

    /// Get the uplink data rate range.
    fn ul_data_rate_range() -> (res: (DR, DR))
        ensures
            res == Self::spec_ul_data_rate_range(),
    ;

    /// Get the default data rate for the region.
    fn default_data_rate() -> (res: DR)
        ensures
            res == Self::spec_default_data_rate(),
    ;

    /// Override the uplink data rate based on region, frame type (join or data), and frequency.
    fn override_ul_data_rate_if_necessary(dr: DR, frame: Frame, ul_frequency: u32) -> (res: DR)
        ensures
            res == Self::spec_override_ul_data_rate_if_necessary(dr, frame, ul_frequency),
    ;

    /// Get the default coding rate for the region.
    fn default_coding_rate() -> (res: CodingRate)
        ensures
            res == Self::spec_default_coding_rate(),
    ;

    /// Get the default RX2 frequency for the region.
    fn default_rx2_frequency() -> (res: u32)
        ensures
            res == Self::spec_default_rx2_frequency(),
    ;

    /// Get the default RX2 data rate for the region.
    fn default_rx2_data_rate() -> (res: DR)
        ensures
            res == Self::spec_default_rx2_data_rate(),
    ;

    /// Get the maximum EIRP for the region.
    fn max_eirp() -> (res: i8)
        ensures
            res == Self::spec_max_eirp(),
    ;

    /// Get the minimum frequency for the region.
    fn min_frequency() -> (res: u32)
        ensures
            res == Self::spec_min_frequency(),
    ;

    /// Get the maximum frequency for the region.
    fn max_frequency() -> (res: u32)
        ensures
            res == Self::spec_max_frequency(),
    ;

    /// Convert the data rate to spreading factor and bandwidth for the region.
    fn convert_data_rate(dr: DR) -> (res: Result<Datarate, Error>)
        ensures
            res == Self::spec_convert_data_rate(dr),
    ;

    /// get next data rate for adaptive data rate back off
    /// return None when the next data rate would be the default
    fn next_adr_data_rate(current_dr: Option<DR>) -> (res: Option<DR>)
        ensures
            res == Self::spec_next_adr_data_rate(current_dr),
    ;

    /// For the region, determine the RX1 data rate based on the uplink data rate and data rate offset.
    fn get_rx1_dr(ul_dr: DR, rx1_dr_offset: u8) -> (res: Result<DR, Error>)
        ensures
            res == Self::spec_get_rx1_dr(ul_dr, rx1_dr_offset),
    ;

    /// Does the region support TXParamSetupReq packet processing?
    fn supports_tx_param_setup() -> (res: bool)
        ensures
            res == Self::spec_supports_tx_param_setup(),
    ;

    /// Based on the LinkADRReq packet and the region, modify the configured transmission power.
    fn modify_dbm(tx_power: u8, cur_dbm: Option<i8>, max_eirp: i8) -> (res: Result<Option<i8>, Error>)
        ensures
            res == Self::spec_modify_dbm(tx_power, cur_dbm, max_eirp),
    ;

    /// Get the default RX1 data rate offset for the region.
    fn default_rx1_data_rate_offset() -> (res: u8)
        ensures
            res == Self::spec_default_rx1_data_rate_offset(),
    ;

    /// Get the default RX delay for the region.
    fn default_rx_delay() -> (res: u16)
        ensures
            res == 1000,
    {
        1000
    }

    /// Get the default delay from now before opening the RX1 window for a join accept packet from a network server.
    fn default_join_accept_delay1() -> (res: u16)
        ensures
            res == 5000,
    {
        5000
    }

    /// Get the default delay from now before opening the RX2 window for a join accept packet from a network server.
    fn default_join_accept_delay2() -> (res: u16)
        ensures
            res == 6000,
    {
        Self::default_join_accept_delay1() + 1000
    }

    /// Get the default ADR acknowledgement limit for the region.
    fn default_adr_ack_limit() -> (res: u8)
        ensures
            res == 64,
    {
        64
    }

    /// Get the default ADR acknowledgement delay for the region.
    fn default_adr_ack_delay() -> (res: u8)
        ensures
            res == 32,
    {
        32
    }
}

/// The data rate `d` lies in `range`.
pub open spec fn dr_in_range(d: DR, range: (DR, DR)) -> bool {
    dr_value(range.0) <= dr_value(d) <= dr_value(range.1)
}

} // verus!
