//! Regional parameters of LoRaWAN 1.0.4.

use vstd::prelude::*;

use crate::device::radio::types::{CodingRate, Datarate};
use crate::mac::types::DR;

pub mod channel_plan;
pub mod eu868;

verus! {

#[derive(Debug, Clone, Copy, PartialEq, Eq)]
#[allow(missing_docs)]
pub enum Error {
    InvalidTxPower,
    InvalidChannelIndex,
    InvalidChannelMaskCtrl,
    InvalidFrequency,
    DataRateNotSupported,
    NoValidChannelFound,
    InvalidCfListType,
}

/// Specification of functionality to describe regional characteristics.
///
/// Each operation has a specification function of the same name, prefixed with `spec_`,
/// that the region defines and that the operation's result equals.
pub trait Region {
    spec fn spec_default_channels() -> u8;

    spec fn spec_mandatory_frequencies() -> Seq<u32>;

    spec fn spec_min_data_rate_join_req() -> DR;

    spec fn spec_max_data_rate_join_req() -> DR;

    spec fn spec_min_data_rate() -> DR;

    spec fn spec_max_data_rate() -> DR;

    spec fn spec_default_data_rate() -> DR;

    spec fn spec_default_coding_rate() -> CodingRate;

    spec fn spec_default_rx2_frequency() -> u32;

    spec fn spec_default_rx2_data_rate() -> DR;

    spec fn spec_max_eirp() -> i8;

    spec fn spec_min_frequency() -> u32;

    spec fn spec_max_frequency() -> u32;

    spec fn spec_convert_data_rate(dr: DR) -> Result<Datarate, Error>;

    /// Whether the receive window data rate can be computed for these inputs.
    spec fn spec_receive_window_ok(rx_dr_offset: DR, downstream_dr: DR) -> bool;

    spec fn spec_get_receive_window(rx_dr_offset: DR, downstream_dr: DR) -> DR;

    spec fn spec_supports_tx_param_setup() -> bool;

    /// Whether the transmission power can be computed for these inputs.
    spec fn spec_modify_dbm_ok(tx_power: u8, max_eirp: i8) -> bool;

    spec fn spec_modify_dbm(tx_power: u8, cur_dbm: Option<i8>, max_eirp: i8) -> Result<Option<i8>, Error>;

    spec fn spec_default_rx1_data_rate_offset() -> DR;

    /// Get the number of default channels.
    fn default_channels() -> (res: u8)
        ensures
            res == Self::spec_default_channels(),
    ;

    /// Get the frequencies of the default channels.
    fn mandatory_frequencies() -> (res: &'static [u32])
        ensures
            res@ == Self::spec_mandatory_frequencies(),
    ;

    /// Get the lowest data rate of a join request.
    fn min_data_rate_join_req() -> (res: DR)
        ensures
            res == Self::spec_min_data_rate_join_req(),
    ;

    /// Get the highest data rate of a join request.
    fn max_data_rate_join_req() -> (res: DR)
        ensures
            res == Self::spec_max_data_rate_join_req(),
    ;

    /// Get the lowest data rate.
    fn min_data_rate() -> (res: DR)
        ensures
            res == Self::spec_min_data_rate(),
    ;

    /// Get the highest data rate.
    fn max_data_rate() -> (res: DR)
        ensures
            res == Self::spec_max_data_rate(),
    ;

    /// Get the default data rate.
    fn default_data_rate() -> (res: DR)
        ensures
            res == Self::spec_default_data_rate(),
    ;

    /// Get the default coding rate.
    fn default_coding_rate() -> (res: CodingRate)
        ensures
            res == Self::spec_default_coding_rate(),
    ;

    /// Get the default RX2 frequency.
    fn default_rx2_frequency() -> (res: u32)
        ensures
            res == Self::spec_default_rx2_frequency(),
    ;

    /// Get the default RX2 data rate.
    fn default_rx2_data_rate() -> (res: DR)
        ensures
            res == Self::spec_default_rx2_data_rate(),
    ;

    /// Get the maximum EIRP.
    fn max_eirp() -> (res: i8)
        ensures
            res == Self::spec_max_eirp(),
    ;

    /// Get the minimum frequency.
    fn min_frequency() -> (res: u32)
        ensures
            res == Self::spec_min_frequency(),
    ;

    /// Get the maximum frequency.
    fn max_frequency() -> (res: u32)
        ensures
            res == Self::spec_max_frequency(),
    ;

    /// Convert the data rate to spreading factor and bandwidth.
    fn convert_data_rate(dr: DR) -> (res: Result<Datarate, Error>)
        ensures
            res == Self::spec_convert_data_rate(dr),
    ;

    /// The data rate of a receive window given the data rate offset and the downstream
    /// data rate.
    fn get_receive_window(rx_dr_offset: DR, downstream_dr: DR) -> (res: DR)
        requires
            Self::spec_receive_window_ok(rx_dr_offset, downstream_dr),
        ensures
            res == Self::spec_get_receive_window(rx_dr_offset, downstream_dr),
    ;

    /// Does the region support TXParamSetupReq packet processing?
    fn supports_tx_param_setup() -> (res: bool)
        ensures
            res == Self::spec_supports_tx_param_setup(),
    ;

    /// Based on the LinkADRReq packet, modify the configured transmission power.
    fn modify_dbm(tx_power: u8, cur_dbm: Option<i8>, max_eirp: i8) -> (res: Result<Option<i8>, Error>)
        requires
            Self::spec_modify_dbm_ok(tx_power, max_eirp),
        ensures
            res == Self::spec_modify_dbm(tx_power, cur_dbm, max_eirp),
    ;

    /// Get the default RX delay.
    fn default_rx_delay() -> (res: u16)
        ensures
            res == 1000,
    {
        1000
    }

    /// Get the default RX1 data rate offset.
    fn default_rx1_data_rate_offset() -> (res: DR)
        ensures
            res == Self::spec_default_rx1_data_rate_offset(),
    ;

    /// Get the default delay before the RX1 window of a join accept.
    fn default_join_accept_delay1() -> (res: u16)
        ensures
            res == 5000,
    {
        5000
    }

    /// Get the default delay before the RX2 window of a join accept.
    fn default_join_accept_delay2() -> (res: u16)
        ensures
            res == 6000,
    {
        Self::default_join_accept_delay1() + 1000
    }

    /// Get the default maximum gap between frame counters.
    fn default_max_fcnt_gap() -> (res: u32)
        ensures
            res == 16384,
    {
        16384
    }

    /// Get the default ADR acknowledgement limit.
    fn default_adr_ack_limit() -> (res: usize)
        ensures
            res == 64,
    {
        64
    }

    /// Get the default ADR acknowledgement delay.
    fn default_adr_ack_delay() -> (res: u8)
        ensures
            res == 32,
    {
        32
    }
}

} // verus!
