//! Processing for the US915 region, which uses a fixed channel plan.

use vstd::prelude::*;

use super::channel_plan::dynamic::DynamicChannel;
use super::{dr_in_range, Error, Region};
use crate::device::radio::types::{Bandwidth, CodingRate, Datarate, SpreadingFactor};
use crate::mac::types::{dr_from, dr_value, Frame, DR};

verus! {

/// Specific processing for the US915 region.
pub struct US915;

/// The US915 data rates: DR0..DR3 are SF10..SF7 at 125 kHz, DR4 is SF8 at 500 kHz and
/// DR8..DR13 are SF12..SF7 at 500 kHz.
pub open spec fn us915_datarate(dr: DR) -> Option<Datarate> {
    match dr {
        DR::_0 => Some(Datarate { spreading_factor: SpreadingFactor::_10, bandwidth: Bandwidth::_125KHz }),
        DR::_1 => Some(Datarate { spreading_factor: SpreadingFactor::_9, bandwidth: Bandwidth::_125KHz }),
        DR::_2 => Some(Datarate { spreading_factor: SpreadingFactor::_8, bandwidth: Bandwidth::_125KHz }),
        DR::_3 => Some(Datarate { spreading_factor: SpreadingFactor::_7, bandwidth: Bandwidth::_125KHz }),
        DR::_4 => Some(Datarate { spreading_factor: SpreadingFactor::_8, bandwidth: Bandwidth::_500KHz }),
        DR::_8 => Some(Datarate { spreading_factor: SpreadingFactor::_12, bandwidth: Bandwidth::_500KHz }),
        DR::_9 => Some(Datarate { spreading_factor: SpreadingFactor::_11, bandwidth: Bandwidth::_500KHz }),
        DR::_10 => Some(Datarate { spreading_factor: SpreadingFactor::_10, bandwidth: Bandwidth::_500KHz }),
        DR::_11 => Some(Datarate { spreading_factor: SpreadingFactor::_9, bandwidth: Bandwidth::_500KHz }),
        DR::_12 => Some(Datarate { spreading_factor: SpreadingFactor::_8, bandwidth: Bandwidth::_500KHz }),
        DR::_13 => Some(Datarate { spreading_factor: SpreadingFactor::_7, bandwidth: Bandwidth::_500KHz }),
        _ => None,
    }
}

/// `v` clamped to the range `lo..=hi`.
pub open spec fn clamp(v: int, lo: int, hi: int) -> int {
    if v < lo {
        lo
    } else if v > hi {
        hi
    } else {
        v
    }
}

impl US915 {
    /// Lowest data rate of a join request.
    pub fn min_data_rate_join_req() -> (res: DR)
        ensures
            res == DR::_0,
    {
        DR::_0
    }

    /// Highest data rate of a join request.
    pub fn max_data_rate_join_req() -> (res: DR)
        ensures
            res == DR::_4,
    {
        DR::_4
    }

    /// Lowest uplink data rate.
    pub fn min_data_rate() -> (res: DR)
        ensures
            res == DR::_0,
    {
        DR::_0
    }

    /// Highest uplink data rate.
    pub fn max_data_rate() -> (res: DR)
        ensures
            res == DR::_4,
    {
        DR::_4
    }
}

impl Region for US915 {
    open spec fn spec_default_channels(is_uplink: bool) -> usize {
        if is_uplink {
            72
        } else {
            8
        }
    }

    open spec fn spec_channel_from_list(channel_id: usize) -> Result<DynamicChannel, Error> {
        Err(Error::UnsupportedChannelListForRegion)
    }

    open spec fn spec_mandatory_frequency(index: usize, is_uplink: bool) -> u32 {
        if is_uplink {
            if index < 64 {
                (902_300_000 + 200_000 * index) as u32
            } else {
                (903_000_000 + 1_600_000 * (index - 64)) as u32
            }
        } else {
            (923_300_000 + 600_000 * index) as u32
        }
    }

    open spec fn spec_mandatory_ul_data_rate_range(index: usize) -> (DR, DR) {
        if index < 64 {
            (DR::_0, DR::_3)
        } else {
            (DR::_4, DR::_4)
        }
    }

    open spec fn spec_ul_data_rate_range() -> (DR, DR) {
        (DR::_0, DR::_4)
    }

    open spec fn spec_default_data_rate() -> DR {
        DR::_0
    }

    open spec fn spec_override_ul_data_rate_if_necessary(dr: DR, frame: Frame, ul_frequency: u32) -> DR {
        if dr_in_range(dr, (DR::_0, DR::_4)) {
            dr
        } else {
            DR::_0
        }
    }

    open spec fn spec_default_coding_rate() -> CodingRate {
        CodingRate::_4_5
    }

    open spec fn spec_default_rx2_frequency() -> u32 {
        923_300_000
    }

    open spec fn spec_default_rx2_data_rate() -> DR {
        DR::_8
    }

    open spec fn spec_max_eirp() -> i8 {
        30
    }

    open spec fn spec_min_frequency() -> u32 {
        902000000
    }

    open spec fn spec_max_frequency() -> u32 {
        928000000
    }

    open spec fn spec_convert_data_rate(dr: DR) -> Result<Datarate, Error> {
        match us915_datarate(dr) {
            Some(d) => Ok(d),
            None => Err(Error::DataRateNotSupported(dr)),
        }
    }

    open spec fn spec_next_adr_data_rate(current_dr: Option<DR>) -> Option<DR> {
        match current_dr {
            Some(d) => if dr_value(d) == 0 {
                None
            } else if dr_value(d) <= 4 {
                Some(dr_from(dr_value(d) - 1))
            } else {
                Some(DR::_0)
            },
            None => Some(DR::_0),
        }
    }

    open spec fn spec_get_rx1_dr(ul_dr: DR, rx1_dr_offset: u8) -> Result<DR, Error> {
        if rx1_dr_offset > 3 || dr_value(ul_dr) > 4 {
            Err(Error::UnsupportedRx1DROffset(ul_dr, rx1_dr_offset))
        } else {
            Ok(dr_from(clamp(10 + dr_value(ul_dr) - rx1_dr_offset, 8, 13)))
        }
    }

    open spec fn spec_supports_tx_param_setup() -> bool {
        false
    }

    open spec fn spec_modify_dbm(tx_power: u8, cur_dbm: Option<i8>, max_eirp: i8) -> Result<Option<i8>, Error> {
        if tx_power == 0 {
            Ok(Some(30))
        } else if tx_power == 15 {
            Ok(cur_dbm)
        } else {
            Err(Error::InvalidTxPower)
        }
    }

    open spec fn spec_default_rx1_data_rate_offset() -> u8 {
        0
    }

    proof fn lemma_default_channels() {
    }

    fn default_channels(is_uplink: bool) -> (res: usize) {
        if is_uplink {
            72
        } else {
            8
        }
    }

    fn channel_from_list(_channel_id: usize) -> (res: Result<DynamicChannel, Error>) {
        Err(Error::UnsupportedChannelListForRegion)
    }

    fn mandatory_frequency(index: usize, is_uplink: bool) -> (res: u32) {
        if is_uplink {
            // upstream: 64 (902.3 to 914.9 [+ by 0.2]) + 8 (903.0 to 914.2 [+ by 1.6])
            if index < 64 {
                902_300_000 + (200_000 * index as u32)
            } else {
                903_000_000 + (1_600_000 * (index - 64) as u32)
            }
        } else {
            // downstream: 8 (923.3 to 927.5 [+ by 0.6])
            923_300_000 + (600_000 * index as u32)
        }
    }

    fn mandatory_ul_data_rate_range(index: usize) -> (res: (DR, DR)) {
        if index < 64 {
            (DR::_0, DR::_3)
        } else {
            (DR::_4, DR::_4)
        }
    }

    fn ul_data_rate_range() -> (res: (DR, DR)) {
        (US915::min_data_rate(), US915::max_data_rate())
    }

    fn default_data_rate() -> (res: DR) {
        DR::_0
    }

    fn override_ul_data_rate_if_necessary(dr: DR, _frame: Frame, _ul_frequency: u32) -> (res: DR) {
        if dr.in_range(US915::ul_data_rate_range()) {
            dr
        } else {
            US915::default_data_rate()
        }
    }

    fn default_coding_rate() -> (res: CodingRate) {
        CodingRate::_4_5
    }

    fn default_rx2_frequency() -> (res: u32) {
        923_300_000
    }

    fn default_rx2_data_rate() -> (res: DR) {
        DR::_8
    }

    fn max_eirp() -> (res: i8) {
        30
    }

    fn min_frequency() -> (res: u32) {
        902000000
    }

    fn max_frequency() -> (res: u32) {
        928000000
    }

    fn convert_data_rate(dr: DR) -> (res: Result<Datarate, Error>) {
        match dr {
            DR::_0 => Ok(Datarate { spreading_factor: SpreadingFactor::_10, bandwidth: Bandwidth::_125KHz }),
            DR::_1 => Ok(Datarate { spreading_factor: SpreadingFactor::_9, bandwidth: Bandwidth::_125KHz }),
            DR::_2 => Ok(Datarate { spreading_factor: SpreadingFactor::_8, bandwidth: Bandwidth::_125KHz }),
            DR::_3 => Ok(Datarate { spreading_factor: SpreadingFactor::_7, bandwidth: Bandwidth::_125KHz }),
            DR::_4 => Ok(Datarate { spreading_factor: SpreadingFactor::_8, bandwidth: Bandwidth::_500KHz }),
            DR::_8 => Ok(Datarate { spreading_factor: SpreadingFactor::_12, bandwidth: Bandwidth::_500KHz }),
            DR::_9 => Ok(Datarate { spreading_factor: SpreadingFactor::_11, bandwidth: Bandwidth::_500KHz }),
            DR::_10 => Ok(Datarate { spreading_factor: SpreadingFactor::_10, bandwidth: Bandwidth::_500KHz }),
            DR::_11 => Ok(Datarate { spreading_factor: SpreadingFactor::_9, bandwidth: Bandwidth::_500KHz }),
            DR::_12 => Ok(Datarate { spreading_factor: SpreadingFactor::_8, bandwidth: Bandwidth::_500KHz }),
            DR::_13 => Ok(Datarate { spreading_factor: SpreadingFactor::_7, bandwidth: Bandwidth::_500KHz }),
            _ => Err(Error::DataRateNotSupported(dr)),
        }
    }

    fn next_adr_data_rate(current_dr: Option<DR>) -> (res: Option<DR>) {
        match current_dr {
            Some(DR::_0) => None,
            Some(DR::_1) => Some(DR::_0),
            Some(DR::_2) => Some(DR::_1),
            Some(DR::_3) => Some(DR::_2),
            Some(DR::_4) => Some(DR::_3),
            _ => Some(DR::_0),
        }
    }

    fn get_rx1_dr(ul_dr: DR, rx1_dr_offset: u8) -> (res: Result<DR, Error>) {
        if rx1_dr_offset > 3 {
            return Err(Error::UnsupportedRx1DROffset(ul_dr, rx1_dr_offset));
        }
        let dl_dr_matrix = [
            [DR::_10, DR::_9, DR::_8, DR::_8],
            [DR::_11, DR::_10, DR::_9, DR::_8],
            [DR::_12, DR::_11, DR::_10, DR::_9],
            [DR::_13, DR::_12, DR::_11, DR::_10],
            [DR::_13, DR::_13, DR::_12, DR::_11],
        ];
        let o = rx1_dr_offset as usize;
        match ul_dr {
            DR::_0 => Ok(dl_dr_matrix[0][o]),
            DR::_1 => Ok(dl_dr_matrix[1][o]),
            DR::_2 => Ok(dl_dr_matrix[2][o]),
            DR::_3 => Ok(dl_dr_matrix[3][o]),
            DR::_4 => Ok(dl_dr_matrix[4][o]),
            _ => Err(Error::UnsupportedRx1DROffset(ul_dr, rx1_dr_offset)),
        }
    }

    fn supports_tx_param_setup() -> (res: bool) {
        false
    }

    fn modify_dbm(tx_power: u8, cur_dbm: Option<i8>, _max_eirp: i8) -> (res: Result<Option<i8>, Error>) {
        if tx_power == 0 {
            Ok(Some(US915::max_eirp()))
        } else if tx_power == 15 {
            Ok(cur_dbm)
        } else {
            Err(Error::InvalidTxPower)
        }
    }

    fn default_rx1_data_rate_offset() -> (res: u8) {
        0
    }
}

} // verus!
