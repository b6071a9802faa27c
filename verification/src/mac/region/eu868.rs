//! Processing for the EU868 region, which uses a dynamic channel plan.

use vstd::prelude::*;

use super::channel_plan::dynamic::{channel_800, spec_channel_800, DynamicChannel};
use super::{dr_in_range, Error, Region};
use crate::device::radio::types::{Bandwidth, CodingRate, Datarate, SpreadingFactor};
use crate::mac::types::{dr_from, dr_value, Frame, DR};

verus! {

const JOIN_CHANNELS: [u32; 3] = [868_100_000, 868_300_000, 868_500_000];

/// Specific processing for the EU868 region.
pub struct EU868;

/// The EU868 data rates: DR0..DR5 are SF12..SF7 at 125 kHz, DR6 is SF7 at 250 kHz.
pub open spec fn eu868_datarate(dr: DR) -> Option<Datarate> {
    match dr {
        DR::_0 => Some(Datarate { spreading_factor: SpreadingFactor::_12, bandwidth: Bandwidth::_125KHz }),
        DR::_1 => Some(Datarate { spreading_factor: SpreadingFactor::_11, bandwidth: Bandwidth::_125KHz }),
        DR::_2 => Some(Datarate { spreading_factor: SpreadingFactor::_10, bandwidth: Bandwidth::_125KHz }),
        DR::_3 => Some(Datarate { spreading_factor: SpreadingFactor::_9, bandwidth: Bandwidth::_125KHz }),
        DR::_4 => Some(Datarate { spreading_factor: SpreadingFactor::_8, bandwidth: Bandwidth::_125KHz }),
        DR::_5 => Some(Datarate { spreading_factor: SpreadingFactor::_7, bandwidth: Bandwidth::_125KHz }),
        DR::_6 => Some(Datarate { spreading_factor: SpreadingFactor::_7, bandwidth: Bandwidth::_250KHz }),
        _ => None,
    }
}

impl Region for EU868 {
    open spec fn spec_default_channels(is_uplink: bool) -> usize {
        3
    }

    open spec fn spec_channel_from_list(channel_id: usize) -> Result<DynamicChannel, Error> {
        match spec_channel_800(channel_id, (DR::_0, DR::_5)) {
            Ok(c) => Ok(
                DynamicChannel {
                    ul_frequency: c.ul_frequency,
                    dl_frequency: c.dl_frequency,
                    ul_data_rate_range: c.ul_data_rate_range,
                },
            ),
            Err(e) => Err(e),
        }
    }

    open spec fn spec_mandatory_frequency(index: usize, is_uplink: bool) -> u32 {
        if index == 0 {
            868_100_000
        } else if index == 1 {
            868_300_000
        } else {
            868_500_000
        }
    }

    open spec fn spec_mandatory_ul_data_rate_range(index: usize) -> (DR, DR) {
        (DR::_0, DR::_5)
    }

    open spec fn spec_ul_data_rate_range() -> (DR, DR) {
        (DR::_0, DR::_5)
    }

    open spec fn spec_default_data_rate() -> DR {
        DR::_0
    }

    open spec fn spec_override_ul_data_rate_if_necessary(dr: DR, frame: Frame, ul_frequency: u32) -> DR {
        if dr_in_range(dr, (DR::_0, DR::_5)) {
            dr
        } else {
            DR::_0
        }
    }

    open spec fn spec_default_coding_rate() -> CodingRate {
        CodingRate::_4_5
    }

    open spec fn spec_default_rx2_frequency() -> u32 {
        869525000
    }

    open spec fn spec_default_rx2_data_rate() -> DR {
        DR::_0
    }

    open spec fn spec_max_eirp() -> i8 {
        16
    }

    open spec fn spec_min_frequency() -> u32 {
        863000000
    }

    open spec fn spec_max_frequency() -> u32 {
        870000000
    }

    open spec fn spec_convert_data_rate(dr: DR) -> Result<Datarate, Error> {
        match eu868_datarate(dr) {
            Some(d) => Ok(d),
            None => Err(Error::DataRateNotSupported(dr)),
        }
    }

    open spec fn spec_next_adr_data_rate(current_dr: Option<DR>) -> Option<DR> {
        match current_dr {
            Some(d) => if dr_value(d) == 0 {
                None
            } else if dr_value(d) <= 6 {
                Some(dr_from(dr_value(d) - 1))
            } else {
                Some(DR::_0)
            },
            None => Some(DR::_0),
        }
    }

    open spec fn spec_get_rx1_dr(ul_dr: DR, rx1_dr_offset: u8) -> Result<DR, Error> {
        if rx1_dr_offset > 5 || dr_value(ul_dr) > 5 {
            Err(Error::UnsupportedRx1DROffset(ul_dr, rx1_dr_offset))
        } else {
            Ok(dr_from(dr_value(ul_dr) - rx1_dr_offset))
        }
    }

    open spec fn spec_supports_tx_param_setup() -> bool {
        false
    }

    open spec fn spec_modify_dbm(tx_power: u8, cur_dbm: Option<i8>, max_eirp: i8) -> Result<Option<i8>, Error> {
        if tx_power <= 7 {
            if max_eirp - 2 * tx_power >= -128 {
                Ok(Some((max_eirp - 2 * tx_power) as i8))
            } else {
                Err(Error::InvalidTxPower)
            }
        } else if tx_power == 15 {
            Ok(cur_dbm)
        } else {
            Err(Error::InvalidTxPower)
        }
    }

    open spec fn spec_default_rx1_data_rate_offset() -> u8 {
        0
    }

    proof fn lemma_default_channels() {
    }

    fn default_channels(_is_uplink: bool) -> (res: usize) {
        3
    }

    fn channel_from_list(channel_id: usize) -> (res: Result<DynamicChannel, Error>) {
        match channel_800(channel_id, (DR::_0, DR::_5)) {
            Ok(c) => Ok(
                DynamicChannel {
                    ul_frequency: c.ul_frequency,
                    dl_frequency: c.dl_frequency,
                    ul_data_rate_range: c.ul_data_rate_range,
                },
            ),
            Err(e) => Err(e),
        }
    }

    fn mandatory_frequency(index: usize, _is_uplink: bool) -> (res: u32) {
        JOIN_CHANNELS[index]
    }

    fn mandatory_ul_data_rate_range(_index: usize) -> (res: (DR, DR)) {
        (DR::_0, DR::_5)
    }

    fn ul_data_rate_range() -> (res: (DR, DR)) {
        (DR::_0, DR::_5)
    }

    fn min_frequency() -> (res: u32) {
        863000000
    }

    fn max_frequency() -> (res: u32) {
        870000000
    }

    fn default_rx2_frequency() -> (res: u32) {
        869525000
    }

    fn default_rx2_data_rate() -> (res: DR) {
        DR::_0
    }

    fn default_data_rate() -> (res: DR) {
        DR::_0
    }

    fn override_ul_data_rate_if_necessary(dr: DR, _frame: Frame, _ul_frequency: u32) -> (res: DR) {
        if dr.in_range(EU868::ul_data_rate_range()) {
            dr
        } else {
            EU868::default_data_rate()
        }
    }

    fn default_rx1_data_rate_offset() -> (res: u8) {
        0
    }

    fn convert_data_rate(dr: DR) -> (res: Result<Datarate, Error>) {
        match dr {
            DR::_0 => Ok(Datarate { spreading_factor: SpreadingFactor::_12, bandwidth: Bandwidth::_125KHz }),
            DR::_1 => Ok(Datarate { spreading_factor: SpreadingFactor::_11, bandwidth: Bandwidth::_125KHz }),
            DR::_2 => Ok(Datarate { spreading_factor: SpreadingFactor::_10, bandwidth: Bandwidth::_125KHz }),
            DR::_3 => Ok(Datarate { spreading_factor: SpreadingFactor::_9, bandwidth: Bandwidth::_125KHz }),
            DR::_4 => Ok(Datarate { spreading_factor: SpreadingFactor::_8, bandwidth: Bandwidth::_125KHz }),
            DR::_5 => Ok(Datarate { spreading_factor: SpreadingFactor::_7, bandwidth: Bandwidth::_125KHz }),
            DR::_6 => Ok(Datarate { spreading_factor: SpreadingFactor::_7, bandwidth: Bandwidth::_250KHz }),
            _ => Err(Error::DataRateNotSupported(dr)),
        }
    }

    fn next_adr_data_rate(current_dr: Option<DR>) -> (res: Option<DR>) {
        match current_dr {
            Some(DR::_0) => None,
            Some(DR::_1) => Some(DR::_0),
            Some(DR::_2) => Some(DR::_1),
            Some(DR::_3) => Some(DR::_2),
            Some(DR::_4) => Some(DR::_3),
            Some(DR::_5) => Some(DR::_4),
            Some(DR::_6) => Some(DR::_5),
            _ => Some(DR::_0),
        }
    }

    fn default_coding_rate() -> (res: CodingRate) {
        CodingRate::_4_5
    }

    fn max_eirp() -> (res: i8) {
        16
    }

    fn supports_tx_param_setup() -> (res: bool) {
        false
    }

    fn modify_dbm(tx_power: u8, cur_dbm: Option<i8>, max_eirp: i8) -> (res: Result<Option<i8>, Error>) {
        if tx_power <= 7 {
            let next_dbm = (max_eirp as i16) - ((tx_power * 2) as i16);
            if next_dbm < -128 {
                Err(Error::InvalidTxPower)
            } else {
                Ok(Some(next_dbm as i8))
            }
        } else if tx_power == 15 {
            Ok(cur_dbm)
        } else {
            Err(Error::InvalidTxPower)
        }
    }

    fn get_rx1_dr(ul_dr: DR, rx1_dr_offset: u8) -> (res: Result<DR, Error>) {
        if rx1_dr_offset > 5 {
            return Err(Error::UnsupportedRx1DROffset(ul_dr, rx1_dr_offset));
        }
        let dl_dr_matrix = [
            [DR::_0, DR::_0, DR::_0, DR::_0, DR::_0, DR::_0],
            [DR::_1, DR::_0, DR::_0, DR::_0, DR::_0, DR::_0],
            [DR::_2, DR::_1, DR::_0, DR::_0, DR::_0, DR::_0],
            [DR::_3, DR::_2, DR::_1, DR::_0, DR::_0, DR::_0],
            [DR::_4, DR::_3, DR::_2, DR::_1, DR::_0, DR::_0],
            [DR::_5, DR::_4, DR::_3, DR::_2, DR::_1, DR::_0],
        ];
        let o = rx1_dr_offset as usize;
        match ul_dr {
            DR::_0 => Ok(dl_dr_matrix[0][o]),
            DR::_1 => Ok(dl_dr_matrix[1][o]),
            DR::_2 => Ok(dl_dr_matrix[2][o]),
            DR::_3 => Ok(dl_dr_matrix[3][o]),
            DR::_4 => Ok(dl_dr_matrix[4][o]),
            DR::_5 => Ok(dl_dr_matrix[5][o]),
            _ => Err(Error::UnsupportedRx1DROffset(ul_dr, rx1_dr_offset)),
        }
    }
}

} // verus!
