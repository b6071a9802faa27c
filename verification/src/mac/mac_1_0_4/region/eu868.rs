//! Regional parameters of EU868 for LoRaWAN 1.0.4.

use vstd::prelude::*;

use super::{Error, Region};
use crate::device::radio::types::{Bandwidth, CodingRate, Datarate, SpreadingFactor};
use crate::mac::region::eu868::eu868_datarate;
use crate::mac::types::{dr_from, dr_value, DR};

verus! {

const JOIN_CHANNELS: [u32; 3] = [868_100_000, 868_300_000, 868_500_000];

/// The EU868 region.
pub struct Eu868 {}

/// The data rate of a receive window: the downstream data rate raised by an offset of
/// 1 to 7 that is below it; DR1 for offsets 8 and 10 after DR0; the next data rate for
/// offsets 9 and 11 after DR0 or DR1; DR0 otherwise.
pub open spec fn eu868_receive_window(rx_dr_offset: DR, downstream_dr: DR) -> DR {
    let o = dr_value(rx_dr_offset);
    let d = dr_value(downstream_dr);
    if 1 <= o <= 7 && o < d {
        dr_from(d + o)
    } else if (o == 8 || o == 10) && d == 0 {
        DR::_1
    } else if (o == 9 || o == 11) && d < 2 {
        dr_from(d + 1)
    } else {
        DR::_0
    }
}

impl Region for Eu868 {
    open spec fn spec_default_channels() -> u8 {
        3
    }

    open spec fn spec_mandatory_frequencies() -> Seq<u32> {
        seq![868_100_000u32, 868_300_000u32, 868_500_000u32]
    }

    open spec fn spec_min_data_rate_join_req() -> DR {
        DR::_0
    }

    open spec fn spec_max_data_rate_join_req() -> DR {
        DR::_5
    }

    open spec fn spec_min_data_rate() -> DR {
        DR::_0
    }

    open spec fn spec_max_data_rate() -> DR {
        DR::_7
    }

    open spec fn spec_default_data_rate() -> DR {
        DR::_0
    }

    open spec fn spec_default_coding_rate() -> CodingRate {
        CodingRate::_4_5
    }

    open spec fn spec_default_rx2_frequency() -> u32 {
        869525000
    }

    open spec fn spec_default_rx2_data_rate() -> DR {
        DR::_0
    }

    open spec fn spec_max_eirp() -> i8 {
        16
    }

    open spec fn spec_min_frequency() -> u32 {
        863000000
    }

    open spec fn spec_max_frequency() -> u32 {
        870000000
    }

    open spec fn spec_convert_data_rate(dr: DR) -> Result<Datarate, Error> {
        match eu868_datarate(dr) {
            Some(d) => Ok(d),
            None => Err(Error::DataRateNotSupported),
        }
    }

    open spec fn spec_receive_window_ok(rx_dr_offset: DR, downstream_dr: DR) -> bool {
        let o = dr_value(rx_dr_offset);
        let d = dr_value(downstream_dr);
        1 <= o <= 7 && o < d ==> d + o < 16
    }

    open spec fn spec_get_receive_window(rx_dr_offset: DR, downstream_dr: DR) -> DR {
        eu868_receive_window(rx_dr_offset, downstream_dr)
    }

    open spec fn spec_supports_tx_param_setup() -> bool {
        false
    }

    open spec fn spec_modify_dbm_ok(tx_power: u8, max_eirp: i8) -> bool {
        tx_power <= 7 ==> max_eirp - 2 * tx_power >= -128
    }

    open spec fn spec_modify_dbm(tx_power: u8, cur_dbm: Option<i8>, max_eirp: i8) -> Result<Option<i8>, Error> {
        if tx_power <= 7 {
            Ok(Some((max_eirp - 2 * tx_power) as i8))
        } else if tx_power == 15 {
            Ok(cur_dbm)
        } else {
            Err(Error::InvalidTxPower)
        }
    }

    open spec fn spec_default_rx1_data_rate_offset() -> DR {
        DR::_0
    }

    fn mandatory_frequencies() -> (res: &'static [u32]) {
        let res: &'static [u32] = &JOIN_CHANNELS;
        assert(res@ =~= seq![868_100_000u32, 868_300_000u32, 868_500_000u32]);
        res
    }

    fn default_channels() -> (res: u8) {
        3
    }

    fn min_frequency() -> (res: u32) {
        863000000
    }

    fn max_frequency() -> (res: u32) {
        870000000
    }

    fn default_rx2_frequency() -> (res: u32) {
        869525000
    }

    fn min_data_rate() -> (res: DR) {
        DR::_0
    }

    fn max_data_rate() -> (res: DR) {
        DR::_7
    }

    fn min_data_rate_join_req() -> (res: DR) {
        DR::_0
    }

    fn max_data_rate_join_req() -> (res: DR) {
        DR::_5
    }

    fn default_rx2_data_rate() -> (res: DR) {
        DR::_0
    }

    fn default_data_rate() -> (res: DR) {
        DR::_0
    }

    fn default_rx1_data_rate_offset() -> (res: DR) {
        DR::_0
    }

    fn convert_data_rate(dr: DR) -> (res: Result<Datarate, Error>) {
        match dr {
            DR::_0 => Ok(Datarate { spreading_factor: SpreadingFactor::_12, bandwidth: Bandwidth::_125KHz }),
            DR::_1 => Ok(Datarate { spreading_factor: SpreadingFactor::_11, bandwidth: Bandwidth::_125KHz }),
            DR::_2 => Ok(Datarate { spreading_factor: SpreadingFactor::_10, bandwidth: Bandwidth::_125KHz }),
            DR::_3 => Ok(Datarate { spreading_factor: SpreadingFactor::_9, bandwidth: Bandwidth::_125KHz }),
            DR::_4 => Ok(Datarate { spreading_factor: SpreadingFactor::_8, bandwidth: Bandwidth::_125KHz }),
            DR::_5 => Ok(Datarate { spreading_factor: SpreadingFactor::_7, bandwidth: Bandwidth::_125KHz }),
            DR::_6 => Ok(Datarate { spreading_factor: SpreadingFactor::_7, bandwidth: Bandwidth::_250KHz }),
            _ => Err(Error::DataRateNotSupported),
        }
    }

    fn default_coding_rate() -> (res: CodingRate) {
        CodingRate::_4_5
    }

    fn max_eirp() -> (res: i8) {
        16
    }

    fn supports_tx_param_setup() -> (res: bool) {
        false
    }

    fn modify_dbm(tx_power: u8, cur_dbm: Option<i8>, max_eirp: i8) -> (res: Result<Option<i8>, Error>) {
        if tx_power <= 7 {
            Ok(Some(max_eirp - (tx_power * 2) as i8))
        } else if tx_power == 15 {
            Ok(cur_dbm)
        } else {
            Err(Error::InvalidTxPower)
        }
    }

    fn get_receive_window(rx_dr_offset: DR, downstream_dr: DR) -> (res: DR) {
        let downstream_dr_nr = downstream_dr.value();
        let rx_dr_offset_nr = rx_dr_offset.value();
        if 1 <= rx_dr_offset_nr && rx_dr_offset_nr <= 7 && rx_dr_offset_nr < downstream_dr_nr {
            match DR::try_from(downstream_dr_nr + rx_dr_offset_nr) {
                Ok(dr) => {
                    proof {
                        crate::mac::types::lemma_dr_from(0, dr);
                    }
                    dr
                },
                Err(_) => DR::_0,
            }
        } else if (rx_dr_offset_nr == 8 || rx_dr_offset_nr == 10) && downstream_dr_nr == 0 {
            DR::_1
        } else if (rx_dr_offset_nr == 9 || rx_dr_offset_nr == 11) && downstream_dr_nr < 2 {
            match DR::try_from(downstream_dr_nr + 1) {
                Ok(dr) => {
                    proof {
                        crate::mac::types::lemma_dr_from(0, dr);
                    }
                    dr
                },
                Err(_) => DR::_0,
            }
        } else {
            DR::_0
        }
    }
}

} // verus!
