use lorawan::device::radio::types::{Bandwidth, CodingRate, Datarate, SpreadingFactor};
use lorawan::mac::region::eu868::EU868;
use lorawan::mac::region::us915::US915;
use lorawan::mac::region::{Error, Region};
use lorawan::mac::types::{Frame, DR};

fn datarate(sf: SpreadingFactor, bw: Bandwidth) -> Datarate {
    Datarate { spreading_factor: sf, bandwidth: bw }
}

#[test]
fn eu868_data_rates() {
    assert_eq!(EU868::convert_data_rate(DR::_0), Ok(datarate(SpreadingFactor::_12, Bandwidth::_125KHz)));
    assert_eq!(EU868::convert_data_rate(DR::_5), Ok(datarate(SpreadingFactor::_7, Bandwidth::_125KHz)));
    assert_eq!(EU868::convert_data_rate(DR::_6), Ok(datarate(SpreadingFactor::_7, Bandwidth::_250KHz)));
    assert_eq!(EU868::convert_data_rate(DR::_7), Err(Error::DataRateNotSupported(DR::_7)));
    assert_eq!(EU868::default_coding_rate(), CodingRate::_4_5);
}

#[test]
fn us915_data_rates() {
    assert_eq!(US915::convert_data_rate(DR::_0), Ok(datarate(SpreadingFactor::_10, Bandwidth::_125KHz)));
    assert_eq!(US915::convert_data_rate(DR::_4), Ok(datarate(SpreadingFactor::_8, Bandwidth::_500KHz)));
    assert_eq!(US915::convert_data_rate(DR::_8), Ok(datarate(SpreadingFactor::_12, Bandwidth::_500KHz)));
    assert_eq!(US915::convert_data_rate(DR::_13), Ok(datarate(SpreadingFactor::_7, Bandwidth::_500KHz)));
    assert_eq!(US915::convert_data_rate(DR::_5), Err(Error::DataRateNotSupported(DR::_5)));
    assert_eq!(US915::convert_data_rate(DR::_14), Err(Error::DataRateNotSupported(DR::_14)));
}

#[test]
fn eu868_rx1_data_rate_table() {
    assert_eq!(EU868::get_rx1_dr(DR::_5, 0), Ok(DR::_5));
    assert_eq!(EU868::get_rx1_dr(DR::_5, 2), Ok(DR::_3));
    assert_eq!(EU868::get_rx1_dr(DR::_1, 2), Ok(DR::_0));
    assert_eq!(EU868::get_rx1_dr(DR::_3, 6), Err(Error::UnsupportedRx1DROffset(DR::_3, 6)));
    assert_eq!(EU868::get_rx1_dr(DR::_6, 0), Err(Error::UnsupportedRx1DROffset(DR::_6, 0)));
}

#[test]
fn us915_rx1_data_rate_table() {
    assert_eq!(US915::get_rx1_dr(DR::_0, 0), Ok(DR::_10));
    assert_eq!(US915::get_rx1_dr(DR::_0, 3), Ok(DR::_8));
    assert_eq!(US915::get_rx1_dr(DR::_4, 0), Ok(DR::_13));
    assert_eq!(US915::get_rx1_dr(DR::_4, 3), Ok(DR::_11));
    assert_eq!(US915::get_rx1_dr(DR::_2, 4), Err(Error::UnsupportedRx1DROffset(DR::_2, 4)));
    assert_eq!(US915::get_rx1_dr(DR::_5, 0), Err(Error::UnsupportedRx1DROffset(DR::_5, 0)));
}

#[test]
fn eu868_tx_power() {
    assert_eq!(EU868::modify_dbm(0, None, 16), Ok(Some(16)));
    assert_eq!(EU868::modify_dbm(7, None, 16), Ok(Some(2)));
    assert_eq!(EU868::modify_dbm(15, Some(9), 16), Ok(Some(9)));
    assert_eq!(EU868::modify_dbm(15, None, 16), Ok(None));
    assert_eq!(EU868::modify_dbm(8, Some(9), 16), Err(Error::InvalidTxPower));
    assert_eq!(EU868::modify_dbm(7, None, -120), Err(Error::InvalidTxPower));
}

#[test]
fn us915_tx_power() {
    assert_eq!(US915::modify_dbm(0, None, 0), Ok(Some(US915::max_eirp())));
    assert_eq!(US915::modify_dbm(15, Some(3), 0), Ok(Some(3)));
    assert_eq!(US915::modify_dbm(1, Some(3), 0), Err(Error::InvalidTxPower));
}

#[test]
fn adr_back_off_sequences() {
    assert_eq!(EU868::next_adr_data_rate(None), Some(DR::_0));
    assert_eq!(EU868::next_adr_data_rate(Some(DR::_6)), Some(DR::_5));
    assert_eq!(EU868::next_adr_data_rate(Some(DR::_1)), Some(DR::_0));
    assert_eq!(EU868::next_adr_data_rate(Some(DR::_0)), None);
    assert_eq!(EU868::next_adr_data_rate(Some(DR::_9)), Some(DR::_0));
    assert_eq!(US915::next_adr_data_rate(Some(DR::_4)), Some(DR::_3));
    assert_eq!(US915::next_adr_data_rate(Some(DR::_0)), None);
    assert_eq!(US915::next_adr_data_rate(Some(DR::_10)), Some(DR::_0));
}

#[test]
fn uplink_data_rate_override() {
    assert_eq!(EU868::override_ul_data_rate_if_necessary(DR::_5, Frame::Data, 868_100_000), DR::_5);
    assert_eq!(EU868::override_ul_data_rate_if_necessary(DR::_6, Frame::Data, 868_100_000), DR::_0);
}

#[test]
fn mandatory_channels() {
    assert_eq!(EU868::default_channels(true), 3);
    assert_eq!(EU868::mandatory_frequency(0, true), 868_100_000);
    assert_eq!(EU868::mandatory_frequency(2, false), 868_500_000);
    assert_eq!(US915::default_channels(true), 72);
    assert_eq!(US915::default_channels(false), 8);
    assert_eq!(US915::mandatory_frequency(0, true), 902_300_000);
    assert_eq!(US915::mandatory_frequency(63, true), 914_900_000);
    assert_eq!(US915::mandatory_frequency(64, true), 903_000_000);
    assert_eq!(US915::mandatory_frequency(71, true), 914_200_000);
    assert_eq!(US915::mandatory_frequency(7, false), 927_500_000);
    assert_eq!(US915::mandatory_ul_data_rate_range(10), (DR::_0, DR::_3));
    assert_eq!(US915::mandatory_ul_data_rate_range(70), (DR::_4, DR::_4));
}

#[test]
fn eu868_channel_list() {
    let c = EU868::channel_from_list(0).unwrap();
    assert_eq!(c.ul_frequency, 863_100_000);
    assert_eq!(c.dl_frequency, 863_100_000);
    assert_eq!(c.ul_data_rate_range, (DR::_0, DR::_5));
    assert_eq!(EU868::channel_from_list(34).unwrap().ul_frequency, 869_900_000);
    assert_eq!(EU868::channel_from_list(35).unwrap().ul_frequency, 865_062_500);
    assert_eq!(EU868::channel_from_list(40), Err(Error::InvalidChannelIndex));
    assert_eq!(US915::channel_from_list(0), Err(Error::UnsupportedChannelListForRegion));
}
