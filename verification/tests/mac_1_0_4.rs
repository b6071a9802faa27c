use lorawan::device::radio::types::{Bandwidth, Datarate, SpreadingFactor};
use lorawan::encoding::maccommands::{DlChannelReqPayload, NewChannelReqPayload};
use lorawan::encoding::parser::CfList;
use lorawan::frequency::Frequency;
use lorawan::mac::mac_1_0_4::region::channel_plan::DynamicChannelPlan;
use lorawan::mac::mac_1_0_4::region::eu868::Eu868;
use lorawan::mac::mac_1_0_4::region::{Error, Region};
use lorawan::mac::types::{Frame, DR};

type Plan = DynamicChannelPlan<Eu868, 16>;

fn freq(hz: u32) -> Frequency {
    Frequency::new_from_value(&hz)
}

#[test]
fn eu868_legacy_data_rates() {
    assert_eq!(
        Eu868::convert_data_rate(DR::_3),
        Ok(Datarate { spreading_factor: SpreadingFactor::_9, bandwidth: Bandwidth::_125KHz })
    );
    assert_eq!(Eu868::convert_data_rate(DR::_7), Err(Error::DataRateNotSupported));
    assert_eq!(Eu868::mandatory_frequencies(), &[868_100_000, 868_300_000, 868_500_000]);
    assert_eq!(Eu868::default_channels(), 3);
}

#[test]
fn eu868_legacy_receive_window() {
    assert_eq!(Eu868::get_receive_window(DR::_1, DR::_3), DR::_4);
    assert_eq!(Eu868::get_receive_window(DR::_8, DR::_0), DR::_1);
    assert_eq!(Eu868::get_receive_window(DR::_9, DR::_1), DR::_2);
    assert_eq!(Eu868::get_receive_window(DR::_0, DR::_5), DR::_0);
}

#[test]
fn eu868_legacy_tx_power() {
    assert_eq!(Eu868::modify_dbm(1, None, 16), Ok(Some(14)));
    assert_eq!(Eu868::modify_dbm(15, Some(4), 16), Ok(Some(4)));
    assert_eq!(Eu868::modify_dbm(9, Some(4), 16), Err(Error::InvalidTxPower));
}

#[test]
fn legacy_plan_join_channels() {
    let plan = Plan::initial();
    assert!(plan.check_uplink_frequency_exists(2));
    assert!(!plan.check_uplink_frequency_exists(3));
    assert!(!plan.check_uplink_frequency_exists(16));
    assert_eq!(plan.validate_frequency(868_300_000), Ok(()));
    assert_eq!(plan.validate_frequency(867_100_000), Err(Error::InvalidFrequency));
    let c = plan.get_random_channel(4, Frame::Join, DR::_0).unwrap();
    assert_eq!(c.frequency.value(), 868_300_000);
    assert_eq!(plan.get_random_channel(4, Frame::Join, DR::_6), Err(Error::NoValidChannelFound));
}

#[test]
fn legacy_plan_updates() {
    let mut plan = Plan::initial();
    let new = NewChannelReqPayload::new(&[5, 0x18, 0x4F, 0x84, 0x50]).unwrap();
    assert_eq!(plan.handle_new_channel_req(new), Ok(()));
    assert!(plan.check_uplink_frequency_exists(5));
    assert_eq!(plan.validate_frequency(867_100_000), Ok(()));
    let far = NewChannelReqPayload::new(&[16, 0x18, 0x4F, 0x84, 0x50]).unwrap();
    assert_eq!(plan.handle_new_channel_req(far), Err(Error::InvalidChannelIndex));

    let mut plan = Plan::initial();
    let list = CfList::DynamicChannel([
        freq(867_100_000),
        freq(867_300_000),
        freq(867_500_000),
        freq(867_700_000),
        freq(867_900_000),
    ]);
    assert_eq!(plan.handle_cf_list(list), Ok(()));
    assert!(plan.check_uplink_frequency_exists(7));
    assert!(!plan.check_uplink_frequency_exists(8));
    assert_eq!(plan.validate_frequency(867_700_000), Ok(()));

    assert_eq!(plan.set_channel_mask([false; 80]), Ok(()));
    assert!(plan.get_channel_mask().iter().all(|b| !*b));
    assert_eq!(plan.get_random_channel(0, Frame::Data, DR::_0), Err(Error::NoValidChannelFound));

    let dl = DlChannelReqPayload::new(&[20, 0, 0, 0]).unwrap();
    assert_eq!(plan.handle_dl_channel_req(dl), Err(Error::InvalidChannelIndex));
}
