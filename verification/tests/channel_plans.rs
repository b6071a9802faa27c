use lorawan::channel_mask::ChannelMask;
use lorawan::encoding::maccommands::{DlChannelReqPayload, NewChannelReqPayload};
use lorawan::encoding::parser::CfList;
use lorawan::frequency::Frequency;
use lorawan::mac::region::channel_plan::dynamic::DynamicChannelPlan;
use lorawan::mac::region::channel_plan::fixed::FixedChannelPlan;
use lorawan::mac::region::channel_plan::{Channel, ChannelPlan};
use lorawan::mac::region::eu868::EU868;
use lorawan::mac::region::us915::US915;
use lorawan::mac::region::Error;
use lorawan::mac::types::{Frame, DR};

type Eu = DynamicChannelPlan<EU868>;
type Us = FixedChannelPlan<US915>;

/// 867.1 MHz in steps of 100 Hz, little endian.
const F_867_1: [u8; 3] = [0x18, 0x4F, 0x84];

fn freq(hz: u32) -> Frequency {
    Frequency::new_from_value(&hz)
}

#[test]
fn frequency_bytes_are_little_endian_hundreds_of_hertz() {
    assert_eq!(Frequency::from_bytes(F_867_1).value(), 867_100_000);
    assert_eq!(freq(867_100_000).as_bytes(), F_867_1);
    assert_eq!(Frequency::new(&[1]), Err("not enough bytes to read"));
    assert_eq!(Frequency::new(&[1, 2]), Err("not enough bytes to read"));
    assert_eq!(Frequency::new(&F_867_1).unwrap().value(), 867_100_000);
}

#[test]
fn dynamic_plan_starts_with_the_join_channels() {
    let plan = Eu::initial();
    for i in 0..3 {
        assert!(plan.check_uplink_frequency_exists(i));
    }
    assert!(!plan.check_uplink_frequency_exists(3));
    assert!(!plan.check_uplink_frequency_exists(80));
    assert_eq!(plan.validate_frequency(868_100_000), Ok(()));
    assert_eq!(plan.validate_frequency(868_500_000), Ok(()));
    assert_eq!(plan.validate_frequency(867_100_000), Err(Error::InvalidFrequency));
    assert!(plan.get_channel_mask().iter().all(|b| *b));
}

#[test]
fn dynamic_plan_new_channel() {
    let mut plan = Eu::initial();
    let bytes = [3, F_867_1[0], F_867_1[1], F_867_1[2], 0x50];
    let payload = NewChannelReqPayload::new(&bytes).unwrap();
    assert_eq!(plan.handle_new_channel_req(payload), Ok(()));
    assert!(plan.check_uplink_frequency_exists(3));
    assert_eq!(plan.validate_frequency(867_100_000), Ok(()));

    let bad = NewChannelReqPayload::new(&[80, F_867_1[0], F_867_1[1], F_867_1[2], 0x50]).unwrap();
    assert_eq!(plan.handle_new_channel_req(bad), Err(Error::InvalidChannelIndex));
}

#[test]
fn dynamic_plan_dl_channel() {
    let mut plan = Eu::initial();
    let known = DlChannelReqPayload::new(&[0, F_867_1[0], F_867_1[1], F_867_1[2]]).unwrap();
    assert_eq!(plan.handle_dl_channel_req(known), Ok(()));
    let unknown = DlChannelReqPayload::new(&[5, F_867_1[0], F_867_1[1], F_867_1[2]]).unwrap();
    assert_eq!(plan.handle_dl_channel_req(unknown), Err(Error::InvalidChannelIndex));

    // Only channel 0 enabled: the draw of block 0 gives it, with its new downlink frequency.
    let mut mask = [false; 80];
    mask[0] = true;
    assert_eq!(plan.set_channel_mask(mask), Ok(()));
    let channels = plan.get_random_channels_from_blocks([0; 10], Frame::Data).unwrap();
    let c = channels[0].unwrap();
    assert_eq!(c.get_ul_frequency(), 868_100_000);
    assert_eq!(c.get_dl_frequency(), 867_100_000);
}

#[test]
fn dynamic_plan_cf_list() {
    let mut plan = Eu::initial();
    let list = CfList::DynamicChannel([
        freq(867_100_000),
        freq(867_300_000),
        freq(867_500_000),
        freq(867_700_000),
        freq(867_900_000),
    ]);
    assert_eq!(plan.handle_cf_list(list), Ok(()));
    for i in 3..8 {
        assert!(plan.check_uplink_frequency_exists(i));
    }
    assert!(!plan.check_uplink_frequency_exists(8));
    assert_eq!(plan.validate_frequency(867_900_000), Ok(()));

    let fixed = CfList::FixedChannel([ChannelMask::from_bytes([0xff, 0]); 4]);
    assert_eq!(plan.handle_cf_list(fixed), Err(Error::InvalidCfListType));
}

#[test]
fn dynamic_plan_channel_mask() {
    let mut plan = Eu::initial();
    let mut mask = [false; 80];
    let cm = ChannelMask::from_bytes([0x05, 0x80]);
    assert_eq!(plan.handle_channel_mask(&mut mask, cm, 1), Ok(()));
    assert!(mask[16]);
    assert!(!mask[17]);
    assert!(mask[18]);
    assert!(!mask[0]);
    // Bit 15 of the mask reaches the last channel of the group.
    assert!(mask[31]);
    assert!(!mask[32]);

    let mut all = [false; 80];
    assert_eq!(plan.handle_channel_mask(&mut all, cm, 6), Ok(()));
    assert!(all.iter().all(|b| *b));

    let mut kept = [false; 80];
    assert_eq!(plan.handle_channel_mask(&mut kept, cm, 7), Err(Error::InvalidChannelMaskCtrl));
    assert!(kept.iter().all(|b| !*b));
    assert!(Eu::channel_mask_ctrl_supported(6));
    assert!(!Eu::channel_mask_ctrl_supported(5));
}

#[test]
fn dynamic_plan_reactivation() {
    let mut plan = Eu::initial();
    assert_eq!(plan.set_channel_mask([false; 80]), Ok(()));
    assert!(plan.get_channel_mask().iter().all(|b| !*b));
    plan.reactivate_channels();
    assert!(plan.get_channel_mask().iter().all(|b| *b));
}

#[test]
fn dynamic_plan_random_channels() {
    let plan = Eu::initial();
    let randoms = [5, 1, 2, 3, 4, 5, 6, 7, 8, 9];
    let channels = plan.get_random_channels_from_blocks(randoms, Frame::Data).unwrap();
    let first = channels[0].unwrap();
    let f = first.get_ul_frequency();
    assert!(f == 868_100_000 || f == 868_300_000 || f == 868_500_000);
    for c in channels.iter().skip(1) {
        assert!(c.is_none());
    }
    let joins = plan.get_random_channels_from_blocks(randoms, Frame::Join).unwrap();
    assert!(joins[0].is_some());
}

#[test]
fn fixed_plan_starts_with_seventy_two_channels() {
    let plan = Us::initial();
    assert!(plan.check_uplink_frequency_exists(0));
    assert!(plan.check_uplink_frequency_exists(71));
    assert!(!plan.check_uplink_frequency_exists(72));
    let mask = plan.get_channel_mask();
    assert!(mask[..72].iter().all(|b| *b));
    assert!(mask[72..].iter().all(|b| !*b));
    assert_eq!(plan.validate_frequency(902_300_000), Err(Error::CommandNotImplementedForRegion));
}

#[test]
fn fixed_plan_random_channels_come_from_their_block() {
    let plan = Us::initial();
    let randoms = [0, 1, 2, 3, 4, 5, 6, 7, 8, 9];
    let channels = plan.get_random_channels_from_blocks(randoms, Frame::Data).unwrap();
    for (block, c) in channels.iter().enumerate() {
        if block < 9 {
            let ch = c.unwrap();
            let f = ch.get_ul_frequency();
            if block < 8 {
                let low = 902_300_000 + 1_600_000 * block as u32;
                assert!(f >= low && f < low + 1_600_000);
                assert_eq!(ch.get_ul_data_rate_range(), (DR::_0, DR::_3));
            } else {
                assert_eq!(ch.get_ul_data_rate_range(), (DR::_4, DR::_4));
            }
        } else {
            assert!(c.is_none());
        }
    }
}

#[test]
fn fixed_plan_channel_masks() {
    let mut plan = Us::initial();
    let cm = ChannelMask::from_bytes([0x02, 0x00]);

    let mut blocks = [false; 80];
    assert_eq!(plan.handle_channel_mask(&mut blocks, cm, 5), Ok(()));
    assert!(blocks[8..16].iter().all(|b| *b));
    assert!(blocks[..8].iter().all(|b| !*b));
    assert!(blocks[16..].iter().all(|b| !*b));

    let mut upper_on = [false; 80];
    assert_eq!(plan.handle_channel_mask(&mut upper_on, cm, 6), Ok(()));
    assert!(upper_on[..64].iter().all(|b| *b));
    assert!(!upper_on[64]);
    assert!(upper_on[65]);
    assert!(!upper_on[66]);

    let mut upper_off = [true; 80];
    assert_eq!(plan.handle_channel_mask(&mut upper_off, cm, 7), Ok(()));
    assert!(upper_off[..64].iter().all(|b| !*b));
    assert!(upper_off[65]);

    let mut unchanged = [true; 80];
    assert_eq!(plan.handle_channel_mask(&mut unchanged, cm, 8), Err(Error::InvalidChannelMaskCtrl));
    assert!(unchanged.iter().all(|b| *b));
}

#[test]
fn fixed_plan_cf_list_and_reactivation() {
    let mut plan = Us::initial();
    let masks = [
        ChannelMask::from_bytes([0xff, 0x00]),
        ChannelMask::from_bytes([0x00, 0x00]),
        ChannelMask::from_bytes([0x00, 0x00]),
        ChannelMask::from_bytes([0x00, 0x00]),
    ];
    assert_eq!(plan.handle_cf_list(CfList::FixedChannel(masks)), Ok(()));
    let mask = plan.get_channel_mask();
    assert!(mask[..8].iter().all(|b| *b));
    assert!(mask[8..64].iter().all(|b| !*b));
    assert!(mask[64..72].iter().all(|b| *b));

    let dynamic = CfList::DynamicChannel([freq(903_000_000); 5]);
    assert_eq!(plan.handle_cf_list(dynamic), Err(Error::InvalidCfListType));

    plan.reactivate_channels();
    let mask = plan.get_channel_mask();
    assert!(mask[..72].iter().all(|b| *b));
    assert!(mask[72..].iter().all(|b| !*b));

    let dl = DlChannelReqPayload::new(&[0, 0, 0, 0]).unwrap();
    assert_eq!(plan.handle_dl_channel_req(dl), Err(Error::CommandNotImplementedForRegion));
}

#[test]
fn plan_capabilities() {
    assert!(Eu::random_channels_supported(Frame::Join));
    assert!(Eu::random_channels_supported(Frame::Data));
    assert!(Eu::cf_list_supported());
    assert!(Us::random_channels_supported(Frame::Join));
    assert!(Us::cf_list_supported());
    assert!(Us::channel_mask_ctrl_supported(5));
}

#[test]
fn channel_mask_errors() {
    assert_eq!(ChannelMask::new(&[1]), Err("not enough bytes to read"));
    assert_eq!(ChannelMask::from_bytes([0, 0]).is_enabled(16), Err("index should be between 0 and 15"));
}
