use lorawan::device::{DeviceNotification, DeviceSpecs};
use lorawan::device::radio::types::RxQuality;
use lorawan::encoding::keys::{AppSKey, NwkSKey, AES128};
use lorawan::encoding::maccommandcreator::LinkADRAnsCreator;
use lorawan::encoding::maccommands::{DevStatusReqPayload, LinkADRReqPayload, RXTimingSetupReqPayload};
use lorawan::encoding::parser::DevAddr;
use lorawan::mac::downlink_commands::DownlinkContext;
use lorawan::mac::mac_1_0_4::encoding::maccommandcreator::UplinkMacCommandCreator;
use lorawan::mac::mac_1_0_4::encoding::maccommands::DownlinkMacCommand;
use lorawan::mac::region::channel_plan::dynamic::DynamicChannelPlan;
use lorawan::mac::region::channel_plan::fixed::FixedChannelPlan;
use lorawan::mac::region::channel_plan::ChannelPlan;
use lorawan::mac::region::eu868::EU868;
use lorawan::mac::region::us915::US915;
use lorawan::mac::types::{Configuration, Credentials, Frame, Session, DR};
use lorawan::mac::{Error, Mac};

fn specs() -> DeviceSpecs {
    DeviceSpecs::default()
}

fn randoms() -> [u32; 10] {
    [7, 123, 99_999, 4, 5, 6, 17, 3_000_000_000, 2, 11]
}

#[test]
fn validate_frequency() {
    assert!(Mac::<EU868, DynamicChannelPlan<EU868>>::validate_frequency(&specs(), 863_000_000));
    assert!(Mac::<EU868, DynamicChannelPlan<EU868>>::validate_frequency(&specs(), 870_000_000));
    assert!(!Mac::<EU868, DynamicChannelPlan<EU868>>::validate_frequency(&specs(), 870_000_001));
    assert!(Mac::<US915, FixedChannelPlan<US915>>::validate_frequency(&specs(), 902_000_000));
    assert!(Mac::<US915, FixedChannelPlan<US915>>::validate_frequency(&specs(), 928_000_000));
    assert!(!Mac::<US915, FixedChannelPlan<US915>>::validate_frequency(&specs(), 928_000_001));
}

#[test]
fn validate_rx1_data_rate_offset() {
    assert!(Mac::<EU868, DynamicChannelPlan<EU868>>::validate_rx1_data_rate_offset(&specs(), 0));
    assert!(Mac::<EU868, DynamicChannelPlan<EU868>>::validate_rx1_data_rate_offset(&specs(), 5));
    assert!(!Mac::<EU868, DynamicChannelPlan<EU868>>::validate_rx1_data_rate_offset(&specs(), 6));
    assert!(Mac::<US915, DynamicChannelPlan<US915>>::validate_rx1_data_rate_offset(&specs(), 0));
    assert!(Mac::<US915, DynamicChannelPlan<US915>>::validate_rx1_data_rate_offset(&specs(), 3));
    assert!(!Mac::<US915, DynamicChannelPlan<US915>>::validate_rx1_data_rate_offset(&specs(), 4));
}

#[test]
fn get_send_channels() {
    let mac_eu868 = Mac::<EU868, DynamicChannelPlan<EU868>>::new(
        Default::default(),
        Credentials::new([0u8; 8], [0u8; 8], [0u8; 16]),
    );
    let channels_eu868 = mac_eu868.get_send_channels(randoms(), Frame::Join).unwrap();
    assert!(channels_eu868[0].is_some());
    assert!(channels_eu868[1].is_none());
    assert!(channels_eu868[2].is_none());
    assert!(channels_eu868[3].is_none());
    assert!(channels_eu868[4].is_none());
    assert!(channels_eu868[5].is_none());
    assert!(channels_eu868[6].is_none());
    assert!(channels_eu868[7].is_none());
    assert!(channels_eu868[8].is_none());
    assert!(channels_eu868[9].is_none());

    let mac_us915 = Mac::<US915, FixedChannelPlan<US915>>::new(
        Default::default(),
        Credentials::new([0u8; 8], [0u8; 8], [0u8; 16]),
    );
    let channels_us915 = mac_us915.get_send_channels(randoms(), Frame::Join).unwrap();
    assert!(channels_us915[0].is_some());
    assert!(channels_us915[1].is_some());
    assert!(channels_us915[2].is_some());
    assert!(channels_us915[3].is_some());
    assert!(channels_us915[4].is_some());
    assert!(channels_us915[5].is_some());
    assert!(channels_us915[6].is_some());
    assert!(channels_us915[7].is_some());
    assert!(channels_us915[8].is_some());
    assert!(channels_us915[9].is_none());
}

fn joined_eu868() -> Mac<EU868, DynamicChannelPlan<EU868>> {
    let mut mac_eu868 = Mac::<EU868, DynamicChannelPlan<EU868>>::new(
        Default::default(),
        Credentials::new([0u8; 8], [0u8; 8], [0u8; 16]),
    );
    mac_eu868.session = Some(Session {
        nwkskey: NwkSKey(AES128([1u8; 16])),
        appskey: AppSKey(AES128([1u8; 16])),
        devaddr: DevAddr([1u8; 4]),
        fcnt_up: 0,
        fcnt_down: 0,
        adr_ack_cnt: 0,
    });
    mac_eu868
}

#[test]
fn prepare_buffer() {
    let mut mac_eu868 = joined_eu868();
    let mut ans = LinkADRAnsCreator::new();
    ans.set_tx_power_ack(true);
    ans.set_data_rate_ack(true);
    ans.set_channel_mask_ack(true);
    mac_eu868.uplink_cmds.push(UplinkMacCommandCreator::LinkADRAns(ans)).unwrap();
    let buf = mac_eu868.prepare_buffer(&specs(), &[1, 2, 3], 1, true, true).unwrap();
    assert_eq!(&buf[..], &[128, 1, 1, 1, 1, 130, 0, 0, 3, 7, 1, 138, 146, 99, 14, 206, 51, 173]);
}

#[test]
fn prepare_buffer_needs_a_session() {
    let mac = Mac::<EU868, DynamicChannelPlan<EU868>>::new(
        Default::default(),
        Credentials::new([0u8; 8], [0u8; 8], [0u8; 16]),
    );
    assert_eq!(mac.prepare_buffer(&specs(), &[1], 1, false, false), Err(Error::NetworkNotJoined));
    let mut expired = joined_eu868();
    expired.session.as_mut().unwrap().fcnt_up = 0xFFFF;
    assert_eq!(expired.prepare_buffer(&specs(), &[1], 1, false, false), Err(Error::SessionExpired));
}

#[test]
fn prepare_send_counts_and_confirms_with_answers() {
    let mut mac = joined_eu868();
    mac.uplink_cmds.push(UplinkMacCommandCreator::LinkADRAns(LinkADRAnsCreator::new())).unwrap();
    let (frame, confirmed) = mac.prepare_send(&specs(), false, &[1, 2, 3], 1, false).unwrap();
    assert!(confirmed);
    assert_eq!(mac.session.unwrap().fcnt_up, 1);
    // Confirmed data up, FCnt 1 in the header.
    assert_eq!(frame[0], 0x80);
    assert_eq!(frame[6], 1);
}

#[test]
fn handle_downlink_macs_answers() {
    let mut mac = joined_eu868();
    let ctx = DownlinkContext { adaptive_data_rate_enabled: true, battery: 255, snr: 5 };
    let cmds = [
        DownlinkMacCommand::DevStatusReq(DevStatusReqPayload()),
        DownlinkMacCommand::RXTimingSetupReq(RXTimingSetupReqPayload::new(&[0]).unwrap()),
        // DR3, power index 2, channels 0..2, control 0, one transmission
        DownlinkMacCommand::LinkADRReq(LinkADRReqPayload::new(&[0x32, 0x07, 0x00, 0x01]).unwrap()),
    ];
    let mut notes: Vec<DeviceNotification> = Vec::new();
    mac.handle_downlink_macs(&specs(), &ctx, &cmds, &mut notes).unwrap();
    assert!(notes.is_empty());
    assert_eq!(mac.configuration.rx_delay, Some(1));
    assert_eq!(mac.configuration.tx_data_rate, Some(DR::_3));
    assert_eq!(mac.configuration.tx_power, Some(12));
    assert_eq!(mac.uplink_cmds.len(), 3);
    assert_eq!(mac.uplink_cmds[0].build(), &[0x06, 255, 5]);
    assert_eq!(mac.uplink_cmds[1].build(), &[0x08]);
    assert_eq!(mac.uplink_cmds[2].build(), &[0x03, 0x07]);
}

#[test]
fn dev_status_margin_out_of_range_fails() {
    let mut mac = joined_eu868();
    let ctx = DownlinkContext { adaptive_data_rate_enabled: true, battery: 255, snr: 40 };
    let cmds = [DownlinkMacCommand::DevStatusReq(DevStatusReqPayload())];
    let mut notes: Vec<DeviceNotification> = Vec::new();
    assert_eq!(
        mac.handle_downlink_macs(&specs(), &ctx, &cmds, &mut notes),
        Err(Error::MacCommandCreator(lorawan::encoding::Error::OutOfRange))
    );
}

#[test]
fn answers_beyond_fifteen_fail() {
    let mut mac = joined_eu868();
    let ctx = DownlinkContext { adaptive_data_rate_enabled: true, battery: 0, snr: 0 };
    let cmds = [DownlinkMacCommand::DevStatusReq(DevStatusReqPayload()); 16];
    let mut notes: Vec<DeviceNotification> = Vec::new();
    assert_eq!(mac.handle_downlink_macs(&specs(), &ctx, &cmds, &mut notes), Err(Error::FOptsFull));
    assert_eq!(mac.uplink_cmds.len(), 15);
}

#[test]
fn send_response_without_downlink() {
    let mut mac = joined_eu868();
    let ctx = DownlinkContext { adaptive_data_rate_enabled: true, battery: 0, snr: 0 };
    let mut notes: Vec<DeviceNotification> = Vec::new();
    mac.uplink_cmds.push(UplinkMacCommandCreator::LinkADRAns(LinkADRAnsCreator::new())).unwrap();
    mac.ack_next = true;
    assert_eq!(mac.handle_send_response(&specs(), &ctx, None, true, &mut notes), Err(Error::NoResponse));
    assert!(!mac.ack_next);
    assert!(mac.uplink_cmds.is_empty());
    assert_eq!(mac.handle_send_response(&specs(), &ctx, None, false, &mut notes), Ok(None));
}

#[test]
fn receive_refuses_garbage_and_counts_it() {
    let mut mac = joined_eu868();
    assert_eq!(
        mac.receive_data_frame(vec![]).err(),
        Some(Error::Encoding(lorawan::encoding::Error::PhyDataEmpty))
    );
    assert_eq!(mac.session.unwrap().adr_ack_cnt, 1);
}

#[test]
fn rx_windows() {
    let mut mac = joined_eu868();
    let join = mac.get_rx_windows(Frame::Join);
    assert_eq!((join.rx1_open, join.rx2_open), (4985, 5985));
    let data = mac.get_rx_windows(Frame::Data);
    assert_eq!((data.rx1_open, data.rx2_open), (985, 1985));
    mac.configuration.rx_delay = Some(5);
    let data = mac.get_rx_windows(Frame::Data);
    assert_eq!((data.rx1_open, data.rx2_open), (4985, 5985));
}

#[test]
fn adr_back_off_steps_down() {
    let mut mac = joined_eu868();
    mac.configuration = Configuration { tx_power: Some(4), tx_data_rate: Some(DR::_3), ..Default::default() };
    mac.session.as_mut().unwrap().adr_ack_cnt = 96;
    mac.adr_back_off(&specs());
    assert_eq!(mac.configuration.tx_power, None);
    assert_eq!(mac.configuration.tx_data_rate, Some(DR::_2));
    mac.session.as_mut().unwrap().adr_ack_cnt = 97;
    mac.adr_back_off(&specs());
    assert_eq!(mac.configuration.tx_data_rate, Some(DR::_2));
}

#[test]
fn join_request_layout() {
    let mut mac = Mac::<EU868, DynamicChannelPlan<EU868>>::new(
        Default::default(),
        Credentials::new([1, 2, 3, 4, 5, 6, 7, 8], [9, 10, 11, 12, 13, 14, 15, 16], [0u8; 16]),
    );
    let jr = mac.prepare_join();
    assert_eq!(mac.credentials.dev_nonce, 1);
    assert_eq!(jr[0], 0);
    assert_eq!(&jr[1..9], &[1, 2, 3, 4, 5, 6, 7, 8]);
    assert_eq!(&jr[9..17], &[9, 10, 11, 12, 13, 14, 15, 16]);
    assert_eq!(&jr[17..19], &[1, 0]);
}

#[test]
fn join_accept_refusals() {
    let mut mac = Mac::<EU868, DynamicChannelPlan<EU868>>::new(
        Default::default(),
        Credentials::new([0u8; 8], [0u8; 8], [0u8; 16]),
    );
    assert_eq!(mac.handle_join_accept(&specs(), None), Err(Error::NoResponse));
    // A data frame where a JoinAccept is expected.
    let frame = vec![0x60, 1, 1, 1, 1, 0, 0, 0, 0, 0, 0, 0];
    assert_eq!(mac.handle_join_accept(&specs(), Some(frame)), Err(Error::InvalidPayloadType));
    // A JoinAccept with a wrong MIC.
    let mut ja = vec![0x20u8];
    ja.extend_from_slice(&[0u8; 16]);
    assert_eq!(mac.handle_join_accept(&specs(), Some(ja)), Err(Error::InvalidMic));
    assert!(mac.session.is_none());
    assert!(!mac.is_joined());
}

#[test]
fn rx_quality_accessors() {
    let q = RxQuality::new(-80, 7);
    assert_eq!(q.rssi(), -80);
    assert_eq!(q.snr(), 7);
}

#[test]
fn prepare_buffer_fills_the_whole_buffer() {
    let mac = joined_eu868();
    let fits = mac.prepare_buffer(&specs(), &[7u8; 242], 1, false, false).unwrap();
    assert_eq!(fits.len(), 255);
    let lorawan_err = mac.prepare_buffer(&specs(), &[7u8; 243], 1, false, false);
    assert_eq!(lorawan_err, Err(Error::Creator(lorawan::encoding::Error::BufferTooSmall)));
}

#[test]
fn session_checks_come_before_the_payload_size() {
    let mut mac = Mac::<EU868, DynamicChannelPlan<EU868>>::new(
        Default::default(),
        Credentials::new([0u8; 8], [0u8; 8], [0u8; 16]),
    );
    let big = vec![0u8; 400];
    assert_eq!(mac.prepare_send(&specs(), true, &big, 1, false), Err(Error::NetworkNotJoined));
    let mut expired = joined_eu868();
    expired.session.as_mut().unwrap().fcnt_up = 0xFFFF;
    assert_eq!(expired.prepare_send(&specs(), true, &big, 1, false), Err(Error::SessionExpired));
    let mut live = joined_eu868();
    assert_eq!(
        live.prepare_send(&specs(), false, &big, 1, false),
        Err(Error::Creator(lorawan::encoding::Error::BufferTooSmall))
    );
    assert_eq!(live.session.unwrap().fcnt_up, 1);
}

#[test]
fn accepted_link_adr_mask_is_applied() {
    let mut mac = joined_eu868();
    let ctx = DownlinkContext { adaptive_data_rate_enabled: true, battery: 255, snr: 5 };
    // Channels 0 to 2 of group 0.
    let cmds = [DownlinkMacCommand::LinkADRReq(LinkADRReqPayload::new(&[0x32, 0x07, 0x00, 0x01]).unwrap())];
    let mut notes: Vec<DeviceNotification> = Vec::new();
    mac.handle_downlink_macs(&specs(), &ctx, &cmds, &mut notes).unwrap();
    let mask = mac.channel_plan.get_channel_mask();
    assert!(mask[..3].iter().all(|b| *b));
    assert!(mask[3..16].iter().all(|b| !*b));
    assert!(mask[16..].iter().all(|b| *b));
}

#[test]
fn link_adr_block_builds_one_mask() {
    let mut mac = joined_eu868();
    let ctx = DownlinkContext { adaptive_data_rate_enabled: true, battery: 255, snr: 5 };
    let cmds = [
        // Group 0: channel 0 only.
        DownlinkMacCommand::LinkADRReq(LinkADRReqPayload::new(&[0x32, 0x01, 0x00, 0x01]).unwrap()),
        // Group 1: channel 16 only.
        DownlinkMacCommand::LinkADRReq(LinkADRReqPayload::new(&[0x32, 0x01, 0x00, 0x11]).unwrap()),
    ];
    let mut notes: Vec<DeviceNotification> = Vec::new();
    mac.handle_downlink_macs(&specs(), &ctx, &cmds, &mut notes).unwrap();
    assert_eq!(mac.uplink_cmds.len(), 2);
    let mask = mac.channel_plan.get_channel_mask();
    assert!(mask[0]);
    assert!(mask[1..16].iter().all(|b| !*b));
    assert!(mask[16]);
    assert!(mask[17..32].iter().all(|b| !*b));
    assert!(mask[32..].iter().all(|b| *b));
}

#[test]
fn rejected_link_adr_leaves_the_mask() {
    let mut mac = joined_eu868();
    let ctx = DownlinkContext { adaptive_data_rate_enabled: true, battery: 255, snr: 5 };
    // Power index 8 is refused in EU868, so with ADR on nothing is applied.
    let cmds = [DownlinkMacCommand::LinkADRReq(LinkADRReqPayload::new(&[0x38, 0x07, 0x00, 0x01]).unwrap())];
    let mut notes: Vec<DeviceNotification> = Vec::new();
    mac.handle_downlink_macs(&specs(), &ctx, &cmds, &mut notes).unwrap();
    assert!(mac.channel_plan.get_channel_mask().iter().all(|b| *b));
    assert_eq!(mac.configuration.tx_data_rate, None);
    assert_eq!(mac.uplink_cmds[0].build(), &[0x03, 0x03]);
}
