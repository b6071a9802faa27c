use lorawan::encoding::maccommandcreator::{build_mac_commands, LinkADRAnsCreator, NewChannelAnsCreator};
use lorawan::encoding::maccommands::{
    parse_mac_commands, DevStatusReqPayload, LinkADRReqPayload, MacCommand, SerializableMacCommand,
};
use lorawan::encoding::parser::FHDR;
use lorawan::mac::mac_1_0_4::encoding::maccommandcreator::UplinkMacCommandCreator;
use lorawan::mac::mac_1_0_4::encoding::maccommands::{downlink_commands, DownlinkMacCommand};
use lorawan::encoding::maccommands::MacCommandIterator;

#[test]
fn test_one_command() {
    let data = [77, 251, 3, 224, 161, 0, 0, DevStatusReqPayload::cid()];
    let fhdr = FHDR::new_from_raw(&data, true);
    let mut iterator = MacCommandIterator::from_fhdr_downlink(&fhdr);
    assert_eq!(iterator.next_downlink(), Some(DownlinkMacCommand::DevStatusReq(DevStatusReqPayload())));
    assert_eq!(iterator.next_downlink(), None)
}

#[test]
fn test_build_command() {
    let mut cmds: heapless::Vec<UplinkMacCommandCreator, 15> = heapless::Vec::new();
    let mut ans = LinkADRAnsCreator::new();
    ans.set_channel_mask_ack(true);
    ans.set_data_rate_ack(true);
    ans.set_tx_power_ack(true);
    cmds.push(UplinkMacCommandCreator::LinkADRAns(ans)).unwrap();
    let mut buf: Vec<u8> = vec![0; 4];

    let mut dyn_cmds: heapless::Vec<&UplinkMacCommandCreator, 8> = heapless::Vec::new();
    for cmd in cmds.iter() {
        if let Err(_e) = dyn_cmds.push(cmd) {
            panic!("dyn_cmds too small compared to cmds")
        }
    }

    assert_eq!(dyn_cmds.first().unwrap().payload_len(), 1);

    build_mac_commands(cmds.as_slice(), &mut buf).unwrap();

    assert_eq!(buf, [0x03, 0x07, 0x00, 0x00])
}

#[test]
fn build_mac_commands_refuses_short_buffer() {
    let cmds = [UplinkMacCommandCreator::LinkADRAns(LinkADRAnsCreator::new())];
    let mut buf: Vec<u8> = vec![9; 1];
    assert_eq!(
        build_mac_commands(&cmds, &mut buf),
        Err("failed to serialize mac commands in provided buffer: too small")
    );
    assert_eq!(buf, [9]);
}

#[test]
fn new_channel_ans_bits() {
    let mut ans = NewChannelAnsCreator::new();
    ans.set_data_rate_range_ack(true);
    assert_eq!(ans.build(), &[0x07, 0x02]);
    ans.set_channel_frequency_ack(true);
    assert_eq!(ans.build(), &[0x07, 0x03]);
    ans.set_data_rate_range_ack(false);
    assert_eq!(ans.build(), &[0x07, 0x01]);
}

#[test]
fn downlink_commands_stop_at_unknown_bytes() {
    // LinkADRReq, DevStatusReq, then an unknown identifier.
    let data = [0x03, 0x21, 0xff, 0x00, 0x01, 0x06, 0x42, 0x06];
    let cmds = downlink_commands(&data);
    assert_eq!(cmds.len(), 2);
    assert_eq!(cmds[0], DownlinkMacCommand::LinkADRReq(LinkADRReqPayload::new(&[0x21, 0xff, 0x00, 0x01]).unwrap()));
    assert_eq!(cmds[1], DownlinkMacCommand::DevStatusReq(DevStatusReqPayload()));
}

#[test]
fn link_adr_req_fields() {
    let p = LinkADRReqPayload::new(&[0x35, 0x07, 0x00, 0x61]).unwrap();
    assert_eq!(p.data_rate(), 3);
    assert_eq!(p.tx_power(), 5);
    assert_eq!(p.redundancy().channel_mask_control(), 6);
    assert_eq!(p.redundancy().number_of_transmissions(), 1);
    let mask = p.channel_mask();
    assert_eq!(mask.is_enabled(0), Ok(true));
    assert_eq!(mask.is_enabled(2), Ok(true));
    assert_eq!(mask.is_enabled(3), Ok(false));
    assert!(mask.is_enabled(16).is_err());
}

#[test]
fn uplink_answers_parse_back() {
    let mut ans = LinkADRAnsCreator::new();
    ans.set_tx_power_ack(true);
    let cmds = [UplinkMacCommandCreator::LinkADRAns(ans)];
    let mut buf: Vec<u8> = vec![0; 2];
    build_mac_commands(&cmds, &mut buf).unwrap();
    let mut it = parse_mac_commands(&buf, true);
    match it.next() {
        Some(MacCommand::Uplink(c)) => assert_eq!(c.cid(), 0x03),
        other => panic!("unexpected {:?}", other),
    }
    assert!(it.next().is_none());
}
