use lorawan::encoding::parser::{parse, PhyPayload};

fn parse_error(bytes: Vec<u8>) -> Option<&'static str> {
    parse(bytes).err()
}

#[test]
fn parse_error_texts() {
    assert_eq!(parse_error(vec![]), Some("can not parse empty payload as LoRaWAN phy payload"));
    assert_eq!(parse_error(vec![0x41; 12]), Some("Unsupported major version"));
    assert_eq!(parse_error(vec![0x40; 11]), Some("insufficient number of bytes"));
    assert_eq!(parse_error(vec![0x00; 12]), Some("can not build JoinRequestPayload from the provided data"));
    assert_eq!(parse_error(vec![0x20; 12]), Some("can not build EncryptedJoinAcceptPayload from the provided data"));
    assert_eq!(parse_error(vec![0xe0; 12]), Some("unsupported message type"));
}

#[test]
fn data_frame_must_hold_its_fopts() {
    // An unconfirmed uplink whose FCtrl announces 5 FOpts bytes needs 17 bytes.
    let mut short = vec![0u8; 12];
    short[0] = 0x40;
    short[5] = 0x05;
    assert_eq!(parse_error(short.clone()), Some("can not build EncryptedDataPayload from the provided data"));
    let mut long = short;
    long.resize(17, 0);
    assert!(matches!(parse(long), Ok(PhyPayload::Data(_))));
}
