use lorawan::channel_mask::ChannelMask;
use lorawan::device::radio_buffer::{Error, RadioBuffer};

#[test]
fn radio_buffer_fills_and_refuses_overflow() {
    let mut buf: RadioBuffer<8> = RadioBuffer::new();
    assert!(buf.as_ref().is_empty());
    assert_eq!(buf.extend_from_slice(&[1, 2, 3]), Ok(()));
    assert_eq!(buf.as_ref(), &[1, 2, 3]);
    assert_eq!(buf.extend_from_slice(&[4, 5, 6, 7]), Ok(()));
    assert_eq!(buf.as_ref(), &[1, 2, 3, 4, 5, 6, 7]);
    assert_eq!(buf.extend_from_slice(&[8]), Err(Error::BufferFull));
    assert_eq!(buf.as_ref(), &[1, 2, 3, 4, 5, 6, 7]);
    buf.clear();
    assert!(buf.as_ref().is_empty());
}

#[test]
fn radio_buffer_raw_writes() {
    let mut buf: RadioBuffer<16> = RadioBuffer::new();
    {
        let raw = buf.as_raw_slice();
        raw[0] = 0xaa;
        raw[1] = 0xbb;
    }
    buf.inc(2);
    assert_eq!(buf.as_ref(), &[0xaa, 0xbb]);
}

#[test]
fn channel_mask_statuses() {
    let mask = ChannelMask::from_bytes([0x81, 0x02]);
    let s = mask.statuses();
    assert!(s[0]);
    assert!(s[7]);
    assert!(s[9]);
    assert!(!s[1]);
    assert!(!s[8]);
    assert!(!s[15]);
    assert_eq!(mask.is_enabled(7), Ok(true));
    assert_eq!(mask.is_enabled(8), Ok(false));
    assert!(mask.is_enabled(16).is_err());
    assert_eq!(mask.as_bytes(), [0x81, 0x02]);
    assert!(ChannelMask::new(&[1]).is_err());
    assert_eq!(ChannelMask::new(&[1, 2]).unwrap().as_bytes(), [1, 2]);
}
