use vstd::prelude::*;

use super::maccommands::{cmds_bytes, lemma_cmds_bytes_len, SerializableMacCommand};
use crate::channel_mask::bit_set;
use crate::mac::mac_1_0_4::encoding::maccommandcreator::UplinkMacCommandCreator;

verus! {

/// `b` with bit `k` set to `v`.
pub open spec fn with_bit(b: u8, k: u8, v: bool) -> u8 {
    if v {
        b | (1u8 << k)
    } else {
        b & !(1u8 << k)
    }
}

/// Setting bit `k` changes bit `k` and no other.
pub proof fn lemma_with_bit(b: u8, k: u8, v: bool, j: u8)
    requires
        k < 8,
        j < 8,
    ensures
        bit_set(with_bit(b, k, v), j as nat) == if j == k {
            v
        } else {
            bit_set(b, j as nat)
        },
{
    if v {
        assert(((b | (1u8 << k)) >> j) & 1 == 1 <==> (j == k || (b >> j) & 1 == 1)) by (bit_vector)
            requires
                k < 8,
                j < 8,
        ;
    } else {
        assert(((b & !(1u8 << k)) >> j) & 1 == 1 <==> (j != k && (b >> j) & 1 == 1)) by (bit_vector)
            requires
                k < 8,
                j < 8,
        ;
    }
}

/// The margin byte of a DevStatusAns: the margin as a 6-bit two's complement number.
pub open spec fn margin_byte(margin: i8) -> u8 {
    if margin >= 0 {
        margin as u8
    } else {
        (margin + 64) as u8
    }
}

/// Creates LinkCheckReq (CID 0x02): 1 byte(s) including the CID.
#[derive(Debug, Clone, Copy, PartialEq, Eq)]
pub struct LinkCheckReqCreator {
    data: [u8; 1],
}

impl LinkCheckReqCreator {
    /// The serialized command, CID first.
    pub closed spec fn bytes(&self) -> Seq<u8> {
        self.data@
    }

    /// The serialized command always holds 1 byte(s).
    pub broadcast proof fn lemma_bytes_len(&self)
        ensures
            #[trigger] self.bytes().len() == 1,
    {
    }

    /// The command whose serialized bytes are the first 1 of `b`.
    pub closed spec fn of_bytes(b: Seq<u8>) -> Self {
        LinkCheckReqCreator { data: [b[0]] }
    }

    /// A command is the one its bytes serialize, and those are the bytes it was built
    /// from.
    pub proof fn lemma_of_bytes(self, b: Seq<u8>)
        ensures
            self == Self::of_bytes(self.bytes()),
            b.len() == 1 ==> Self::of_bytes(b).bytes() == b,
    {
        assert(self.data =~= [self.data[0]]);
        assert(b.len() == 1 ==> Self::of_bytes(b).bytes() =~= b);
    }

    /// Creates a new instance of the class.
    pub fn new() -> (res: Self)
        ensures
            res.bytes() == seq![0x02u8],
    {
        let data: [u8; 1] = [0x02];
        assert(data@ =~= seq![0x02u8]);
        Self { data }
    }

    /// Returns the serialized version of the class as bytes.
    pub fn build(&self) -> (res: &[u8])
        ensures
            res@ == self.bytes(),
    {
        self.data.as_slice()
    }
}

impl SerializableMacCommand for LinkCheckReqCreator {
    open spec fn spec_bytes(&self) -> Seq<u8> {
        self.bytes()
    }

    fn payload_bytes(&self) -> (res: &[u8]) {
        vstd::slice::slice_subrange(self.data.as_slice(), 1, 1)
    }

    fn cid(&self) -> (res: u8) {
        self.data[0]
    }

    fn payload_len(&self) -> (res: usize) {
        0
    }
}

/// Creates LinkADRAns (CID 0x03): 2 byte(s) including the CID.
#[derive(Debug, Clone, Copy, PartialEq, Eq)]
pub struct LinkADRAnsCreator {
    data: [u8; 2],
}

impl LinkADRAnsCreator {
    /// The serialized command, CID first.
    pub closed spec fn bytes(&self) -> Seq<u8> {
        self.data@
    }

    /// The serialized command always holds 2 byte(s).
    pub broadcast proof fn lemma_bytes_len(&self)
        ensures
            #[trigger] self.bytes().len() == 2,
    {
    }

    /// The command whose serialized bytes are the first 2 of `b`.
    pub closed spec fn of_bytes(b: Seq<u8>) -> Self {
        LinkADRAnsCreator { data: [b[0], b[1]] }
    }

    /// A command is the one its bytes serialize, and those are the bytes it was built
    /// from.
    pub proof fn lemma_of_bytes(self, b: Seq<u8>)
        ensures
            self == Self::of_bytes(self.bytes()),
            b.len() == 2 ==> Self::of_bytes(b).bytes() == b,
    {
        assert(self.data =~= [self.data[0], self.data[1]]);
        assert(b.len() == 2 ==> Self::of_bytes(b).bytes() =~= b);
    }

    /// Creates a new instance of the class.
    pub fn new() -> (res: Self)
        ensures
            res.bytes() == seq![0x03u8, 0u8],
    {
        let data: [u8; 2] = [0x03, 0];
        assert(data@ =~= seq![0x03u8, 0u8]);
        Self { data }
    }

    /// Returns the serialized version of the class as bytes.
    pub fn build(&self) -> (res: &[u8])
        ensures
            res@ == self.bytes(),
    {
        self.data.as_slice()
    }

    /// The serialized bytes.
    pub fn get_data(self) -> (res: [u8; 2])
        ensures
            res@ == self.bytes(),
    {
        self.data
    }

    /// Whether the answer acknowledges this element (bit 2 of the status byte).
    pub open spec fn spec_tx_power_ack(&self) -> bool {
        bit_set(self.bytes()[1], 2)
    }

    /// Sets bit 2 of the status byte to `ack`; the other bytes and bits are unchanged.
    pub fn set_tx_power_ack(&mut self, ack: bool)
        ensures
            final(self).bytes() == old(self).bytes().update(1, with_bit(old(self).bytes()[1], 2, ack)),
    {
        let b = self.data[1];
        let r: u8 = if ack { b | (1u8 << 2u8) } else { b & !(1u8 << 2u8) };
        self.data[1] = r;
        assert(self.data@ =~= old(self).data@.update(1, with_bit(old(self).data@[1], 2, ack)));
    }

    /// Whether the answer acknowledges this element (bit 1 of the status byte).
    pub open spec fn spec_data_rate_ack(&self) -> bool {
        bit_set(self.bytes()[1], 1)
    }

    /// Sets bit 1 of the status byte to `ack`; the other bytes and bits are unchanged.
    pub fn set_data_rate_ack(&mut self, ack: bool)
        ensures
            final(self).bytes() == old(self).bytes().update(1, with_bit(old(self).bytes()[1], 1, ack)),
    {
        let b = self.data[1];
        let r: u8 = if ack { b | (1u8 << 1u8) } else { b & !(1u8 << 1u8) };
        self.data[1] = r;
        assert(self.data@ =~= old(self).data@.update(1, with_bit(old(self).data@[1], 1, ack)));
    }

    /// Whether the answer acknowledges this element (bit 0 of the status byte).
    pub open spec fn spec_channel_mask_ack(&self) -> bool {
        bit_set(self.bytes()[1], 0)
    }

    /// Sets bit 0 of the status byte to `ack`; the other bytes and bits are unchanged.
    pub fn set_channel_mask_ack(&mut self, ack: bool)
        ensures
            final(self).bytes() == old(self).bytes().update(1, with_bit(old(self).bytes()[1], 0, ack)),
    {
        let b = self.data[1];
        let r: u8 = if ack { b | (1u8 << 0u8) } else { b & !(1u8 << 0u8) };
        self.data[1] = r;
        assert(self.data@ =~= old(self).data@.update(1, with_bit(old(self).data@[1], 0, ack)));
    }
}

impl SerializableMacCommand for LinkADRAnsCreator {
    open spec fn spec_bytes(&self) -> Seq<u8> {
        self.bytes()
    }

    fn payload_bytes(&self) -> (res: &[u8]) {
        vstd::slice::slice_subrange(self.data.as_slice(), 1, 2)
    }

    fn cid(&self) -> (res: u8) {
        self.data[0]
    }

    fn payload_len(&self) -> (res: usize) {
        1
    }
}

/// Creates DutyCycleAns (CID 0x04): 1 byte(s) including the CID.
#[derive(Debug, Clone, Copy, PartialEq, Eq)]
pub struct DutyCycleAnsCreator {
    data: [u8; 1],
}

impl DutyCycleAnsCreator {
    /// The serialized command, CID first.
    pub closed spec fn bytes(&self) -> Seq<u8> {
        self.data@
    }

    /// The serialized command always holds 1 byte(s).
    pub broadcast proof fn lemma_bytes_len(&self)
        ensures
            #[trigger] self.bytes().len() == 1,
    {
    }

    /// The command whose serialized bytes are the first 1 of `b`.
    pub closed spec fn of_bytes(b: Seq<u8>) -> Self {
        DutyCycleAnsCreator { data: [b[0]] }
    }

    /// A command is the one its bytes serialize, and those are the bytes it was built
    /// from.
    pub proof fn lemma_of_bytes(self, b: Seq<u8>)
        ensures
            self == Self::of_bytes(self.bytes()),
            b.len() == 1 ==> Self::of_bytes(b).bytes() == b,
    {
        assert(self.data =~= [self.data[0]]);
        assert(b.len() == 1 ==> Self::of_bytes(b).bytes() =~= b);
    }

    /// Creates a new instance of the class.
    pub fn new() -> (res: Self)
        ensures
            res.bytes() == seq![0x04u8],
    {
        let data: [u8; 1] = [0x04];
        assert(data@ =~= seq![0x04u8]);
        Self { data }
    }

    /// Returns the serialized version of the class as bytes.
    pub fn build(&self) -> (res: &[u8])
        ensures
            res@ == self.bytes(),
    {
        self.data.as_slice()
    }
}

impl SerializableMacCommand for DutyCycleAnsCreator {
    open spec fn spec_bytes(&self) -> Seq<u8> {
        self.bytes()
    }

    fn payload_bytes(&self) -> (res: &[u8]) {
        vstd::slice::slice_subrange(self.data.as_slice(), 1, 1)
    }

    fn cid(&self) -> (res: u8) {
        self.data[0]
    }

    fn payload_len(&self) -> (res: usize) {
        0
    }
}

/// Creates RXParamSetupAns (CID 0x05): 2 byte(s) including the CID.
#[derive(Debug, Clone, Copy, PartialEq, Eq)]
pub struct RXParamSetupAnsCreator {
    data: [u8; 2],
}

impl RXParamSetupAnsCreator {
    /// The serialized command, CID first.
    pub closed spec fn bytes(&self) -> Seq<u8> {
        self.data@
    }

    /// The serialized command always holds 2 byte(s).
    pub broadcast proof fn lemma_bytes_len(&self)
        ensures
            #[trigger] self.bytes().len() == 2,
    {
    }

    /// The command whose serialized bytes are the first 2 of `b`.
    pub closed spec fn of_bytes(b: Seq<u8>) -> Self {
        RXParamSetupAnsCreator { data: [b[0], b[1]] }
    }

    /// A command is the one its bytes serialize, and those are the bytes it was built
    /// from.
    pub proof fn lemma_of_bytes(self, b: Seq<u8>)
        ensures
            self == Self::of_bytes(self.bytes()),
            b.len() == 2 ==> Self::of_bytes(b).bytes() == b,
    {
        assert(self.data =~= [self.data[0], self.data[1]]);
        assert(b.len() == 2 ==> Self::of_bytes(b).bytes() =~= b);
    }

    /// Creates a new instance of the class.
    pub fn new() -> (res: Self)
        ensures
            res.bytes() == seq![0x05u8, 0u8],
    {
        let data: [u8; 2] = [0x05, 0];
        assert(data@ =~= seq![0x05u8, 0u8]);
        Self { data }
    }

    /// Returns the serialized version of the class as bytes.
    pub fn build(&self) -> (res: &[u8])
        ensures
            res@ == self.bytes(),
    {
        self.data.as_slice()
    }

    /// The serialized bytes.
    pub fn get_data(self) -> (res: [u8; 2])
        ensures
            res@ == self.bytes(),
    {
        self.data
    }

    /// Whether the answer acknowledges this element (bit 2 of the status byte).
    pub open spec fn spec_rx1_data_rate_offset_ack(&self) -> bool {
        bit_set(self.bytes()[1], 2)
    }

    /// Sets bit 2 of the status byte to `ack`; the other bytes and bits are unchanged.
    pub fn set_rx1_data_rate_offset_ack(&mut self, ack: bool)
        ensures
            final(self).bytes() == old(self).bytes().update(1, with_bit(old(self).bytes()[1], 2, ack)),
    {
        let b = self.data[1];
        let r: u8 = if ack { b | (1u8 << 2u8) } else { b & !(1u8 << 2u8) };
        self.data[1] = r;
        assert(self.data@ =~= old(self).data@.update(1, with_bit(old(self).data@[1], 2, ack)));
    }

    /// Whether the answer acknowledges this element (bit 1 of the status byte).
    pub open spec fn spec_rx2_data_rate_ack(&self) -> bool {
        bit_set(self.bytes()[1], 1)
    }

    /// Sets bit 1 of the status byte to `ack`; the other bytes and bits are unchanged.
    pub fn set_rx2_data_rate_ack(&mut self, ack: bool)
        ensures
            final(self).bytes() == old(self).bytes().update(1, with_bit(old(self).bytes()[1], 1, ack)),
    {
        let b = self.data[1];
        let r: u8 = if ack { b | (1u8 << 1u8) } else { b & !(1u8 << 1u8) };
        self.data[1] = r;
        assert(self.data@ =~= old(self).data@.update(1, with_bit(old(self).data@[1], 1, ack)));
    }

    /// Whether the answer acknowledges this element (bit 0 of the status byte).
    pub open spec fn spec_channel_ack(&self) -> bool {
        bit_set(self.bytes()[1], 0)
    }

    /// Sets bit 0 of the status byte to `ack`; the other bytes and bits are unchanged.
    pub fn set_channel_ack(&mut self, ack: bool)
        ensures
            final(self).bytes() == old(self).bytes().update(1, with_bit(old(self).bytes()[1], 0, ack)),
    {
        let b = self.data[1];
        let r: u8 = if ack { b | (1u8 << 0u8) } else { b & !(1u8 << 0u8) };
        self.data[1] = r;
        assert(self.data@ =~= old(self).data@.update(1, with_bit(old(self).data@[1], 0, ack)));
    }
}

impl SerializableMacCommand for RXParamSetupAnsCreator {
    open spec fn spec_bytes(&self) -> Seq<u8> {
        self.bytes()
    }

    fn payload_bytes(&self) -> (res: &[u8]) {
        vstd::slice::slice_subrange(self.data.as_slice(), 1, 2)
    }

    fn cid(&self) -> (res: u8) {
        self.data[0]
    }

    fn payload_len(&self) -> (res: usize) {
        1
    }
}

/// Creates DevStatusAns (CID 0x06): 3 byte(s) including the CID.
#[derive(Debug, Clone, Copy, PartialEq, Eq)]
pub struct DevStatusAnsCreator {
    data: [u8; 3],
}

impl DevStatusAnsCreator {
    /// Sets the battery level: 0 for external power, 1..=254 for the level, 255 when
    /// unknown.
    pub fn set_battery(&mut self, battery: u8)
        ensures
            final(self).bytes() == old(self).bytes().update(1, battery),
    {
        self.data[1] = battery;
        assert(self.data@ =~= old(self).data@.update(1, battery));
    }

    /// Sets the demodulation margin, which must lie in -32..=31.
    pub fn set_margin(&mut self, margin: i8) -> (res: Result<(), crate::encoding::Error>)
        ensures
            res is Ok <==> -32 <= margin <= 31,
            res is Err ==> res == Err::<(), crate::encoding::Error>(crate::encoding::Error::OutOfRange)
                && final(self).bytes() == old(self).bytes(),
            res is Ok ==> final(self).bytes() == old(self).bytes().update(2, margin_byte(margin)),
    {
        if margin < -32 || margin > 31 {
            return Err(crate::encoding::Error::OutOfRange);
        }
        let b: u8 = if margin >= 0 { margin as u8 } else { (margin + 64) as u8 };
        self.data[2] = b;
        assert(self.data@ =~= old(self).data@.update(2, margin_byte(margin)));
        Ok(())
    }

    /// The serialized command, CID first.
    pub closed spec fn bytes(&self) -> Seq<u8> {
        self.data@
    }

    /// The serialized command always holds 3 byte(s).
    pub broadcast proof fn lemma_bytes_len(&self)
        ensures
            #[trigger] self.bytes().len() == 3,
    {
    }

    /// The command whose serialized bytes are the first 3 of `b`.
    pub closed spec fn of_bytes(b: Seq<u8>) -> Self {
        DevStatusAnsCreator { data: [b[0], b[1], b[2]] }
    }

    /// A command is the one its bytes serialize, and those are the bytes it was built
    /// from.
    pub proof fn lemma_of_bytes(self, b: Seq<u8>)
        ensures
            self == Self::of_bytes(self.bytes()),
            b.len() == 3 ==> Self::of_bytes(b).bytes() == b,
    {
        assert(self.data =~= [self.data[0], self.data[1], self.data[2]]);
        assert(b.len() == 3 ==> Self::of_bytes(b).bytes() =~= b);
    }

    /// Creates a new instance of the class.
    pub fn new() -> (res: Self)
        ensures
            res.bytes() == seq![0x06u8, 0u8, 0u8],
    {
        let data: [u8; 3] = [0x06, 0, 0];
        assert(data@ =~= seq![0x06u8, 0u8, 0u8]);
        Self { data }
    }

    /// Returns the serialized version of the class as bytes.
    pub fn build(&self) -> (res: &[u8])
        ensures
            res@ == self.bytes(),
    {
        self.data.as_slice()
    }

    /// The serialized bytes.
    pub fn get_data(self) -> (res: [u8; 3])
        ensures
            res@ == self.bytes(),
    {
        self.data
    }
}

impl SerializableMacCommand for DevStatusAnsCreator {
    open spec fn spec_bytes(&self) -> Seq<u8> {
        self.bytes()
    }

    fn payload_bytes(&self) -> (res: &[u8]) {
        vstd::slice::slice_subrange(self.data.as_slice(), 1, 3)
    }

    fn cid(&self) -> (res: u8) {
        self.data[0]
    }

    fn payload_len(&self) -> (res: usize) {
        2
    }
}

/// Creates NewChannelAns (CID 0x07): 2 byte(s) including the CID.
#[derive(Debug, Clone, Copy, PartialEq, Eq)]
pub struct NewChannelAnsCreator {
    data: [u8; 2],
}

impl NewChannelAnsCreator {
    /// The serialized command, CID first.
    pub closed spec fn bytes(&self) -> Seq<u8> {
        self.data@
    }

    /// The serialized command always holds 2 byte(s).
    pub broadcast proof fn lemma_bytes_len(&self)
        ensures
            #[trigger] self.bytes().len() == 2,
    {
    }

    /// The command whose serialized bytes are the first 2 of `b`.
    pub closed spec fn of_bytes(b: Seq<u8>) -> Self {
        NewChannelAnsCreator { data: [b[0], b[1]] }
    }

    /// A command is the one its bytes serialize, and those are the bytes it was built
    /// from.
    pub proof fn lemma_of_bytes(self, b: Seq<u8>)
        ensures
            self == Self::of_bytes(self.bytes()),
            b.len() == 2 ==> Self::of_bytes(b).bytes() == b,
    {
        assert(self.data =~= [self.data[0], self.data[1]]);
        assert(b.len() == 2 ==> Self::of_bytes(b).bytes() =~= b);
    }

    /// Creates a new instance of the class.
    pub fn new() -> (res: Self)
        ensures
            res.bytes() == seq![0x07u8, 0u8],
    {
        let data: [u8; 2] = [0x07, 0];
        assert(data@ =~= seq![0x07u8, 0u8]);
        Self { data }
    }

    /// Returns the serialized version of the class as bytes.
    pub fn build(&self) -> (res: &[u8])
        ensures
            res@ == self.bytes(),
    {
        self.data.as_slice()
    }

    /// The serialized bytes.
    pub fn get_data(self) -> (res: [u8; 2])
        ensures
            res@ == self.bytes(),
    {
        self.data
    }

    /// Whether the answer acknowledges this element (bit 1 of the status byte).
    pub open spec fn spec_data_rate_range_ack(&self) -> bool {
        bit_set(self.bytes()[1], 1)
    }

    /// Sets bit 1 of the status byte to `ack`; the other bytes and bits are unchanged.
    pub fn set_data_rate_range_ack(&mut self, ack: bool)
        ensures
            final(self).bytes() == old(self).bytes().update(1, with_bit(old(self).bytes()[1], 1, ack)),
    {
        let b = self.data[1];
        let r: u8 = if ack { b | (1u8 << 1u8) } else { b & !(1u8 << 1u8) };
        self.data[1] = r;
        assert(self.data@ =~= old(self).data@.update(1, with_bit(old(self).data@[1], 1, ack)));
    }

    /// Whether the answer acknowledges this element (bit 0 of the status byte).
    pub open spec fn spec_channel_frequency_ack(&self) -> bool {
        bit_set(self.bytes()[1], 0)
    }

    /// Sets bit 0 of the status byte to `ack`; the other bytes and bits are unchanged.
    pub fn set_channel_frequency_ack(&mut self, ack: bool)
        ensures
            final(self).bytes() == old(self).bytes().update(1, with_bit(old(self).bytes()[1], 0, ack)),
    {
        let b = self.data[1];
        let r: u8 = if ack { b | (1u8 << 0u8) } else { b & !(1u8 << 0u8) };
        self.data[1] = r;
        assert(self.data@ =~= old(self).data@.update(1, with_bit(old(self).data@[1], 0, ack)));
    }
}

impl SerializableMacCommand for NewChannelAnsCreator {
    open spec fn spec_bytes(&self) -> Seq<u8> {
        self.bytes()
    }

    fn payload_bytes(&self) -> (res: &[u8]) {
        vstd::slice::slice_subrange(self.data.as_slice(), 1, 2)
    }

    fn cid(&self) -> (res: u8) {
        self.data[0]
    }

    fn payload_len(&self) -> (res: usize) {
        1
    }
}

/// Creates RXTimingSetupAns (CID 0x08): 1 byte(s) including the CID.
#[derive(Debug, Clone, Copy, PartialEq, Eq)]
pub struct RXTimingSetupAnsCreator {
    data: [u8; 1],
}

impl RXTimingSetupAnsCreator {
    /// The serialized command, CID first.
    pub closed spec fn bytes(&self) -> Seq<u8> {
        self.data@
    }

    /// The serialized command always holds 1 byte(s).
    pub broadcast proof fn lemma_bytes_len(&self)
        ensures
            #[trigger] self.bytes().len() == 1,
    {
    }

    /// The command whose serialized bytes are the first 1 of `b`.
    pub closed spec fn of_bytes(b: Seq<u8>) -> Self {
        RXTimingSetupAnsCreator { data: [b[0]] }
    }

    /// A command is the one its bytes serialize, and those are the bytes it was built
    /// from.
    pub proof fn lemma_of_bytes(self, b: Seq<u8>)
        ensures
            self == Self::of_bytes(self.bytes()),
            b.len() == 1 ==> Self::of_bytes(b).bytes() == b,
    {
        assert(self.data =~= [self.data[0]]);
        assert(b.len() == 1 ==> Self::of_bytes(b).bytes() =~= b);
    }

    /// Creates a new instance of the class.
    pub fn new() -> (res: Self)
        ensures
            res.bytes() == seq![0x08u8],
    {
        let data: [u8; 1] = [0x08];
        assert(data@ =~= seq![0x08u8]);
        Self { data }
    }

    /// Returns the serialized version of the class as bytes.
    pub fn build(&self) -> (res: &[u8])
        ensures
            res@ == self.bytes(),
    {
        self.data.as_slice()
    }
}

impl SerializableMacCommand for RXTimingSetupAnsCreator {
    open spec fn spec_bytes(&self) -> Seq<u8> {
        self.bytes()
    }

    fn payload_bytes(&self) -> (res: &[u8]) {
        vstd::slice::slice_subrange(self.data.as_slice(), 1, 1)
    }

    fn cid(&self) -> (res: u8) {
        self.data[0]
    }

    fn payload_len(&self) -> (res: usize) {
        0
    }
}

/// Creates TXParamSetupAns (CID 0x09): 1 byte(s) including the CID.
#[derive(Debug, Clone, Copy, PartialEq, Eq)]
pub struct TXParamSetupAnsCreator {
    data: [u8; 1],
}

impl TXParamSetupAnsCreator {
    /// The serialized command, CID first.
    pub closed spec fn bytes(&self) -> Seq<u8> {
        self.data@
    }

    /// The serialized command always holds 1 byte(s).
    pub broadcast proof fn lemma_bytes_len(&self)
        ensures
            #[trigger] self.bytes().len() == 1,
    {
    }

    /// The command whose serialized bytes are the first 1 of `b`.
    pub closed spec fn of_bytes(b: Seq<u8>) -> Self {
        TXParamSetupAnsCreator { data: [b[0]] }
    }

    /// A command is the one its bytes serialize, and those are the bytes it was built
    /// from.
    pub proof fn lemma_of_bytes(self, b: Seq<u8>)
        ensures
            self == Self::of_bytes(self.bytes()),
            b.len() == 1 ==> Self::of_bytes(b).bytes() == b,
    {
        assert(self.data =~= [self.data[0]]);
        assert(b.len() == 1 ==> Self::of_bytes(b).bytes() =~= b);
    }

    /// Creates a new instance of the class.
    pub fn new() -> (res: Self)
        ensures
            res.bytes() == seq![0x09u8],
    {
        let data: [u8; 1] = [0x09];
        assert(data@ =~= seq![0x09u8]);
        Self { data }
    }

    /// Returns the serialized version of the class as bytes.
    pub fn build(&self) -> (res: &[u8])
        ensures
            res@ == self.bytes(),
    {
        self.data.as_slice()
    }
}

impl SerializableMacCommand for TXParamSetupAnsCreator {
    open spec fn spec_bytes(&self) -> Seq<u8> {
        self.bytes()
    }

    fn payload_bytes(&self) -> (res: &[u8]) {
        vstd::slice::slice_subrange(self.data.as_slice(), 1, 1)
    }

    fn cid(&self) -> (res: u8) {
        self.data[0]
    }

    fn payload_len(&self) -> (res: usize) {
        0
    }
}

/// Creates DlChannelAns (CID 0x0A): 2 byte(s) including the CID.
#[derive(Debug, Clone, Copy, PartialEq, Eq)]
pub struct DlChannelAnsCreator {
    data: [u8; 2],
}

impl DlChannelAnsCreator {
    /// The serialized command, CID first.
    pub closed spec fn bytes(&self) -> Seq<u8> {
        self.data@
    }

    /// The serialized command always holds 2 byte(s).
    pub broadcast proof fn lemma_bytes_len(&self)
        ensures
            #[trigger] self.bytes().len() == 2,
    {
    }

    /// The command whose serialized bytes are the first 2 of `b`.
    pub closed spec fn of_bytes(b: Seq<u8>) -> Self {
        DlChannelAnsCreator { data: [b[0], b[1]] }
    }

    /// A command is the one its bytes serialize, and those are the bytes it was built
    /// from.
    pub proof fn lemma_of_bytes(self, b: Seq<u8>)
        ensures
            self == Self::of_bytes(self.bytes()),
            b.len() == 2 ==> Self::of_bytes(b).bytes() == b,
    {
        assert(self.data =~= [self.data[0], self.data[1]]);
        assert(b.len() == 2 ==> Self::of_bytes(b).bytes() =~= b);
    }

    /// Creates a new instance of the class.
    pub fn new() -> (res: Self)
        ensures
            res.bytes() == seq![0x0Au8, 0u8],
    {
        let data: [u8; 2] = [0x0A, 0];
        assert(data@ =~= seq![0x0Au8, 0u8]);
        Self { data }
    }

    /// Returns the serialized version of the class as bytes.
    pub fn build(&self) -> (res: &[u8])
        ensures
            res@ == self.bytes(),
    {
        self.data.as_slice()
    }

    /// The serialized bytes.
    pub fn get_data(self) -> (res: [u8; 2])
        ensures
            res@ == self.bytes(),
    {
        self.data
    }

    /// Whether the answer acknowledges this element (bit 1 of the status byte).
    pub open spec fn spec_uplink_frequency_exists_ack(&self) -> bool {
        bit_set(self.bytes()[1], 1)
    }

    /// Sets bit 1 of the status byte to `ack`; the other bytes and bits are unchanged.
    pub fn set_uplink_frequency_exists_ack(&mut self, ack: bool)
        ensures
            final(self).bytes() == old(self).bytes().update(1, with_bit(old(self).bytes()[1], 1, ack)),
    {
        let b = self.data[1];
        let r: u8 = if ack { b | (1u8 << 1u8) } else { b & !(1u8 << 1u8) };
        self.data[1] = r;
        assert(self.data@ =~= old(self).data@.update(1, with_bit(old(self).data@[1], 1, ack)));
    }

    /// Whether the answer acknowledges this element (bit 0 of the status byte).
    pub open spec fn spec_channel_frequency_ack(&self) -> bool {
        bit_set(self.bytes()[1], 0)
    }

    /// Sets bit 0 of the status byte to `ack`; the other bytes and bits are unchanged.
    pub fn set_channel_frequency_ack(&mut self, ack: bool)
        ensures
            final(self).bytes() == old(self).bytes().update(1, with_bit(old(self).bytes()[1], 0, ack)),
    {
        let b = self.data[1];
        let r: u8 = if ack { b | (1u8 << 0u8) } else { b & !(1u8 << 0u8) };
        self.data[1] = r;
        assert(self.data@ =~= old(self).data@.update(1, with_bit(old(self).data@[1], 0, ack)));
    }
}

impl SerializableMacCommand for DlChannelAnsCreator {
    open spec fn spec_bytes(&self) -> Seq<u8> {
        self.bytes()
    }

    fn payload_bytes(&self) -> (res: &[u8]) {
        vstd::slice::slice_subrange(self.data.as_slice(), 1, 2)
    }

    fn cid(&self) -> (res: u8) {
        self.data[0]
    }

    fn payload_len(&self) -> (res: usize) {
        1
    }
}

/// Creates DeviceTimeReq (CID 0x0D): 1 byte(s) including the CID.
#[derive(Debug, Clone, Copy, PartialEq, Eq)]
pub struct DeviceTimeReqCreator {
    data: [u8; 1],
}

impl DeviceTimeReqCreator {
    /// The serialized command, CID first.
    pub closed spec fn bytes(&self) -> Seq<u8> {
        self.data@
    }

    /// The serialized command always holds 1 byte(s).
    pub broadcast proof fn lemma_bytes_len(&self)
        ensures
            #[trigger] self.bytes().len() == 1,
    {
    }

    /// The command whose serialized bytes are the first 1 of `b`.
    pub closed spec fn of_bytes(b: Seq<u8>) -> Self {
        DeviceTimeReqCreator { data: [b[0]] }
    }

    /// A command is the one its bytes serialize, and those are the bytes it was built
    /// from.
    pub proof fn lemma_of_bytes(self, b: Seq<u8>)
        ensures
            self == Self::of_bytes(self.bytes()),
            b.len() == 1 ==> Self::of_bytes(b).bytes() == b,
    {
        assert(self.data =~= [self.data[0]]);
        assert(b.len() == 1 ==> Self::of_bytes(b).bytes() =~= b);
    }

    /// Creates a new instance of the class.
    pub fn new() -> (res: Self)
        ensures
            res.bytes() == seq![0x0Du8],
    {
        let data: [u8; 1] = [0x0D];
        assert(data@ =~= seq![0x0Du8]);
        Self { data }
    }

    /// Returns the serialized version of the class as bytes.
    pub fn build(&self) -> (res: &[u8])
        ensures
            res@ == self.bytes(),
    {
        self.data.as_slice()
    }
}

impl SerializableMacCommand for DeviceTimeReqCreator {
    open spec fn spec_bytes(&self) -> Seq<u8> {
        self.bytes()
    }

    fn payload_bytes(&self) -> (res: &[u8]) {
        vstd::slice::slice_subrange(self.data.as_slice(), 1, 1)
    }

    fn cid(&self) -> (res: u8) {
        self.data[0]
    }

    fn payload_len(&self) -> (res: usize) {
        0
    }
}

pub broadcast group group_creator_lens {
    LinkCheckReqCreator::lemma_bytes_len,
    LinkADRAnsCreator::lemma_bytes_len,
    DutyCycleAnsCreator::lemma_bytes_len,
    RXParamSetupAnsCreator::lemma_bytes_len,
    DevStatusAnsCreator::lemma_bytes_len,
    NewChannelAnsCreator::lemma_bytes_len,
    RXTimingSetupAnsCreator::lemma_bytes_len,
    TXParamSetupAnsCreator::lemma_bytes_len,
    DlChannelAnsCreator::lemma_bytes_len,
    DeviceTimeReqCreator::lemma_bytes_len,
}

/// Serializes `cmds` one after the other at the start of `out`; the rest of `out` is
/// left as it was. Fails, writing nothing, when `out` is too short.
pub fn build_mac_commands(cmds: &[UplinkMacCommandCreator], out: &mut Vec<u8>) -> (res: Result<usize, &'static str>)
    requires
        cmds@.len() <= 0x1000_0000,
    ensures
        res is Err <==> cmds_bytes(cmds@).len() > old(out)@.len(),
        res is Err ==> final(out)@ == old(out)@,
        res matches Err(e) ==> e@ == "failed to serialize mac commands in provided buffer: too small"@,
        res matches Ok(n) ==> n == cmds_bytes(cmds@).len() && final(out)@ == cmds_bytes(cmds@)
            + old(out)@.subrange(n as int, old(out)@.len() as int),
{
    let total = super::maccommands::mac_commands_len(cmds);
    if total > out.len() {
        return Err("failed to serialize mac commands in provided buffer: too small");
    }
    let ghost orig = out@;
    let mut i: usize = 0;
    let mut pos: usize = 0;
    while i < cmds.len()
        invariant
            i <= cmds@.len() <= 0x1000_0000,
            total == cmds_bytes(cmds@).len(),
            total <= orig.len(),
            out@.len() == orig.len(),
            pos == cmds_bytes(cmds@.subrange(0, i as int)).len(),
            pos <= total,
            out@ == cmds_bytes(cmds@.subrange(0, i as int)) + orig.subrange(pos as int, orig.len() as int),
        decreases cmds@.len() - i,
    {
        let ghost prefix = cmds@.subrange(0, i as int);
        let ghost next = cmds@.subrange(0, i + 1);
        proof {
            assert(next.drop_last() =~= prefix);
            assert(next.last() == cmds@[i as int]);
            lemma_cmds_prefix_le(cmds@, i + 1);
        }
        let c = &cmds[i];
        let cid = c.cid();
        let l = c.payload_len();
        let bytes = c.payload_bytes();
        out.set(pos, cid);
        let mut j: usize = 0;
        while j < l
            invariant
                j <= l,
                l == bytes@.len(),
                pos + 1 + l <= total <= orig.len(),
                out@.len() == orig.len(),
                out@ == cmds_bytes(prefix) + c.spec_bytes().subrange(0, j + 1) + orig.subrange(pos + 1 + j, orig.len() as int),
                bytes@ == c.spec_bytes().drop_first(),
                c.spec_bytes().len() == l + 1,
                pos == cmds_bytes(prefix).len(),
            decreases l - j,
        {
            out.set(pos + 1 + j, bytes[j]);
            j = j + 1;
            assert(out@ =~= cmds_bytes(prefix) + c.spec_bytes().subrange(0, j + 1) + orig.subrange(pos + 1 + j, orig.len() as int));
        }
        assert(c.spec_bytes().subrange(0, l + 1) =~= c.spec_bytes());
        pos = pos + 1 + l;
        i = i + 1;
    }
    assert(cmds@.subrange(0, cmds@.len() as int) =~= cmds@);
    Ok(pos)
}

proof fn lemma_cmds_prefix_le(cmds: Seq<UplinkMacCommandCreator>, k: int)
    requires
        0 <= k <= cmds.len(),
    ensures
        cmds_bytes(cmds.subrange(0, k)).len() <= cmds_bytes(cmds).len(),
    decreases cmds.len() - k,
{
    if k < cmds.len() {
        lemma_cmds_prefix_le(cmds, k + 1);
        let s = cmds.subrange(0, k + 1);
        assert(s.drop_last() =~= cmds.subrange(0, k));
    } else {
        assert(cmds.subrange(0, k) =~= cmds);
    }
}

} // verus!
