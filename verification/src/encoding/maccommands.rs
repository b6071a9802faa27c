use vstd::prelude::*;

use super::parser::read_bytes;
use crate::channel_mask::ChannelMask;
use crate::frequency::Frequency;
use crate::mac::mac_1_0_4::encoding::maccommandcreator::UplinkMacCommandCreator;
use crate::mac::mac_1_0_4::encoding::maccommands::{DownlinkMacCommand, UplinkMacCommand};

verus! {

/// A MAC command that can be serialized: its CID followed by its payload.
pub trait SerializableMacCommand {
    /// The serialized command, CID first.
    spec fn spec_bytes(&self) -> Seq<u8>;

    /// Bytes of the SerializableMacCommand without the cid.
    fn payload_bytes(&self) -> (res: &[u8])
        ensures
            self.spec_bytes().len() >= 1,
            res@ == self.spec_bytes().drop_first(),
    ;

    /// The cid of the SerializableMacCommand.
    fn cid(&self) -> (res: u8)
        ensures
            self.spec_bytes().len() >= 1,
            res == self.spec_bytes()[0],
    ;

    /// Length of the SerializableMacCommand without the cid.
    fn payload_len(&self) -> (res: usize)
        ensures
            1 <= self.spec_bytes().len() <= 3,
            res == self.spec_bytes().len() - 1,
    ;
}

/// The bytes of a sequence of commands, serialized one after the other.
pub open spec fn cmds_bytes(cmds: Seq<UplinkMacCommandCreator>) -> Seq<u8>
    decreases cmds.len(),
{
    if cmds.len() == 0 {
        Seq::empty()
    } else {
        cmds_bytes(cmds.drop_last()) + cmds.last().spec_bytes()
    }
}

/// Every command takes at most three bytes.
pub proof fn lemma_cmds_bytes_len(cmds: Seq<UplinkMacCommandCreator>)
    ensures
        cmds_bytes(cmds).len() <= 3 * cmds.len(),
    decreases cmds.len(),
{
    if cmds.len() > 0 {
        lemma_cmds_bytes_len(cmds.drop_last());
        lemma_creator_len(cmds.last());
    }
}

/// Every uplink command takes between one and three bytes.
pub proof fn lemma_creator_len(c: UplinkMacCommandCreator)
    ensures
        1 <= c.spec_bytes().len() <= 3,
{
    broadcast use crate::encoding::maccommandcreator::group_creator_lens;
}

/// Calculates the len in bytes of a sequence of mac commands, including the CIDs.
pub fn mac_commands_len(cmds: &[UplinkMacCommandCreator]) -> (res: usize)
    requires
        cmds@.len() <= 0x1000_0000,
    ensures
        res == cmds_bytes(cmds@).len(),
{
    let mut total: usize = 0;
    let mut i: usize = 0;
    while i < cmds.len()
        invariant
            i <= cmds@.len() <= 0x1000_0000,
            total == cmds_bytes(cmds@.subrange(0, i as int)).len(),
            total <= 3 * i,
        decreases cmds@.len() - i,
    {
        let l = cmds[i].payload_len();
        proof {
            let s = cmds@.subrange(0, i + 1);
            assert(s.drop_last() =~= cmds@.subrange(0, i as int));
            assert(s.last() == cmds@[i as int]);
        }
        total = total + l + 1;
        i = i + 1;
    }
    assert(cmds@.subrange(0, cmds@.len() as int) =~= cmds@);
    total
}

/// Payload of LinkCheckAns (CID 0x02, downlink): 2 byte(s).
#[derive(Debug, Clone, Copy, PartialEq, Eq)]
pub struct LinkCheckAnsPayload([u8; 2]);

impl LinkCheckAnsPayload {
    /// The payload bytes.
    pub closed spec fn bytes(&self) -> Seq<u8> {
        self.0@
    }

    /// The payload always holds 2 byte(s).
    pub broadcast proof fn lemma_bytes_len(&self)
        ensures
            #[trigger] self.bytes().len() == 2,
    {
    }

    /// The payload made of the first 2 bytes of `b`.
    pub closed spec fn of_bytes(b: Seq<u8>) -> Self {
        LinkCheckAnsPayload([b[0], b[1]])
    }

    /// A payload is the one its bytes make, and those are the bytes it was made from.
    pub proof fn lemma_of_bytes(self, b: Seq<u8>)
        ensures
            self == Self::of_bytes(self.bytes()),
            b.len() == 2 ==> Self::of_bytes(b).bytes() == b,
    {
        assert(self.0 =~= [self.0[0], self.0[1]]);
        assert(b.len() == 2 ==> Self::of_bytes(b).bytes() =~= b);
    }

    /// Creates the payload from the first 2 byte(s) of `data` if there are enough.
    pub fn new(data: &[u8]) -> (res: Result<LinkCheckAnsPayload, &'static str>)
        ensures
            res is Ok <==> data@.len() >= 2,
            res matches Ok(p) ==> p.bytes() == data@.subrange(0, 2),
    {
        if data.len() < 2 {
            Err("incorrect size for")
        } else {
            Ok(LinkCheckAnsPayload(read_bytes::<2>(data, 0)))
        }
    }

    /// Command identifier.
    pub fn cid() -> (res: u8)
        ensures
            res == 0x02,
    {
        0x02
    }

    /// Sent by end device or sent by network server.
    pub fn uplink() -> (res: bool)
        ensures
            res == false,
    {
        false
    }

    /// Length of the payload of the mac command.
    pub fn len() -> (res: usize)
        ensures
            res == 2,
    {
        2
    }

    /// The payload bytes.
    pub fn as_bytes(&self) -> (res: [u8; 2])
        ensures
            res@ == self.bytes(),
    {
        self.0
    }
}

/// Payload of LinkADRReq (CID 0x03, downlink): 4 byte(s).
#[derive(Debug, Clone, Copy, PartialEq, Eq)]
pub struct LinkADRReqPayload([u8; 4]);

impl LinkADRReqPayload {
    /// The payload bytes.
    pub closed spec fn bytes(&self) -> Seq<u8> {
        self.0@
    }

    /// The payload always holds 4 byte(s).
    pub broadcast proof fn lemma_bytes_len(&self)
        ensures
            #[trigger] self.bytes().len() == 4,
    {
    }

    /// The payload made of the first 4 bytes of `b`.
    pub closed spec fn of_bytes(b: Seq<u8>) -> Self {
        LinkADRReqPayload([b[0], b[1], b[2], b[3]])
    }

    /// A payload is the one its bytes make, and those are the bytes it was made from.
    pub proof fn lemma_of_bytes(self, b: Seq<u8>)
        ensures
            self == Self::of_bytes(self.bytes()),
            b.len() == 4 ==> Self::of_bytes(b).bytes() == b,
    {
        assert(self.0 =~= [self.0[0], self.0[1], self.0[2], self.0[3]]);
        assert(b.len() == 4 ==> Self::of_bytes(b).bytes() =~= b);
    }

    /// Creates the payload from the first 4 byte(s) of `data` if there are enough.
    pub fn new(data: &[u8]) -> (res: Result<LinkADRReqPayload, &'static str>)
        ensures
            res is Ok <==> data@.len() >= 4,
            res matches Ok(p) ==> p.bytes() == data@.subrange(0, 4),
    {
        if data.len() < 4 {
            Err("incorrect size for")
        } else {
            Ok(LinkADRReqPayload(read_bytes::<4>(data, 0)))
        }
    }

    /// Command identifier.
    pub fn cid() -> (res: u8)
        ensures
            res == 0x03,
    {
        0x03
    }

    /// Sent by end device or sent by network server.
    pub fn uplink() -> (res: bool)
        ensures
            res == false,
    {
        false
    }

    /// Length of the payload of the mac command.
    pub fn len() -> (res: usize)
        ensures
            res == 4,
    {
        4
    }

    /// The payload bytes.
    pub fn as_bytes(&self) -> (res: [u8; 4])
        ensures
            res@ == self.bytes(),
    {
        self.0
    }
}

/// Payload of DutyCycleReq (CID 0x04, downlink): 1 byte(s).
#[derive(Debug, Clone, Copy, PartialEq, Eq)]
pub struct DutyCycleReqPayload([u8; 1]);

impl DutyCycleReqPayload {
    /// The payload bytes.
    pub closed spec fn bytes(&self) -> Seq<u8> {
        self.0@
    }

    /// The payload always holds 1 byte(s).
    pub broadcast proof fn lemma_bytes_len(&self)
        ensures
            #[trigger] self.bytes().len() == 1,
    {
    }

    /// The payload made of the first 1 bytes of `b`.
    pub closed spec fn of_bytes(b: Seq<u8>) -> Self {
        DutyCycleReqPayload([b[0]])
    }

    /// A payload is the one its bytes make, and those are the bytes it was made from.
    pub proof fn lemma_of_bytes(self, b: Seq<u8>)
        ensures
            self == Self::of_bytes(self.bytes()),
            b.len() == 1 ==> Self::of_bytes(b).bytes() == b,
    {
        assert(self.0 =~= [self.0[0]]);
        assert(b.len() == 1 ==> Self::of_bytes(b).bytes() =~= b);
    }

    /// Creates the payload from the first 1 byte(s) of `data` if there are enough.
    pub fn new(data: &[u8]) -> (res: Result<DutyCycleReqPayload, &'static str>)
        ensures
            res is Ok <==> data@.len() >= 1,
            res matches Ok(p) ==> p.bytes() == data@.subrange(0, 1),
    {
        if data.len() < 1 {
            Err("incorrect size for")
        } else {
            Ok(DutyCycleReqPayload(read_bytes::<1>(data, 0)))
        }
    }

    /// Command identifier.
    pub fn cid() -> (res: u8)
        ensures
            res == 0x04,
    {
        0x04
    }

    /// Sent by end device or sent by network server.
    pub fn uplink() -> (res: bool)
        ensures
            res == false,
    {
        false
    }

    /// Length of the payload of the mac command.
    pub fn len() -> (res: usize)
        ensures
            res == 1,
    {
        1
    }

    /// The payload bytes.
    pub fn as_bytes(&self) -> (res: [u8; 1])
        ensures
            res@ == self.bytes(),
    {
        self.0
    }
}

/// Payload of RXParamSetupReq (CID 0x05, downlink): 4 byte(s).
#[derive(Debug, Clone, Copy, PartialEq, Eq)]
pub struct RXParamSetupReqPayload([u8; 4]);

impl RXParamSetupReqPayload {
    /// The payload bytes.
    pub closed spec fn bytes(&self) -> Seq<u8> {
        self.0@
    }

    /// The payload always holds 4 byte(s).
    pub broadcast proof fn lemma_bytes_len(&self)
        ensures
            #[trigger] self.bytes().len() == 4,
    {
    }

    /// The payload made of the first 4 bytes of `b`.
    pub closed spec fn of_bytes(b: Seq<u8>) -> Self {
        RXParamSetupReqPayload([b[0], b[1], b[2], b[3]])
    }

    /// A payload is the one its bytes make, and those are the bytes it was made from.
    pub proof fn lemma_of_bytes(self, b: Seq<u8>)
        ensures
            self == Self::of_bytes(self.bytes()),
            b.len() == 4 ==> Self::of_bytes(b).bytes() == b,
    {
        assert(self.0 =~= [self.0[0], self.0[1], self.0[2], self.0[3]]);
        assert(b.len() == 4 ==> Self::of_bytes(b).bytes() =~= b);
    }

    /// Creates the payload from the first 4 byte(s) of `data` if there are enough.
    pub fn new(data: &[u8]) -> (res: Result<RXParamSetupReqPayload, &'static str>)
        ensures
            res is Ok <==> data@.len() >= 4,
            res matches Ok(p) ==> p.bytes() == data@.subrange(0, 4),
    {
        if data.len() < 4 {
            Err("incorrect size for")
        } else {
            Ok(RXParamSetupReqPayload(read_bytes::<4>(data, 0)))
        }
    }

    /// Command identifier.
    pub fn cid() -> (res: u8)
        ensures
            res == 0x05,
    {
        0x05
    }

    /// Sent by end device or sent by network server.
    pub fn uplink() -> (res: bool)
        ensures
            res == false,
    {
        false
    }

    /// Length of the payload of the mac command.
    pub fn len() -> (res: usize)
        ensures
            res == 4,
    {
        4
    }

    /// The payload bytes.
    pub fn as_bytes(&self) -> (res: [u8; 4])
        ensures
            res@ == self.bytes(),
    {
        self.0
    }
}

/// Payload of DevStatusReq (CID 0x06, downlink), which carries no bytes.
#[derive(Debug, Clone, Copy, PartialEq, Eq)]
pub struct DevStatusReqPayload();

impl DevStatusReqPayload {
    /// The payload bytes: none.
    pub open spec fn bytes(&self) -> Seq<u8> {
        Seq::empty()
    }

    /// Creates the payload; there is nothing to read.
    pub fn new(_data: &[u8]) -> (res: Result<DevStatusReqPayload, &'static str>)
        ensures
            res is Ok,
    {
        Ok(DevStatusReqPayload())
    }

    /// Command identifier.
    pub fn cid() -> (res: u8)
        ensures
            res == 0x06,
    {
        0x06
    }

    /// Sent by end device or sent by network server.
    pub fn uplink() -> (res: bool)
        ensures
            res == false,
    {
        false
    }

    /// Length of the payload of the mac command.
    pub fn len() -> (res: usize)
        ensures
            res == 0,
    {
        0
    }
}

/// Payload of NewChannelReq (CID 0x07, downlink): 5 byte(s).
#[derive(Debug, Clone, Copy, PartialEq, Eq)]
pub struct NewChannelReqPayload([u8; 5]);

impl NewChannelReqPayload {
    /// The payload bytes.
    pub closed spec fn bytes(&self) -> Seq<u8> {
        self.0@
    }

    /// The payload always holds 5 byte(s).
    pub broadcast proof fn lemma_bytes_len(&self)
        ensures
            #[trigger] self.bytes().len() == 5,
    {
    }

    /// The payload made of the first 5 bytes of `b`.
    pub closed spec fn of_bytes(b: Seq<u8>) -> Self {
        NewChannelReqPayload([b[0], b[1], b[2], b[3], b[4]])
    }

    /// A payload is the one its bytes make, and those are the bytes it was made from.
    pub proof fn lemma_of_bytes(self, b: Seq<u8>)
        ensures
            self == Self::of_bytes(self.bytes()),
            b.len() == 5 ==> Self::of_bytes(b).bytes() == b,
    {
        assert(self.0 =~= [self.0[0], self.0[1], self.0[2], self.0[3], self.0[4]]);
        assert(b.len() == 5 ==> Self::of_bytes(b).bytes() =~= b);
    }

    /// Creates the payload from the first 5 byte(s) of `data` if there are enough.
    pub fn new(data: &[u8]) -> (res: Result<NewChannelReqPayload, &'static str>)
        ensures
            res is Ok <==> data@.len() >= 5,
            res matches Ok(p) ==> p.bytes() == data@.subrange(0, 5),
    {
        if data.len() < 5 {
            Err("incorrect size for")
        } else {
            Ok(NewChannelReqPayload(read_bytes::<5>(data, 0)))
        }
    }

    /// Command identifier.
    pub fn cid() -> (res: u8)
        ensures
            res == 0x07,
    {
        0x07
    }

    /// Sent by end device or sent by network server.
    pub fn uplink() -> (res: bool)
        ensures
            res == false,
    {
        false
    }

    /// Length of the payload of the mac command.
    pub fn len() -> (res: usize)
        ensures
            res == 5,
    {
        5
    }

    /// The payload bytes.
    pub fn as_bytes(&self) -> (res: [u8; 5])
        ensures
            res@ == self.bytes(),
    {
        self.0
    }
}

/// Payload of RXTimingSetupReq (CID 0x08, downlink): 1 byte(s).
#[derive(Debug, Clone, Copy, PartialEq, Eq)]
pub struct RXTimingSetupReqPayload([u8; 1]);

impl RXTimingSetupReqPayload {
    /// The payload bytes.
    pub closed spec fn bytes(&self) -> Seq<u8> {
        self.0@
    }

    /// The payload always holds 1 byte(s).
    pub broadcast proof fn lemma_bytes_len(&self)
        ensures
            #[trigger] self.bytes().len() == 1,
    {
    }

    /// The payload made of the first 1 bytes of `b`.
    pub closed spec fn of_bytes(b: Seq<u8>) -> Self {
        RXTimingSetupReqPayload([b[0]])
    }

    /// A payload is the one its bytes make, and those are the bytes it was made from.
    pub proof fn lemma_of_bytes(self, b: Seq<u8>)
        ensures
            self == Self::of_bytes(self.bytes()),
            b.len() == 1 ==> Self::of_bytes(b).bytes() == b,
    {
        assert(self.0 =~= [self.0[0]]);
        assert(b.len() == 1 ==> Self::of_bytes(b).bytes() =~= b);
    }

    /// Creates the payload from the first 1 byte(s) of `data` if there are enough.
    pub fn new(data: &[u8]) -> (res: Result<RXTimingSetupReqPayload, &'static str>)
        ensures
            res is Ok <==> data@.len() >= 1,
            res matches Ok(p) ==> p.bytes() == data@.subrange(0, 1),
    {
        if data.len() < 1 {
            Err("incorrect size for")
        } else {
            Ok(RXTimingSetupReqPayload(read_bytes::<1>(data, 0)))
        }
    }

    /// Command identifier.
    pub fn cid() -> (res: u8)
        ensures
            res == 0x08,
    {
        0x08
    }

    /// Sent by end device or sent by network server.
    pub fn uplink() -> (res: bool)
        ensures
            res == false,
    {
        false
    }

    /// Length of the payload of the mac command.
    pub fn len() -> (res: usize)
        ensures
            res == 1,
    {
        1
    }

    /// The payload bytes.
    pub fn as_bytes(&self) -> (res: [u8; 1])
        ensures
            res@ == self.bytes(),
    {
        self.0
    }
}

/// Payload of TXParamSetupReq (CID 0x09, downlink): 1 byte(s).
#[derive(Debug, Clone, Copy, PartialEq, Eq)]
pub struct TXParamSetupReqPayload([u8; 1]);

impl TXParamSetupReqPayload {
    /// The payload bytes.
    pub closed spec fn bytes(&self) -> Seq<u8> {
        self.0@
    }

    /// The payload always holds 1 byte(s).
    pub broadcast proof fn lemma_bytes_len(&self)
        ensures
            #[trigger] self.bytes().len() == 1,
    {
    }

    /// The payload made of the first 1 bytes of `b`.
    pub closed spec fn of_bytes(b: Seq<u8>) -> Self {
        TXParamSetupReqPayload([b[0]])
    }

    /// A payload is the one its bytes make, and those are the bytes it was made from.
    pub proof fn lemma_of_bytes(self, b: Seq<u8>)
        ensures
            self == Self::of_bytes(self.bytes()),
            b.len() == 1 ==> Self::of_bytes(b).bytes() == b,
    {
        assert(self.0 =~= [self.0[0]]);
        assert(b.len() == 1 ==> Self::of_bytes(b).bytes() =~= b);
    }

    /// Creates the payload from the first 1 byte(s) of `data` if there are enough.
    pub fn new(data: &[u8]) -> (res: Result<TXParamSetupReqPayload, &'static str>)
        ensures
            res is Ok <==> data@.len() >= 1,
            res matches Ok(p) ==> p.bytes() == data@.subrange(0, 1),
    {
        if data.len() < 1 {
            Err("incorrect size for")
        } else {
            Ok(TXParamSetupReqPayload(read_bytes::<1>(data, 0)))
        }
    }

    /// Command identifier.
    pub fn cid() -> (res: u8)
        ensures
            res == 0x09,
    {
        0x09
    }

    /// Sent by end device or sent by network server.
    pub fn uplink() -> (res: bool)
        ensures
            res == false,
    {
        false
    }

    /// Length of the payload of the mac command.
    pub fn len() -> (res: usize)
        ensures
            res == 1,
    {
        1
    }

    /// The payload bytes.
    pub fn as_bytes(&self) -> (res: [u8; 1])
        ensures
            res@ == self.bytes(),
    {
        self.0
    }
}

/// Payload of DlChannelReq (CID 0x0A, downlink): 4 byte(s).
#[derive(Debug, Clone, Copy, PartialEq, Eq)]
pub struct DlChannelReqPayload([u8; 4]);

impl DlChannelReqPayload {
    /// The payload bytes.
    pub closed spec fn bytes(&self) -> Seq<u8> {
        self.0@
    }

    /// The payload always holds 4 byte(s).
    pub broadcast proof fn lemma_bytes_len(&self)
        ensures
            #[trigger] self.bytes().len() == 4,
    {
    }

    /// The payload made of the first 4 bytes of `b`.
    pub closed spec fn of_bytes(b: Seq<u8>) -> Self {
        DlChannelReqPayload([b[0], b[1], b[2], b[3]])
    }

    /// A payload is the one its bytes make, and those are the bytes it was made from.
    pub proof fn lemma_of_bytes(self, b: Seq<u8>)
        ensures
            self == Self::of_bytes(self.bytes()),
            b.len() == 4 ==> Self::of_bytes(b).bytes() == b,
    {
        assert(self.0 =~= [self.0[0], self.0[1], self.0[2], self.0[3]]);
        assert(b.len() == 4 ==> Self::of_bytes(b).bytes() =~= b);
    }

    /// Creates the payload from the first 4 byte(s) of `data` if there are enough.
    pub fn new(data: &[u8]) -> (res: Result<DlChannelReqPayload, &'static str>)
        ensures
            res is Ok <==> data@.len() >= 4,
            res matches Ok(p) ==> p.bytes() == data@.subrange(0, 4),
    {
        if data.len() < 4 {
            Err("incorrect size for")
        } else {
            Ok(DlChannelReqPayload(read_bytes::<4>(data, 0)))
        }
    }

    /// Command identifier.
    pub fn cid() -> (res: u8)
        ensures
            res == 0x0A,
    {
        0x0A
    }

    /// Sent by end device or sent by network server.
    pub fn uplink() -> (res: bool)
        ensures
            res == false,
    {
        false
    }

    /// Length of the payload of the mac command.
    pub fn len() -> (res: usize)
        ensures
            res == 4,
    {
        4
    }

    /// The payload bytes.
    pub fn as_bytes(&self) -> (res: [u8; 4])
        ensures
            res@ == self.bytes(),
    {
        self.0
    }
}

/// Payload of DeviceTimeAns (CID 0x0D, downlink): 5 byte(s).
#[derive(Debug, Clone, Copy, PartialEq, Eq)]
pub struct DeviceTimeAnsPayload([u8; 5]);

impl DeviceTimeAnsPayload {
    /// The payload bytes.
    pub closed spec fn bytes(&self) -> Seq<u8> {
        self.0@
    }

    /// The payload always holds 5 byte(s).
    pub broadcast proof fn lemma_bytes_len(&self)
        ensures
            #[trigger] self.bytes().len() == 5,
    {
    }

    /// The payload made of the first 5 bytes of `b`.
    pub closed spec fn of_bytes(b: Seq<u8>) -> Self {
        DeviceTimeAnsPayload([b[0], b[1], b[2], b[3], b[4]])
    }

    /// A payload is the one its bytes make, and those are the bytes it was made from.
    pub proof fn lemma_of_bytes(self, b: Seq<u8>)
        ensures
            self == Self::of_bytes(self.bytes()),
            b.len() == 5 ==> Self::of_bytes(b).bytes() == b,
    {
        assert(self.0 =~= [self.0[0], self.0[1], self.0[2], self.0[3], self.0[4]]);
        assert(b.len() == 5 ==> Self::of_bytes(b).bytes() =~= b);
    }

    /// Creates the payload from the first 5 byte(s) of `data` if there are enough.
    pub fn new(data: &[u8]) -> (res: Result<DeviceTimeAnsPayload, &'static str>)
        ensures
            res is Ok <==> data@.len() >= 5,
            res matches Ok(p) ==> p.bytes() == data@.subrange(0, 5),
    {
        if data.len() < 5 {
            Err("incorrect size for")
        } else {
            Ok(DeviceTimeAnsPayload(read_bytes::<5>(data, 0)))
        }
    }

    /// Command identifier.
    pub fn cid() -> (res: u8)
        ensures
            res == 0x0D,
    {
        0x0D
    }

    /// Sent by end device or sent by network server.
    pub fn uplink() -> (res: bool)
        ensures
            res == false,
    {
        false
    }

    /// Length of the payload of the mac command.
    pub fn len() -> (res: usize)
        ensures
            res == 5,
    {
        5
    }

    /// The payload bytes.
    pub fn as_bytes(&self) -> (res: [u8; 5])
        ensures
            res@ == self.bytes(),
    {
        self.0
    }
}

/// Payload of LinkCheckReq (CID 0x02, uplink), which carries no bytes.
#[derive(Debug, Clone, Copy, PartialEq, Eq)]
pub struct LinkCheckReqPayload();

impl LinkCheckReqPayload {
    /// The payload bytes: none.
    pub open spec fn bytes(&self) -> Seq<u8> {
        Seq::empty()
    }

    /// Creates the payload; there is nothing to read.
    pub fn new(_data: &[u8]) -> (res: Result<LinkCheckReqPayload, &'static str>)
        ensures
            res is Ok,
    {
        Ok(LinkCheckReqPayload())
    }

    /// Command identifier.
    pub fn cid() -> (res: u8)
        ensures
            res == 0x02,
    {
        0x02
    }

    /// Sent by end device or sent by network server.
    pub fn uplink() -> (res: bool)
        ensures
            res == true,
    {
        true
    }

    /// Length of the payload of the mac command.
    pub fn len() -> (res: usize)
        ensures
            res == 0,
    {
        0
    }
}

/// Payload of LinkADRAns (CID 0x03, uplink): 1 byte(s).
#[derive(Debug, Clone, Copy, PartialEq, Eq)]
pub struct LinkADRAnsPayload([u8; 1]);

impl LinkADRAnsPayload {
    /// The payload bytes.
    pub closed spec fn bytes(&self) -> Seq<u8> {
        self.0@
    }

    /// The payload always holds 1 byte(s).
    pub broadcast proof fn lemma_bytes_len(&self)
        ensures
            #[trigger] self.bytes().len() == 1,
    {
    }

    /// Creates the payload from the first 1 byte(s) of `data` if there are enough.
    pub fn new(data: &[u8]) -> (res: Result<LinkADRAnsPayload, &'static str>)
        ensures
            res is Ok <==> data@.len() >= 1,
            res matches Ok(p) ==> p.bytes() == data@.subrange(0, 1),
    {
        if data.len() < 1 {
            Err("incorrect size for")
        } else {
            Ok(LinkADRAnsPayload(read_bytes::<1>(data, 0)))
        }
    }

    /// Command identifier.
    pub fn cid() -> (res: u8)
        ensures
            res == 0x03,
    {
        0x03
    }

    /// Sent by end device or sent by network server.
    pub fn uplink() -> (res: bool)
        ensures
            res == true,
    {
        true
    }

    /// Length of the payload of the mac command.
    pub fn len() -> (res: usize)
        ensures
            res == 1,
    {
        1
    }

    /// The payload bytes.
    pub fn as_bytes(&self) -> (res: [u8; 1])
        ensures
            res@ == self.bytes(),
    {
        self.0
    }
}

/// Payload of DutyCycleAns (CID 0x04, uplink), which carries no bytes.
#[derive(Debug, Clone, Copy, PartialEq, Eq)]
pub struct DutyCycleAnsPayload();

impl DutyCycleAnsPayload {
    /// The payload bytes: none.
    pub open spec fn bytes(&self) -> Seq<u8> {
        Seq::empty()
    }

    /// Creates the payload; there is nothing to read.
    pub fn new(_data: &[u8]) -> (res: Result<DutyCycleAnsPayload, &'static str>)
        ensures
            res is Ok,
    {
        Ok(DutyCycleAnsPayload())
    }

    /// Command identifier.
    pub fn cid() -> (res: u8)
        ensures
            res == 0x04,
    {
        0x04
    }

    /// Sent by end device or sent by network server.
    pub fn uplink() -> (res: bool)
        ensures
            res == true,
    {
        true
    }

    /// Length of the payload of the mac command.
    pub fn len() -> (res: usize)
        ensures
            res == 0,
    {
        0
    }
}

/// Payload of RXParamSetupAns (CID 0x05, uplink): 1 byte(s).
#[derive(Debug, Clone, Copy, PartialEq, Eq)]
pub struct RXParamSetupAnsPayload([u8; 1]);

impl RXParamSetupAnsPayload {
    /// The payload bytes.
    pub closed spec fn bytes(&self) -> Seq<u8> {
        self.0@
    }

    /// The payload always holds 1 byte(s).
    pub broadcast proof fn lemma_bytes_len(&self)
        ensures
            #[trigger] self.bytes().len() == 1,
    {
    }

    /// Creates the payload from the first 1 byte(s) of `data` if there are enough.
    pub fn new(data: &[u8]) -> (res: Result<RXParamSetupAnsPayload, &'static str>)
        ensures
            res is Ok <==> data@.len() >= 1,
            res matches Ok(p) ==> p.bytes() == data@.subrange(0, 1),
    {
        if data.len() < 1 {
            Err("incorrect size for")
        } else {
            Ok(RXParamSetupAnsPayload(read_bytes::<1>(data, 0)))
        }
    }

    /// Command identifier.
    pub fn cid() -> (res: u8)
        ensures
            res == 0x05,
    {
        0x05
    }

    /// Sent by end device or sent by network server.
    pub fn uplink() -> (res: bool)
        ensures
            res == true,
    {
        true
    }

    /// Length of the payload of the mac command.
    pub fn len() -> (res: usize)
        ensures
            res == 1,
    {
        1
    }

    /// The payload bytes.
    pub fn as_bytes(&self) -> (res: [u8; 1])
        ensures
            res@ == self.bytes(),
    {
        self.0
    }
}

/// Payload of DevStatusAns (CID 0x06, uplink): 2 byte(s).
#[derive(Debug, Clone, Copy, PartialEq, Eq)]
pub struct DevStatusAnsPayload([u8; 2]);

impl DevStatusAnsPayload {
    /// The payload bytes.
    pub closed spec fn bytes(&self) -> Seq<u8> {
        self.0@
    }

    /// The payload always holds 2 byte(s).
    pub broadcast proof fn lemma_bytes_len(&self)
        ensures
            #[trigger] self.bytes().len() == 2,
    {
    }

    /// Creates the payload from the first 2 byte(s) of `data` if there are enough.
    pub fn new(data: &[u8]) -> (res: Result<DevStatusAnsPayload, &'static str>)
        ensures
            res is Ok <==> data@.len() >= 2,
            res matches Ok(p) ==> p.bytes() == data@.subrange(0, 2),
    {
        if data.len() < 2 {
            Err("incorrect size for")
        } else {
            Ok(DevStatusAnsPayload(read_bytes::<2>(data, 0)))
        }
    }

    /// Command identifier.
    pub fn cid() -> (res: u8)
        ensures
            res == 0x06,
    {
        0x06
    }

    /// Sent by end device or sent by network server.
    pub fn uplink() -> (res: bool)
        ensures
            res == true,
    {
        true
    }

    /// Length of the payload of the mac command.
    pub fn len() -> (res: usize)
        ensures
            res == 2,
    {
        2
    }

    /// The payload bytes.
    pub fn as_bytes(&self) -> (res: [u8; 2])
        ensures
            res@ == self.bytes(),
    {
        self.0
    }
}

/// Payload of NewChannelAns (CID 0x07, uplink): 1 byte(s).
#[derive(Debug, Clone, Copy, PartialEq, Eq)]
pub struct NewChannelAnsPayload([u8; 1]);

impl NewChannelAnsPayload {
    /// The payload bytes.
    pub closed spec fn bytes(&self) -> Seq<u8> {
        self.0@
    }

    /// The payload always holds 1 byte(s).
    pub broadcast proof fn lemma_bytes_len(&self)
        ensures
            #[trigger] self.bytes().len() == 1,
    {
    }

    /// Creates the payload from the first 1 byte(s) of `data` if there are enough.
    pub fn new(data: &[u8]) -> (res: Result<NewChannelAnsPayload, &'static str>)
        ensures
            res is Ok <==> data@.len() >= 1,
            res matches Ok(p) ==> p.bytes() == data@.subrange(0, 1),
    {
        if data.len() < 1 {
            Err("incorrect size for")
        } else {
            Ok(NewChannelAnsPayload(read_bytes::<1>(data, 0)))
        }
    }

    /// Command identifier.
    pub fn cid() -> (res: u8)
        ensures
            res == 0x07,
    {
        0x07
    }

    /// Sent by end device or sent by network server.
    pub fn uplink() -> (res: bool)
        ensures
            res == true,
    {
        true
    }

    /// Length of the payload of the mac command.
    pub fn len() -> (res: usize)
        ensures
            res == 1,
    {
        1
    }

    /// The payload bytes.
    pub fn as_bytes(&self) -> (res: [u8; 1])
        ensures
            res@ == self.bytes(),
    {
        self.0
    }
}

/// Payload of RXTimingSetupAns (CID 0x08, uplink), which carries no bytes.
#[derive(Debug, Clone, Copy, PartialEq, Eq)]
pub struct RXTimingSetupAnsPayload();

impl RXTimingSetupAnsPayload {
    /// The payload bytes: none.
    pub open spec fn bytes(&self) -> Seq<u8> {
        Seq::empty()
    }

    /// Creates the payload; there is nothing to read.
    pub fn new(_data: &[u8]) -> (res: Result<RXTimingSetupAnsPayload, &'static str>)
        ensures
            res is Ok,
    {
        Ok(RXTimingSetupAnsPayload())
    }

    /// Command identifier.
    pub fn cid() -> (res: u8)
        ensures
            res == 0x08,
    {
        0x08
    }

    /// Sent by end device or sent by network server.
    pub fn uplink() -> (res: bool)
        ensures
            res == true,
    {
        true
    }

    /// Length of the payload of the mac command.
    pub fn len() -> (res: usize)
        ensures
            res == 0,
    {
        0
    }
}

/// Payload of TXParamSetupAns (CID 0x09, uplink), which carries no bytes.
#[derive(Debug, Clone, Copy, PartialEq, Eq)]
pub struct TXParamSetupAnsPayload();

impl TXParamSetupAnsPayload {
    /// The payload bytes: none.
    pub open spec fn bytes(&self) -> Seq<u8> {
        Seq::empty()
    }

    /// Creates the payload; there is nothing to read.
    pub fn new(_data: &[u8]) -> (res: Result<TXParamSetupAnsPayload, &'static str>)
        ensures
            res is Ok,
    {
        Ok(TXParamSetupAnsPayload())
    }

    /// Command identifier.
    pub fn cid() -> (res: u8)
        ensures
            res == 0x09,
    {
        0x09
    }

    /// Sent by end device or sent by network server.
    pub fn uplink() -> (res: bool)
        ensures
            res == true,
    {
        true
    }

    /// Length of the payload of the mac command.
    pub fn len() -> (res: usize)
        ensures
            res == 0,
    {
        0
    }
}

/// Payload of DlChannelAns (CID 0x0A, uplink): 1 byte(s).
#[derive(Debug, Clone, Copy, PartialEq, Eq)]
pub struct DlChannelAnsPayload([u8; 1]);

impl DlChannelAnsPayload {
    /// The payload bytes.
    pub closed spec fn bytes(&self) -> Seq<u8> {
        self.0@
    }

    /// The payload always holds 1 byte(s).
    pub broadcast proof fn lemma_bytes_len(&self)
        ensures
            #[trigger] self.bytes().len() == 1,
    {
    }

    /// Creates the payload from the first 1 byte(s) of `data` if there are enough.
    pub fn new(data: &[u8]) -> (res: Result<DlChannelAnsPayload, &'static str>)
        ensures
            res is Ok <==> data@.len() >= 1,
            res matches Ok(p) ==> p.bytes() == data@.subrange(0, 1),
    {
        if data.len() < 1 {
            Err("incorrect size for")
        } else {
            Ok(DlChannelAnsPayload(read_bytes::<1>(data, 0)))
        }
    }

    /// Command identifier.
    pub fn cid() -> (res: u8)
        ensures
            res == 0x0A,
    {
        0x0A
    }

    /// Sent by end device or sent by network server.
    pub fn uplink() -> (res: bool)
        ensures
            res == true,
    {
        true
    }

    /// Length of the payload of the mac command.
    pub fn len() -> (res: usize)
        ensures
            res == 1,
    {
        1
    }

    /// The payload bytes.
    pub fn as_bytes(&self) -> (res: [u8; 1])
        ensures
            res@ == self.bytes(),
    {
        self.0
    }
}

/// Payload of DeviceTimeReq (CID 0x0D, uplink), which carries no bytes.
#[derive(Debug, Clone, Copy, PartialEq, Eq)]
pub struct DeviceTimeReqPayload();

impl DeviceTimeReqPayload {
    /// The payload bytes: none.
    pub open spec fn bytes(&self) -> Seq<u8> {
        Seq::empty()
    }

    /// Creates the payload; there is nothing to read.
    pub fn new(_data: &[u8]) -> (res: Result<DeviceTimeReqPayload, &'static str>)
        ensures
            res is Ok,
    {
        Ok(DeviceTimeReqPayload())
    }

    /// Command identifier.
    pub fn cid() -> (res: u8)
        ensures
            res == 0x0D,
    {
        0x0D
    }

    /// Sent by end device or sent by network server.
    pub fn uplink() -> (res: bool)
        ensures
            res == true,
    {
        true
    }

    /// Length of the payload of the mac command.
    pub fn len() -> (res: usize)
        ensures
            res == 0,
    {
        0
    }
}


/// The low nibble, the high nibble and bits 6..4 of a byte.
pub proof fn lemma_byte_fields(b: u8)
    by (bit_vector)
    ensures
        b & 0x0f == b % 16,
        b >> 4 == b / 16,
        (b >> 4) & 0x07 == (b / 16) % 8,
{
}

/// DLSettings of a JoinAccept or an RXParamSetupReq.
#[derive(Debug, Clone, Copy, PartialEq, Eq)]
pub struct DLSettings(pub u8);

impl DLSettings {
    pub fn new(byte: u8) -> (res: DLSettings)
        ensures
            res.0 == byte,
    {
        DLSettings(byte)
    }

    /// The RX1 data rate offset: bits 6..4.
    pub fn rx1_dr_offset(&self) -> (res: u8)
        ensures
            res == (self.0 / 16) % 8,
    {
        let b = self.0;
        proof {
            lemma_byte_fields(b);
        }
        (b >> 4) & 0x07
    }

    /// The RX2 data rate: bits 3..0.
    pub fn rx2_data_rate(&self) -> (res: u8)
        ensures
            res == self.0 % 16,
    {
        let b = self.0;
        proof {
            lemma_byte_fields(b);
        }
        b & 0x0f
    }
}

/// Redundancy byte of a LinkADRReq.
#[derive(Debug, Clone, Copy, PartialEq, Eq)]
pub struct Redundancy(pub u8);

impl Redundancy {
    /// The channel mask control: bits 6..4.
    pub fn channel_mask_control(&self) -> (res: u8)
        ensures
            res == (self.0 / 16) % 8,
    {
        let b = self.0;
        proof {
            lemma_byte_fields(b);
        }
        (b >> 4) & 0x07
    }

    /// The number of transmissions: bits 3..0.
    pub fn number_of_transmissions(&self) -> (res: u8)
        ensures
            res == self.0 % 16,
    {
        let b = self.0;
        proof {
            lemma_byte_fields(b);
        }
        b & 0x0f
    }
}

/// Data rate range of a NewChannelReq.
#[derive(Debug, Clone, Copy, PartialEq, Eq)]
pub struct DataRateRange(pub u8);

impl DataRateRange {
    /// The highest data rate: bits 7..4.
    pub fn max_data_rate(&self) -> (res: u8)
        ensures
            res == self.0 / 16,
    {
        let b = self.0;
        proof {
            lemma_byte_fields(b);
        }
        b >> 4
    }

    /// The lowest data rate: bits 3..0.
    pub fn min_data_rate(&self) -> (res: u8)
        ensures
            res == self.0 % 16,
    {
        let b = self.0;
        proof {
            lemma_byte_fields(b);
        }
        b & 0x0f
    }
}

impl LinkCheckAnsPayload {
    /// The link margin in dB of the last successfully received LinkCheckReq.
    pub fn margin(&self) -> (res: u8)
        ensures
            res == self.bytes()[0],
    {
        self.0[0]
    }

    /// The number of gateways that received the last LinkCheckReq.
    pub fn gateway_count(&self) -> (res: u8)
        ensures
            res == self.bytes()[1],
    {
        self.0[1]
    }
}

impl LinkADRReqPayload {
    /// The requested data rate: the high nibble of the first byte.
    pub fn data_rate(&self) -> (res: u8)
        ensures
            res == self.bytes()[0] / 16,
    {
        let b = self.0[0];
        proof {
            lemma_byte_fields(b);
        }
        b >> 4
    }

    /// The requested TX power index: the low nibble of the first byte.
    pub fn tx_power(&self) -> (res: u8)
        ensures
            res == self.bytes()[0] % 16,
    {
        let b = self.0[0];
        proof {
            lemma_byte_fields(b);
        }
        b & 0x0f
    }

    /// The channel mask of bytes 1 and 2.
    pub open spec fn spec_channel_mask(&self) -> ChannelMask {
        ChannelMask::of_bytes(self.bytes().subrange(1, 3))
    }

    /// The channel mask: bytes 1 and 2.
    pub fn channel_mask(&self) -> (res: ChannelMask)
        ensures
            res.bytes() == self.bytes().subrange(1, 3),
            res == self.spec_channel_mask(),
    {
        let m = ChannelMask::from_bytes([self.0[1], self.0[2]]);
        assert(m.bytes() =~= self.bytes().subrange(1, 3));
        proof {
            m.lemma_of_bytes(m.bytes());
        }
        m
    }

    /// The redundancy byte: byte 3.
    pub fn redundancy(&self) -> (res: Redundancy)
        ensures
            res.0 == self.bytes()[3],
    {
        Redundancy(self.0[3])
    }
}

impl DutyCycleReqPayload {
    /// The duty cycle exponent: the aggregated duty cycle is 1 / 2^n.
    pub fn max_duty_cycle_raw(&self) -> (res: u8)
        ensures
            res == self.bytes()[0] % 16,
    {
        let b = self.0[0];
        proof {
            lemma_byte_fields(b);
        }
        b & 0x0f
    }
}

impl RXParamSetupReqPayload {
    /// The downlink settings: byte 0.
    pub fn dl_settings(&self) -> (res: DLSettings)
        ensures
            res.0 == self.bytes()[0],
    {
        DLSettings(self.0[0])
    }

    /// The RX2 frequency: bytes 1..4.
    pub fn frequency(&self) -> (res: Frequency)
        ensures
            res.bytes() == self.bytes().subrange(1, 4),
    {
        let f = Frequency::from_bytes([self.0[1], self.0[2], self.0[3]]);
        assert(f.bytes() =~= self.bytes().subrange(1, 4));
        f
    }
}

impl NewChannelReqPayload {
    /// The channel index: byte 0.
    pub fn channel_index(&self) -> (res: u8)
        ensures
            res == self.bytes()[0],
    {
        self.0[0]
    }

    /// The channel frequency: bytes 1..4.
    pub fn frequency(&self) -> (res: Frequency)
        ensures
            res.bytes() == self.bytes().subrange(1, 4),
    {
        let f = Frequency::from_bytes([self.0[1], self.0[2], self.0[3]]);
        assert(f.bytes() =~= self.bytes().subrange(1, 4));
        f
    }

    /// The data rate range: byte 4.
    pub fn data_rate_range(&self) -> (res: DataRateRange)
        ensures
            res.0 == self.bytes()[4],
    {
        DataRateRange(self.0[4])
    }
}

impl RXTimingSetupReqPayload {
    /// The RX1 delay in seconds: the low nibble.
    pub fn delay(&self) -> (res: u8)
        ensures
            res == self.bytes()[0] % 16,
    {
        let b = self.0[0];
        proof {
            lemma_byte_fields(b);
        }
        b & 0x0f
    }
}

impl DlChannelReqPayload {
    /// The channel index: byte 0.
    pub fn channel_index(&self) -> (res: u8)
        ensures
            res == self.bytes()[0],
    {
        self.0[0]
    }

    /// The downlink frequency: bytes 1..4.
    pub fn frequency(&self) -> (res: Frequency)
        ensures
            res.bytes() == self.bytes().subrange(1, 4),
    {
        let f = Frequency::from_bytes([self.0[1], self.0[2], self.0[3]]);
        assert(f.bytes() =~= self.bytes().subrange(1, 4));
        f
    }
}

impl DeviceTimeAnsPayload {
    /// Seconds since the GPS epoch: bytes 0..4, little endian.
    pub fn seconds(&self) -> (res: u32)
        ensures
            res == self.bytes()[0] + 256 * self.bytes()[1] + 65536 * self.bytes()[2] + 16777216 * self.bytes()[3],
    {
        let b0 = self.0[0] as u32;
        let b1 = self.0[1] as u32;
        let b2 = self.0[2] as u32;
        let b3 = self.0[3] as u32;
        b0 + 256 * b1 + 65536 * b2 + 16777216 * b3
    }

    /// The fractional second in nanoseconds: byte 4 counts steps of 1/256 s.
    pub fn nano_seconds(&self) -> (res: u32)
        ensures
            res == self.bytes()[4] * 3906250,
    {
        (self.0[4] as u32) * 3906250
    }
}

pub open spec fn downlink_cmd_size(cid: u8) -> Option<nat> {
    if cid == 0x02 {
        Some(2nat)
    } else if cid == 0x03 {
        Some(4nat)
    } else if cid == 0x04 {
        Some(1nat)
    } else if cid == 0x05 {
        Some(4nat)
    } else if cid == 0x06 {
        Some(0nat)
    } else if cid == 0x07 {
        Some(5nat)
    } else if cid == 0x08 {
        Some(1nat)
    } else if cid == 0x09 {
        Some(1nat)
    } else if cid == 0x0A {
        Some(4nat)
    } else if cid == 0x0D {
        Some(5nat)
    } else {
        None
    }
}

pub open spec fn uplink_cmd_size(cid: u8) -> Option<nat> {
    if cid == 0x02 {
        Some(0nat)
    } else if cid == 0x03 {
        Some(1nat)
    } else if cid == 0x04 {
        Some(0nat)
    } else if cid == 0x05 {
        Some(1nat)
    } else if cid == 0x06 {
        Some(2nat)
    } else if cid == 0x07 {
        Some(1nat)
    } else if cid == 0x08 {
        Some(0nat)
    } else if cid == 0x09 {
        Some(0nat)
    } else if cid == 0x0A {
        Some(1nat)
    } else if cid == 0x0D {
        Some(0nat)
    } else {
        None
    }
}

/// Parses one downlink command at the start of `data`: its payload size and the command.
pub fn parse_downlink_cmd(data: &[u8]) -> (res: Option<(usize, DownlinkMacCommand)>)
    requires
        data@.len() >= 1,
    ensures
        res is Some <==> (downlink_cmd_size(data@[0]) matches Some(n) && data@.len() - 1 >= n),
        res matches Some((n, c)) ==> Some(n as nat) == downlink_cmd_size(data@[0]) && c.spec_cid() == data@[0]
            && c.spec_payload() == data@.subrange(1, 1 + n),
{
    let cid = data[0];
    let rest = data.len() - 1;
    if cid == 0x02 {
        if rest >= 2 {
            Some((2, DownlinkMacCommand::LinkCheckAns(LinkCheckAnsPayload(read_bytes::<2>(data, 1)))))
        } else {
            None
        }
    } else if cid == 0x03 {
        if rest >= 4 {
            Some((4, DownlinkMacCommand::LinkADRReq(LinkADRReqPayload(read_bytes::<4>(data, 1)))))
        } else {
            None
        }
    } else if cid == 0x04 {
        if rest >= 1 {
            Some((1, DownlinkMacCommand::DutyCycleReq(DutyCycleReqPayload(read_bytes::<1>(data, 1)))))
        } else {
            None
        }
    } else if cid == 0x05 {
        if rest >= 4 {
            Some((4, DownlinkMacCommand::RXParamSetupReq(RXParamSetupReqPayload(read_bytes::<4>(data, 1)))))
        } else {
            None
        }
    } else if cid == 0x06 {
        Some((0, DownlinkMacCommand::DevStatusReq(DevStatusReqPayload())))
    } else if cid == 0x07 {
        if rest >= 5 {
            Some((5, DownlinkMacCommand::NewChannelReq(NewChannelReqPayload(read_bytes::<5>(data, 1)))))
        } else {
            None
        }
    } else if cid == 0x08 {
        if rest >= 1 {
            Some((1, DownlinkMacCommand::RXTimingSetupReq(RXTimingSetupReqPayload(read_bytes::<1>(data, 1)))))
        } else {
            None
        }
    } else if cid == 0x09 {
        if rest >= 1 {
            Some((1, DownlinkMacCommand::TXParamSetupReq(TXParamSetupReqPayload(read_bytes::<1>(data, 1)))))
        } else {
            None
        }
    } else if cid == 0x0A {
        if rest >= 4 {
            Some((4, DownlinkMacCommand::DlChannelReq(DlChannelReqPayload(read_bytes::<4>(data, 1)))))
        } else {
            None
        }
    } else if cid == 0x0D {
        if rest >= 5 {
            Some((5, DownlinkMacCommand::DeviceTimeAns(DeviceTimeAnsPayload(read_bytes::<5>(data, 1)))))
        } else {
            None
        }
    } else {
        None
    }
}

/// Parses one uplink command at the start of `data`: its payload size and the command.
pub fn parse_uplink_cmd(data: &[u8]) -> (res: Option<(usize, UplinkMacCommand)>)
    requires
        data@.len() >= 1,
    ensures
        res is Some <==> (uplink_cmd_size(data@[0]) matches Some(n) && data@.len() - 1 >= n),
        res matches Some((n, c)) ==> Some(n as nat) == uplink_cmd_size(data@[0]) && c.spec_cid() == data@[0]
            && c.spec_payload() == data@.subrange(1, 1 + n),
{
    let cid = data[0];
    let rest = data.len() - 1;
    if cid == 0x02 {
        Some((0, UplinkMacCommand::LinkCheckReq(LinkCheckReqPayload())))
    } else if cid == 0x03 {
        if rest >= 1 {
            Some((1, UplinkMacCommand::LinkADRAns(LinkADRAnsPayload(read_bytes::<1>(data, 1)))))
        } else {
            None
        }
    } else if cid == 0x04 {
        Some((0, UplinkMacCommand::DutyCycleAns(DutyCycleAnsPayload())))
    } else if cid == 0x05 {
        if rest >= 1 {
            Some((1, UplinkMacCommand::RXParamSetupAns(RXParamSetupAnsPayload(read_bytes::<1>(data, 1)))))
        } else {
            None
        }
    } else if cid == 0x06 {
        if rest >= 2 {
            Some((2, UplinkMacCommand::DevStatusAns(DevStatusAnsPayload(read_bytes::<2>(data, 1)))))
        } else {
            None
        }
    } else if cid == 0x07 {
        if rest >= 1 {
            Some((1, UplinkMacCommand::NewChannelAns(NewChannelAnsPayload(read_bytes::<1>(data, 1)))))
        } else {
            None
        }
    } else if cid == 0x08 {
        Some((0, UplinkMacCommand::RXTimingSetupAns(RXTimingSetupAnsPayload())))
    } else if cid == 0x09 {
        Some((0, UplinkMacCommand::TXParamSetupAns(TXParamSetupAnsPayload())))
    } else if cid == 0x0A {
        if rest >= 1 {
            Some((1, UplinkMacCommand::DlChannelAns(DlChannelAnsPayload(read_bytes::<1>(data, 1)))))
        } else {
            None
        }
    } else if cid == 0x0D {
        Some((0, UplinkMacCommand::DeviceTimeReq(DeviceTimeReqPayload())))
    } else {
        None
    }
}


/// A MAC command of either direction.
#[derive(Debug, Clone, Copy, PartialEq, Eq)]
pub enum MacCommand {
    Downlink(DownlinkMacCommand),
    Uplink(UplinkMacCommand),
}

impl MacCommand {
    /// Whether the command is sent by the end device.
    pub open spec fn spec_is_uplink(&self) -> bool {
        self is Uplink
    }

    /// The command identifier.
    pub open spec fn spec_cid(&self) -> u8 {
        match self {
            MacCommand::Downlink(c) => c.spec_cid(),
            MacCommand::Uplink(c) => c.spec_cid(),
        }
    }

    /// The payload bytes.
    pub open spec fn spec_payload(&self) -> Seq<u8> {
        match self {
            MacCommand::Downlink(c) => c.spec_payload(),
            MacCommand::Uplink(c) => c.spec_payload(),
        }
    }
}

/// Payload size of the command with identifier `cid` in the given direction, if any.
pub open spec fn cmd_size(cid: u8, uplink: bool) -> Option<nat> {
    if uplink {
        uplink_cmd_size(cid)
    } else {
        downlink_cmd_size(cid)
    }
}

/// Whether a known command with all its payload starts `data`.
pub open spec fn starts_with_cmd(data: Seq<u8>, uplink: bool) -> bool {
    data.len() >= 1 && (cmd_size(data[0], uplink) matches Some(n) && data.len() - 1 >= n)
}

/// Parses one command of the given direction at the start of `data`.
pub fn parse_one_mac_cmd(data: &[u8], uplink: bool) -> (res: Option<(usize, MacCommand)>)
    requires
        data@.len() >= 1,
    ensures
        res is Some <==> starts_with_cmd(data@, uplink),
        res matches Some((n, c)) ==> Some(n as nat) == cmd_size(data@[0], uplink) && c.spec_cid() == data@[0]
            && c.spec_is_uplink() == uplink && c.spec_payload() == data@.subrange(1, 1 + n),
{
    if uplink {
        match parse_uplink_cmd(data) {
            Some((n, c)) => Some((n, MacCommand::Uplink(c))),
            None => None,
        }
    } else {
        match parse_downlink_cmd(data) {
            Some((n, c)) => Some((n, MacCommand::Downlink(c))),
            None => None,
        }
    }
}

/// Implementation of iterator for mac commands.
pub struct MacCommandIterator {
    pub(crate) data: Vec<u8>,
    pub(crate) index: usize,
    pub(crate) uplink: bool,
}

impl MacCommandIterator {
    /// The bytes being parsed.
    pub closed spec fn spec_data(&self) -> Seq<u8> {
        self.data@
    }

    /// How many bytes have been consumed.
    pub closed spec fn spec_index(&self) -> int {
        self.index as int
    }

    /// Whether the commands are parsed as uplink commands.
    pub closed spec fn spec_uplink(&self) -> bool {
        self.uplink
    }

    /// Whether the commands are parsed as uplink commands.
    pub fn is_uplink(&self) -> (res: bool)
        ensures
            res == self.spec_uplink(),
    {
        self.uplink
    }

    /// The bytes not consumed yet.
    pub open spec fn rest(&self) -> Seq<u8> {
        self.spec_data().subrange(self.spec_index(), self.spec_data().len() as int)
    }

    /// The next command, if the remaining bytes start with one; once they do not,
    /// the iteration ends.
    pub fn next(&mut self) -> (res: Option<MacCommand>)
        requires
            0 <= old(self).spec_index() <= old(self).spec_data().len(),
        ensures
            final(self).spec_data() == old(self).spec_data(),
            final(self).spec_uplink() == old(self).spec_uplink(),
            0 <= final(self).spec_index() <= final(self).spec_data().len(),
            res is Some <==> starts_with_cmd(old(self).rest(), old(self).spec_uplink()),
            res matches Some(c) ==> {
                let n = cmd_size(old(self).rest()[0], old(self).spec_uplink())->0;
                &&& c.spec_cid() == old(self).rest()[0]
                &&& c.spec_is_uplink() == old(self).spec_uplink()
                &&& c.spec_payload() == old(self).rest().subrange(1, 1 + n as int)
                &&& final(self).spec_index() == old(self).spec_index() + 1 + n
            },
            res is None ==> final(self).spec_index() == old(self).spec_index(),
    {
        if self.index < self.data.len() {
            let data_slice = vstd::slice::slice_subrange(self.data.as_slice(), self.index, self.data.len());
            if let Some((l, v)) = parse_one_mac_cmd(data_slice, self.uplink) {
                self.index = self.index + 1 + l;
                return Some(v);
            }
        }
        None
    }
}

/// Parses bytes to mac commands if possible.
pub fn parse_mac_commands(data: &[u8], uplink: bool) -> (res: MacCommandIterator)
    ensures
        res.spec_data() == data@,
        res.spec_index() == 0,
        res.spec_uplink() == uplink,
{
    let mut v: Vec<u8> = Vec::new();
    let mut i: usize = 0;
    while i < data.len()
        invariant
            i <= data@.len(),
            v@ == data@.subrange(0, i as int),
        decreases data@.len() - i,
    {
        v.push(data[i]);
        i = i + 1;
        assert(v@ =~= data@.subrange(0, i as int));
    }
    assert(data@.subrange(0, data@.len() as int) =~= data@);
    MacCommandIterator { index: 0, data: v, uplink }
}

} // verus!
