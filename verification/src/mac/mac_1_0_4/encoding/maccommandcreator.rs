use vstd::prelude::*;

use crate::encoding::maccommandcreator::{LinkCheckReqCreator, LinkADRAnsCreator, DutyCycleAnsCreator, RXParamSetupAnsCreator, DevStatusAnsCreator, NewChannelAnsCreator, RXTimingSetupAnsCreator, TXParamSetupAnsCreator, DlChannelAnsCreator, DeviceTimeReqCreator};
use crate::encoding::maccommands::SerializableMacCommand;

verus! {

broadcast use crate::encoding::maccommandcreator::group_creator_lens;

/// The answers and requests that an end device sends to the network server.
#[derive(Debug, Clone, Copy, PartialEq, Eq)]
pub enum UplinkMacCommandCreator {
    LinkCheckReq(LinkCheckReqCreator),
    LinkADRAns(LinkADRAnsCreator),
    DutyCycleAns(DutyCycleAnsCreator),
    RXParamSetupAns(RXParamSetupAnsCreator),
    DevStatusAns(DevStatusAnsCreator),
    NewChannelAns(NewChannelAnsCreator),
    RXTimingSetupAns(RXTimingSetupAnsCreator),
    TXParamSetupAns(TXParamSetupAnsCreator),
    DlChannelAns(DlChannelAnsCreator),
    DeviceTimeReq(DeviceTimeReqCreator),
}

impl SerializableMacCommand for UplinkMacCommandCreator {
    open spec fn spec_bytes(&self) -> Seq<u8> {
        match self {
            UplinkMacCommandCreator::LinkCheckReq(x) => x.bytes(),
            UplinkMacCommandCreator::LinkADRAns(x) => x.bytes(),
            UplinkMacCommandCreator::DutyCycleAns(x) => x.bytes(),
            UplinkMacCommandCreator::RXParamSetupAns(x) => x.bytes(),
            UplinkMacCommandCreator::DevStatusAns(x) => x.bytes(),
            UplinkMacCommandCreator::NewChannelAns(x) => x.bytes(),
            UplinkMacCommandCreator::RXTimingSetupAns(x) => x.bytes(),
            UplinkMacCommandCreator::TXParamSetupAns(x) => x.bytes(),
            UplinkMacCommandCreator::DlChannelAns(x) => x.bytes(),
            UplinkMacCommandCreator::DeviceTimeReq(x) => x.bytes(),
        }
    }

    fn payload_bytes(&self) -> (res: &[u8]) {
        match self {
            UplinkMacCommandCreator::LinkCheckReq(x) => x.payload_bytes(),
            UplinkMacCommandCreator::LinkADRAns(x) => x.payload_bytes(),
            UplinkMacCommandCreator::DutyCycleAns(x) => x.payload_bytes(),
            UplinkMacCommandCreator::RXParamSetupAns(x) => x.payload_bytes(),
            UplinkMacCommandCreator::DevStatusAns(x) => x.payload_bytes(),
            UplinkMacCommandCreator::NewChannelAns(x) => x.payload_bytes(),
            UplinkMacCommandCreator::RXTimingSetupAns(x) => x.payload_bytes(),
            UplinkMacCommandCreator::TXParamSetupAns(x) => x.payload_bytes(),
            UplinkMacCommandCreator::DlChannelAns(x) => x.payload_bytes(),
            UplinkMacCommandCreator::DeviceTimeReq(x) => x.payload_bytes(),
        }
    }

    fn cid(&self) -> (res: u8) {
        match self {
            UplinkMacCommandCreator::LinkCheckReq(x) => x.cid(),
            UplinkMacCommandCreator::LinkADRAns(x) => x.cid(),
            UplinkMacCommandCreator::DutyCycleAns(x) => x.cid(),
            UplinkMacCommandCreator::RXParamSetupAns(x) => x.cid(),
            UplinkMacCommandCreator::DevStatusAns(x) => x.cid(),
            UplinkMacCommandCreator::NewChannelAns(x) => x.cid(),
            UplinkMacCommandCreator::RXTimingSetupAns(x) => x.cid(),
            UplinkMacCommandCreator::TXParamSetupAns(x) => x.cid(),
            UplinkMacCommandCreator::DlChannelAns(x) => x.cid(),
            UplinkMacCommandCreator::DeviceTimeReq(x) => x.cid(),
        }
    }

    fn payload_len(&self) -> (res: usize) {
        match self {
            UplinkMacCommandCreator::LinkCheckReq(x) => x.payload_len(),
            UplinkMacCommandCreator::LinkADRAns(x) => x.payload_len(),
            UplinkMacCommandCreator::DutyCycleAns(x) => x.payload_len(),
            UplinkMacCommandCreator::RXParamSetupAns(x) => x.payload_len(),
            UplinkMacCommandCreator::DevStatusAns(x) => x.payload_len(),
            UplinkMacCommandCreator::NewChannelAns(x) => x.payload_len(),
            UplinkMacCommandCreator::RXTimingSetupAns(x) => x.payload_len(),
            UplinkMacCommandCreator::TXParamSetupAns(x) => x.payload_len(),
            UplinkMacCommandCreator::DlChannelAns(x) => x.payload_len(),
            UplinkMacCommandCreator::DeviceTimeReq(x) => x.payload_len(),
        }
    }

}

impl UplinkMacCommandCreator {
    /// Returns the serialized version of the command as bytes.
    pub fn build(&self) -> (res: &[u8])
        ensures
            res@ == self.spec_bytes(),
    {
        match self {
            UplinkMacCommandCreator::LinkCheckReq(x) => x.build(),
            UplinkMacCommandCreator::LinkADRAns(x) => x.build(),
            UplinkMacCommandCreator::DutyCycleAns(x) => x.build(),
            UplinkMacCommandCreator::RXParamSetupAns(x) => x.build(),
            UplinkMacCommandCreator::DevStatusAns(x) => x.build(),
            UplinkMacCommandCreator::NewChannelAns(x) => x.build(),
            UplinkMacCommandCreator::RXTimingSetupAns(x) => x.build(),
            UplinkMacCommandCreator::TXParamSetupAns(x) => x.build(),
            UplinkMacCommandCreator::DlChannelAns(x) => x.build(),
            UplinkMacCommandCreator::DeviceTimeReq(x) => x.build(),
        }
    }

    /// Length of the serialized command, CID included.
    pub fn len(&self) -> (res: usize)
        ensures
            res == self.spec_bytes().len(),
    {
        match self {
            UplinkMacCommandCreator::LinkCheckReq(_) => 1,
            UplinkMacCommandCreator::LinkADRAns(_) => 2,
            UplinkMacCommandCreator::DutyCycleAns(_) => 1,
            UplinkMacCommandCreator::RXParamSetupAns(_) => 2,
            UplinkMacCommandCreator::DevStatusAns(_) => 3,
            UplinkMacCommandCreator::NewChannelAns(_) => 2,
            UplinkMacCommandCreator::RXTimingSetupAns(_) => 1,
            UplinkMacCommandCreator::TXParamSetupAns(_) => 1,
            UplinkMacCommandCreator::DlChannelAns(_) => 2,
            UplinkMacCommandCreator::DeviceTimeReq(_) => 1,
        }
    }
}

} // verus!
