use vstd::prelude::*;

use crate::encoding::maccommands::{LinkCheckAnsPayload, LinkADRReqPayload, DutyCycleReqPayload, RXParamSetupReqPayload, DevStatusReqPayload, NewChannelReqPayload, RXTimingSetupReqPayload, TXParamSetupReqPayload, DlChannelReqPayload, DeviceTimeAnsPayload, LinkCheckReqPayload, LinkADRAnsPayload, DutyCycleAnsPayload, RXParamSetupAnsPayload, DevStatusAnsPayload, NewChannelAnsPayload, RXTimingSetupAnsPayload, TXParamSetupAnsPayload, DlChannelAnsPayload, DeviceTimeReqPayload, parse_mac_commands, starts_with_cmd, downlink_cmd_size, MacCommand, MacCommandIterator};
use crate::encoding::parser::FHDR;

verus! {
#[derive(Debug, Clone, Copy, PartialEq, Eq)]
pub enum DownlinkMacCommand {
    LinkCheckAns(LinkCheckAnsPayload),
    LinkADRReq(LinkADRReqPayload),
    DutyCycleReq(DutyCycleReqPayload),
    RXParamSetupReq(RXParamSetupReqPayload),
    DevStatusReq(DevStatusReqPayload),
    NewChannelReq(NewChannelReqPayload),
    RXTimingSetupReq(RXTimingSetupReqPayload),
    TXParamSetupReq(TXParamSetupReqPayload),
    DlChannelReq(DlChannelReqPayload),
    DeviceTimeAns(DeviceTimeAnsPayload),
}

impl DownlinkMacCommand {
    /// The command identifier of the variant.
    pub open spec fn spec_cid(&self) -> u8 {
        match self {
            DownlinkMacCommand::LinkCheckAns(_) => 0x02,
            DownlinkMacCommand::LinkADRReq(_) => 0x03,
            DownlinkMacCommand::DutyCycleReq(_) => 0x04,
            DownlinkMacCommand::RXParamSetupReq(_) => 0x05,
            DownlinkMacCommand::DevStatusReq(_) => 0x06,
            DownlinkMacCommand::NewChannelReq(_) => 0x07,
            DownlinkMacCommand::RXTimingSetupReq(_) => 0x08,
            DownlinkMacCommand::TXParamSetupReq(_) => 0x09,
            DownlinkMacCommand::DlChannelReq(_) => 0x0A,
            DownlinkMacCommand::DeviceTimeAns(_) => 0x0D,
        }
    }

    /// The payload bytes of the command.
    pub open spec fn spec_payload(&self) -> Seq<u8> {
        match self {
            DownlinkMacCommand::LinkCheckAns(p) => p.bytes(),
            DownlinkMacCommand::LinkADRReq(p) => p.bytes(),
            DownlinkMacCommand::DutyCycleReq(p) => p.bytes(),
            DownlinkMacCommand::RXParamSetupReq(p) => p.bytes(),
            DownlinkMacCommand::DevStatusReq(p) => p.bytes(),
            DownlinkMacCommand::NewChannelReq(p) => p.bytes(),
            DownlinkMacCommand::RXTimingSetupReq(p) => p.bytes(),
            DownlinkMacCommand::TXParamSetupReq(p) => p.bytes(),
            DownlinkMacCommand::DlChannelReq(p) => p.bytes(),
            DownlinkMacCommand::DeviceTimeAns(p) => p.bytes(),
        }
    }

    /// The command identifier of the variant.
    pub fn cid(&self) -> (res: u8)
        ensures
            res == self.spec_cid(),
    {
        match self {
            DownlinkMacCommand::LinkCheckAns(_) => 0x02,
            DownlinkMacCommand::LinkADRReq(_) => 0x03,
            DownlinkMacCommand::DutyCycleReq(_) => 0x04,
            DownlinkMacCommand::RXParamSetupReq(_) => 0x05,
            DownlinkMacCommand::DevStatusReq(_) => 0x06,
            DownlinkMacCommand::NewChannelReq(_) => 0x07,
            DownlinkMacCommand::RXTimingSetupReq(_) => 0x08,
            DownlinkMacCommand::TXParamSetupReq(_) => 0x09,
            DownlinkMacCommand::DlChannelReq(_) => 0x0A,
            DownlinkMacCommand::DeviceTimeAns(_) => 0x0D,
        }
    }
}

#[derive(Debug, Clone, Copy, PartialEq, Eq)]
pub enum UplinkMacCommand {
    LinkCheckReq(LinkCheckReqPayload),
    LinkADRAns(LinkADRAnsPayload),
    DutyCycleAns(DutyCycleAnsPayload),
    RXParamSetupAns(RXParamSetupAnsPayload),
    DevStatusAns(DevStatusAnsPayload),
    NewChannelAns(NewChannelAnsPayload),
    RXTimingSetupAns(RXTimingSetupAnsPayload),
    TXParamSetupAns(TXParamSetupAnsPayload),
    DlChannelAns(DlChannelAnsPayload),
    DeviceTimeReq(DeviceTimeReqPayload),
}

impl UplinkMacCommand {
    /// The command identifier of the variant.
    pub open spec fn spec_cid(&self) -> u8 {
        match self {
            UplinkMacCommand::LinkCheckReq(_) => 0x02,
            UplinkMacCommand::LinkADRAns(_) => 0x03,
            UplinkMacCommand::DutyCycleAns(_) => 0x04,
            UplinkMacCommand::RXParamSetupAns(_) => 0x05,
            UplinkMacCommand::DevStatusAns(_) => 0x06,
            UplinkMacCommand::NewChannelAns(_) => 0x07,
            UplinkMacCommand::RXTimingSetupAns(_) => 0x08,
            UplinkMacCommand::TXParamSetupAns(_) => 0x09,
            UplinkMacCommand::DlChannelAns(_) => 0x0A,
            UplinkMacCommand::DeviceTimeReq(_) => 0x0D,
        }
    }

    /// The payload bytes of the command.
    pub open spec fn spec_payload(&self) -> Seq<u8> {
        match self {
            UplinkMacCommand::LinkCheckReq(p) => p.bytes(),
            UplinkMacCommand::LinkADRAns(p) => p.bytes(),
            UplinkMacCommand::DutyCycleAns(p) => p.bytes(),
            UplinkMacCommand::RXParamSetupAns(p) => p.bytes(),
            UplinkMacCommand::DevStatusAns(p) => p.bytes(),
            UplinkMacCommand::NewChannelAns(p) => p.bytes(),
            UplinkMacCommand::RXTimingSetupAns(p) => p.bytes(),
            UplinkMacCommand::TXParamSetupAns(p) => p.bytes(),
            UplinkMacCommand::DlChannelAns(p) => p.bytes(),
            UplinkMacCommand::DeviceTimeReq(p) => p.bytes(),
        }
    }

    /// The command identifier of the variant.
    pub fn cid(&self) -> (res: u8)
        ensures
            res == self.spec_cid(),
    {
        match self {
            UplinkMacCommand::LinkCheckReq(_) => 0x02,
            UplinkMacCommand::LinkADRAns(_) => 0x03,
            UplinkMacCommand::DutyCycleAns(_) => 0x04,
            UplinkMacCommand::RXParamSetupAns(_) => 0x05,
            UplinkMacCommand::DevStatusAns(_) => 0x06,
            UplinkMacCommand::NewChannelAns(_) => 0x07,
            UplinkMacCommand::RXTimingSetupAns(_) => 0x08,
            UplinkMacCommand::TXParamSetupAns(_) => 0x09,
            UplinkMacCommand::DlChannelAns(_) => 0x0A,
            UplinkMacCommand::DeviceTimeReq(_) => 0x0D,
        }
    }
}

impl MacCommandIterator {
    /// Iterates over the downlink commands carried in the FOpts of `fhdr`.
    pub fn from_fhdr_downlink(fhdr: &FHDR) -> (res: MacCommandIterator)
        ensures
            res.spec_data() == fhdr.bytes().subrange(7, fhdr.bytes().len() as int),
            res.spec_index() == 0,
            !res.spec_uplink(),
    {
        let v = fhdr.data();
        parse_mac_commands(v.as_slice(), false)
    }

    /// The next downlink command, if the iterator parses downlink commands and the
    /// remaining bytes start with one.
    pub fn next_downlink(&mut self) -> (res: Option<DownlinkMacCommand>)
        requires
            0 <= old(self).spec_index() <= old(self).spec_data().len(),
        ensures
            final(self).spec_data() == old(self).spec_data(),
            final(self).spec_uplink() == old(self).spec_uplink(),
            0 <= final(self).spec_index() <= final(self).spec_data().len(),
            res is Some <==> !old(self).spec_uplink() && starts_with_cmd(old(self).rest(), false),
            res matches Some(c) ==> {
                let n = downlink_cmd_size(old(self).rest()[0])->0;
                &&& c.spec_cid() == old(self).rest()[0]
                &&& c.spec_payload() == old(self).rest().subrange(1, 1 + n as int)
                &&& final(self).spec_index() == old(self).spec_index() + 1 + n
            },
            res is None && !old(self).spec_uplink() ==> final(self).spec_index() == old(self).spec_index(),
    {
        if self.is_uplink() {
            return None;
        }
        match self.next() {
            Some(MacCommand::Downlink(c)) => Some(c),
            _ => None,
        }
    }
}

/// The downlink command with identifier `cid` and payload `p`, for an identifier that
/// names a downlink command.
pub open spec fn downlink_cmd_of(cid: u8, p: Seq<u8>) -> DownlinkMacCommand {
    if cid == 0x02 {
        DownlinkMacCommand::LinkCheckAns(LinkCheckAnsPayload::of_bytes(p))
    } else if cid == 0x03 {
        DownlinkMacCommand::LinkADRReq(LinkADRReqPayload::of_bytes(p))
    } else if cid == 0x04 {
        DownlinkMacCommand::DutyCycleReq(DutyCycleReqPayload::of_bytes(p))
    } else if cid == 0x05 {
        DownlinkMacCommand::RXParamSetupReq(RXParamSetupReqPayload::of_bytes(p))
    } else if cid == 0x06 {
        DownlinkMacCommand::DevStatusReq(DevStatusReqPayload())
    } else if cid == 0x07 {
        DownlinkMacCommand::NewChannelReq(NewChannelReqPayload::of_bytes(p))
    } else if cid == 0x08 {
        DownlinkMacCommand::RXTimingSetupReq(RXTimingSetupReqPayload::of_bytes(p))
    } else if cid == 0x09 {
        DownlinkMacCommand::TXParamSetupReq(TXParamSetupReqPayload::of_bytes(p))
    } else if cid == 0x0A {
        DownlinkMacCommand::DlChannelReq(DlChannelReqPayload::of_bytes(p))
    } else {
        DownlinkMacCommand::DeviceTimeAns(DeviceTimeAnsPayload::of_bytes(p))
    }
}

/// The downlink commands that `data` starts with, in order, up to the first bytes that
/// do not make a whole known command.
pub open spec fn spec_downlink_cmds(data: Seq<u8>) -> Seq<DownlinkMacCommand>
    decreases data.len(),
{
    if starts_with_cmd(data, false) {
        let n = downlink_cmd_size(data[0])->0;
        seq![downlink_cmd_of(data[0], data.subrange(1, 1 + n as int))] + spec_downlink_cmds(
            data.subrange(1 + n as int, data.len() as int),
        )
    } else {
        Seq::empty()
    }
}

/// A downlink command is the one that its identifier and payload make.
pub proof fn lemma_downlink_cmd_of(c: DownlinkMacCommand)
    ensures
        c == downlink_cmd_of(c.spec_cid(), c.spec_payload()),
{
    match c {
        DownlinkMacCommand::LinkCheckAns(p) => p.lemma_of_bytes(p.bytes()),
        DownlinkMacCommand::LinkADRReq(p) => p.lemma_of_bytes(p.bytes()),
        DownlinkMacCommand::DutyCycleReq(p) => p.lemma_of_bytes(p.bytes()),
        DownlinkMacCommand::RXParamSetupReq(p) => p.lemma_of_bytes(p.bytes()),
        DownlinkMacCommand::DevStatusReq(p) => {},
        DownlinkMacCommand::NewChannelReq(p) => p.lemma_of_bytes(p.bytes()),
        DownlinkMacCommand::RXTimingSetupReq(p) => p.lemma_of_bytes(p.bytes()),
        DownlinkMacCommand::TXParamSetupReq(p) => p.lemma_of_bytes(p.bytes()),
        DownlinkMacCommand::DlChannelReq(p) => p.lemma_of_bytes(p.bytes()),
        DownlinkMacCommand::DeviceTimeAns(p) => p.lemma_of_bytes(p.bytes()),
    }
}

/// The downlink commands that `data` starts with, in order.
pub fn downlink_commands(data: &[u8]) -> (res: Vec<DownlinkMacCommand>)
    ensures
        res@ == spec_downlink_cmds(data@),
{
    let mut it = parse_mac_commands(data, false);
    let mut res: Vec<DownlinkMacCommand> = Vec::new();
    assert(it.rest() =~= data@);
    loop
        invariant
            it.spec_data() == data@,
            !it.spec_uplink(),
            0 <= it.spec_index() <= data@.len(),
            res@ + spec_downlink_cmds(it.rest()) == spec_downlink_cmds(data@),
        decreases data@.len() - it.spec_index(),
    {
        let ghost rest = it.rest();
        match it.next_downlink() {
            Some(c) => {
                proof {
                    lemma_downlink_cmd_of(c);
                    let n = downlink_cmd_size(rest[0])->0;
                    assert(it.rest() =~= rest.subrange(1 + n as int, rest.len() as int));
                    assert(seq![c] + spec_downlink_cmds(it.rest()) == spec_downlink_cmds(rest));
                    assert(res@.push(c) + spec_downlink_cmds(it.rest()) =~= res@ + spec_downlink_cmds(rest));
                }
                res.push(c);
            },
            None => {
                assert(res@ + spec_downlink_cmds(rest) =~= res@);
                return res;
            },
        }
    }
}

} // verus!
