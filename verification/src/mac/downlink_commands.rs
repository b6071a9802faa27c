//! How the end device answers the MAC commands of a downlink.

use vstd::prelude::*;

use super::region::channel_plan::dynamic::payload_frequency;
use super::region::channel_plan::{ChannelPlan, ChannelPlanState, MAX_CHANNELS};
use super::region::Region;
use super::types::{dr_from, Configuration, DR};
use super::uplink_queue::{queue_push, queued, PushOutcome};
use super::{Error, Mac};
use crate::device::{DeviceNotification, DeviceSpecs};
use crate::encoding::maccommandcreator::{
    margin_byte, with_bit, DevStatusAnsCreator, DlChannelAnsCreator, DutyCycleAnsCreator, LinkADRAnsCreator,
    NewChannelAnsCreator, RXParamSetupAnsCreator, RXTimingSetupAnsCreator,
};
use crate::encoding::maccommands::{
    DevStatusReqPayload, DlChannelReqPayload, LinkADRReqPayload, NewChannelReqPayload, RXParamSetupReqPayload,
};
use crate::mac::mac_1_0_4::encoding::maccommandcreator::UplinkMacCommandCreator;
use crate::mac::mac_1_0_4::encoding::maccommands::DownlinkMacCommand;

verus! {

/// What the device reports of itself in answers to the network server.
#[derive(Debug, Clone, Copy, PartialEq, Eq)]
pub struct DownlinkContext {
    /// Whether adaptive data rate is enabled.
    pub adaptive_data_rate_enabled: bool,
    /// The battery byte of a DevStatusAns: 0 for external power, 1 to 254 for the
    /// level, 255 when unknown.
    pub battery: u8,
    /// The signal to noise ratio of the downlink, in dB.
    pub snr: i8,
}

/// What handling downlink MAC commands changes: the configuration, the channel plan,
/// the queued answers, the channel mask being built by a block of LinkADRReqs, and
/// what the device is told.
#[verifier::ext_equal]
pub struct DownlinkState<Ch> {
    pub configuration: Configuration,
    pub plan: ChannelPlanState<Ch>,
    pub cmds: Seq<UplinkMacCommandCreator>,
    pub mask: Seq<bool>,
    pub notes: Seq<DeviceNotification>,
}

/// The channel mask control of a LinkADRReq.
pub open spec fn link_adr_ctrl(p: LinkADRReqPayload) -> u8 {
    ((p.bytes()[3] / 16) % 8) as u8
}

/// Whether every LinkADRReq of `cmds` has a channel mask control that the plan handles.
pub open spec fn link_adr_ctrls_ok<R: Region, C: ChannelPlan<R>>(cmds: Seq<DownlinkMacCommand>) -> bool {
    forall|i: int|
        0 <= i < cmds.len() ==> (#[trigger] cmds[i] matches DownlinkMacCommand::LinkADRReq(p)
            ==> C::spec_channel_mask_ctrl_ok(link_adr_ctrl(p)))
}

/// Whether the commands can be handled: no channel mask control that the plan cannot
/// handle, and no TXParamSetupReq in a region that supports it.
pub open spec fn downlink_cmds_ok<R: Region, C: ChannelPlan<R>>(cmds: Seq<DownlinkMacCommand>) -> bool {
    &&& link_adr_ctrls_ok::<R, C>(cmds)
    &&& R::spec_supports_tx_param_setup() ==> forall|i: int|
        0 <= i < cmds.len() ==> !(#[trigger] cmds[i] is TXParamSetupReq)
}

/// Whether the command after the one at `i` is a LinkADRReq too.
pub open spec fn next_is_link_adr(cmds: Seq<DownlinkMacCommand>, i: int) -> bool {
    i + 1 < cmds.len() && cmds[i + 1] is LinkADRReq
}

impl<R: Region, C: ChannelPlan<R>> Mac<R, C> {
    /// The state after a LinkADRReq, and its answer. Within a block of LinkADRReqs only
    /// the channel mask is built up; the last of the block applies its power, data rate,
    /// repetitions and built channel mask (all of them, or with ADR enabled only when
    /// every element was accepted; the mask and repetitions only when the mask was
    /// accepted), and the mask being built starts over from the plan's.
    pub open spec fn spec_link_adr_req(
        st: DownlinkState<C::Channel>,
        p: LinkADRReqPayload,
        next_adr: bool,
        ctx: DownlinkContext,
    ) -> (DownlinkState<C::Channel>, UplinkMacCommandCreator) {
        let b = p.bytes();
        let c0 = st.configuration;
        let tp = R::spec_modify_dbm(b[0] % 16, c0.tx_power, R::spec_max_eirp());
        let dr: Option<DR> = if b[0] / 16 == 15 {
            c0.tx_data_rate
        } else {
            Some(dr_from((b[0] / 16) as int))
        };
        let cm = C::spec_channel_mask(st.mask, p.spec_channel_mask(), link_adr_ctrl(p));
        let status = with_bit(with_bit(with_bit(0u8, 2, tp is Ok), 1, true), 0, cm is Ok);
        let ans = UplinkMacCommandCreator::LinkADRAns(LinkADRAnsCreator::of_bytes(seq![0x03u8, status]));
        if next_adr {
            (
                DownlinkState {
                    mask: match cm {
                        Ok(m) => m,
                        Err(_) => st.mask,
                    },
                    ..st
                },
                ans,
            )
        } else {
            let apply = !ctx.adaptive_data_rate_enabled || (tp is Ok && cm is Ok);
            let nb = b[3] % 16;
            let c1 = if apply {
                Configuration {
                    tx_power: match tp {
                        Ok(t) => t,
                        Err(_) => c0.tx_power,
                    },
                    tx_data_rate: dr,
                    number_of_transmissions: if cm is Ok {
                        if nb == 0 {
                            1
                        } else {
                            nb as u8
                        }
                    } else {
                        c0.number_of_transmissions
                    },
                    ..c0
                }
            } else {
                c0
            };
            let plan = match cm {
                Ok(m) => if apply {
                    ChannelPlanState { mask: m, ..st.plan }
                } else {
                    st.plan
                },
                Err(_) => st.plan,
            };
            (DownlinkState { configuration: c1, plan, mask: plan.mask, ..st }, ans)
        }
    }

    /// The state after an RXParamSetupReq, and its answer: the settings are adopted when
    /// the RX1 data rate offset, the RX2 data rate and the frequency are all accepted.
    pub open spec fn spec_rx_param_setup_req(
        st: DownlinkState<C::Channel>,
        p: RXParamSetupReqPayload,
        specs: DeviceSpecs,
    ) -> (DownlinkState<C::Channel>, UplinkMacCommandCreator) {
        let b = p.bytes();
        let offset = ((b[0] / 16) % 8) as u8;
        let rx1_ack = Self::spec_rx1_offset_ok(specs, offset);
        let rx2_ack = Self::spec_data_rate_ok(specs, b[0] % 16);
        let freq = payload_frequency(b, 1);
        let channel_ack = C::spec_validate_frequency(st.plan, freq) is Ok;
        let c0 = st.configuration;
        let c1 = if channel_ack && rx1_ack && rx2_ack {
            Configuration {
                rx1_data_rate_offset: Some(offset),
                rx2_data_rate: Some(dr_from((b[0] % 16) as int)),
                rx2_frequency: Some(freq),
                ..c0
            }
        } else {
            c0
        };
        let status = with_bit(with_bit(0u8, 2, rx1_ack), 1, rx2_ack);
        (
            DownlinkState { configuration: c1, ..st },
            UplinkMacCommandCreator::RXParamSetupAns(RXParamSetupAnsCreator::of_bytes(seq![0x05u8, status])),
        )
    }

    /// The state after a NewChannelReq, and its answer if any: a request for a default
    /// channel is ignored; otherwise the channel is set up when its data rate range and
    /// frequency are accepted.
    pub open spec fn spec_new_channel_req(st: DownlinkState<C::Channel>, p: NewChannelReqPayload, specs: DeviceSpecs) -> (
        DownlinkState<C::Channel>,
        Option<UplinkMacCommandCreator>,
    ) {
        let b = p.bytes();
        if b[0] < R::spec_default_channels(true) {
            (st, None)
        } else {
            let min = b[4] % 16;
            let max = b[4] / 16;
            let dr_ack = Self::spec_data_rate_ok(specs, min) && Self::spec_data_rate_ok(specs, max as u8) && min < max;
            let freq = payload_frequency(b, 1);
            let freq_ack = freq == 0 || (Self::spec_min_frequency(specs) <= freq <= Self::spec_max_frequency(specs));
            let s1 = with_bit(with_bit(0u8, 0, freq_ack), 1, dr_ack);
            let (plan, status) = if dr_ack && freq_ack {
                let (plan, r) = C::spec_new_channel_req(st.plan, p);
                (plan, with_bit(s1, 0, r is Ok))
            } else {
                (st.plan, s1)
            };
            (
                DownlinkState { plan, ..st },
                Some(UplinkMacCommandCreator::NewChannelAns(NewChannelAnsCreator::of_bytes(seq![0x07u8, status]))),
            )
        }
    }

    /// The state after a DlChannelReq, and its answer.
    pub open spec fn spec_dl_channel_req(st: DownlinkState<C::Channel>, p: DlChannelReqPayload, specs: DeviceSpecs) -> (
        DownlinkState<C::Channel>,
        UplinkMacCommandCreator,
    ) {
        let b = p.bytes();
        let freq = payload_frequency(b, 1);
        let freq_ok = Self::spec_min_frequency(specs) <= freq <= Self::spec_max_frequency(specs);
        let exists_ack = C::spec_uplink_frequency_exists(st.plan, b[0] as usize);
        let (plan, freq_ack) = if freq_ok {
            let (plan, r) = C::spec_dl_channel_req(st.plan, p);
            (plan, r is Ok)
        } else {
            (st.plan, false)
        };
        let status = with_bit(with_bit(0u8, 1, exists_ack), 0, freq_ack);
        (
            DownlinkState { plan, ..st },
            UplinkMacCommandCreator::DlChannelAns(DlChannelAnsCreator::of_bytes(seq![0x0Au8, status])),
        )
    }

    /// The state after one downlink command, its answer if any, and the error that stops
    /// the handling if any.
    pub open spec fn spec_downlink_cmd(
        st: DownlinkState<C::Channel>,
        cmd: DownlinkMacCommand,
        next_adr: bool,
        specs: DeviceSpecs,
        ctx: DownlinkContext,
    ) -> (DownlinkState<C::Channel>, Result<Option<UplinkMacCommandCreator>, Error>) {
        match cmd {
            DownlinkMacCommand::LinkCheckAns(p) => (
                DownlinkState {
                    notes: st.notes.push(
                        DeviceNotification::LinkCheck { gateway_count: p.bytes()[1], margin: p.bytes()[0] },
                    ),
                    ..st
                },
                Ok(None),
            ),
            DownlinkMacCommand::DeviceTimeAns(p) => {
                let b = p.bytes();
                (
                    DownlinkState {
                        notes: st.notes.push(
                            DeviceNotification::DeviceTime {
                                seconds: (b[0] + 256 * b[1] + 65536 * b[2] + 16777216 * b[3]) as u32,
                                nano_seconds: (b[4] * 3906250) as u32,
                            },
                        ),
                        ..st
                    },
                    Ok(None),
                )
            },
            DownlinkMacCommand::LinkADRReq(p) => {
                let (st1, ans) = Self::spec_link_adr_req(st, p, next_adr, ctx);
                (st1, Ok(Some(ans)))
            },
            DownlinkMacCommand::DutyCycleReq(p) => (
                DownlinkState {
                    configuration: Configuration { max_duty_cycle: Some(p.bytes()[0] % 16), ..st.configuration },
                    ..st
                },
                Ok(Some(UplinkMacCommandCreator::DutyCycleAns(DutyCycleAnsCreator::of_bytes(seq![0x04u8])))),
            ),
            DownlinkMacCommand::RXParamSetupReq(p) => {
                let (st1, ans) = Self::spec_rx_param_setup_req(st, p, specs);
                (st1, Ok(Some(ans)))
            },
            DownlinkMacCommand::DevStatusReq(_) => if -32 <= ctx.snr <= 31 {
                (
                    st,
                    Ok(
                        Some(
                            UplinkMacCommandCreator::DevStatusAns(
                                DevStatusAnsCreator::of_bytes(seq![0x06u8, ctx.battery, margin_byte(ctx.snr)]),
                            ),
                        ),
                    ),
                )
            } else {
                (st, Err(Error::MacCommandCreator(crate::encoding::Error::OutOfRange)))
            },
            DownlinkMacCommand::NewChannelReq(p) => {
                let (st1, ans) = Self::spec_new_channel_req(st, p, specs);
                (st1, Ok(ans))
            },
            DownlinkMacCommand::DlChannelReq(p) => {
                let (st1, ans) = Self::spec_dl_channel_req(st, p, specs);
                (st1, Ok(Some(ans)))
            },
            DownlinkMacCommand::RXTimingSetupReq(p) => {
                let d = p.bytes()[0] % 16;
                (
                    DownlinkState {
                        configuration: Configuration {
                            rx_delay: Some(
                                if d == 0 {
                                    1u8
                                } else {
                                    d
                                },
                            ),
                            ..st.configuration
                        },
                        ..st
                    },
                    Ok(Some(UplinkMacCommandCreator::RXTimingSetupAns(RXTimingSetupAnsCreator::of_bytes(seq![0x08u8])))),
                )
            },
            DownlinkMacCommand::TXParamSetupReq(_) => (st, Ok(None)),
        }
    }

    /// The state after the commands from `i` on, and the outcome: handling stops at the
    /// first error, or when an answer finds the queue of 15 full.
    pub open spec fn spec_downlink_cmds(
        st: DownlinkState<C::Channel>,
        cmds: Seq<DownlinkMacCommand>,
        i: int,
        specs: DeviceSpecs,
        ctx: DownlinkContext,
    ) -> (DownlinkState<C::Channel>, Result<(), Error>)
        decreases cmds.len() - i,
    {
        if i < 0 || i >= cmds.len() {
            (st, Ok(()))
        } else {
            let (st1, r) = Self::spec_downlink_cmd(st, cmds[i], next_is_link_adr(cmds, i), specs, ctx);
            match r {
                Err(e) => (st1, Err(e)),
                Ok(None) => Self::spec_downlink_cmds(st1, cmds, i + 1, specs, ctx),
                Ok(Some(ans)) => if st1.cmds.len() < 15 {
                    Self::spec_downlink_cmds(DownlinkState { cmds: st1.cmds.push(ans), ..st1 }, cmds, i + 1, specs, ctx)
                } else {
                    (st1, Err(Error::FOptsFull))
                },
            }
        }
    }

    /// The state that handling starts from.
    pub open spec fn spec_downlink_start(&self, notes: Seq<DeviceNotification>) -> DownlinkState<C::Channel> {
        DownlinkState {
            configuration: self.configuration,
            plan: self.channel_plan.spec_state(),
            cmds: queued(self.uplink_cmds),
            mask: self.channel_plan.spec_state().mask,
            notes,
        }
    }

    /// The state that `mask` and `notes` make with this MAC.
    pub open spec fn spec_downlink_state(&self, mask: Seq<bool>, notes: Seq<DeviceNotification>) -> DownlinkState<C::Channel> {
        DownlinkState {
            configuration: self.configuration,
            plan: self.channel_plan.spec_state(),
            cmds: queued(self.uplink_cmds),
            mask,
            notes,
        }
    }

    /// Whether every command of `cmds` can be handled.
    pub fn downlink_cmds_supported(cmds: &[DownlinkMacCommand]) -> (res: bool)
        ensures
            res == downlink_cmds_ok::<R, C>(cmds@),
    {
        let tx_param_supported = R::supports_tx_param_setup();
        let mut i: usize = 0;
        while i < cmds.len()
            invariant
                i <= cmds@.len(),
                tx_param_supported == R::spec_supports_tx_param_setup(),
                forall|j: int|
                    0 <= j < i ==> (#[trigger] cmds@[j] matches DownlinkMacCommand::LinkADRReq(p)
                        ==> C::spec_channel_mask_ctrl_ok(link_adr_ctrl(p))),
                tx_param_supported ==> forall|j: int| 0 <= j < i ==> !(#[trigger] cmds@[j] is TXParamSetupReq),
            decreases cmds@.len() - i,
        {
            match cmds[i] {
                DownlinkMacCommand::LinkADRReq(p) => {
                    if !C::channel_mask_ctrl_supported(p.redundancy().channel_mask_control()) {
                        return false;
                    }
                },
                DownlinkMacCommand::TXParamSetupReq(_) => {
                    if tx_param_supported {
                        return false;
                    }
                },
                _ => {},
            }
            i = i + 1;
        }
        true
    }

    fn handle_link_adr_req(
        &mut self,
        ctx: &DownlinkContext,
        payload: LinkADRReqPayload,
        next_adr: bool,
        channel_mask: &mut [bool; MAX_CHANNELS],
    ) -> (res: UplinkMacCommandCreator)
        requires
            C::spec_channel_mask_ctrl_ok(link_adr_ctrl(payload)),
        ensures
            ({
                let (st, ans) = Self::spec_link_adr_req(old(self).spec_downlink_state(old(channel_mask)@, Seq::empty()), payload, next_adr, *ctx);
                &&& final(self).spec_downlink_state(final(channel_mask)@, Seq::empty()) == st
                &&& res == ans
            }),
            final(self).session == old(self).session,
            final(self).ack_next == old(self).ack_next,
            final(self).credentials == old(self).credentials,
            final(self).uplink_cmds == old(self).uplink_cmds,
    {
        let mut ans = LinkADRAnsCreator::new();
        let tx_power_res = R::modify_dbm(payload.tx_power(), self.configuration.tx_power, R::max_eirp());
        let data_rate_res: Result<Option<DR>, ()> = if payload.data_rate() == 0xF {
            Ok(self.configuration.tx_data_rate)
        } else {
            match DR::try_from(payload.data_rate()) {
                Ok(dr) => {
                    proof {
                        crate::mac::types::lemma_dr_from(0, dr);
                    }
                    Ok(Some(dr))
                },
                Err(e) => Err(e),
            }
        };
        let channel_mask_res = self.channel_plan.handle_channel_mask(
            channel_mask,
            payload.channel_mask(),
            payload.redundancy().channel_mask_control(),
        );
        ans.set_tx_power_ack(tx_power_res.is_ok());
        ans.set_data_rate_ack(data_rate_res.is_ok());
        ans.set_channel_mask_ack(channel_mask_res.is_ok());
        proof {
            ans.lemma_of_bytes(ans.bytes());
            assert(ans.bytes() =~= seq![0x03u8, with_bit(with_bit(with_bit(0u8, 2, tx_power_res is Ok), 1, true), 0, channel_mask_res is Ok)]);
        }
        // check if next command is also a LinkADRReq, if not process the atomic block
        if !next_adr {
            // The end-device SHALL respond to all LinkADRReq commands
            // with a LinkADRAns indicating which command elements were accepted and which were
            // rejected. This behavior differs from when the uplink ADR bit is set, in which case the end-
            // device accepts or rejects the entire command.
            if !ctx.adaptive_data_rate_enabled || (tx_power_res.is_ok() && data_rate_res.is_ok()
                && channel_mask_res.is_ok()) {
                if let Ok(new_tx_power) = tx_power_res {
                    self.configuration.tx_power = new_tx_power;
                }
                if let Ok(new_data_rate) = data_rate_res {
                    self.configuration.tx_data_rate = new_data_rate;
                }
                if channel_mask_res.is_ok() {
                    self.configuration.number_of_transmissions = payload.redundancy().number_of_transmissions();
                    if self.configuration.number_of_transmissions == 0 {
                        self.configuration.number_of_transmissions = 1;
                    }
                    let _ = self.channel_plan.set_channel_mask(*channel_mask);
                }
            }
            //reset channel mask to match actual status
            *channel_mask = self.channel_plan.get_channel_mask();
        }
        UplinkMacCommandCreator::LinkADRAns(ans)
    }

    fn handle_rx_param_setup_req(&mut self, specs: &DeviceSpecs, payload: RXParamSetupReqPayload) -> (res: UplinkMacCommandCreator)
        ensures
            ({
                let (st, ans) = Self::spec_rx_param_setup_req(old(self).spec_downlink_state(Seq::empty(), Seq::empty()), payload, *specs);
                &&& final(self).spec_downlink_state(Seq::empty(), Seq::empty()) == st
                &&& res == ans
            }),
            final(self).session == old(self).session,
            final(self).ack_next == old(self).ack_next,
            final(self).credentials == old(self).credentials,
            final(self).uplink_cmds == old(self).uplink_cmds,
            final(self).channel_plan == old(self).channel_plan,
    {
        let mut ans = RXParamSetupAnsCreator::new();
        let (mut rx1_data_rate_offset_ack, mut rx2_data_rate_ack) = Self::validate_dl_settings(
            specs,
            payload.dl_settings(),
        );
        let freq = payload.frequency();
        let frequency = freq.value();
        proof {
            payload.lemma_bytes_len();
            let b = payload.bytes();
            let fb = freq.bytes();
            assert(fb[0] == b[1] && fb[1] == b[2] && fb[2] == b[3]);
        }
        let channel_ack = self.channel_plan.validate_frequency(frequency).is_ok();
        if channel_ack && rx1_data_rate_offset_ack && rx2_data_rate_ack {
            if self.handle_dl_settings(payload.dl_settings()).is_err() {
                rx1_data_rate_offset_ack = false;
                rx2_data_rate_ack = false;
            } else {
                self.configuration.rx2_frequency = Some(frequency);
            }
        }
        ans.set_rx1_data_rate_offset_ack(rx1_data_rate_offset_ack);
        ans.set_rx2_data_rate_ack(rx2_data_rate_ack);
        proof {
            ans.lemma_of_bytes(ans.bytes());
            assert(ans.bytes() =~= seq![0x05u8, with_bit(with_bit(0u8, 2, rx1_data_rate_offset_ack), 1, rx2_data_rate_ack)]);
        }
        UplinkMacCommandCreator::RXParamSetupAns(ans)
    }

    fn handle_new_channel_req(&mut self, specs: &DeviceSpecs, payload: NewChannelReqPayload) -> (res: Option<UplinkMacCommandCreator>)
        ensures
            ({
                let (st, ans) = Self::spec_new_channel_req(old(self).spec_downlink_state(Seq::empty(), Seq::empty()), payload, *specs);
                &&& final(self).spec_downlink_state(Seq::empty(), Seq::empty()) == st
                &&& res == ans
            }),
            final(self).session == old(self).session,
            final(self).ack_next == old(self).ack_next,
            final(self).credentials == old(self).credentials,
            final(self).uplink_cmds == old(self).uplink_cmds,
            final(self).configuration == old(self).configuration,
    {
        if (payload.channel_index() as usize) < R::default_channels(true) {
            //silently ignore if default channel
            return None;
        }
        let data_rate_range = payload.data_rate_range();
        let data_rate_range_ack = Self::validate_data_rate(specs, data_rate_range.min_data_rate())
            && Self::validate_data_rate(specs, data_rate_range.max_data_rate()) && data_rate_range.min_data_rate()
            < data_rate_range.max_data_rate();
        let freq = payload.frequency();
        let frequency = freq.value();
        proof {
            payload.lemma_bytes_len();
            let b = payload.bytes();
            let fb = freq.bytes();
            assert(fb[0] == b[1] && fb[1] == b[2] && fb[2] == b[3]);
        }
        let channel_frequency_ack = frequency == 0 || Self::validate_frequency(specs, frequency);
        let mut ans = NewChannelAnsCreator::new();
        ans.set_channel_frequency_ack(channel_frequency_ack);
        ans.set_data_rate_range_ack(data_rate_range_ack);
        let ghost s1 = with_bit(with_bit(0u8, 0, channel_frequency_ack), 1, data_rate_range_ack);
        assert(ans.bytes() =~= seq![0x07u8, s1]);
        if data_rate_range_ack && channel_frequency_ack {
            match self.channel_plan.handle_new_channel_req(payload) {
                Ok(_) => ans.set_channel_frequency_ack(true),
                Err(_) => ans.set_channel_frequency_ack(false),
            };
        }
        proof {
            ans.lemma_of_bytes(ans.bytes());
        }
        assert(self.spec_downlink_state(Seq::empty(), Seq::empty()) =~= Self::spec_new_channel_req(
            old(self).spec_downlink_state(Seq::empty(), Seq::empty()),
            payload,
            *specs,
        ).0);
        assert(ans.bytes() =~= seq![0x07u8, ans.bytes()[1]]);
        Some(UplinkMacCommandCreator::NewChannelAns(ans))
    }

    fn handle_dl_channel_req(&mut self, specs: &DeviceSpecs, payload: DlChannelReqPayload) -> (res: UplinkMacCommandCreator)
        ensures
            ({
                let (st, ans) = Self::spec_dl_channel_req(old(self).spec_downlink_state(Seq::empty(), Seq::empty()), payload, *specs);
                &&& final(self).spec_downlink_state(Seq::empty(), Seq::empty()) == st
                &&& res == ans
            }),
            final(self).session == old(self).session,
            final(self).ack_next == old(self).ack_next,
            final(self).credentials == old(self).credentials,
            final(self).uplink_cmds == old(self).uplink_cmds,
            final(self).configuration == old(self).configuration,
    {
        let mut ans = DlChannelAnsCreator::new();
        let freq = payload.frequency();
        let frequency = freq.value();
        proof {
            payload.lemma_bytes_len();
            let b = payload.bytes();
            let fb = freq.bytes();
            assert(fb[0] == b[1] && fb[1] == b[2] && fb[2] == b[3]);
        }
        let mut channel_frequency_ack = Self::validate_frequency(specs, frequency);
        let uplink_frequency_exists_ack = self.channel_plan.check_uplink_frequency_exists(payload.channel_index() as usize);
        if channel_frequency_ack {
            channel_frequency_ack = self.channel_plan.handle_dl_channel_req(payload).is_ok();
        }
        ans.set_uplink_frequency_exists_ack(uplink_frequency_exists_ack);
        ans.set_channel_frequency_ack(channel_frequency_ack);
        proof {
            ans.lemma_of_bytes(ans.bytes());
            assert(ans.bytes() =~= seq![0x0Au8, with_bit(with_bit(0u8, 1, uplink_frequency_exists_ack), 0, channel_frequency_ack)]);
        }
        assert(self.spec_downlink_state(Seq::empty(), Seq::empty()) =~= Self::spec_dl_channel_req(
            old(self).spec_downlink_state(Seq::empty(), Seq::empty()),
            payload,
            *specs,
        ).0);
        UplinkMacCommandCreator::DlChannelAns(ans)
    }
    fn handle_downlink_mac(
        &mut self,
        specs: &DeviceSpecs,
        ctx: &DownlinkContext,
        cmd: DownlinkMacCommand,
        next_adr: bool,
        channel_mask: &mut [bool; MAX_CHANNELS],
        notifications: &mut Vec<DeviceNotification>,
    ) -> (res: Result<Option<UplinkMacCommandCreator>, Error>)
        requires
            cmd matches DownlinkMacCommand::LinkADRReq(p) ==> C::spec_channel_mask_ctrl_ok(link_adr_ctrl(p)),
            R::spec_supports_tx_param_setup() ==> !(cmd is TXParamSetupReq),
        ensures
            ({
                let (st, r) = Self::spec_downlink_cmd(
                    old(self).spec_downlink_state(old(channel_mask)@, old(notifications)@),
                    cmd,
                    next_adr,
                    *specs,
                    *ctx,
                );
                &&& final(self).spec_downlink_state(final(channel_mask)@, final(notifications)@) == st
                &&& res == r
            }),
            final(self).session == old(self).session,
            final(self).ack_next == old(self).ack_next,
            final(self).credentials == old(self).credentials,
    {
        match cmd {
            DownlinkMacCommand::LinkCheckAns(payload) => {
                notifications.push(
                    DeviceNotification::LinkCheck { gateway_count: payload.gateway_count(), margin: payload.margin() },
                );
                Ok(None)
            },
            DownlinkMacCommand::DeviceTimeAns(payload) => {
                notifications.push(
                    DeviceNotification::DeviceTime { seconds: payload.seconds(), nano_seconds: payload.nano_seconds() },
                );
                Ok(None)
            },
            DownlinkMacCommand::LinkADRReq(payload) => {
                let ghost st0 = self.spec_downlink_state(channel_mask@, notifications@);
                let ans = self.handle_link_adr_req(ctx, payload, next_adr, channel_mask);
                assert(self.spec_downlink_state(channel_mask@, notifications@) =~= Self::spec_link_adr_req(
                    st0,
                    payload,
                    next_adr,
                    *ctx,
                ).0);
                Ok(Some(ans))
            },
            DownlinkMacCommand::DutyCycleReq(payload) => {
                self.configuration.max_duty_cycle = Some(payload.max_duty_cycle_raw());
                let ans = DutyCycleAnsCreator::new();
                proof {
                    ans.lemma_of_bytes(ans.bytes());
                }
                Ok(Some(UplinkMacCommandCreator::DutyCycleAns(ans)))
            },
            DownlinkMacCommand::RXParamSetupReq(payload) => {
                let ghost st0 = self.spec_downlink_state(channel_mask@, notifications@);
                let ans = self.handle_rx_param_setup_req(specs, payload);
                assert(self.spec_downlink_state(channel_mask@, notifications@) =~= Self::spec_rx_param_setup_req(
                    st0,
                    payload,
                    *specs,
                ).0);
                Ok(Some(ans))
            },
            DownlinkMacCommand::DevStatusReq(_) => {
                let mut ans = DevStatusAnsCreator::new();
                ans.set_battery(ctx.battery);
                match ans.set_margin(ctx.snr) {
                    Ok(()) => {},
                    Err(e) => {
                        return Err(Error::MacCommandCreator(e));
                    },
                }
                proof {
                    ans.lemma_of_bytes(ans.bytes());
                    assert(ans.bytes() =~= seq![0x06u8, ctx.battery, margin_byte(ctx.snr)]);
                }
                Ok(Some(UplinkMacCommandCreator::DevStatusAns(ans)))
            },
            DownlinkMacCommand::NewChannelReq(payload) => {
                let ghost st0 = self.spec_downlink_state(channel_mask@, notifications@);
                let ans = self.handle_new_channel_req(specs, payload);
                assert(self.spec_downlink_state(channel_mask@, notifications@) =~= Self::spec_new_channel_req(
                    st0,
                    payload,
                    *specs,
                ).0);
                Ok(ans)
            },
            DownlinkMacCommand::DlChannelReq(payload) => {
                let ghost st0 = self.spec_downlink_state(channel_mask@, notifications@);
                let ans = self.handle_dl_channel_req(specs, payload);
                assert(self.spec_downlink_state(channel_mask@, notifications@) =~= Self::spec_dl_channel_req(
                    st0,
                    payload,
                    *specs,
                ).0);
                Ok(Some(ans))
            },
            DownlinkMacCommand::RXTimingSetupReq(payload) => {
                let delay = match payload.delay() {
                    0 => 1,
                    d => d,
                };
                self.configuration.rx_delay = Some(delay);
                let ans = RXTimingSetupAnsCreator::new();
                proof {
                    ans.lemma_of_bytes(ans.bytes());
                }
                Ok(Some(UplinkMacCommandCreator::RXTimingSetupAns(ans)))
            },
            DownlinkMacCommand::TXParamSetupReq(_) => {
                if R::supports_tx_param_setup() {
                    // TXParamSetupReq is not handled yet in regions that support it.
                    Ok(None)
                } else {
                    Ok(None)
                }
            },
        }
    }

    /// Handles the MAC commands of a downlink in order: adopts what they set, answers
    /// them into the queue of uplink commands, and collects in `notifications` what the
    /// device is to be told.
    pub fn handle_downlink_macs(
        &mut self,
        specs: &DeviceSpecs,
        ctx: &DownlinkContext,
        cmds: &[DownlinkMacCommand],
        notifications: &mut Vec<DeviceNotification>,
    ) -> (res: Result<(), Error>)
        requires
            downlink_cmds_ok::<R, C>(cmds@),
        ensures
            ({
                let (st, r) = Self::spec_downlink_cmds(
                    old(self).spec_downlink_start(old(notifications)@),
                    cmds@,
                    0,
                    *specs,
                    *ctx,
                );
                &&& final(self).configuration == st.configuration
                &&& final(self).channel_plan.spec_state() == st.plan
                &&& queued(final(self).uplink_cmds) == st.cmds
                &&& final(notifications)@ == st.notes
                &&& res == r
            }),
            final(self).session == old(self).session,
            final(self).ack_next == old(self).ack_next,
            final(self).credentials == old(self).credentials,
    {
        let mut channel_mask = self.channel_plan.get_channel_mask();
        let ghost target = Self::spec_downlink_cmds(
            self.spec_downlink_start(notifications@),
            cmds@,
            0,
            *specs,
            *ctx,
        );
        assert(self.spec_downlink_state(channel_mask@, notifications@) == self.spec_downlink_start(notifications@));
        assert(target == Self::spec_downlink_cmds(old(self).spec_downlink_start(old(notifications)@), cmds@, 0, *specs, *ctx));
        let mut i: usize = 0;
        while i < cmds.len()
            invariant
                0 <= i <= cmds@.len(),
                downlink_cmds_ok::<R, C>(cmds@),
                Self::spec_downlink_cmds(self.spec_downlink_state(channel_mask@, notifications@), cmds@, i as int, *specs, *ctx) == target,
                target == Self::spec_downlink_cmds(old(self).spec_downlink_start(old(notifications)@), cmds@, 0, *specs, *ctx),
                self.session == old(self).session,
                self.ack_next == old(self).ack_next,
                self.credentials == old(self).credentials,
            decreases cmds@.len() - i,
        {
            let next_adr = i + 1 < cmds.len() && matches!(cmds[i + 1], DownlinkMacCommand::LinkADRReq(_));
            assert(next_adr == next_is_link_adr(cmds@, i as int));
            let cmd = cmds[i];
            assert(cmd == cmds@[i as int]);
            let ghost st_i = self.spec_downlink_state(channel_mask@, notifications@);
            let r = self.handle_downlink_mac(specs, ctx, cmd, next_adr, &mut channel_mask, notifications);
            let ghost st1 = self.spec_downlink_state(channel_mask@, notifications@);
            assert(Self::spec_downlink_cmd(st_i, cmd, next_adr, *specs, *ctx) == (st1, r));
            assert(target == Self::spec_downlink_cmds(st_i, cmds@, i as int, *specs, *ctx));
            match r {
                Err(e) => {
                    assert(target == (st1, Err::<(), Error>(e)));
                    return Err(e);
                },
                Ok(None) => {},
                Ok(Some(uplink_cmd)) => {
                    let pushed: PushOutcome = queue_push(&mut self.uplink_cmds, uplink_cmd);
                    match pushed {
                        Ok(()) => {},
                        Err(_) => {
                            assert(target == (st1, Err::<(), Error>(Error::FOptsFull)));
                            return Err(Error::FOptsFull);
                        },
                    }
                },
            }
            i = i + 1;
        }
        Ok(())
    }
}

} // verus!
