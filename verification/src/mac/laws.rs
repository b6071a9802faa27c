//! Properties of the MAC layer that span its operations.

use vstd::prelude::*;

use super::exchange::{frame_fcnt, is_joined_session, spec_rx_error, spec_session_after_rx};
use super::region::channel_plan::dynamic::{block_indices, pick_channel, usable, DynamicChannelPlan};
use super::region::channel_plan::fixed::FixedChannelPlan;
use super::region::channel_plan::{ChannelPlan, ChannelPlanState, MAX_CHANNELS, NUM_OF_CHANNEL_BLOCKS};
use super::region::eu868::EU868;
use super::region::us915::US915;
use super::region::Region;
use super::types::{dr_value, Configuration, Credentials, Frame, Session, DR};
use super::downlink_commands::{next_is_link_adr, DownlinkContext, DownlinkState};
use super::{Error, Mac};
use crate::mac::mac_1_0_4::encoding::maccommands::DownlinkMacCommand;
use crate::device::{spec_restore, spec_storable, DeviceSpecs};
use crate::encoding::keys::AES128;
use crate::encoding::maccommands::cmds_bytes;
use crate::encoding::parser::{
    data_ok, join_request_ok, last4, major_of, mtype_of, spec_f_port, spec_fhdr_length, spec_parses, without_mic, MType,
    Major,
};
use crate::encoding::securityhelpers::{spec_data_mic, spec_mic};
use crate::mac::mac_1_0_4::encoding::creator::spec_frm;
use crate::mac::mac_1_0_4::encoding::laws::{lemma_data_frame_roundtrip, lemma_join_request_roundtrip};
use crate::mac::mac_1_0_4::encoding::maccommandcreator::UplinkMacCommandCreator;
use crate::mac::mac_1_0_4::encoding::parser::{frm_key, key_bytes, spec_decrypt_data};
use super::{spec_join_request, spec_uplink_header};
use crate::device::radio::types::{Bandwidth, Datarate, SpreadingFactor};
use crate::encoding::default_crypto::{aes128_cmac, aes128_encrypt};
use crate::encoding::maccommandcreator::{with_bit, LinkADRAnsCreator};
use crate::encoding::maccommands::LinkADRReqPayload;
use crate::encoding::parser::{is_data_mtype, is_uplink_mtype};
use crate::encoding::securityhelpers::data_mic_block;
use crate::mac::mac_1_0_4::encoding::parser::session_key_block;

verus! {

/// A data frame that a session accepted is refused when it arrives again, unless its
/// frame counter is zero: the device does not take a replayed frame.
pub proof fn lemma_replay_refused(s: Session, b: Seq<u8>)
    requires
        spec_rx_error(s, b) is None,
        frame_fcnt(b) != 0,
    ensures
        spec_rx_error(spec_session_after_rx(s, b), b) == Some(Error::InvalidFcnt),
{
}

/// Once a frame is accepted, a later frame is accepted only with a higher frame counter
/// or with a counter of zero.
pub proof fn lemma_fcnt_down_increases(s: Session, b1: Seq<u8>, b2: Seq<u8>)
    requires
        spec_rx_error(s, b1) is None,
        spec_rx_error(spec_session_after_rx(s, b1), b2) is None,
    ensures
        frame_fcnt(b2) > frame_fcnt(b1) || frame_fcnt(b2) == 0,
{
}

/// What is restored from the persisted configuration and credentials of a device, with
/// its identifiers and key, persists the same again, and gives back its credentials.
pub proof fn lemma_restore_roundtrip(configuration: Configuration, credentials: Credentials)
    ensures
        ({
            let restored = spec_restore(
                spec_storable(configuration, credentials),
                credentials.app_eui.0,
                credentials.dev_eui.0,
                credentials.app_key.0.0,
            );
            &&& spec_storable(restored.0, restored.1) == spec_storable(configuration, credentials)
            &&& restored.1 == credentials
        }),
{
}

/// A device whose session is the one that a JoinAccept started is joined.
pub proof fn lemma_join_accept_joins<R: Region, C: ChannelPlan<R>>(mac: Mac<R, C>, d: Seq<u8>, credentials: Credentials)
    requires
        mac.session matches Some(s) && is_joined_session(s, d, credentials),
    ensures
        mac.spec_is_joined(),
{
}

/// The channel drawn from a channel block for a data frame is a channel of that block
/// that exists and that the mask enables.
pub proof fn lemma_random_channel_is_active<Ch>(s: ChannelPlanState<Ch>, random: u32, block: int, c: Ch)
    requires
        0 <= block < NUM_OF_CHANNEL_BLOCKS,
        pick_channel(s.channels, block_indices(block).filter(usable(s)), random) == Some(c),
    ensures
        exists|i: int|
            block * 8 <= i < block * 8 + 8 && #[trigger] s.channels[i] == Some(c) && s.mask[i],
{
    let cands = block_indices(block).filter(usable(s));
    let k = random as int % cands.len() as int;
    let idx = cands[k];
    block_indices(block).lemma_filter_pred(usable(s), k);
    assert(cands.contains(idx));
    block_indices(block).lemma_filter_contains_rev(usable(s), idx);
    let j = choose|j: int| 0 <= j < block_indices(block).len() && block_indices(block)[j] == idx;
    assert(s.channels[idx] == Some(c));
}

/// A channel that a NewChannelReq sets up in a dynamic plan exists afterwards, and its
/// frequency is accepted as an uplink frequency.
pub proof fn lemma_new_channel_is_known<R: Region>(
    s: ChannelPlanState<super::region::channel_plan::dynamic::DynamicChannel>,
    payload: crate::encoding::maccommands::NewChannelReqPayload,
)
    requires
        payload.bytes()[0] < MAX_CHANNELS,
        s.channels.len() == MAX_CHANNELS,
    ensures
        ({
            let (s1, r) = DynamicChannelPlan::<R>::spec_new_channel_req(s, payload);
            let f = super::region::channel_plan::dynamic::new_channel_of(payload).0;
            &&& r is Ok
            &&& DynamicChannelPlan::<R>::spec_uplink_frequency_exists(s1, payload.bytes()[0] as usize)
            &&& DynamicChannelPlan::<R>::spec_validate_frequency(s1, f) is Ok
        }),
{
    let (s1, r) = DynamicChannelPlan::<R>::spec_new_channel_req(s, payload);
    let f = super::region::channel_plan::dynamic::new_channel_of(payload).0;
    let i = payload.bytes()[0] as int;
    assert(super::region::channel_plan::dynamic::has_ul_frequency(s1.channels[i], f));
}

/// Reactivating the channels of a dynamic plan enables all of them; in a fixed plan it
/// enables exactly the region's default channels.
pub proof fn lemma_reactivation<R: Region>(
    d: ChannelPlanState<super::region::channel_plan::dynamic::DynamicChannel>,
    f: ChannelPlanState<super::region::channel_plan::fixed::FixedChannel>,
)
    ensures
        forall|k: int|
            0 <= k < MAX_CHANNELS ==> #[trigger] DynamicChannelPlan::<R>::spec_reactivated(d).mask[k],
        forall|k: int|
            0 <= k < MAX_CHANNELS ==> #[trigger] FixedChannelPlan::<R>::spec_reactivated(f).mask[k] == (k
                < R::spec_default_channels(true)),
        DynamicChannelPlan::<R>::spec_reactivated(d).channels == d.channels,
        FixedChannelPlan::<R>::spec_reactivated(f).channels == f.channels,
{
}

/// In EU868 the ADR back-off lowers the data rate one step at a time, and ends at the
/// default data rate DR0.
pub proof fn lemma_eu868_back_off_descends(d: DR)
    ensures
        EU868::spec_next_adr_data_rate(Some(d)) is None <==> d == DR::_0,
        EU868::spec_next_adr_data_rate(Some(d)) matches Some(d2) ==> dr_value(d2) < dr_value(d),
{
}

/// In US915 the ADR back-off lowers the data rate one step at a time, and ends at the
/// default data rate DR0.
pub proof fn lemma_us915_back_off_descends(d: DR)
    ensures
        US915::spec_next_adr_data_rate(Some(d)) is None <==> d == DR::_0,
        US915::spec_next_adr_data_rate(Some(d)) matches Some(d2) ==> dr_value(d2) < dr_value(d),
{
}

/// In EU868 the RX1 data rate is never above the uplink data rate, and equals it with
/// an offset of zero.
pub proof fn lemma_eu868_rx1_not_above_uplink(ul: DR, offset: u8)
    ensures
        EU868::spec_get_rx1_dr(ul, offset) matches Ok(d) ==> dr_value(d) <= dr_value(ul),
        offset == 0 && dr_value(ul) <= 5 ==> EU868::spec_get_rx1_dr(ul, offset) == Ok::<DR, super::region::Error>(ul),
{
    crate::mac::types::lemma_dr_from(0, ul);
}

/// In US915 the RX1 data rate is one of the 500 kHz downlink data rates DR8 to DR13.
pub proof fn lemma_us915_rx1_is_downlink_rate(ul: DR, offset: u8)
    ensures
        US915::spec_get_rx1_dr(ul, offset) matches Ok(d) ==> 8 <= dr_value(d) <= 13,
{
    let v = super::region::us915::clamp(10 + dr_value(ul) - offset, 8, 13);
    crate::mac::types::lemma_dr_from(v, ul);
}

/// The JoinRequest of a device is a frame that parses as a JoinRequest and whose MIC
/// validates under the application key.
pub proof fn lemma_join_request_accepted(app_eui: [u8; 8], dev_eui: [u8; 8], dev_nonce: u16, app_key: AES128)
    ensures
        ({
            let b = spec_join_request(app_eui@, dev_eui@, dev_nonce, app_key.0@);
            &&& join_request_ok(b)
            &&& spec_parses(b)
            &&& last4(b) == spec_mic(app_key.0@, without_mic(b))
            &&& b.subrange(1, 9) == app_eui@ && b.subrange(9, 17) == dev_eui@
        }),
{
    let body = seq![0u8] + app_eui@ + dev_eui@ + seq![(dev_nonce % 256) as u8, (dev_nonce / 256) as u8];
    let before = body + seq![0u8, 0u8, 0u8, 0u8];
    assert(before.subrange(0, 19) =~= body);
    assert(before[0] == 0u8);
    assert((0u8 >> 5u8) == 0u8 && 0u8 % 4 == 0) by (bit_vector);
    lemma_join_request_roundtrip(before, app_key);
    let b = spec_join_request(app_eui@, dev_eui@, dev_nonce, app_key.0@);
    assert(b =~= before.subrange(0, 19) + spec_mic(app_key.0@, before.subrange(0, 19)));
    assert(b.subrange(1, 9) =~= app_eui@);
    assert(b.subrange(9, 17) =~= dev_eui@);
}

/// An uplink frame prepared in a session is one that a network server with the session
/// keys accepts: it parses as a data frame, its MIC validates with the uplink frame
/// counter, it carries the FPort when it carries a payload, and decrypting it with a
/// counter that shares the high half gives back the application data, or the queued
/// answers when the FPort is 0.
pub proof fn lemma_uplink_accepted<R: Region, C: ChannelPlan<R>>(
    s: Session,
    cmds: Seq<UplinkMacCommandCreator>,
    ack_next: bool,
    configuration: Configuration,
    specs: DeviceSpecs,
    data: Seq<u8>,
    fport: u8,
    confirmed: bool,
    adr: bool,
    fcnt_rx: u32,
)
    requires
        Mac::<R, C>::spec_prepare_frame(Some(s), cmds, ack_next, configuration, specs, data, fport, confirmed, adr) is Ok,
        fcnt_rx / 65536 == s.fcnt_up / 65536,
    ensures
        ({
            let frame = Mac::<R, C>::spec_prepare_frame(
                Some(s),
                cmds,
                ack_next,
                configuration,
                specs,
                data,
                fport,
                confirmed,
                adr,
            )->Ok_0;
            let fl = spec_fhdr_length(frame[5]);
            &&& spec_parses(frame)
            &&& data_ok(frame)
            &&& last4(frame) == spec_data_mic(s.nwkskey.0.0@, without_mic(frame), s.fcnt_up)
            &&& spec_frm(data, cmds_bytes(cmds), Some(fport)).len() > 0 ==> spec_f_port(frame) == Some(fport)
            &&& spec_decrypt_data(
                frame,
                key_bytes(frm_key(frame, Some(&s.nwkskey.0), Some(&s.appskey.0))->0),
                fcnt_rx,
            ).subrange(2 + fl, frame.len() - 4) == spec_frm(data, cmds_bytes(cmds), Some(fport))
        }),
{
    let fctrl = Mac::<R, C>::spec_fctrl(s, ack_next, configuration, specs, adr);
    let hdr = spec_uplink_header(confirmed, s.devaddr.0@, fctrl, s.fcnt_up);
    assert(fctrl % 16 == 0) by {
        let b0: u8 = if adr {
            0x80
        } else {
            0
        };
        assert(b0 % 16 == 0 && (b0 | 0x20) % 16 == 0 && (b0 | 0x40) % 16 == 0 && ((b0 | 0x20) | 0x40) % 16 == 0)
            by (bit_vector)
            requires
                b0 == 0x80 || b0 == 0,
        ;
    }
    let m: u8 = if confirmed {
        0x80
    } else {
        0x40
    };
    assert(((m >> 5u8) == 4 || (m >> 5u8) == 2) && m % 4 == 0) by (bit_vector)
        requires
            m == 0x80 || m == 0x40,
    ;
    assert(hdr[0] == m);
    assert(hdr[5] == fctrl);
    assert(hdr[6] == s.fcnt_up % 256);
    lemma_data_frame_roundtrip(
        hdr,
        data,
        cmds_bytes(cmds),
        fport,
        s.fcnt_up,
        fcnt_rx,
        s.nwkskey.0,
        s.appskey.0,
    );
}

/// The number of LinkADRReqs in `cmds` from index `i` on.
pub open spec fn link_adr_reqs(cmds: Seq<DownlinkMacCommand>, i: int) -> nat
    decreases cmds.len() - i,
{
    if i < 0 || i >= cmds.len() {
        0
    } else {
        (if cmds[i] is LinkADRReq {
            1nat
        } else {
            0nat
        }) + link_adr_reqs(cmds, i + 1)
    }
}

/// The number of LinkADRAns in a queue of answers.
pub open spec fn link_adr_answers(q: Seq<UplinkMacCommandCreator>) -> nat
    decreases q.len(),
{
    if q.len() == 0 {
        0
    } else {
        link_adr_answers(q.drop_last()) + (if q.last() is LinkADRAns {
            1nat
        } else {
            0nat
        })
    }
}

/// When the MAC commands of a downlink are all handled, every LinkADRReq among them has
/// been answered by exactly one LinkADRAns.
pub proof fn lemma_link_adr_req_answered<R: Region, C: ChannelPlan<R>>(
    st: DownlinkState<C::Channel>,
    cmds: Seq<DownlinkMacCommand>,
    i: int,
    specs: DeviceSpecs,
    ctx: DownlinkContext,
)
    requires
        0 <= i,
        Mac::<R, C>::spec_downlink_cmds(st, cmds, i, specs, ctx).1 is Ok,
    ensures
        link_adr_answers(Mac::<R, C>::spec_downlink_cmds(st, cmds, i, specs, ctx).0.cmds) == link_adr_answers(st.cmds)
            + link_adr_reqs(cmds, i),
    decreases cmds.len() - i,
{
    if i < cmds.len() {
        let (st1, r) = Mac::<R, C>::spec_downlink_cmd(st, cmds[i], next_is_link_adr(cmds, i), specs, ctx);
        assert(st1.cmds == st.cmds);
        match r {
            Err(_) => {},
            Ok(None) => {
                assert(!(cmds[i] is LinkADRReq));
                lemma_link_adr_req_answered::<R, C>(st1, cmds, i + 1, specs, ctx);
            },
            Ok(Some(ans)) => {
                if st1.cmds.len() < 15 {
                    let st2 = DownlinkState { cmds: st1.cmds.push(ans), ..st1 };
                    assert(st2.cmds.drop_last() =~= st.cmds);
                    assert((ans is LinkADRAns) == (cmds[i] is LinkADRReq));
                    lemma_link_adr_req_answered::<R, C>(st2, cmds, i + 1, specs, ctx);
                }
            },
        }
    }
}

/// The session keys that a JoinAccept starts: AES-128 under the application key of the
/// block 0x01 (network key) or 0x02 (application key), then the JoinAccept's AppNonce
/// (its bytes 1 to 3), its NetID (bytes 4 to 6), the device nonce low byte first, and
/// seven zero bytes.
pub proof fn lemma_session_keys_layout(s: Session, d: Seq<u8>, credentials: Credentials)
    requires
        is_joined_session(s, d, credentials),
        d.len() >= 7,
    ensures
        ({
            let key = credentials.app_key.0.0@;
            let lo = (credentials.dev_nonce % 256) as u8;
            let hi = (credentials.dev_nonce / 256) as u8;
            &&& s.nwkskey.0.0@ == aes128_encrypt(
                key,
                seq![0x01u8, d[1], d[2], d[3], d[4], d[5], d[6], lo, hi, 0u8, 0u8, 0u8, 0u8, 0u8, 0u8, 0u8],
            )
            &&& s.appskey.0.0@ == aes128_encrypt(
                key,
                seq![0x02u8, d[1], d[2], d[3], d[4], d[5], d[6], lo, hi, 0u8, 0u8, 0u8, 0u8, 0u8, 0u8, 0u8],
            )
        }),
{
    let lo = (credentials.dev_nonce % 256) as u8;
    let hi = (credentials.dev_nonce / 256) as u8;
    let nonce = seq![lo, hi];
    assert(session_key_block(0x1, d, nonce) =~= seq![
        0x01u8, d[1], d[2], d[3], d[4], d[5], d[6], lo, hi, 0u8, 0u8, 0u8, 0u8, 0u8, 0u8, 0u8,
    ]);
    assert(session_key_block(0x2, d, nonce) =~= seq![
        0x02u8, d[1], d[2], d[3], d[4], d[5], d[6], lo, hi, 0u8, 0u8, 0u8, 0u8, 0u8, 0u8, 0u8,
    ]);
}

/// A data frame for the session's device address whose MIC is valid under the network
/// session key with its 16-bit frame counter is refused exactly when that counter is
/// neither above the last one received nor zero, and then only for its counter: a new
/// session, whose last counter is 0, takes a first downlink with counter 0.
pub proof fn lemma_fcnt_acceptance(s: Session, b: Seq<u8>)
    requires
        spec_parses(b),
        is_data_mtype(mtype_of(b[0])),
        b.subrange(1, 5) == s.devaddr.0@,
        last4(b) == spec_data_mic(s.nwkskey.0.0@, without_mic(b), (b[6] + 256 * b[7]) as u32),
    ensures
        spec_rx_error(s, b) is None <==> (b[6] + 256 * b[7] > s.fcnt_down || (b[6] == 0 && b[7] == 0)),
        spec_rx_error(s, b) is Some ==> spec_rx_error(s, b) == Some(Error::InvalidFcnt),
{
}

/// The last LinkADRReq of a block, applied (ADR off, or its power accepted) with its
/// channel mask accepted, sets: the repetitions to its NbTrans (the low nibble of its
/// last byte), or 1 when that is 0; the data rate to the high nibble of its first byte
/// unless that is 15 (keep); the power to what the region makes of the low nibble; and
/// the plan's channel mask to the mask built. Its answer acknowledges all three
/// elements when the power is accepted.
pub proof fn lemma_link_adr_applied<R: Region, C: ChannelPlan<R>>(
    st: DownlinkState<C::Channel>,
    p: LinkADRReqPayload,
    ctx: DownlinkContext,
)
    requires
        C::spec_channel_mask(st.mask, p.spec_channel_mask(), ((p.bytes()[3] / 16) % 8) as u8) is Ok,
        !ctx.adaptive_data_rate_enabled || R::spec_modify_dbm(
            p.bytes()[0] % 16,
            st.configuration.tx_power,
            R::spec_max_eirp(),
        ) is Ok,
    ensures
        ({
            let b = p.bytes();
            let (st1, ans) = Mac::<R, C>::spec_link_adr_req(st, p, false, ctx);
            let tp = R::spec_modify_dbm(b[0] % 16, st.configuration.tx_power, R::spec_max_eirp());
            let m = C::spec_channel_mask(st.mask, p.spec_channel_mask(), ((b[3] / 16) % 8) as u8)->Ok_0;
            &&& st1.configuration.number_of_transmissions == if b[3] % 16 == 0 {
                1u8
            } else {
                (b[3] % 16) as u8
            }
            &&& b[0] / 16 != 15 ==> (st1.configuration.tx_data_rate matches Some(d) && dr_value(d) == b[0] / 16)
            &&& b[0] / 16 == 15 ==> st1.configuration.tx_data_rate == st.configuration.tx_data_rate
            &&& tp matches Ok(t) ==> st1.configuration.tx_power == t
            &&& st1.plan.mask == m
            &&& st1.plan.channels == st.plan.channels
            &&& st1.mask == m
            &&& tp is Ok ==> ans == UplinkMacCommandCreator::LinkADRAns(
                LinkADRAnsCreator::of_bytes(seq![0x03u8, 0x07u8]),
            )
        }),
{
    assert(with_bit(with_bit(with_bit(0u8, 2, true), 1, true), 0, true) == 0x07u8) by (bit_vector);
}

/// A LinkADRReq block that ADR refuses (ADR on, and the power or the channel mask of its
/// last request refused) leaves the configuration and the plan as they were.
pub proof fn lemma_link_adr_refused<R: Region, C: ChannelPlan<R>>(
    st: DownlinkState<C::Channel>,
    p: LinkADRReqPayload,
    ctx: DownlinkContext,
)
    requires
        ctx.adaptive_data_rate_enabled,
        R::spec_modify_dbm(p.bytes()[0] % 16, st.configuration.tx_power, R::spec_max_eirp()) is Err
            || C::spec_channel_mask(st.mask, p.spec_channel_mask(), ((p.bytes()[3] / 16) % 8) as u8) is Err,
    ensures
        Mac::<R, C>::spec_link_adr_req(st, p, false, ctx).0.configuration == st.configuration,
        Mac::<R, C>::spec_link_adr_req(st, p, false, ctx).0.plan == st.plan,
{
}

/// A LinkADRReq block whose last channel mask is refused keeps the repetitions and the
/// plan, whether ADR is on or off.
pub proof fn lemma_link_adr_mask_refused<R: Region, C: ChannelPlan<R>>(
    st: DownlinkState<C::Channel>,
    p: LinkADRReqPayload,
    ctx: DownlinkContext,
)
    requires
        C::spec_channel_mask(st.mask, p.spec_channel_mask(), ((p.bytes()[3] / 16) % 8) as u8) is Err,
    ensures
        Mac::<R, C>::spec_link_adr_req(st, p, false, ctx).0.configuration.number_of_transmissions
            == st.configuration.number_of_transmissions,
        Mac::<R, C>::spec_link_adr_req(st, p, false, ctx).0.plan == st.plan,
{
}

/// US915 data rates: DR0 to DR3 are SF10 to SF7 at 125 kHz, DR4 is SF8 at 500 kHz, DR8
/// to DR13 are SF12 to SF7 at 500 kHz; the others are not supported.
pub proof fn lemma_us915_data_rate_table(dr: DR)
    ensures
        US915::spec_convert_data_rate(dr) == match dr {
            DR::_0 => Ok(Datarate { spreading_factor: SpreadingFactor::_10, bandwidth: Bandwidth::_125KHz }),
            DR::_1 => Ok(Datarate { spreading_factor: SpreadingFactor::_9, bandwidth: Bandwidth::_125KHz }),
            DR::_2 => Ok(Datarate { spreading_factor: SpreadingFactor::_8, bandwidth: Bandwidth::_125KHz }),
            DR::_3 => Ok(Datarate { spreading_factor: SpreadingFactor::_7, bandwidth: Bandwidth::_125KHz }),
            DR::_4 => Ok(Datarate { spreading_factor: SpreadingFactor::_8, bandwidth: Bandwidth::_500KHz }),
            DR::_8 => Ok(Datarate { spreading_factor: SpreadingFactor::_12, bandwidth: Bandwidth::_500KHz }),
            DR::_9 => Ok(Datarate { spreading_factor: SpreadingFactor::_11, bandwidth: Bandwidth::_500KHz }),
            DR::_10 => Ok(Datarate { spreading_factor: SpreadingFactor::_10, bandwidth: Bandwidth::_500KHz }),
            DR::_11 => Ok(Datarate { spreading_factor: SpreadingFactor::_9, bandwidth: Bandwidth::_500KHz }),
            DR::_12 => Ok(Datarate { spreading_factor: SpreadingFactor::_8, bandwidth: Bandwidth::_500KHz }),
            DR::_13 => Ok(Datarate { spreading_factor: SpreadingFactor::_7, bandwidth: Bandwidth::_500KHz }),
            _ => Err(super::region::Error::DataRateNotSupported(dr)),
        },
{
}

/// EU868 data rates: DR0 to DR5 are SF12 to SF7 at 125 kHz, DR6 is SF7 at 250 kHz; the
/// others are not supported.
pub proof fn lemma_eu868_data_rate_table(dr: DR)
    ensures
        EU868::spec_convert_data_rate(dr) == match dr {
            DR::_0 => Ok(Datarate { spreading_factor: SpreadingFactor::_12, bandwidth: Bandwidth::_125KHz }),
            DR::_1 => Ok(Datarate { spreading_factor: SpreadingFactor::_11, bandwidth: Bandwidth::_125KHz }),
            DR::_2 => Ok(Datarate { spreading_factor: SpreadingFactor::_10, bandwidth: Bandwidth::_125KHz }),
            DR::_3 => Ok(Datarate { spreading_factor: SpreadingFactor::_9, bandwidth: Bandwidth::_125KHz }),
            DR::_4 => Ok(Datarate { spreading_factor: SpreadingFactor::_8, bandwidth: Bandwidth::_125KHz }),
            DR::_5 => Ok(Datarate { spreading_factor: SpreadingFactor::_7, bandwidth: Bandwidth::_125KHz }),
            DR::_6 => Ok(Datarate { spreading_factor: SpreadingFactor::_7, bandwidth: Bandwidth::_250KHz }),
            _ => Err(super::region::Error::DataRateNotSupported(dr)),
        },
{
}

/// The block B0 of a data frame's MIC: 0x49, four zero bytes, the direction (0 for an
/// uplink MType, 1 for a downlink one, whether confirmed or not), the device address
/// (frame bytes 1 to 4), the frame counter low byte first, a zero byte and the length of
/// the frame without its MIC.
pub proof fn lemma_data_mic_block_layout(data: Seq<u8>, fcnt: u32)
    requires
        data.len() >= 5,
        is_data_mtype(mtype_of(data[0])),
    ensures
        data_mic_block(data, fcnt) == seq![
            0x49u8,
            0u8,
            0u8,
            0u8,
            0u8,
            if is_uplink_mtype(mtype_of(data[0])) {
                0u8
            } else {
                1u8
            },
            data[1],
            data[2],
            data[3],
            data[4],
            (fcnt % 256) as u8,
            ((fcnt / 256) % 256) as u8,
            ((fcnt / 65536) % 256) as u8,
            (fcnt / 16777216) as u8,
            0u8,
            (data.len() % 256) as u8,
        ],
{
    let h = data[0];
    assert(((h >> 5u8) == 2u8 || (h >> 5u8) == 4u8) ==> (h & 0x20u8) >> 5u8 == 0u8) by (bit_vector);
    assert(((h >> 5u8) == 3u8 || (h >> 5u8) == 5u8) ==> (h & 0x20u8) >> 5u8 == 1u8) by (bit_vector);
    assert(data_mic_block(data, fcnt) =~= seq![
        0x49u8,
        0u8,
        0u8,
        0u8,
        0u8,
        if is_uplink_mtype(mtype_of(data[0])) {
            0u8
        } else {
            1u8
        },
        data[1],
        data[2],
        data[3],
        data[4],
        (fcnt % 256) as u8,
        ((fcnt / 256) % 256) as u8,
        ((fcnt / 65536) % 256) as u8,
        (fcnt / 16777216) as u8,
        0u8,
        (data.len() % 256) as u8,
    ]);
}

/// The MIC of a data frame is the first four bytes of the AES-CMAC, under the key, of
/// its block B0 followed by the frame.
pub proof fn lemma_data_mic_is_cmac_prefix(key: Seq<u8>, data: Seq<u8>, fcnt: u32)
    ensures
        spec_data_mic(key, data, fcnt).len() == 4,
        forall|i: int|
            0 <= i < 4 ==> #[trigger] spec_data_mic(key, data, fcnt)[i] == aes128_cmac(
                key,
                data_mic_block(data, fcnt) + data,
            )[i],
{
}

/// EU868 RX1 data rate: for an uplink data rate up to DR5 and an offset up to 5, the
/// uplink data rate lowered by the offset, not below DR0; other inputs are refused.
pub proof fn lemma_eu868_rx1_table(ul: DR, offset: u8)
    ensures
        (offset > 5 || dr_value(ul) > 5) ==> EU868::spec_get_rx1_dr(ul, offset) == Err::<DR, super::region::Error>(
            super::region::Error::UnsupportedRx1DROffset(ul, offset),
        ),
        (offset <= 5 && dr_value(ul) <= 5) ==> (EU868::spec_get_rx1_dr(ul, offset) matches Ok(d) && dr_value(d) == if dr_value(ul) >= offset {
            dr_value(ul) - offset
        } else {
            0
        }),
{
    let v = dr_value(ul) - offset;
    crate::mac::types::lemma_dr_from(v, ul);
    crate::mac::types::lemma_dr_from(0, ul);
}

/// US915 RX1 data rate: for an uplink data rate up to DR4 and an offset up to 3, DR10
/// raised by the uplink data rate and lowered by the offset, kept within DR8 to DR13;
/// other inputs are refused.
pub proof fn lemma_us915_rx1_table(ul: DR, offset: u8)
    ensures
        (offset > 3 || dr_value(ul) > 4) ==> US915::spec_get_rx1_dr(ul, offset) == Err::<DR, super::region::Error>(
            super::region::Error::UnsupportedRx1DROffset(ul, offset),
        ),
        (offset <= 3 && dr_value(ul) <= 4) ==> (US915::spec_get_rx1_dr(ul, offset) matches Ok(d) && dr_value(d) == if 10 + dr_value(ul) - offset > 13 {
            13
        } else if 10 + dr_value(ul) - offset < 8 {
            8
        } else {
            10 + dr_value(ul) - offset
        }),
{
    let v = super::region::us915::clamp(10 + dr_value(ul) - offset, 8, 13);
    crate::mac::types::lemma_dr_from(v, ul);
}

/// EU868 transmission power of a LinkADRReq: power index `p` up to 7 gives the maximum
/// EIRP lowered by 2p dB, index 15 keeps the current power, other indexes are refused.
pub proof fn lemma_eu868_tx_power(p: u8, cur: Option<i8>, max_eirp: i8)
    requires
        max_eirp - 14 >= -128,
    ensures
        p <= 7 ==> (EU868::spec_modify_dbm(p, cur, max_eirp) matches Ok(Some(t)) && t == max_eirp - 2 * p),
        p == 15 ==> EU868::spec_modify_dbm(p, cur, max_eirp) == Ok::<Option<i8>, super::region::Error>(cur),
        (p > 7 && p != 15) ==> EU868::spec_modify_dbm(p, cur, max_eirp) == Err::<Option<i8>, super::region::Error>(
            super::region::Error::InvalidTxPower,
        ),
{
}

/// US915 transmission power of a LinkADRReq: power index 0 gives 30 dBm, index 15 keeps
/// the current power, other indexes are refused.
pub proof fn lemma_us915_tx_power(p: u8, cur: Option<i8>, max_eirp: i8)
    ensures
        p == 0 ==> US915::spec_modify_dbm(p, cur, max_eirp) == Ok::<Option<i8>, super::region::Error>(Some(30i8)),
        p == 15 ==> US915::spec_modify_dbm(p, cur, max_eirp) == Ok::<Option<i8>, super::region::Error>(cur),
        (p != 0 && p != 15) ==> US915::spec_modify_dbm(p, cur, max_eirp) == Err::<Option<i8>, super::region::Error>(
            super::region::Error::InvalidTxPower,
        ),
{
}

} // verus!
