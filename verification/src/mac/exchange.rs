//! The decisions of a join and of a data exchange, before and after the radio work.

use vstd::prelude::*;

use super::region::channel_plan::ChannelPlan;
use super::region::Region;
use super::downlink_commands::{downlink_cmds_ok, DownlinkContext, DownlinkState};
use super::types::{dr_from, Configuration, Credentials, Session};
use super::uplink_queue::{queue_clear, queue_is_empty, queue_retain_sticky, queued, sticky_pred};
use super::{Error, Mac};
use crate::device::{DeviceNotification, DeviceSpecs};
use crate::encoding::parser::{
    copy_range, data_ok, is_confirmed_mtype, is_data_mtype, is_uplink_mtype, last4, major_of, mtype_of, parse,
    spec_f_port, spec_fhdr_length, spec_parses, without_mic, DataHeader, FRMPayload, MType, Major, PhyPayload, MHDR,
};
use crate::mac::mac_1_0_4::encoding::maccommands::{downlink_commands, spec_downlink_cmds};
use crate::encoding::default_crypto::aes128_encrypt;
use crate::encoding::parser::DevNonce;
use crate::encoding::securityhelpers::{spec_data_mic, spec_mic};
use crate::mac::mac_1_0_4::encoding::maccommandcreator::UplinkMacCommandCreator;
use crate::mac::mac_1_0_4::encoding::parser::{
    frm_key, key_bytes, session_key_block, spec_cf_list_value, spec_decrypt_data, spec_join_accept_decrypt,
    DecryptedDataPayload, DecryptedJoinAcceptPayload,
};

verus! {

/// The error that parsing `b` as a frame ends with, when it does not parse.
pub open spec fn spec_parse_failure(b: Seq<u8>) -> crate::encoding::Error {
    if b.len() == 0 {
        crate::encoding::Error::PhyDataEmpty
    } else if major_of(b[0]) != Major::LoRaWANR1 {
        crate::encoding::Error::UnsupportedMajorVersion
    } else if b.len() < 12 {
        crate::encoding::Error::InsufficeientNumberOfBytes
    } else if mtype_of(b[0]) == MType::RFU || mtype_of(b[0]) == MType::Proprietary {
        crate::encoding::Error::UnsupportedMessageType
    } else {
        crate::encoding::Error::InvalidData
    }
}

/// The error that parsing `data` as a frame ends with, for bytes that do not parse.
pub fn parse_failure(data: &[u8]) -> (res: crate::encoding::Error)
    ensures
        res == spec_parse_failure(data@),
{
    if data.len() == 0 {
        crate::encoding::Error::PhyDataEmpty
    } else if MHDR(data[0]).major() != Major::LoRaWANR1 {
        crate::encoding::Error::UnsupportedMajorVersion
    } else if data.len() < 12 {
        crate::encoding::Error::InsufficeientNumberOfBytes
    } else {
        let t = MHDR(data[0]).mtype();
        if t == MType::RFU || t == MType::Proprietary {
            crate::encoding::Error::UnsupportedMessageType
        } else {
            crate::encoding::Error::InvalidData
        }
    }
}

/// Whether the bytes form a data frame.
pub open spec fn is_data_frame(b: Seq<u8>) -> bool {
    spec_parses(b) && is_data_mtype(mtype_of(b[0]))
}

/// The 16-bit frame counter of a data frame.
pub open spec fn frame_fcnt(b: Seq<u8>) -> u32 {
    (b[6] + 256 * b[7]) as u32
}

/// The session after a frame was received: the ADR acknowledgement count restarts for
/// a data frame and otherwise grows, up to 255.
pub open spec fn spec_count_rx(s: Session, b: Seq<u8>) -> Session {
    if is_data_frame(b) {
        Session { adr_ack_cnt: 0, ..s }
    } else {
        Session {
            adr_ack_cnt: if s.adr_ack_cnt < 255 {
                (s.adr_ack_cnt + 1) as u8
            } else {
                255
            },
            ..s
        }
    }
}

/// The error, if any, that refuses a received frame `b` in session `s`.
pub open spec fn spec_rx_error(s: Session, b: Seq<u8>) -> Option<Error> {
    if !spec_parses(b) {
        Some(Error::Encoding(spec_parse_failure(b)))
    } else if !is_data_mtype(mtype_of(b[0])) {
        Some(Error::InvalidPayloadType)
    } else if b.subrange(1, 5) != s.devaddr.0@ {
        Some(Error::InvalidDevAddr)
    } else if last4(b) != spec_data_mic(s.nwkskey.0.0@, without_mic(b), frame_fcnt(b)) {
        Some(Error::InvalidMic)
    } else if !(frame_fcnt(b) > s.fcnt_down || frame_fcnt(b) == 0) {
        Some(Error::InvalidFcnt)
    } else {
        None
    }
}

/// The bytes of a data frame `b` of session `s` once its FRMPayload is decrypted.
pub open spec fn spec_rx_decrypted(s: Session, b: Seq<u8>) -> Seq<u8> {
    spec_decrypt_data(b, key_bytes(frm_key(b, Some(&s.nwkskey.0), Some(&s.appskey.0))->0), frame_fcnt(b))
}

impl<R: Region, C: ChannelPlan<R>> Mac<R, C> {
    /// Takes in the frame received after a data uplink: counts it for ADR, checks that
    /// it is a data frame for this device with a valid MIC and a new frame counter, and
    /// decrypts it. The queued answers are dropped once the frame is known to be for
    /// this device.
    pub fn receive_data_frame(&mut self, rx: Vec<u8>) -> (res: Result<DecryptedDataPayload, Error>)
        requires
            old(self).session is Some,
        ensures
            ({
                let b = rx@;
                let s = old(self).session->0;
                let s1 = spec_count_rx(s, b);
                &&& match spec_rx_error(s, b) {
                    Some(e) => res == Err::<DecryptedDataPayload, Error>(e) && final(self).session == Some(s1),
                    None => res matches Ok(d) && d.data_bytes() == spec_rx_decrypted(s, b) && final(self).session
                        == Some(Session { fcnt_down: frame_fcnt(b), ..s1 }),
                }
                &&& queued(final(self).uplink_cmds) == if is_data_frame(b) && b.subrange(1, 5) == s.devaddr.0@ {
                    Seq::<UplinkMacCommandCreator>::empty()
                } else {
                    queued(old(self).uplink_cmds)
                }
            }),
            final(self).configuration == old(self).configuration,
            final(self).channel_plan == old(self).channel_plan,
            final(self).ack_next == old(self).ack_next,
            final(self).credentials == old(self).credentials,
    {
        let ghost b = rx@;
        let fail = parse_failure(rx.as_slice());
        let res = parse(rx);
        let mut session = match self.session {
            Some(s) => s,
            None => {
                return Err(Error::NetworkNotJoined);
            },
        };
        if let Ok(PhyPayload::Data(_)) = &res {
            session.adr_ack_cnt_clear();
        } else {
            session.adr_ack_cnt_increment();
        }
        self.session = Some(session);
        match res {
            Ok(PhyPayload::Data(encrypted)) => {
                proof {
                    encrypted.lemma_data_bytes();
                    assert(encrypted.data_bytes() == b);
                }
                let fhdr = encrypted.fhdr();
                let dev_addr = fhdr.dev_addr();
                assert(dev_addr.0@ =~= b.subrange(1, 5));
                assert(fhdr.bytes()[5] == b[6] && fhdr.bytes()[6] == b[7]);
                if !session.devaddr.same_as(&dev_addr) {
                    return Err(Error::InvalidDevAddr);
                }
                // clear all uplink cmds here after successfull downlink
                queue_clear(&mut self.uplink_cmds);
                let fcnt = fhdr.fcnt() as u32;
                if !encrypted.validate_mic(&session.nwkskey.0, fcnt) {
                    return Err(Error::InvalidMic);
                }
                if !(fcnt > session.fcnt_down || fcnt == 0) {
                    return Err(Error::InvalidFcnt);
                }
                session.fcnt_down = fcnt;
                self.session = Some(session);
                match DecryptedDataPayload::new_from_encrypted(
                    encrypted,
                    Some(&session.nwkskey.0),
                    Some(&session.appskey.0),
                    session.fcnt_down,
                ) {
                    Ok(decrypted) => Ok(decrypted),
                    Err(e) => Err(Error::Encoding(e)),
                }
            },
            Ok(_) => Err(Error::InvalidPayloadType),
            Err(_) => Err(Error::Encoding(fail)),
        }
    }
}

/// The FOpts of a data frame.
pub open spec fn fopts_of(d: Seq<u8>) -> Seq<u8> {
    d.subrange(8, 1 + spec_fhdr_length(d[5]))
}

/// The MAC commands that the FRMPayload of a data frame carries, when its FPort is 0.
pub open spec fn frm_cmds_of(d: Seq<u8>) -> Option<Seq<u8>> {
    let fl = spec_fhdr_length(d[5]);
    if d.len() >= fl + 6 && spec_f_port(d) == Some(0u8) {
        Some(d.subrange(2 + fl, d.len() - 4))
    } else {
        None
    }
}

/// Whether `p` is the FRMPayload of the decrypted data frame `d`: nothing when the frame
/// is too short to hold one, the MAC commands when the FPort is 0, the application data
/// otherwise.
pub open spec fn is_frm_payload_of(d: Seq<u8>, p: FRMPayload) -> bool {
    let fl = spec_fhdr_length(d[5]);
    if d.len() < fl + 6 {
        p == FRMPayload::Empty
    } else if spec_f_port(d) != Some(0u8) {
        p matches FRMPayload::Data(v) && v@ == d.subrange(2 + fl, d.len() - 4)
    } else {
        p matches FRMPayload::MACCommands(m) && m.1@ == d.subrange(2 + fl, d.len() - 4) && m.0 == is_uplink_mtype(
            mtype_of(d[0]),
        )
    }
}

/// The FRMPayload of a decrypted data frame.
pub fn frm_payload(payload: DecryptedDataPayload) -> (res: FRMPayload)
    ensures
        is_frm_payload_of(payload.data_bytes(), res),
{
    match payload.frm_payload() {
        Ok(p) => p,
        Err(_) => FRMPayload::Empty,
    }
}

/// The state that handling a second list of commands starts from: the channel mask
/// starts over from the plan's.
pub open spec fn restart<Ch>(st: DownlinkState<Ch>) -> DownlinkState<Ch> {
    DownlinkState { mask: st.plan.mask, ..st }
}

impl<R: Region, C: ChannelPlan<R>> Mac<R, C> {
    /// Whether the MAC commands of a decrypted data frame can be handled.
    pub open spec fn spec_downlink_data_ok(d: Seq<u8>) -> bool {
        &&& downlink_cmds_ok::<R, C>(spec_downlink_cmds(fopts_of(d)))
        &&& frm_cmds_of(d) matches Some(m) ==> downlink_cmds_ok::<R, C>(spec_downlink_cmds(m))
    }

    /// Whether this MAC holds what a downlink state says.
    pub open spec fn holds(&self, st: DownlinkState<C::Channel>, notes: Seq<DeviceNotification>) -> bool {
        &&& self.configuration == st.configuration
        &&& self.channel_plan.spec_state() == st.plan
        &&& queued(self.uplink_cmds) == st.cmds
        &&& notes == st.notes
    }

    /// Whether the MAC commands of a decrypted data frame can be handled.
    pub fn downlink_data_supported(decrypted: &DecryptedDataPayload) -> (res: bool)
        ensures
            res == Self::spec_downlink_data_ok(decrypted.data_bytes()),
    {
        let data = decrypted.as_data_bytes();
        let fl = decrypted.fhdr_length();
        let fopts = downlink_commands(vstd::slice::slice_subrange(data, 8, 1 + fl));
        if !Self::downlink_cmds_supported(fopts.as_slice()) {
            return false;
        }
        if data.len() >= fl + 6 && decrypted.f_port() == Some(0u8) {
            let frm = downlink_commands(vstd::slice::slice_subrange(data, 2 + fl, data.len() - 4));
            Self::downlink_cmds_supported(frm.as_slice())
        } else {
            true
        }
    }

    /// The state after the MAC commands of a decrypted data frame `d`, those of its FOpts
    /// and then those of its FRMPayload when its FPort is 0, and the outcome.
    pub open spec fn spec_finish_downlink(
        st0: DownlinkState<C::Channel>,
        d: Seq<u8>,
        specs: DeviceSpecs,
        ctx: DownlinkContext,
    ) -> (DownlinkState<C::Channel>, Result<(), Error>) {
        let (st1, r1) = Self::spec_downlink_cmds(st0, spec_downlink_cmds(fopts_of(d)), 0, specs, ctx);
        match r1 {
            Err(e) => (st1, Err(e)),
            Ok(_) => match frm_cmds_of(d) {
                None => (st1, Ok(())),
                Some(m) => Self::spec_downlink_cmds(restart(st1), spec_downlink_cmds(m), 0, specs, ctx),
            },
        }
    }

    /// Handles the MAC commands of a decrypted data frame, those of its FOpts and then
    /// those of its FRMPayload when its FPort is 0, and gives its FRMPayload. Once all
    /// is handled, the next uplink acknowledges the frame if it was confirmed.
    pub fn finish_data_downlink(
        &mut self,
        specs: &DeviceSpecs,
        ctx: &DownlinkContext,
        decrypted: DecryptedDataPayload,
        notifications: &mut Vec<DeviceNotification>,
    ) -> (res: Result<FRMPayload, Error>)
        requires
            Self::spec_downlink_data_ok(decrypted.data_bytes()),
        ensures
            ({
                let d = decrypted.data_bytes();
                let (st, r) = Self::spec_finish_downlink(
                    old(self).spec_downlink_start(old(notifications)@),
                    d,
                    *specs,
                    *ctx,
                );
                &&& final(self).holds(st, final(notifications)@)
                &&& match r {
                    Err(e) => res == Err::<FRMPayload, Error>(e) && final(self).ack_next == old(self).ack_next,
                    Ok(_) => res matches Ok(p) && is_frm_payload_of(d, p) && final(self).ack_next == is_confirmed_mtype(
                        mtype_of(d[0]),
                    ),
                }
            }),
            final(self).session == old(self).session,
            final(self).credentials == old(self).credentials,
    {
        let ghost d = decrypted.data_bytes();
        // use temporary variable for ack_next to only confirm if the message was correctly handled
        let ack_next = decrypted.is_confirmed();
        let data = decrypted.as_data_bytes();
        let fl = decrypted.fhdr_length();
        let fopts_bytes = vstd::slice::slice_subrange(data, 8, 1 + fl);
        assert(fopts_bytes@ =~= fopts_of(d));
        let fopts = downlink_commands(fopts_bytes);
        self.handle_downlink_macs(specs, ctx, fopts.as_slice(), notifications)?;
        let payload = frm_payload(decrypted);
        if let FRMPayload::MACCommands(mac_cmds) = &payload {
            proof {
                assert(frm_cmds_of(d) == Some(mac_cmds.1@));
            }
            let cmds = downlink_commands(mac_cmds.1.as_slice());
            self.handle_downlink_macs(specs, ctx, cmds.as_slice(), notifications)?;
        }
        self.ack_next = ack_next;
        Ok(payload)
    }
}

/// The 16-bit frame counter of a received data frame, as the session keeps it.
pub open spec fn spec_session_after_rx(s: Session, b: Seq<u8>) -> Session {
    if spec_rx_error(s, b) is None {
        Session { fcnt_down: frame_fcnt(b), ..spec_count_rx(s, b) }
    } else {
        spec_count_rx(s, b)
    }
}

/// Decrypting a data frame keeps its length and its header bytes.
pub proof fn lemma_decrypt_keeps_header(s: Session, b: Seq<u8>)
    requires
        is_data_frame(b),
    ensures
        spec_rx_decrypted(s, b).len() == b.len(),
        spec_rx_decrypted(s, b)[0] == b[0],
        spec_rx_decrypted(s, b)[5] == b[5],
{
}

impl<R: Region, C: ChannelPlan<R>> Mac<R, C> {
    /// Whether a frame received after a data uplink in session `s` can be handled: it is
    /// well formed and, once accepted and decrypted, its MAC commands can be handled.
    pub open spec fn spec_rx_supported(s: Session, b: Seq<u8>) -> bool {
        &&& spec_rx_error(s, b) is None ==> Self::spec_downlink_data_ok(spec_rx_decrypted(s, b))
    }

    /// Whether a frame received after a data uplink can be handled.
    pub fn rx_supported(&self, rx: &[u8]) -> (res: bool)
        requires
            self.session is Some,
        ensures
            res == Self::spec_rx_supported(self.session->0, rx@),
    {
        let session = match self.session {
            Some(s) => s,
            None => {
                return true;
            },
        };
        let ghost b = rx@;
        let parsed = parse(copy_range(rx, 0, rx.len()));
        match parsed {
            Ok(PhyPayload::Data(encrypted)) => {
                proof {
                    encrypted.lemma_data_bytes();
                    assert(encrypted.data_bytes() =~= b);
                }
                let fhdr = encrypted.fhdr();
                let dev_addr = fhdr.dev_addr();
                assert(dev_addr.0@ =~= b.subrange(1, 5));
                assert(fhdr.bytes()[5] == b[6] && fhdr.bytes()[6] == b[7]);
                let fcnt = fhdr.fcnt() as u32;
                if !session.devaddr.same_as(&dev_addr) || !encrypted.validate_mic(&session.nwkskey.0, fcnt) || !(fcnt
                    > session.fcnt_down || fcnt == 0) {
                    return true;
                }
                match DecryptedDataPayload::new_from_encrypted(
                    encrypted,
                    Some(&session.nwkskey.0),
                    Some(&session.appskey.0),
                    fcnt,
                ) {
                    Ok(decrypted) => Self::downlink_data_supported(&decrypted),
                    Err(_) => true,
                }
            },
            _ => true,
        }
    }

    /// Prepares a data uplink of `data` on `fport` in the current session: counts the
    /// uplink, backs off ADR when it is enabled and due, asks for a confirmation when
    /// answers are queued, and builds the frame. Gives the frame and whether it is
    /// confirmed.
    pub fn prepare_send(
        &mut self,
        specs: &DeviceSpecs,
        adaptive_data_rate_enabled: bool,
        data: &[u8],
        fport: u8,
        confirmed: bool,
    ) -> (res: Result<(Vec<u8>, bool), Error>)
        requires
            (adaptive_data_rate_enabled && (old(self).session matches Some(s) && s.fcnt_up < 0xFFFF))
                ==> Self::spec_adr_specs_ok(*specs),
        ensures
            match old(self).session {
                None => res == Err::<(Vec<u8>, bool), Error>(Error::NetworkNotJoined) && *final(self) == *old(self),
                Some(s) => if s.fcnt_up >= 0xFFFF {
                    res == Err::<(Vec<u8>, bool), Error>(Error::SessionExpired) && *final(self) == *old(self)
                } else {
                    let s1 = Session { fcnt_up: (s.fcnt_up + 1) as u32, ..s };
                    let due = adaptive_data_rate_enabled && Self::spec_back_off_due(Some(s1), *specs);
                    let c1 = Self::spec_back_off_configuration(due, old(self).configuration);
                    let conf = confirmed || queued(old(self).uplink_cmds).len() > 0;
                    &&& final(self).session == Some(s1)
                    &&& final(self).configuration == c1
                    &&& final(self).channel_plan.spec_state() == Self::spec_back_off_plan(
                        due,
                        old(self).configuration,
                        old(self).channel_plan.spec_state(),
                    )
                    &&& final(self).uplink_cmds == old(self).uplink_cmds
                    &&& final(self).ack_next == old(self).ack_next
                    &&& final(self).credentials == old(self).credentials
                    &&& match Self::spec_prepare_frame(
                        Some(s1),
                        queued(old(self).uplink_cmds),
                        old(self).ack_next,
                        c1,
                        *specs,
                        data@,
                        fport,
                        conf,
                        adaptive_data_rate_enabled,
                    ) {
                        Ok(f) => res matches Ok((v, c)) && v@ == f && c == conf,
                        Err(e) => res == Err::<(Vec<u8>, bool), Error>(e),
                    }
                },
            },
    {
        let mut session = match self.session {
            Some(s) => s,
            None => {
                return Err(Error::NetworkNotJoined);
            },
        };
        if session.is_expired() {
            return Err(Error::SessionExpired);
        }
        session.fcnt_up_increment();
        self.session = Some(session);
        if adaptive_data_rate_enabled {
            self.adr_back_off(specs);
        }
        let confirmed = confirmed || !queue_is_empty(&self.uplink_cmds);
        match self.prepare_buffer(specs, data, fport, confirmed, adaptive_data_rate_enabled) {
            Ok(frame) => Ok((frame, confirmed)),
            Err(e) => Err(e),
        }
    }

    /// Handles what follows a data uplink: the acknowledgement has been sent, the answers
    /// that need no repetition leave the queue, and the frame received in the receive
    /// windows, if any, is taken in and its MAC commands handled. Without a frame, a
    /// confirmed uplink has failed.
    pub fn handle_send_response(
        &mut self,
        specs: &DeviceSpecs,
        ctx: &DownlinkContext,
        rx: Option<Vec<u8>>,
        confirmed: bool,
        notifications: &mut Vec<DeviceNotification>,
    ) -> (res: Result<Option<FRMPayload>, Error>)
        requires
            old(self).session is Some,
            rx matches Some(b) ==> Self::spec_rx_supported(old(self).session->0, b@),
        ensures
            ({
                let s = old(self).session->0;
                let q1 = queued(old(self).uplink_cmds).filter(sticky_pred());
                match rx {
                    None => {
                        &&& res == if confirmed {
                            Err::<Option<FRMPayload>, Error>(Error::NoResponse)
                        } else {
                            Ok::<Option<FRMPayload>, Error>(None)
                        }
                        &&& final(self).session == old(self).session
                        &&& final(self).configuration == old(self).configuration
                        &&& final(self).channel_plan == old(self).channel_plan
                        &&& queued(final(self).uplink_cmds) == q1
                        &&& !final(self).ack_next
                        &&& final(notifications)@ == old(notifications)@
                    },
                    Some(v) => {
                        let b = v@;
                        &&& final(self).session == Some(spec_session_after_rx(s, b))
                        &&& match spec_rx_error(s, b) {
                            Some(e) => {
                                &&& res == Err::<Option<FRMPayload>, Error>(e)
                                &&& final(self).configuration == old(self).configuration
                                &&& final(self).channel_plan == old(self).channel_plan
                                &&& queued(final(self).uplink_cmds) == if is_data_frame(b) && b.subrange(1, 5)
                                    == s.devaddr.0@ {
                                    Seq::<UplinkMacCommandCreator>::empty()
                                } else {
                                    q1
                                }
                                &&& !final(self).ack_next
                                &&& final(notifications)@ == old(notifications)@
                            },
                            None => {
                                let d = spec_rx_decrypted(s, b);
                                let st0 = DownlinkState {
                                    configuration: old(self).configuration,
                                    plan: old(self).channel_plan.spec_state(),
                                    cmds: Seq::empty(),
                                    mask: old(self).channel_plan.spec_state().mask,
                                    notes: old(notifications)@,
                                };
                                let (st, r) = Self::spec_finish_downlink(st0, d, *specs, *ctx);
                                &&& final(self).holds(st, final(notifications)@)
                                &&& match r {
                                    Err(e) => res == Err::<Option<FRMPayload>, Error>(e) && !final(self).ack_next,
                                    Ok(_) => res matches Ok(Some(p)) && is_frm_payload_of(d, p) && final(self).ack_next
                                        == is_confirmed_mtype(mtype_of(d[0])),
                                }
                            },
                        }
                    },
                }
            }),
            final(self).credentials == old(self).credentials,
    {
        self.ack_next = false;
        // Answers acknowledged only by a downlink stay queued until one arrives.
        queue_retain_sticky(&mut self.uplink_cmds);
        match rx {
            Some(bytes) => {
                let ghost b = bytes@;
                let ghost s = self.session->0;
                let decrypted = self.receive_data_frame(bytes)?;
                proof {
                    lemma_decrypt_keeps_header(s, b);
                }
                let payload = self.finish_data_downlink(specs, ctx, decrypted, notifications)?;
                Ok(Some(payload))
            },
            None => if confirmed {
                Err(Error::NoResponse)
            } else {
                Ok(None)
            },
        }
    }
}

/// Whether `s` is the session that the decrypted JoinAccept `d` starts for the
/// credentials `cr`: the session keys derived from it with the device nonce under the
/// application key, the device address it assigns, and counters at zero.
pub open spec fn is_joined_session(s: Session, d: Seq<u8>, cr: Credentials) -> bool {
    let nonce = seq![(cr.dev_nonce % 256) as u8, (cr.dev_nonce / 256) as u8];
    &&& s.nwkskey.0.0@ == aes128_encrypt(cr.app_key.0.0@, session_key_block(0x1, d, nonce))
    &&& s.appskey.0.0@ == aes128_encrypt(cr.app_key.0.0@, session_key_block(0x2, d, nonce))
    &&& s.devaddr.0@ == d.subrange(7, 11)
    &&& s.fcnt_up == 0 && s.fcnt_down == 0 && s.adr_ack_cnt == 0
}

impl<R: Region, C: ChannelPlan<R>> Mac<R, C> {
    /// Prepares a join: the device nonce moves on, and the JoinRequest is built with it.
    pub fn prepare_join(&mut self) -> (res: [u8; 23])
        requires
            old(self).credentials.dev_nonce < u16::MAX,
        ensures
            final(self).credentials == (Credentials {
                dev_nonce: (old(self).credentials.dev_nonce + 1) as u16,
                ..old(self).credentials
            }),
            res@ == super::spec_join_request(
                final(self).credentials.app_eui.0@,
                final(self).credentials.dev_eui.0@,
                final(self).credentials.dev_nonce,
                final(self).credentials.app_key.0.0@,
            ),
            final(self).session == old(self).session,
            final(self).configuration == old(self).configuration,
            final(self).channel_plan == old(self).channel_plan,
            final(self).uplink_cmds == old(self).uplink_cmds,
            final(self).ack_next == old(self).ack_next,
    {
        self.credentials.incr_dev_nonce();
        self.create_join_request()
    }

    /// The configuration after a JoinAccept `d`: its downlink settings when both are
    /// accepted, and its RX delay (0 standing for 1 second).
    pub open spec fn spec_join_configuration(c: Configuration, d: Seq<u8>, specs: DeviceSpecs) -> Configuration {
        let offset = ((d[11] / 16) % 8) as u8;
        let c1 = if Self::spec_rx1_offset_ok(specs, offset) && Self::spec_data_rate_ok(specs, d[11] % 16) {
            Configuration { rx1_data_rate_offset: Some(offset), rx2_data_rate: Some(dr_from((d[11] % 16) as int)), ..c }
        } else {
            c
        };
        let delay = d[12] % 16;
        Configuration {
            rx_delay: Some(
                if delay == 0 {
                    1u8
                } else {
                    delay
                },
            ),
            ..c1
        }
    }

    /// Takes in the frame received after a JoinRequest: a JoinAccept whose MIC is valid
    /// under the application key starts a session, sets the downlink settings and RX
    /// delay it carries, and hands its CFList to the channel plan.
    pub fn handle_join_accept(&mut self, specs: &DeviceSpecs, rx: Option<Vec<u8>>) -> (res: Result<(), Error>)
        requires
            C::spec_cf_list_ok(),
        ensures
            match rx {
                None => res == Err::<(), Error>(Error::NoResponse) && *final(self) == *old(self),
                Some(v) => {
                    let b = v@;
                    let key = old(self).credentials.app_key.0.0@;
                    let d = spec_join_accept_decrypt(key, b);
                    if !spec_parses(b) {
                        res == Err::<(), Error>(Error::Encoding(spec_parse_failure(b))) && *final(self) == *old(self)
                    } else if mtype_of(b[0]) != MType::JoinAccept {
                        res == Err::<(), Error>(Error::InvalidPayloadType) && *final(self) == *old(self)
                    } else if last4(d) != spec_mic(key, without_mic(d)) {
                        res == Err::<(), Error>(Error::InvalidMic) && *final(self) == *old(self)
                    } else {
                        &&& final(self).session matches Some(s) && is_joined_session(s, d, old(self).credentials)
                        &&& final(self).configuration == Self::spec_join_configuration(old(self).configuration, d, *specs)
                        &&& match spec_cf_list_value(d) {
                            None => res is Ok && final(self).channel_plan == old(self).channel_plan,
                            Some(cf) => {
                                let (plan, r) = C::spec_cf_list(old(self).channel_plan.spec_state(), cf);
                                &&& final(self).channel_plan.spec_state() == plan
                                &&& res == match r {
                                    Ok(_) => Ok::<(), Error>(()),
                                    Err(e) => Err::<(), Error>(Error::Region(e)),
                                }
                            },
                        }
                        &&& final(self).uplink_cmds == old(self).uplink_cmds
                        &&& final(self).ack_next == old(self).ack_next
                        &&& final(self).credentials == old(self).credentials
                    }
                },
            },
    {
        let bytes = match rx {
            Some(bytes) => bytes,
            None => {
                return Err(Error::NoResponse);
            },
        };
        let fail = parse_failure(bytes.as_slice());
        match parse(bytes) {
            Ok(PhyPayload::JoinAccept(encrypted)) => {
                let decrypted = DecryptedJoinAcceptPayload::new_from_encrypted(encrypted, &self.credentials.app_key.0);
                if decrypted.validate_mic(&self.credentials.app_key.0) {
                    let devnonce = self.credentials.dev_nonce;
                    let lo = (devnonce & 0xff) as u8;
                    let hi = (devnonce >> 8) as u8;
                    assert(lo == devnonce % 256 && hi == devnonce / 256) by (bit_vector)
                        requires
                            lo == (devnonce & 0xff) as u8,
                            hi == (devnonce >> 8) as u8,
                    ;
                    let nonce = DevNonce([lo, hi]);
                    assert(nonce.0@ =~= seq![lo, hi]);
                    let session = Session::derive_new(&decrypted, nonce, &self.credentials);
                    self.session = Some(session);
                    let dl_settings = decrypted.dl_settings();
                    let (rx1_data_rate_offset_ack, rx2_data_rate_ack) = Self::validate_dl_settings(specs, dl_settings);
                    if rx1_data_rate_offset_ack && rx2_data_rate_ack {
                        self.handle_dl_settings(dl_settings)?;
                    }
                    let delay = match decrypted.rx_delay() {
                        0 => 1,
                        d => d,
                    };
                    self.configuration.rx_delay = Some(delay);
                    if let Some(cf_list) = decrypted.c_f_list() {
                        match self.channel_plan.handle_cf_list(cf_list) {
                            Ok(()) => {},
                            Err(e) => {
                                return Err(Error::Region(e));
                            },
                        }
                    }
                    Ok(())
                } else {
                    Err(Error::InvalidMic)
                }
            },
            Ok(_) => Err(Error::InvalidPayloadType),
            Err(_) => Err(Error::Encoding(fail)),
        }
    }
}

} // verus!
