//! Provides types and methods for creating LoRaWAN payloads.

use vstd::prelude::*;

use super::maccommandcreator::UplinkMacCommandCreator;
use crate::encoding::default_crypto::DefaultFactory;
use crate::encoding::keys::AES128;
use crate::encoding::maccommandcreator::build_mac_commands;
use crate::encoding::maccommands::{cmds_bytes, mac_commands_len};
use crate::encoding::parser::{DevAddr, DevNonce, FCtrl, EUI64};
use crate::encoding::securityhelpers::{
    calculate_data_mic,
    calculate_mic,
    encrypt_frm_data_payload,
    lemma_crypt_range_prefix,
    spec_crypt_range,
    spec_data_mic,
    spec_mic,
};
use crate::encoding::Error;

verus! {

/// FOpts can carry at most this many bytes of MAC commands.
pub const PIGGYBACK_MAC_COMMANDS_MAX_LEN: usize = 15;

/// Overwrites `data` from `off` on with `src`.
fn write_at(data: &mut Vec<u8>, off: usize, src: &[u8])
    requires
        off + src@.len() <= old(data)@.len(),
    ensures
        final(data)@ == old(data)@.subrange(0, off as int) + src@ + old(data)@.subrange(
            off + src@.len(),
            old(data)@.len() as int,
        ),
{
    let ghost orig = data@;
    let n = data.len();
    let mut i: usize = 0;
    while i < src.len()
        invariant
            n == data@.len(),
            data@.len() == orig.len(),
            off + src@.len() <= orig.len(),
            i <= src@.len(),
            data@ == orig.subrange(0, off as int) + src@.subrange(0, i as int) + orig.subrange(
                off + i,
                orig.len() as int,
            ),
        decreases src@.len() - i,
    {
        data.set(off + i, src[i]);
        i = i + 1;
        assert(data@ =~= orig.subrange(0, off as int) + src@.subrange(0, i as int) + orig.subrange(
            off + i,
            orig.len() as int,
        ));
    }
    assert(src@.subrange(0, src@.len() as int) =~= src@);
}

/// Sets the MIC (the last four bytes) of `data` to the MIC of the rest under `key`.
fn set_mic(data: &mut [u8; 23], key: &AES128)
    ensures
        final(data)@ == old(data)@.subrange(0, 19) + spec_mic(key.0@, old(data)@.subrange(0, 19)),
{
    let ghost orig = data@;
    let mut head: Vec<u8> = Vec::new();
    let mut i: usize = 0;
    while i < 19
        invariant
            i <= 19,
            data@ == orig,
            head@ == orig.subrange(0, i as int),
        decreases 19 - i,
    {
        head.push(data[i]);
        i = i + 1;
        assert(head@ =~= orig.subrange(0, i as int));
    }
    let mic = calculate_mic(head.as_slice(), key);
    data[19] = mic.0[0];
    data[20] = mic.0[1];
    data[21] = mic.0[2];
    data[22] = mic.0[3];
    assert(data@ =~= orig.subrange(0, 19) + spec_mic(key.0@, orig.subrange(0, 19)));
}

/// JoinRequestCreator serves for creating binary representation of Physical
/// Payload of JoinRequest.
pub struct JoinRequestCreator {
    data: [u8; 23],
    factory: DefaultFactory,
}

impl JoinRequestCreator {
    /// The bytes of the JoinRequest being built.
    pub closed spec fn bytes(&self) -> Seq<u8> {
        self.data@
    }

    /// The JoinRequest always has 23 bytes.
    pub broadcast proof fn lemma_bytes_len(&self)
        ensures
            #[trigger] self.bytes().len() == 23,
    {
    }

    /// A JoinRequest whose bytes are all zero: MHDR announces a JoinRequest of
    /// LoRaWAN R1.
    pub fn new() -> (res: Self)
        ensures
            res.bytes() == Seq::new(23, |i: int| 0u8),
    {
        let data = [0u8; 23];
        assert(data@ =~= Seq::new(23, |i: int| 0u8));
        JoinRequestCreator { data, factory: DefaultFactory }
    }

    /// Sets the application EUI of the JoinRequest to the provided value.
    pub fn set_app_eui(&mut self, app_eui: EUI64)
        ensures
            final(self).bytes() == old(self).bytes().subrange(0, 1) + app_eui.0@ + old(self).bytes().subrange(9, 23),
    {
        let mut i: usize = 0;
        while i < 8
            invariant
                i <= 8,
                self.data@ == old(self).data@.subrange(0, 1) + app_eui.0@.subrange(0, i as int)
                    + old(self).data@.subrange(1 + i, 23),
            decreases 8 - i,
        {
            self.data[1 + i] = app_eui.0[i];
            i = i + 1;
            assert(self.data@ =~= old(self).data@.subrange(0, 1) + app_eui.0@.subrange(0, i as int)
                + old(self).data@.subrange(1 + i, 23));
        }
        assert(app_eui.0@.subrange(0, 8) =~= app_eui.0@);
    }

    /// Sets the device EUI of the JoinRequest to the provided value.
    pub fn set_dev_eui(&mut self, dev_eui: EUI64)
        ensures
            final(self).bytes() == old(self).bytes().subrange(0, 9) + dev_eui.0@ + old(self).bytes().subrange(17, 23),
    {
        let mut i: usize = 0;
        while i < 8
            invariant
                i <= 8,
                self.data@ == old(self).data@.subrange(0, 9) + dev_eui.0@.subrange(0, i as int)
                    + old(self).data@.subrange(9 + i, 23),
            decreases 8 - i,
        {
            self.data[9 + i] = dev_eui.0[i];
            i = i + 1;
            assert(self.data@ =~= old(self).data@.subrange(0, 9) + dev_eui.0@.subrange(0, i as int)
                + old(self).data@.subrange(9 + i, 23));
        }
        assert(dev_eui.0@.subrange(0, 8) =~= dev_eui.0@);
    }

    /// Sets the device nonce of the JoinRequest to the provided value.
    pub fn set_dev_nonce(&mut self, dev_nonce: DevNonce)
        ensures
            final(self).bytes() == old(self).bytes().subrange(0, 17) + dev_nonce.0@ + old(self).bytes().subrange(19, 23),
    {
        self.data[17] = dev_nonce.0[0];
        self.data[18] = dev_nonce.0[1];
        assert(self.data@ =~= old(self).data@.subrange(0, 17) + dev_nonce.0@ + old(self).data@.subrange(19, 23));
    }

    /// Provides the binary representation of the JoinRequest physical payload
    /// with the MIC set.
    pub fn build(&mut self, key: &AES128) -> (res: Result<[u8; 23], Error>)
        ensures
            final(self).bytes() == old(self).bytes().subrange(0, 19) + spec_mic(key.0@, old(self).bytes().subrange(0, 19)),
            res matches Ok(b) && b@ == final(self).bytes(),
    {
        set_mic(&mut self.data, key);
        Ok(self.data)
    }
}

/// Where the errors of `DataPayloadCreator::build` come from.
pub open spec fn spec_build_error(payload_len: int, cmds_len: int, f_port: Option<u8>) -> Option<Error> {
    if cmds_len > 15 && f_port != Some(0u8) {
        Some(Error::MacCommandTooBigForFOpts)
    } else if f_port == Some(0u8) && payload_len > 0 {
        Some(Error::DataAndMacCommandsInPayloadNotAllowed)
    } else if f_port is None && payload_len > 0 {
        Some(Error::FRMPayloadWithFportZero)
    } else {
        None
    }
}

/// Offset of the FRMPayload in a data frame built with these MAC commands and FPort.
pub open spec fn spec_frm_start(cmds_len: int, f_port: Option<u8>) -> int {
    8 + (if f_port == Some(0u8) {
        0
    } else {
        cmds_len
    }) + (if f_port is Some {
        1int
    } else {
        0
    })
}

/// The unencrypted FRMPayload: the MAC commands when FPort is 0 and there are some, the
/// application payload otherwise.
pub open spec fn spec_frm(payload: Seq<u8>, cmds: Seq<u8>, f_port: Option<u8>) -> Seq<u8> {
    if f_port == Some(0u8) && cmds.len() > 0 {
        cmds
    } else {
        payload
    }
}

/// The frame before encryption and MIC: the header of `data` (FCtrl with the FOpts
/// length added), the FOpts, the FPort and the plain FRMPayload.
pub open spec fn spec_plain_frame(data: Seq<u8>, payload: Seq<u8>, cmds: Seq<u8>, f_port: Option<u8>) -> Seq<u8> {
    let in_fopts = f_port != Some(0u8) && cmds.len() > 0;
    let fctrl = if in_fopts {
        data[5] | ((cmds.len() as u8) & 0x0f)
    } else {
        data[5]
    };
    let fopts = if in_fopts {
        cmds
    } else {
        Seq::empty()
    };
    let port = match f_port {
        Some(p) => seq![p],
        None => Seq::empty(),
    };
    data.subrange(0, 5) + seq![fctrl] + data.subrange(6, 8) + fopts + port + spec_frm(payload, cmds, f_port)
}

/// The frame that `DataPayloadCreator::build` produces.
pub open spec fn spec_data_frame(
    data: Seq<u8>,
    payload: Seq<u8>,
    cmds: Seq<u8>,
    f_port: Option<u8>,
    fcnt: u32,
    nwk_skey: Seq<u8>,
    app_skey: Seq<u8>,
) -> Seq<u8> {
    let plain = spec_plain_frame(data, payload, cmds, f_port);
    let start = spec_frm_start(cmds.len() as int, f_port);
    let end = start + spec_frm(payload, cmds, f_port).len();
    let key = if f_port == Some(0u8) && cmds.len() > 0 {
        nwk_skey
    } else {
        app_skey
    };
    let enc = spec_crypt_range(plain, start, end, fcnt, key);
    enc + spec_data_mic(nwk_skey, enc, fcnt)
}

/// Writes into `data` the plain frame: FCtrl with the FOpts length, FOpts, FPort and
/// FRMPayload; gives back where the FRMPayload starts and how long it is.
fn assemble_plain(data: &mut Vec<u8>, payload: &[u8], cmds: &[u8], f_port: Option<u8>) -> (res: (usize, usize))
    requires
        old(data)@.len() >= 8,
        spec_build_error(payload@.len() as int, cmds@.len() as int, f_port) is None,
        spec_frm_start(cmds@.len() as int, f_port) + spec_frm(payload@, cmds@, f_port).len() + 4
            <= old(data)@.len(),
    ensures
        res.0 == spec_frm_start(cmds@.len() as int, f_port),
        res.1 == spec_frm(payload@, cmds@, f_port).len(),
        final(data)@.len() == old(data)@.len(),
        final(data)@ == spec_plain_frame(old(data)@, payload@, cmds@, f_port) + old(data)@.subrange(
            res.0 + res.1,
            old(data)@.len() as int,
        ),
{
    let ghost orig = data@;
    let mut last_filled: usize = 8;
    let in_fopts = match f_port {
        Some(p) => p != 0,
        None => true,
    } && cmds.len() > 0;
    if in_fopts {
        let b = data[5];
        data.set(5, b | (cmds.len() as u8 & 0x0f));
        write_at(data, last_filled, cmds);
        last_filled = last_filled + cmds.len();
    }
    match f_port {
        Some(p) => {
            data.set(last_filled, p);
            last_filled = last_filled + 1;
        },
        None => {},
    }
    let frm_len = if !in_fopts && cmds.len() > 0 {
        write_at(data, last_filled, cmds);
        cmds.len()
    } else {
        write_at(data, last_filled, payload);
        payload.len()
    };
    assert(data@ =~= spec_plain_frame(orig, payload@, cmds@, f_port) + orig.subrange(
        last_filled + frm_len,
        orig.len() as int,
    ));
    (last_filled, frm_len)
}

/// DataPayloadCreator serves for creating binary representation of Physical
/// Payload of DataUp or DataDown messages.
pub struct DataPayloadCreator {
    data: Vec<u8>,
    data_f_port: Option<u8>,
    fcnt: u32,
    factory: DefaultFactory,
}

impl DataPayloadCreator {
    /// The bytes of the buffer in which the frame is built.
    pub closed spec fn bytes(&self) -> Seq<u8> {
        self.data@
    }

    /// The FPort that was set, if any.
    pub closed spec fn spec_f_port(&self) -> Option<u8> {
        self.data_f_port
    }

    /// The full frame counter that was set.
    pub closed spec fn spec_fcnt(&self) -> u32 {
        self.fcnt
    }

    /// Builds frames in `data`; the setters and `build` need room for the fields they
    /// write.
    pub fn new(data: Vec<u8>, factory: DefaultFactory) -> (res: Self)
        ensures
            res.bytes() == data@,
            res.spec_f_port() is None,
            res.spec_fcnt() == 0,
    {
        DataPayloadCreator { data, data_f_port: None, fcnt: 0, factory }
    }

    /// Sets whether the packet is uplink or downlink (bit 5 of MHDR).
    pub fn set_uplink(&mut self, uplink: bool)
        requires
            old(self).bytes().len() >= 1,
        ensures
            final(self).bytes() == old(self).bytes().update(
                0,
                if uplink {
                    old(self).bytes()[0] & 0xdf
                } else {
                    old(self).bytes()[0] | 0x20
                },
            ),
            final(self).spec_f_port() == old(self).spec_f_port(),
            final(self).spec_fcnt() == old(self).spec_fcnt(),
    {
        let b = self.data[0];
        if uplink {
            self.data.set(0, b & 0xdf);
        } else {
            self.data.set(0, b | 0x20);
        }
    }

    /// Sets whether the packet is confirmed or unconfirmed (bits 7 and 6 of MHDR).
    pub fn set_confirmed(&mut self, confirmed: bool)
        requires
            old(self).bytes().len() >= 1,
        ensures
            final(self).bytes() == old(self).bytes().update(
                0,
                if confirmed {
                    (old(self).bytes()[0] & 0xbf) | 0x80
                } else {
                    (old(self).bytes()[0] & 0x7f) | 0x40
                },
            ),
            final(self).spec_f_port() == old(self).spec_f_port(),
            final(self).spec_fcnt() == old(self).spec_fcnt(),
    {
        let b = self.data[0];
        if confirmed {
            self.data.set(0, (b & 0xbf) | 0x80);
        } else {
            self.data.set(0, (b & 0x7f) | 0x40);
        }
    }

    /// Sets the device address of the DataPayload to the provided value.
    pub fn set_dev_addr(&mut self, dev_addr: DevAddr)
        requires
            old(self).bytes().len() >= 5,
        ensures
            final(self).bytes() == old(self).bytes().subrange(0, 1) + dev_addr.0@ + old(self).bytes().subrange(
                5,
                old(self).bytes().len() as int,
            ),
            final(self).spec_f_port() == old(self).spec_f_port(),
            final(self).spec_fcnt() == old(self).spec_fcnt(),
    {
        write_at(&mut self.data, 1, dev_addr.0.as_slice());
    }

    /// Sets the FCtrl header of the DataPayload packet to the specified value.
    pub fn set_fctrl(&mut self, fctrl: &FCtrl)
        requires
            old(self).bytes().len() >= 6,
        ensures
            final(self).bytes() == old(self).bytes().update(5, fctrl.0),
            final(self).spec_f_port() == old(self).spec_f_port(),
            final(self).spec_fcnt() == old(self).spec_fcnt(),
    {
        self.data.set(5, fctrl.raw_value());
    }

    /// Sets the FCnt header of the DataPayload packet to the specified value.
    ///
    /// NOTE: In the packet header the value will be truncated to u16.
    pub fn set_fcnt(&mut self, fcnt: u32)
        requires
            old(self).bytes().len() >= 8,
        ensures
            final(self).bytes() == old(self).bytes().update(6, (fcnt % 256) as u8).update(
                7,
                ((fcnt / 256) % 256) as u8,
            ),
            final(self).spec_f_port() == old(self).spec_f_port(),
            final(self).spec_fcnt() == fcnt,
    {
        self.fcnt = fcnt;
        assert((fcnt & 0xff) == fcnt % 256) by (bit_vector);
        assert(((fcnt >> 8) as u8) == ((fcnt / 256) % 256) as u8) by (bit_vector);
        self.data.set(6, (fcnt & (0xff_u32)) as u8);
        self.data.set(7, (fcnt >> 8) as u8);
    }

    /// Sets the FPort header of the DataPayload packet to the specified value.
    pub fn set_f_port(&mut self, f_port: u8)
        ensures
            final(self).bytes() == old(self).bytes(),
            final(self).spec_f_port() == Some(f_port),
            final(self).spec_fcnt() == old(self).spec_fcnt(),
    {
        self.data_f_port = Some(f_port);
    }

    /// Whether a set of mac commands can be piggybacked.
    pub fn can_piggyback(cmds: &[UplinkMacCommandCreator]) -> (res: bool)
        requires
            cmds@.len() <= 0x1000_0000,
        ensures
            res == (cmds_bytes(cmds@).len() <= PIGGYBACK_MAC_COMMANDS_MAX_LEN),
    {
        mac_commands_len(cmds) <= PIGGYBACK_MAC_COMMANDS_MAX_LEN
    }

    /// Provides the binary representation of the DataPayload physical payload
    /// with the MIC set and payload encrypted.
    ///
    /// * payload - the FRMPayload (application) to be sent.
    /// * nwk_skey - the key to be used for setting the MIC and possibly for
    ///   MAC command encryption.
    /// * app_skey - the key to be used for payload encryption if fport not 0,
    ///   otherwise nwk_skey is only used.
    pub fn build(
        &mut self,
        payload: &[u8],
        cmds: &[UplinkMacCommandCreator],
        nwk_skey: &AES128,
        app_skey: &AES128,
    ) -> (res: Result<Vec<u8>, Error>)
        requires
            old(self).bytes().len() >= 8,
            cmds@.len() <= 0x1000_0000,
            spec_build_error(payload@.len() as int, cmds_bytes(cmds@).len() as int, old(self).spec_f_port()) is None
                ==> spec_frm_start(cmds_bytes(cmds@).len() as int, old(self).spec_f_port()) + spec_frm(
                payload@,
                cmds_bytes(cmds@),
                old(self).spec_f_port(),
            ).len() + 4 <= old(self).bytes().len(),
        ensures
            final(self).spec_f_port() == old(self).spec_f_port(),
            final(self).spec_fcnt() == old(self).spec_fcnt(),
            final(self).bytes().len() == old(self).bytes().len(),
            res is Err <==> spec_build_error(
                payload@.len() as int,
                cmds_bytes(cmds@).len() as int,
                old(self).spec_f_port(),
            ) is Some,
            res matches Err(e) ==> Some(e) == spec_build_error(
                payload@.len() as int,
                cmds_bytes(cmds@).len() as int,
                old(self).spec_f_port(),
            ),
            res is Err ==> final(self).bytes() == old(self).bytes(),
            res matches Ok(frame) ==> {
                &&& frame@ == spec_data_frame(
                    old(self).bytes(),
                    payload@,
                    cmds_bytes(cmds@),
                    old(self).spec_f_port(),
                    old(self).spec_fcnt(),
                    nwk_skey.0@,
                    app_skey.0@,
                )
                &&& final(self).bytes() == frame@ + old(self).bytes().subrange(
                    frame@.len() as int,
                    old(self).bytes().len() as int,
                )
            },
    {
        let ghost orig = self.data@;
        let ghost cb = cmds_bytes(cmds@);
        let has_fport = self.data_f_port.is_some();
        let has_fport_zero = match self.data_f_port {
            Some(p) => p == 0,
            None => false,
        };
        let mac_cmds_len = mac_commands_len(cmds);

        if mac_cmds_len > PIGGYBACK_MAC_COMMANDS_MAX_LEN && !has_fport_zero {
            return Err(Error::MacCommandTooBigForFOpts);
        }
        let payload_len = payload.len();
        if has_fport_zero && payload_len > 0 {
            return Err(Error::DataAndMacCommandsInPayloadNotAllowed);
        }
        if !has_fport && payload_len > 0 {
            return Err(Error::FRMPayloadWithFportZero);
        }
        let mut cmd_buf: Vec<u8> = vec![0u8; mac_cmds_len];
        let built = build_mac_commands(cmds, &mut cmd_buf);
        assert(built is Ok);
        assert(cmd_buf@ =~= cb);
        let (start, frm_len) = assemble_plain(&mut self.data, payload, cmd_buf.as_slice(), self.data_f_port);
        let use_nwk = mac_cmds_len > 0 && has_fport_zero;
        let enc_key = if use_nwk {
            nwk_skey
        } else {
            app_skey
        };
        let total = self.data.len();
        assert(start + frm_len + 4 <= total);
        let frame_len = start + frm_len;
        let ghost plain = self.data@.subrange(0, frame_len as int);
        assert(plain =~= spec_plain_frame(orig, payload@, cb, self.data_f_port));
        assert(use_nwk == (self.data_f_port == Some(0u8) && cb.len() > 0));
        let ghost rest = self.data@.subrange(frame_len as int, orig.len() as int);
        assert(self.data@ =~= plain + rest);
        // Encrypt FRMPayload
        encrypt_frm_data_payload(&mut self.data, start, frame_len, self.fcnt, enc_key);
        proof {
            lemma_crypt_range_prefix(plain, rest, start as int, frame_len as int, self.fcnt, enc_key.0@);
        }
        let ghost enc = self.data@.subrange(0, frame_len as int);
        assert(enc == spec_crypt_range(plain, start as int, frame_len as int, self.fcnt, enc_key.0@));
        let head = crate::encoding::parser::copy_range(self.data.as_slice(), 0, frame_len);
        let mic = calculate_data_mic(head.as_slice(), nwk_skey, self.fcnt);
        write_at(&mut self.data, frame_len, mic.0.as_slice());
        let out = crate::encoding::parser::copy_range(self.data.as_slice(), 0, frame_len + 4);
        assert(out@ =~= enc + spec_data_mic(nwk_skey.0@, enc, self.fcnt));
        assert(self.data@ =~= out@ + orig.subrange(out@.len() as int, orig.len() as int));
        Ok(out)
    }
}

} // verus!
