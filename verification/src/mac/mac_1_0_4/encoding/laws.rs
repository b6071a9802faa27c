//! Properties that tie frame creation to frame parsing.

use vstd::prelude::*;

use super::creator::{spec_build_error, spec_data_frame, spec_frm, spec_frm_start, spec_plain_frame};
use super::parser::{frm_key, key_bytes, spec_decrypt_data};
use crate::encoding::keys::AES128;
use crate::encoding::parser::{join_request_ok, spec_parses, MType, data_ok, is_data_mtype, last4, major_of, mtype_of, spec_compute_fcnt, spec_f_port, spec_fhdr_length, without_mic, Major};
use crate::encoding::securityhelpers::{
    lemma_crypt_range_involution,
    lemma_crypt_range_prefix,
    spec_crypt_range,
    spec_data_mic,
    spec_mic,
};

verus! {

/// The frame counter rebuilt by a receiver whose counter has the same high half as the
/// sender's is the sender's counter.
pub proof fn lemma_compute_fcnt_recovers(sent: u32, rx: u32)
    requires
        rx / 65536 == sent / 65536,
    ensures
        spec_compute_fcnt(rx, (sent % 65536) as u16) == sent,
{
}

/// A data frame that `DataPayloadCreator::build` produced with an FPort, a header whose
/// FOptsLen is zero and whose FCnt bytes are the low half of the frame counter carries a
/// MIC that validates under the network session key and that counter, has the FPort
/// where a receiver looks for it, and gives back its FRMPayload (the application payload,
/// or the MAC commands when FPort is 0) when a receiver whose counter shares the high
/// half decrypts it with the key that the FPort calls for.
pub proof fn lemma_data_frame_roundtrip(
    data: Seq<u8>,
    payload: Seq<u8>,
    cmds: Seq<u8>,
    p: u8,
    fcnt: u32,
    fcnt_rx: u32,
    nwk_skey: AES128,
    app_skey: AES128,
)
    requires
        data.len() >= 8,
        spec_build_error(payload.len() as int, cmds.len() as int, Some(p)) is None,
        data[5] % 16 == 0,
        data[6] == fcnt % 256,
        data[7] == (fcnt / 256) % 256,
        fcnt_rx / 65536 == fcnt / 65536,
    ensures
        ({
            let frame = spec_data_frame(data, payload, cmds, Some(p), fcnt, nwk_skey.0@, app_skey.0@);
            let fl = spec_fhdr_length(frame[5]);
            &&& frame.len() >= 12
            &&& fl + 1 <= frame.len()
            &&& 2 + fl <= frame.len() - 4
            &&& last4(frame) == spec_data_mic(nwk_skey.0@, without_mic(frame), fcnt)
            &&& spec_frm(payload, cmds, Some(p)).len() > 0 ==> spec_f_port(frame) == Some(p)
            &&& spec_decrypt_data(
                frame,
                key_bytes(frm_key(frame, Some(&nwk_skey), Some(&app_skey))->0),
                fcnt_rx,
            ).subrange(2 + fl, frame.len() - 4) == spec_frm(payload, cmds, Some(p))
            &&& (is_data_mtype(mtype_of(data[0])) && major_of(data[0]) == Major::LoRaWANR1) ==> data_ok(frame)
        }),
{
    let frame = spec_data_frame(data, payload, cmds, Some(p), fcnt, nwk_skey.0@, app_skey.0@);
    let plain = spec_plain_frame(data, payload, cmds, Some(p));
    let start = spec_frm_start(cmds.len() as int, Some(p));
    let frm = spec_frm(payload, cmds, Some(p));
    let end = start + frm.len();
    let key = if p == 0 && cmds.len() > 0 {
        nwk_skey.0@
    } else {
        app_skey.0@
    };
    let enc = spec_crypt_range(plain, start, end, fcnt, key);
    let mic = spec_data_mic(nwk_skey.0@, enc, fcnt);
    assert(frame == enc + mic);
    assert(plain.len() == end);
    assert(enc.len() == end);
    assert(mic.len() == 4);
    // The header bytes are never encrypted.
    assert(enc[5] == plain[5] && enc[6] == plain[6] && enc[7] == plain[7] && enc[0] == plain[0]);
    assert(frame[5] == plain[5] && frame[6] == data[6] && frame[7] == data[7]);
    let in_fopts = p != 0 && cmds.len() > 0;
    let d5 = data[5];
    if in_fopts {
        assert(cmds.len() <= 15);
        let cl = cmds.len() as u8;
        assert((d5 | (cl & 0x0f)) % 16 == cl) by (bit_vector)
            requires
                d5 % 16 == 0,
                cl <= 15,
        ;
    }
    assert(spec_fhdr_length(frame[5]) == 7 + (if in_fopts {
        cmds.len() as int
    } else {
        0
    }));
    let fl = spec_fhdr_length(frame[5]);
    assert(2 + fl == start);
    assert(frame.len() - 4 == end);
    assert(without_mic(frame) =~= enc);
    assert(last4(frame) =~= mic);
    // The FPort.
    if frm.len() > 0 {
        assert(frame[1 + fl] == plain[start - 1]);
        assert(spec_f_port(frame) == Some(p));
    }
    // Decryption.
    let fcnt_frame = (frame[6] + 256 * frame[7]) as u16;
    assert(fcnt_frame == fcnt % 65536);
    lemma_compute_fcnt_recovers(fcnt, fcnt_rx);
    let rx_key = key_bytes(frm_key(frame, Some(&nwk_skey), Some(&app_skey))->0);
    let dec = spec_decrypt_data(frame, rx_key, fcnt_rx);
    assert(dec == spec_crypt_range(frame, start, end, fcnt, rx_key));
    lemma_crypt_range_prefix(enc, mic, start, end, fcnt, rx_key);
    if frm.len() > 0 {
        assert(rx_key == key);
        lemma_crypt_range_involution(plain, start, end, fcnt, key);
        assert(dec.subrange(start, end) =~= plain.subrange(start, end)) by {
            assert forall|i: int| start <= i < end implies dec[i] == plain[i] by {
                assert(dec[i] == spec_crypt_range(enc, start, end, fcnt, key)[i]);
            }
        }
    }
    assert(plain.subrange(start, end) =~= frm);
    assert(dec.subrange(start, end) =~= frm);
}

} // verus!

verus! {

/// A JoinRequest built from bytes whose MHDR announces a JoinRequest is one that the
/// parser accepts as such (if its major version is R1) and whose MIC validates under the
/// key it was built with.
pub proof fn lemma_join_request_roundtrip(before: Seq<u8>, key: AES128)
    requires
        before.len() == 23,
        mtype_of(before[0]) == MType::JoinRequest,
    ensures
        ({
            let b = before.subrange(0, 19) + spec_mic(key.0@, before.subrange(0, 19));
            &&& join_request_ok(b)
            &&& last4(b) == spec_mic(key.0@, without_mic(b))
            &&& major_of(before[0]) == Major::LoRaWANR1 ==> spec_parses(b)
        }),
{
    let b = before.subrange(0, 19) + spec_mic(key.0@, before.subrange(0, 19));
    assert(without_mic(b) =~= before.subrange(0, 19));
    assert(last4(b) =~= spec_mic(key.0@, before.subrange(0, 19)));
    assert(b[0] == before[0]);
}

} // verus!
