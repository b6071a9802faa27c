use vstd::prelude::*;

use crate::channel_mask::ChannelMask;
use crate::encoding::default_crypto::{aes128_encrypt, aes128_encrypt_block, DefaultFactory};
use crate::encoding::keys::{AES128, MIC};
use crate::encoding::maccommands::DLSettings;
use crate::encoding::parser::{
    copy_range,
    data_ok,
    join_accept_ok,
    last4,
    read_bytes,
    spec_compute_fcnt,
    spec_f_port,
    spec_fhdr_length,
    without_mic,
    AppNonce,
    AsPhyPayloadBytes,
    CfList,
    DataHeader,
    DevAddr,
    DevNonce,
    EncryptedDataPayload,
    EncryptedJoinAcceptPayload,
    FRMMacCommands,
    FRMPayload,
    MHDRAble,
    MICAble,
    NwkAddr,
};
use crate::encoding::securityhelpers::{calculate_mic, encrypt_frm_data_payload, spec_crypt_range, spec_mic};
use crate::encoding::Error;
use crate::frequency::Frequency;

verus! {

/// The bytes of a JoinAccept after its payload (everything but the MHDR) has been put
/// through AES-128 encryption block by block, as LoRaWAN decrypts a JoinAccept.
pub open spec fn spec_join_accept_decrypt(key: Seq<u8>, data: Seq<u8>) -> Seq<u8> {
    Seq::new(
        data.len(),
        |k: int|
            if k == 0 {
                data[0]
            } else {
                aes128_encrypt(key, data.subrange(16 * ((k - 1) / 16) + 1, 16 * ((k - 1) / 16) + 17))[(k - 1)
                    % 16]
            },
    )
}

/// The 16-byte block from which a session key is derived.
pub open spec fn session_key_block(first: u8, data: Seq<u8>, dev_nonce: Seq<u8>) -> Seq<u8> {
    seq![first] + data.subrange(1, 4) + data.subrange(4, 7) + dev_nonce + Seq::new(7, |i: int| 0u8)
}

/// What the CFList of a 33-byte JoinAccept `d` is: byte 28 tells whether bytes 13..28 hold
/// five frequencies (0) or bytes 13..21 hold four channel masks (1); other values give
/// none.
pub open spec fn spec_c_f_list(d: Seq<u8>, res: Option<CfList>) -> bool {
    match res {
        None => d[28] != 0 && d[28] != 1,
        Some(CfList::DynamicChannel(fs)) => d[28] == 0 && forall|i: int|
            0 <= i < 5 ==> #[trigger] fs@[i].bytes() == d.subrange(13 + 3 * i, 16 + 3 * i),
        Some(CfList::FixedChannel(ms)) => d[28] == 1 && forall|i: int|
            0 <= i < 4 ==> #[trigger] ms@[i].bytes() == d.subrange(13 + 2 * i, 15 + 2 * i),
    }
}

/// The CFList of a decrypted 33-byte JoinAccept `d`: five frequencies when byte 28 is 0,
/// four channel masks when it is 1, none otherwise.
pub open spec fn spec_cf_list_value(d: Seq<u8>) -> Option<CfList> {
    if d.len() == 17 {
        None
    } else if d[28] == 0 {
        Some(
            CfList::DynamicChannel(
                [
                    Frequency::of_bytes(d.subrange(13, 16)),
                    Frequency::of_bytes(d.subrange(16, 19)),
                    Frequency::of_bytes(d.subrange(19, 22)),
                    Frequency::of_bytes(d.subrange(22, 25)),
                    Frequency::of_bytes(d.subrange(25, 28)),
                ],
            ),
        )
    } else if d[28] == 1 {
        Some(
            CfList::FixedChannel(
                [
                    ChannelMask::of_bytes(d.subrange(13, 15)),
                    ChannelMask::of_bytes(d.subrange(15, 17)),
                    ChannelMask::of_bytes(d.subrange(17, 19)),
                    ChannelMask::of_bytes(d.subrange(19, 21)),
                ],
            ),
        )
    } else {
        None
    }
}

/// DecryptedJoinAcceptPayload represents a decrypted JoinAccept.
#[derive(Debug, PartialEq, Eq)]
pub struct DecryptedJoinAcceptPayload(Vec<u8>, DefaultFactory);

impl DecryptedJoinAcceptPayload {
    #[verifier::type_invariant]
    spec fn inv(&self) -> bool {
        join_accept_ok(self.0@)
    }

    /// Decrypts an encrypted JoinAccept with `key`.
    pub fn new_from_encrypted(encrypted: EncryptedJoinAcceptPayload, key: &AES128) -> (res: Self)
        ensures
            res.phy_bytes() == spec_join_accept_decrypt(key.0@, encrypted.phy_bytes()),
    {
        let ghost enc = encrypted.phy_bytes();
        let (mut bytes, factory) = encrypted.into_parts();
        let len = bytes.len();
        let nblocks = len >> 4;
        assert(nblocks == len / 16) by (bit_vector)
            requires
                nblocks == len >> 4,
        ;
        let mut i: usize = 0;
        while i < nblocks
            invariant
                len == enc.len(),
                len == 17 || len == 33,
                nblocks == len / 16,
                i <= nblocks,
                bytes@.len() == len,
                join_accept_ok(enc),
                forall|k: int|
                    0 <= k < len ==> #[trigger] bytes@[k] == if 1 <= k < 16 * i + 1 {
                        spec_join_accept_decrypt(key.0@, enc)[k]
                    } else {
                        enc[k]
                    },
            decreases nblocks - i,
        {
            let start = 16 * i + 1;
            let block: [u8; 16] = read_bytes::<16>(bytes.as_slice(), start);
            assert(block@ =~= enc.subrange(start as int, start + 16));
            let out = aes128_encrypt_block(&key.0, &block);
            let mut j: usize = 0;
            while j < 16
                invariant
                    len == enc.len(),
                    start == 16 * i + 1,
                    start + 16 <= len,
                    j <= 16,
                    bytes@.len() == len,
                    out@ == aes128_encrypt(key.0@, enc.subrange(start as int, start + 16)),
                    forall|k: int|
                        0 <= k < len ==> #[trigger] bytes@[k] == if 1 <= k < start + j {
                            spec_join_accept_decrypt(key.0@, enc)[k]
                        } else {
                            enc[k]
                        },
                decreases 16 - j,
            {
                proof {
                    let k = start + j;
                    assert((k - 1) / 16 == i as int && (k - 1) % 16 == j as int);
                }
                bytes.set(start + j, out[j]);
                j = j + 1;
            }
            i = i + 1;
        }
        assert(bytes@ =~= spec_join_accept_decrypt(key.0@, enc)) by {
            assert forall|k: int| 0 <= k < len implies bytes@[k] == spec_join_accept_decrypt(key.0@, enc)[k] by {
                if k == 0 {
                } else {
                    assert(k < 16 * nblocks + 1);
                }
            }
        }
        Self(bytes, factory)
    }

    /// Verifies that the JoinAccept has correct MIC.
    pub fn validate_mic(&self, key: &AES128) -> (res: bool)
        ensures
            res == (last4(self.phy_bytes()) == spec_mic(key.0@, without_mic(self.phy_bytes()))),
    {
        let m = self.mic();
        let c = self.calculate_mic(key);
        let r = m.0[0] == c.0[0] && m.0[1] == c.0[1] && m.0[2] == c.0[2] && m.0[3] == c.0[3];
        assert(r <==> m.0@ =~= c.0@);
        r
    }

    /// The MIC that the JoinAccept should carry under `key`.
    pub fn calculate_mic(&self, key: &AES128) -> (res: MIC)
        ensures
            res.0@ == spec_mic(key.0@, without_mic(self.phy_bytes())),
    {
        proof {
            use_type_invariant(self);
        }
        let d = self.0.as_slice();
        let v = copy_range(d, 0, d.len() - 4);
        calculate_mic(v.as_slice(), key)
    }

    /// Computes the network session key for a given device.
    pub fn derive_newskey(&self, dev_nonce: &DevNonce, key: &AES128) -> (res: AES128)
        ensures
            res.0@ == aes128_encrypt(key.0@, session_key_block(0x1, self.phy_bytes(), dev_nonce.0@)),
    {
        self.derive_session_key(0x1, dev_nonce, key)
    }

    /// Computes the application session key for a given device.
    pub fn derive_appskey(&self, dev_nonce: &DevNonce, key: &AES128) -> (res: AES128)
        ensures
            res.0@ == aes128_encrypt(key.0@, session_key_block(0x2, self.phy_bytes(), dev_nonce.0@)),
    {
        self.derive_session_key(0x2, dev_nonce, key)
    }

    fn derive_session_key(&self, first_byte: u8, dev_nonce: &DevNonce, key: &AES128) -> (res: AES128)
        ensures
            res.0@ == aes128_encrypt(key.0@, session_key_block(first_byte, self.phy_bytes(), dev_nonce.0@)),
    {
        // note: AppNonce is 24 bit, NetId is 24 bit, DevNonce is 16 bit
        let app_nonce = self.app_nonce();
        let nwk_addr = self.net_id();
        let mut block = [0u8; 16];
        block[0] = first_byte;
        block[1] = app_nonce.0[0];
        block[2] = app_nonce.0[1];
        block[3] = app_nonce.0[2];
        block[4] = nwk_addr.0[0];
        block[5] = nwk_addr.0[1];
        block[6] = nwk_addr.0[2];
        block[7] = dev_nonce.0[0];
        block[8] = dev_nonce.0[1];
        assert(block@ =~= session_key_block(first_byte, self.phy_bytes(), dev_nonce.0@));
        AES128(aes128_encrypt_block(&key.0, &block))
    }

    /// Gives the app nonce of the JoinAccept.
    pub fn app_nonce(&self) -> (res: AppNonce)
        ensures
            res.0@ == self.phy_bytes().subrange(1, 4),
    {
        proof {
            use_type_invariant(self);
        }
        AppNonce(read_bytes::<3>(self.0.as_slice(), 1))
    }

    /// Gives the net ID of the JoinAccept.
    pub fn net_id(&self) -> (res: NwkAddr)
        ensures
            res.0@ == self.phy_bytes().subrange(4, 7),
    {
        proof {
            use_type_invariant(self);
        }
        NwkAddr(read_bytes::<3>(self.0.as_slice(), 4))
    }

    /// Gives the dev address of the JoinAccept.
    pub fn dev_addr(&self) -> (res: DevAddr)
        ensures
            res.0@ == self.phy_bytes().subrange(7, 11),
    {
        proof {
            use_type_invariant(self);
        }
        DevAddr(read_bytes::<4>(self.0.as_slice(), 7))
    }

    /// Gives the downlink configuration of the JoinAccept.
    pub fn dl_settings(&self) -> (res: DLSettings)
        ensures
            res.0 == self.phy_bytes()[11],
    {
        proof {
            use_type_invariant(self);
        }
        DLSettings::new(self.0[11])
    }

    /// Gives the RX delay of the JoinAccept.
    pub fn rx_delay(&self) -> (res: u8)
        ensures
            res == self.phy_bytes()[12] % 16,
    {
        proof {
            use_type_invariant(self);
        }
        let b = self.0[12];
        assert(b & 0x0f == b % 16) by (bit_vector);
        b & 0x0f
    }

    /// Gives the channel frequency list of the JoinAccept: none in a 17-byte JoinAccept;
    /// in a 33-byte one, byte 28 tells whether bytes 13..28 hold five frequencies (0) or
    /// bytes 13..21 hold four channel masks (1).
    pub fn c_f_list(&self) -> (res: Option<CfList>)
        ensures
            self.phy_bytes().len() == 17 ==> res is None,
            self.phy_bytes().len() == 33 ==> spec_c_f_list(self.phy_bytes(), res),
            res == spec_cf_list_value(self.phy_bytes()),
    {
        proof {
            use_type_invariant(self);
        }
        if self.0.len() == 17 {
            return None;
        }
        let d = self.0.as_slice();
        let c_f_list_type = d[28];
        if c_f_list_type == 0 {
            let res = [
                Frequency::from_bytes(read_bytes::<3>(d, 13)),
                Frequency::from_bytes(read_bytes::<3>(d, 16)),
                Frequency::from_bytes(read_bytes::<3>(d, 19)),
                Frequency::from_bytes(read_bytes::<3>(d, 22)),
                Frequency::from_bytes(read_bytes::<3>(d, 25)),
            ];
            proof {
                let ghost dd = d@;
                res[0].lemma_of_bytes(res[0].bytes());
                res[1].lemma_of_bytes(res[1].bytes());
                res[2].lemma_of_bytes(res[2].bytes());
                res[3].lemma_of_bytes(res[3].bytes());
                res[4].lemma_of_bytes(res[4].bytes());
                assert(res =~= [
                    Frequency::of_bytes(dd.subrange(13, 16)),
                    Frequency::of_bytes(dd.subrange(16, 19)),
                    Frequency::of_bytes(dd.subrange(19, 22)),
                    Frequency::of_bytes(dd.subrange(22, 25)),
                    Frequency::of_bytes(dd.subrange(25, 28)),
                ]);
            }
            Some(CfList::DynamicChannel(res))
        } else if c_f_list_type == 1 {
            let res = [
                ChannelMask::from_bytes(read_bytes::<2>(d, 13)),
                ChannelMask::from_bytes(read_bytes::<2>(d, 15)),
                ChannelMask::from_bytes(read_bytes::<2>(d, 17)),
                ChannelMask::from_bytes(read_bytes::<2>(d, 19)),
            ];
            proof {
                let ghost dd = d@;
                res[0].lemma_of_bytes(res[0].bytes());
                res[1].lemma_of_bytes(res[1].bytes());
                res[2].lemma_of_bytes(res[2].bytes());
                res[3].lemma_of_bytes(res[3].bytes());
                assert(res =~= [
                    ChannelMask::of_bytes(dd.subrange(13, 15)),
                    ChannelMask::of_bytes(dd.subrange(15, 17)),
                    ChannelMask::of_bytes(dd.subrange(17, 19)),
                    ChannelMask::of_bytes(dd.subrange(19, 21)),
                ]);
            }
            Some(CfList::FixedChannel(res))
        } else {
            None
        }
    }
}

impl AsPhyPayloadBytes for DecryptedJoinAcceptPayload {
    closed spec fn phy_bytes(&self) -> Seq<u8> {
        self.0@
    }

    fn as_bytes(&self) -> (res: &[u8]) {
        proof {
            use_type_invariant(self);
        }
        self.0.as_slice()
    }
}

impl MICAble for DecryptedJoinAcceptPayload {}

impl MHDRAble for DecryptedJoinAcceptPayload {}

/// The key with which the FRMPayload of a data frame is encrypted: the application
/// session key for a non-zero FPort, the network session key otherwise.
pub open spec fn frm_key<K>(data: Seq<u8>, nwk_skey: Option<K>, app_skey: Option<K>) -> Option<K> {
    if spec_f_port(data) matches Some(p) && p != 0 {
        app_skey
    } else {
        nwk_skey
    }
}

/// The bytes of a key.
pub open spec fn key_bytes(k: &AES128) -> Seq<u8> {
    k.0@
}

/// The frame after its FRMPayload has been decrypted with `key` and the full counter
/// rebuilt from `fcnt` and the frame's 16-bit FCnt.
pub open spec fn spec_decrypt_data(data: Seq<u8>, key: Seq<u8>, fcnt: u32) -> Seq<u8> {
    spec_crypt_range(
        data,
        2 + spec_fhdr_length(data[5]),
        data.len() - 4,
        spec_compute_fcnt(fcnt, (data[6] + 256 * data[7]) as u16) as u32,
        key,
    )
}

/// DecryptedDataPayload represents a decrypted DataPayload.
#[derive(Debug, PartialEq, Eq)]
pub struct DecryptedDataPayload(Vec<u8>);

impl DecryptedDataPayload {
    #[verifier::type_invariant]
    spec fn inv(&self) -> bool {
        data_ok(self.0@)
    }

    /// Decrypts the FRMPayload of `encrypted`; fails when the key that its FPort calls
    /// for is not given.
    pub fn new_from_encrypted(
        encrypted: EncryptedDataPayload,
        nwk_skey: Option<&AES128>,
        app_skey: Option<&AES128>,
        fcnt: u32,
    ) -> (res: Result<DecryptedDataPayload, Error>)
        ensures
            res is Err <==> frm_key(encrypted.data_bytes(), nwk_skey, app_skey) is None,
            res is Err ==> res == Err::<DecryptedDataPayload, Error>(Error::InvalidKey),
            res matches Ok(d) ==> d.data_bytes() == spec_decrypt_data(
                encrypted.data_bytes(),
                key_bytes(frm_key(encrypted.data_bytes(), nwk_skey, app_skey)->0),
                fcnt,
            ),
    {
        let ghost enc = encrypted.data_bytes();
        let fhdr_length = encrypted.fhdr_length();
        let fhdr = encrypted.fhdr();
        let full_fcnt = crate::encoding::parser::compute_fcnt(fcnt, fhdr.fcnt());
        let fp = encrypted.f_port();
        let key = match fp {
            Some(p) => if p != 0 {
                app_skey
            } else {
                nwk_skey
            },
            None => nwk_skey,
        };
        let k = match key {
            Some(k) => k,
            None => {
                return Err(Error::InvalidKey);
            },
        };
        let (mut data, _factory) = encrypted.into_parts();
        let len = data.len();
        let start = 1 + fhdr_length + 1;
        let end = len - 4;
        assert(fhdr.bytes()[5] == enc[6] && fhdr.bytes()[6] == enc[7]);
        if start < end {
            encrypt_frm_data_payload(&mut data, start, end, full_fcnt, k);
        } else {
            assert(data@ =~= spec_crypt_range(enc, start as int, end as int, full_fcnt, k.0@));
        }
        Ok(DecryptedDataPayload(data))
    }

    /// Returns FRMPayload that can represent either application payload or mac commands if fport
    /// is 0.
    pub fn frm_payload(&self) -> (res: Result<FRMPayload, Error>)
        ensures
            res matches Ok(p) && {
                let d = self.data_bytes();
                let fl = spec_fhdr_length(d[5]);
                if d.len() < fl + 6 {
                    p == FRMPayload::Empty
                } else if spec_f_port(d) != Some(0u8) {
                    p matches FRMPayload::Data(v) && v@ == d.subrange(2 + fl, d.len() - 4)
                } else {
                    p matches FRMPayload::MACCommands(m) && m.1@ == d.subrange(2 + fl, d.len() - 4) && m.0
                        == crate::encoding::parser::is_uplink_mtype(crate::encoding::parser::mtype_of(d[0]))
                }
            },
    {
        let data = self.as_data_bytes();
        let len = data.len();
        let fhdr_length = self.fhdr_length();
        //we have more bytes than fhdr + fport
        if len < fhdr_length + 6 {
            Ok(FRMPayload::Empty)
        } else if self.f_port() != Some(0u8) {
            // the size guarantees the existance of f_port
            Ok(FRMPayload::Data(copy_range(data, 1 + fhdr_length + 1, len - 4)))
        } else {
            Ok(FRMPayload::MACCommands(FRMMacCommands::new(copy_range(data, 1 + fhdr_length + 1, len - 4), self.is_uplink())))
        }
    }
}

impl DataHeader for DecryptedDataPayload {
    closed spec fn data_bytes(&self) -> Seq<u8> {
        self.0@
    }

    fn as_data_bytes(&self) -> (res: &[u8]) {
        proof {
            use_type_invariant(self);
        }
        self.0.as_slice()
    }
}

impl AsPhyPayloadBytes for DecryptedDataPayload {
    closed spec fn phy_bytes(&self) -> Seq<u8> {
        self.0@
    }

    fn as_bytes(&self) -> (res: &[u8]) {
        proof {
            use_type_invariant(self);
        }
        self.0.as_slice()
    }
}

impl MICAble for DecryptedDataPayload {}

impl MHDRAble for DecryptedDataPayload {}

pub(crate) fn compute_fcnt(old_fcnt: u32, fcnt: u16) -> (res: u32)
    ensures
        res == spec_compute_fcnt(old_fcnt, fcnt),
{
    crate::encoding::parser::compute_fcnt(old_fcnt, fcnt)
}

} // verus!
