//! Session and credentials of LoRaWAN 1.0.4, with its regional parameters and channel
//! plan.

use vstd::prelude::*;

use crate::encoding::default_crypto::aes128_encrypt;
use crate::encoding::keys::AES128;
use crate::encoding::parser::{AsPhyPayloadBytes, DevAddr, DevNonce};
use self::encoding::parser::{session_key_block, DecryptedJoinAcceptPayload};

pub mod encoding;
pub mod region;

verus! {

/// Properties maintained during a session with a network server.
#[derive(Debug, Clone, Copy, PartialEq, Eq)]
pub struct Session {
    newskey: AES128,
    appskey: AES128,
    devaddr: DevAddr,
    fcnt_up: u32,
    fcnt_down: u32,
}

/// Identification properties used to enable communication with a network server.
#[derive(Debug, Clone, Copy, PartialEq, Eq)]
pub struct Credentials {
    pub app_eui: [u8; 8],
    pub dev_eui: [u8; 8],
    pub app_key: AES128,
    pub dev_nonce: u16,
}

impl Session {
    /// The network session key.
    pub closed spec fn spec_newskey(&self) -> AES128 {
        self.newskey
    }

    /// The application session key.
    pub closed spec fn spec_appskey(&self) -> AES128 {
        self.appskey
    }

    /// The device address.
    pub closed spec fn spec_devaddr(&self) -> DevAddr {
        self.devaddr
    }

    /// The frame counter of the last downlink.
    pub closed spec fn spec_fcnt_down(&self) -> u32 {
        self.fcnt_down
    }

    /// The uplink frame counter.
    pub closed spec fn spec_fcnt_up(&self) -> u32 {
        self.fcnt_up
    }

    /// Creation from a decrypted JoinAccept: the session keys derived from it with the
    /// device nonce and the application key, and the device address it assigns.
    pub fn derive_new(decrypt: &DecryptedJoinAcceptPayload, devnonce: DevNonce, credentials: &Credentials) -> (res: Self)
        ensures
            res.spec_newskey().0@ == aes128_encrypt(
                credentials.app_key.0@,
                session_key_block(0x1, decrypt.phy_bytes(), devnonce.0@),
            ),
            res.spec_appskey().0@ == aes128_encrypt(
                credentials.app_key.0@,
                session_key_block(0x2, decrypt.phy_bytes(), devnonce.0@),
            ),
            res.spec_devaddr().0@ == decrypt.phy_bytes().subrange(7, 11),
            res.spec_fcnt_up() == 0 && res.spec_fcnt_down() == 0,
    {
        Self::new(
            decrypt.derive_newskey(&devnonce, &credentials.app_key),
            decrypt.derive_appskey(&devnonce, &credentials.app_key),
            decrypt.dev_addr(),
        )
    }

    /// Creation.
    pub fn new(newskey: AES128, appskey: AES128, devaddr: DevAddr) -> (res: Self)
        ensures
            res.spec_newskey() == newskey && res.spec_appskey() == appskey && res.spec_devaddr() == devaddr,
            res.spec_fcnt_up() == 0 && res.spec_fcnt_down() == 0,
    {
        Self { newskey, appskey, devaddr, fcnt_up: 0, fcnt_down: 0 }
    }

    /// Get the network session key.
    pub fn newskey(&self) -> (res: &AES128)
        ensures
            *res == self.spec_newskey(),
    {
        &self.newskey
    }

    /// Get the application session key.
    pub fn appskey(&self) -> (res: &AES128)
        ensures
            *res == self.spec_appskey(),
    {
        &self.appskey
    }

    /// Get the device address.
    pub fn devaddr(&self) -> (res: &DevAddr)
        ensures
            *res == self.spec_devaddr(),
    {
        &self.devaddr
    }

    /// Get the uplink frame counter.
    pub fn fcnt_up(&self) -> (res: u32)
        ensures
            res == self.spec_fcnt_up(),
    {
        self.fcnt_up
    }

    /// Increment the uplink frame count.
    pub fn fcnt_up_increment(&mut self)
        requires
            old(self).spec_fcnt_up() < u32::MAX,
        ensures
            final(self).spec_fcnt_up() == old(self).spec_fcnt_up() + 1,
            final(self).spec_newskey() == old(self).spec_newskey(),
            final(self).spec_appskey() == old(self).spec_appskey(),
            final(self).spec_devaddr() == old(self).spec_devaddr(),
            final(self).spec_fcnt_down() == old(self).spec_fcnt_down(),
    {
        self.fcnt_up = self.fcnt_up + 1;
    }
}

} // verus!
