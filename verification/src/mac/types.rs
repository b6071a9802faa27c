//! Properties used in LoRaWAN MAC processing.

use vstd::prelude::*;

use crate::encoding::keys::{AppEui, AppKey, AppSKey, DevEui, NwkSKey, AES128};
use crate::encoding::parser::{AsPhyPayloadBytes, DevAddr, DevNonce};
use crate::mac::mac_1_0_4::encoding::parser::{session_key_block, DecryptedJoinAcceptPayload};
use crate::encoding::default_crypto::aes128_encrypt;

verus! {

/// LoRaWAN data rate index.
#[derive(Debug, Clone, Copy, PartialEq, Eq, Structural)]
#[allow(missing_docs)]
pub enum DR {
    _0,
    _1,
    _2,
    _3,
    _4,
    _5,
    _6,
    _7,
    _8,
    _9,
    _10,
    _11,
    _12,
    _13,
    _14,
    _15,
}

/// The index of a data rate.
pub open spec fn dr_value(d: DR) -> u8 {
    match d {
        DR::_0 => 0,
        DR::_1 => 1,
        DR::_2 => 2,
        DR::_3 => 3,
        DR::_4 => 4,
        DR::_5 => 5,
        DR::_6 => 6,
        DR::_7 => 7,
        DR::_8 => 8,
        DR::_9 => 9,
        DR::_10 => 10,
        DR::_11 => 11,
        DR::_12 => 12,
        DR::_13 => 13,
        DR::_14 => 14,
        DR::_15 => 15,
    }
}

/// The data rate with index `v` (clamped to 0..=15).
pub open spec fn dr_from(v: int) -> DR {
    if v <= 0 {
        DR::_0
    } else if v <= 1 {
        DR::_1
    } else if v <= 2 {
        DR::_2
    } else if v <= 3 {
        DR::_3
    } else if v <= 4 {
        DR::_4
    } else if v <= 5 {
        DR::_5
    } else if v <= 6 {
        DR::_6
    } else if v <= 7 {
        DR::_7
    } else if v <= 8 {
        DR::_8
    } else if v <= 9 {
        DR::_9
    } else if v <= 10 {
        DR::_10
    } else if v <= 11 {
        DR::_11
    } else if v <= 12 {
        DR::_12
    } else if v <= 13 {
        DR::_13
    } else if v <= 14 {
        DR::_14
    } else {
        DR::_15
    }
}

impl DR {
    /// The index of this data rate.
    pub fn value(&self) -> (res: u8)
        ensures
            res == dr_value(*self),
    {
        match self {
            DR::_0 => 0,
            DR::_1 => 1,
            DR::_2 => 2,
            DR::_3 => 3,
            DR::_4 => 4,
            DR::_5 => 5,
            DR::_6 => 6,
            DR::_7 => 7,
            DR::_8 => 8,
            DR::_9 => 9,
            DR::_10 => 10,
            DR::_11 => 11,
            DR::_12 => 12,
            DR::_13 => 13,
            DR::_14 => 14,
            DR::_15 => 15,
        }
    }

    /// Is this DR within range?
    pub fn in_range(&self, range: (DR, DR)) -> (res: bool)
        ensures
            res == (dr_value(range.0) <= dr_value(*self) <= dr_value(range.1)),
    {
        (range.0.value() <= self.value()) && (self.value() <= range.1.value())
    }

    /// The data rate with index `value`, if `value` is below 16.
    pub fn try_from(value: u8) -> (res: Result<DR, ()>)
        ensures
            res is Ok <==> value < 16,
            res matches Ok(d) ==> dr_value(d) == value,
    {
        match value {
            0 => Ok(DR::_0),
            1 => Ok(DR::_1),
            2 => Ok(DR::_2),
            3 => Ok(DR::_3),
            4 => Ok(DR::_4),
            5 => Ok(DR::_5),
            6 => Ok(DR::_6),
            7 => Ok(DR::_7),
            8 => Ok(DR::_8),
            9 => Ok(DR::_9),
            10 => Ok(DR::_10),
            11 => Ok(DR::_11),
            12 => Ok(DR::_12),
            13 => Ok(DR::_13),
            14 => Ok(DR::_14),
            15 => Ok(DR::_15),
            _ => Err(()),
        }
    }
}

/// The data rate with index `v` has index `v`, and a data rate is the one its index
/// names.
pub proof fn lemma_dr_from(v: int, d: DR)
    ensures
        0 <= v <= 15 ==> dr_value(dr_from(v)) == v,
        dr_from(dr_value(d) as int) == d,
{
}

/// Message types.
#[derive(Debug, Clone, Copy, PartialEq, Eq, Structural)]
#[allow(missing_docs)]
pub enum MType {
    JoinRequest,
    JoinAccept,
    UnconfirmedDataUp,
    UnconfirmedDataDown,
    ConfirmedDataUp,
    ConfirmedDataDown,
    RFU,
    Proprietary,
}

/// Join or data frame.
#[derive(Debug, Clone, Copy, PartialEq, Eq, Structural)]
#[allow(missing_docs)]
pub enum Frame {
    Join,
    Data,
}

/// Receive window.
#[derive(Debug, Clone, Copy, PartialEq, Eq, Structural)]
#[allow(missing_docs)]
pub enum Window {
    _1,
    _2,
}

/// When the two receive windows open, in milliseconds after the end of a transmission.
#[derive(Debug, Clone, Copy, PartialEq, Eq)]
pub struct RxWindows {
    pub rx1_open: u16,
    pub rx2_open: u16,
}

impl RxWindows {
    /// When `window` opens.
    pub fn get_open(&self, window: &Window) -> (res: u16)
        ensures
            res == match window {
                Window::_1 => self.rx1_open,
                Window::_2 => self.rx2_open,
            },
    {
        match window {
            Window::_1 => self.rx1_open,
            Window::_2 => self.rx2_open,
        }
    }
}

/// Basic send/receive properties.
///
/// The duty cycle that a DutyCycleReq imposes is kept as its exponent `n` (the aggregated
/// duty cycle is 1 / 2^n); `None` until a DutyCycleReq arrives.
#[derive(Debug, PartialEq, Clone, Copy)]
pub struct Configuration {
    pub max_duty_cycle: Option<u8>,
    pub tx_power: Option<i8>,
    pub tx_data_rate: Option<DR>,
    pub rx1_data_rate_offset: Option<u8>,
    pub rx_delay: Option<u8>,
    pub rx2_data_rate: Option<DR>,
    pub rx2_frequency: Option<u32>,
    pub number_of_transmissions: u8,
}

impl Configuration {
    /// The configuration a device starts with: nothing set, one transmission.
    pub open spec fn spec_default() -> Configuration {
        Configuration {
            max_duty_cycle: None,
            tx_power: None,
            tx_data_rate: None,
            rx1_data_rate_offset: None,
            rx_delay: None,
            rx2_data_rate: None,
            rx2_frequency: None,
            number_of_transmissions: 1,
        }
    }
}

impl Default for Configuration {
    fn default() -> (res: Self)
        ensures
            res == Configuration::spec_default(),
    {
        Self {
            tx_data_rate: None,
            tx_power: None,
            max_duty_cycle: None,
            rx1_data_rate_offset: None,
            rx_delay: None,
            rx2_data_rate: None,
            rx2_frequency: None,
            number_of_transmissions: 1,
        }
    }
}

/// Identification properties used to enable communication with a network server.
#[derive(Debug, Eq, PartialEq, Clone, Copy)]
pub struct Credentials {
    pub app_eui: AppEui,
    pub dev_eui: DevEui,
    pub app_key: AppKey,
    pub dev_nonce: u16,
}

impl Credentials {
    /// Creation.
    pub fn new(app_eui: [u8; 8], dev_eui: [u8; 8], app_key: [u8; 16]) -> (res: Self)
        ensures
            res.app_eui.0 == app_eui,
            res.dev_eui.0 == dev_eui,
            res.app_key.0.0 == app_key,
            res.dev_nonce == 0,
    {
        Self { app_eui: AppEui(app_eui), dev_eui: DevEui(dev_eui), app_key: AppKey(AES128(app_key)), dev_nonce: 0 }
    }

    /// Increment the nonce associated with a join request.
    pub fn incr_dev_nonce(&mut self)
        requires
            old(self).dev_nonce < u16::MAX,
        ensures
            final(self).dev_nonce == old(self).dev_nonce + 1,
            final(self).app_eui == old(self).app_eui,
            final(self).dev_eui == old(self).dev_eui,
            final(self).app_key == old(self).app_key,
    {
        self.dev_nonce = self.dev_nonce + 1;
    }
}

/// Properties maintained during a session with a network server.
#[derive(Debug, Clone, Copy, PartialEq, Eq)]
pub struct Session {
    pub nwkskey: NwkSKey,
    pub appskey: AppSKey,
    pub devaddr: DevAddr,
    pub fcnt_up: u32,
    pub fcnt_down: u32,
    pub adr_ack_cnt: u8,
}

impl Session {
    /// Creation from a decrypted JoinAccept: the session keys derived from it with the
    /// device nonce and the application key, and the device address it assigns.
    pub fn derive_new(decrypt: &DecryptedJoinAcceptPayload, devnonce: DevNonce, credentials: &Credentials) -> (res: Self)
        ensures
            res.nwkskey.0.0@ == aes128_encrypt(
                credentials.app_key.0.0@,
                session_key_block(0x1, decrypt.phy_bytes(), devnonce.0@),
            ),
            res.appskey.0.0@ == aes128_encrypt(
                credentials.app_key.0.0@,
                session_key_block(0x2, decrypt.phy_bytes(), devnonce.0@),
            ),
            res.devaddr.0@ == decrypt.phy_bytes().subrange(7, 11),
            res.fcnt_up == 0 && res.fcnt_down == 0 && res.adr_ack_cnt == 0,
    {
        Self::new(
            NwkSKey(decrypt.derive_newskey(&devnonce, &credentials.app_key.0)),
            AppSKey(decrypt.derive_appskey(&devnonce, &credentials.app_key.0)),
            decrypt.dev_addr(),
        )
    }

    /// Creation.
    pub fn new(nwkskey: NwkSKey, appskey: AppSKey, devaddr: DevAddr) -> (res: Self)
        ensures
            res == (Session { nwkskey, appskey, devaddr, fcnt_up: 0, fcnt_down: 0, adr_ack_cnt: 0 }),
    {
        Self { nwkskey, appskey, devaddr, fcnt_up: 0, fcnt_down: 0, adr_ack_cnt: 0 }
    }

    /// Get the network session key.
    pub fn nwkskey(&self) -> (res: &NwkSKey)
        ensures
            *res == self.nwkskey,
    {
        &self.nwkskey
    }

    /// Get the application session key.
    pub fn appskey(&self) -> (res: &AppSKey)
        ensures
            *res == self.appskey,
    {
        &self.appskey
    }

    /// Get the device address.
    pub fn devaddr(&self) -> (res: &DevAddr)
        ensures
            *res == self.devaddr,
    {
        &self.devaddr
    }

    /// Increment the uplink frame count.
    pub fn fcnt_up_increment(&mut self)
        requires
            old(self).fcnt_up < u32::MAX,
        ensures
            *final(self) == (Session { fcnt_up: (old(self).fcnt_up + 1) as u32, ..*old(self) }),
    {
        self.fcnt_up = self.fcnt_up + 1;
    }

    /// Has the uplink frame count reached or exceeded the limit?
    pub fn is_expired(&self) -> (res: bool)
        ensures
            res == (self.fcnt_up >= 0xFFFF),
    {
        self.fcnt_up >= 0xFFFF
    }

    /// clear adr ack count
    pub fn adr_ack_cnt_clear(&mut self)
        ensures
            *final(self) == (Session { adr_ack_cnt: 0, ..*old(self) }),
    {
        self.adr_ack_cnt = 0;
    }

    /// increment adr ack count, which stays at 255 once there
    pub fn adr_ack_cnt_increment(&mut self)
        ensures
            *final(self) == (Session {
                adr_ack_cnt: if old(self).adr_ack_cnt < 255 {
                    (old(self).adr_ack_cnt + 1) as u8
                } else {
                    255
                },
                ..*old(self)
            }),
    {
        if self.adr_ack_cnt < 255 {
            self.adr_ack_cnt = self.adr_ack_cnt + 1;
        }
    }
}

/// Basic send/receive properties persisted in non-volatile storage for
/// continuity across power-on cycles.
#[derive(Debug, PartialEq, Eq, Clone, Copy, Structural)]
#[allow(missing_docs)]
pub struct Storable {
    pub rx1_data_rate_offset: Option<u8>,
    pub rx_delay: Option<u8>,
    pub rx2_data_rate: Option<DR>,
    pub rx2_frequency: Option<u32>,
    pub dev_nonce: u16,
}

} // verus!
