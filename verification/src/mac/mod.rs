//! The LoRaWAN MAC layer: the decisions of the end device between its radio operations.

use vstd::prelude::*;

use core::marker::PhantomData;

use self::region::channel_plan::{Channel, ChannelPlan, ChannelPlanState};
use self::region::Region;
use self::types::{dr_from, dr_value, Configuration, Credentials, Frame, RxWindows, Session, Window, DR};
use self::uplink_queue::{queue_as_slice, queue_new, queued};
use crate::device::radio::types::{CodingRate, RfConfig, TxConfig};
use crate::device::DeviceSpecs;
use crate::encoding::default_crypto::DefaultFactory;
use crate::encoding::keys::AES128;
use crate::encoding::maccommands::{cmds_bytes, lemma_cmds_bytes_len, mac_commands_len, DLSettings};
use crate::encoding::parser::{DevNonce, FCtrl, EUI64};
use crate::encoding::securityhelpers::spec_mic;
use crate::mac::mac_1_0_4::encoding::creator::{
    spec_build_error, spec_data_frame, spec_frm, spec_frm_start, DataPayloadCreator, JoinRequestCreator,
    PIGGYBACK_MAC_COMMANDS_MAX_LEN,
};
use crate::mac::mac_1_0_4::encoding::maccommandcreator::UplinkMacCommandCreator;

pub mod downlink_commands;
pub mod exchange;
pub mod laws;
pub mod mac_1_0_4;
pub mod region;
pub mod scheduler;
pub mod types;
pub mod uplink_queue;

verus! {

/// Errors of the MAC layer.
#[derive(Debug, Clone, Copy, PartialEq, Eq)]
#[allow(missing_docs)]
pub enum Error {
    UnsupportedDataRate,
    InvalidMic,
    InvalidDevAddr,
    InvalidPayloadType,
    InvalidFcnt,
    NoResponse,
    NetworkNotJoined,
    SessionExpired,
    FOptsFull,
    NoValidChannelFound,
    Encoding(crate::encoding::Error),
    Creator(crate::encoding::Error),
    MacCommandCreator(crate::encoding::Error),
    MacCommand(crate::encoding::Error),
    Region(region::Error),
}

/// Composition of properties needed to guide LoRaWAN MAC layer processing, supporting the LoRaWAN MAC API.
pub struct Mac<R: Region, C: ChannelPlan<R>> {
    /// The session with a network server, once joined.
    pub session: Option<Session>,
    /// The channels the device uses.
    pub channel_plan: C,
    /// The region.
    pub region: PhantomData<R>,
    /// Answers to MAC commands waiting for the next uplink.
    pub uplink_cmds: heapless::Vec<UplinkMacCommandCreator, 15>,
    /// Whether the next uplink acknowledges a confirmed downlink.
    pub ack_next: bool,
    /// Send and receive settings.
    pub configuration: Configuration,
    /// Identification towards the network server.
    pub credentials: Credentials,
}

/// The smaller of two values.
pub open spec fn min_of(a: int, b: int) -> int {
    if a <= b {
        a
    } else {
        b
    }
}

/// The larger of two values.
pub open spec fn max_of(a: int, b: int) -> int {
    if a >= b {
        a
    } else {
        b
    }
}

/// Time taken to prepare the radio for reception, subtracted from the window delays.
pub const RX_WINDOW_ADJUST: u16 = 15;

impl<R: Region, C: ChannelPlan<R>> Mac<R, C> {
    /// The minimum frequency for the device: the device's own if it is higher than the
    /// region's.
    pub open spec fn spec_min_frequency(specs: DeviceSpecs) -> u32 {
        match specs.min_frequency {
            Some(f) => max_of(f as int, R::spec_min_frequency() as int) as u32,
            None => R::spec_min_frequency(),
        }
    }

    /// The maximum frequency for the device: the device's own if it is lower than the
    /// region's.
    pub open spec fn spec_max_frequency(specs: DeviceSpecs) -> u32 {
        match specs.max_frequency {
            Some(f) => min_of(f as int, R::spec_max_frequency() as int) as u32,
            None => R::spec_max_frequency(),
        }
    }

    /// The maximum uplink data rate for the device.
    pub open spec fn spec_max_data_rate(specs: DeviceSpecs) -> DR {
        match specs.max_data_rate {
            Some(d) => dr_from(min_of(dr_value(d) as int, dr_value(R::spec_ul_data_rate_range().1) as int)),
            None => R::spec_ul_data_rate_range().1,
        }
    }

    /// The minimum uplink data rate for the device.
    pub open spec fn spec_min_data_rate(specs: DeviceSpecs) -> DR {
        match specs.min_data_rate {
            Some(d) => dr_from(max_of(dr_value(d) as int, dr_value(R::spec_ul_data_rate_range().0) as int)),
            None => R::spec_ul_data_rate_range().0,
        }
    }

    /// Whether the RX1 data rate offset suits both ends of the device's data rates.
    pub open spec fn spec_rx1_offset_ok(specs: DeviceSpecs, rx1_dr_offset: u8) -> bool {
        &&& R::spec_get_rx1_dr(Self::spec_min_data_rate(specs), rx1_dr_offset) is Ok
        &&& R::spec_get_rx1_dr(Self::spec_max_data_rate(specs), rx1_dr_offset) is Ok
    }

    /// Whether a data rate index names a data rate within the device's range.
    pub open spec fn spec_data_rate_ok(specs: DeviceSpecs, dr: u8) -> bool {
        &&& dr < 16
        &&& dr_value(Self::spec_min_data_rate(specs)) <= dr <= dr_value(Self::spec_max_data_rate(specs))
    }

    /// The maximum EIRP for the device.
    pub open spec fn spec_max_eirp(specs: DeviceSpecs) -> i8 {
        match specs.max_eirp {
            Some(e) => min_of(R::spec_max_eirp() as int, e as int) as i8,
            None => R::spec_max_eirp(),
        }
    }

    /// The transmission power for a frame.
    pub open spec fn spec_tx_pwr(specs: DeviceSpecs, frame: Frame, configuration: Configuration) -> i8 {
        match frame {
            Frame::Join => Self::spec_max_eirp(specs),
            Frame::Data => match configuration.tx_power {
                Some(p) => p,
                None => Self::spec_max_eirp(specs),
            },
        }
    }

    /// The ADR acknowledgement limit.
    pub open spec fn spec_adr_ack_limit(specs: DeviceSpecs) -> u8 {
        match specs.adr_ack_limit {
            Some(l) => l,
            None => 64,
        }
    }

    /// The ADR acknowledgement delay.
    pub open spec fn spec_adr_ack_delay(specs: DeviceSpecs) -> u8 {
        match specs.adr_ack_delay {
            Some(d) => d,
            None => 32,
        }
    }

    /// The uplink data rate.
    pub open spec fn spec_tx_data_rate(&self) -> DR {
        match self.configuration.tx_data_rate {
            Some(d) => d,
            None => R::spec_default_data_rate(),
        }
    }

    /// The RX1 data rate offset.
    pub open spec fn spec_rx1_data_rate_offset(&self) -> u8 {
        match self.configuration.rx1_data_rate_offset {
            Some(o) => o,
            None => R::spec_default_rx1_data_rate_offset(),
        }
    }

    /// The RX1 data rate for an uplink at `tx_dr`.
    pub open spec fn spec_rx1_data_rate(&self, tx_dr: DR) -> DR {
        match R::spec_get_rx1_dr(tx_dr, self.spec_rx1_data_rate_offset()) {
            Ok(d) => d,
            Err(_) => R::spec_default_data_rate(),
        }
    }

    /// The RX2 data rate for a frame.
    pub open spec fn spec_rx2_data_rate(&self, frame: Frame) -> DR {
        match frame {
            Frame::Join => R::spec_default_rx2_data_rate(),
            Frame::Data => match self.configuration.rx2_data_rate {
                Some(d) => d,
                None => R::spec_default_rx2_data_rate(),
            },
        }
    }

    /// Whether a session is established and not expired.
    pub open spec fn spec_is_joined(&self) -> bool {
        self.session matches Some(s) && s.fcnt_up < 0xFFFF
    }

    /// The receive windows of a frame, in milliseconds after the transmission.
    pub open spec fn spec_rx_windows(&self, frame: Frame) -> RxWindows {
        match frame {
            Frame::Join => RxWindows { rx1_open: (5000 - RX_WINDOW_ADJUST) as u16, rx2_open: (6000 - RX_WINDOW_ADJUST) as u16 },
            Frame::Data => {
                let rx1_delay: int = match self.configuration.rx_delay {
                    Some(d) => d * 1000,
                    None => 1000,
                };
                RxWindows {
                    rx1_open: (rx1_delay - RX_WINDOW_ADJUST) as u16,
                    rx2_open: (rx1_delay + 1000 - RX_WINDOW_ADJUST) as u16,
                }
            },
        }
    }

    /// Whether the receive windows of data frames can be computed: an RX delay, when
    /// set, lies in 1..=64 seconds.
    pub open spec fn spec_rx_delay_ok(&self) -> bool {
        self.configuration.rx_delay matches Some(d) ==> 1 <= d <= 64
    }

    /// Creation.
    pub fn new(configuration: Configuration, credentials: Credentials) -> (res: Self)
        ensures
            res.session is None,
            res.channel_plan.spec_state() == C::spec_initial(),
            queued(res.uplink_cmds) == Seq::<UplinkMacCommandCreator>::empty(),
            !res.ack_next,
            res.configuration == configuration,
            res.credentials == credentials,
    {
        Self {
            session: None,
            channel_plan: C::initial(),
            region: PhantomData,
            uplink_cmds: queue_new(),
            ack_next: false,
            configuration,
            credentials,
        }
    }

    /// Get the minimum frequency, perhaps unique to the given end device.
    pub fn min_frequency(specs: &DeviceSpecs) -> (res: u32)
        ensures
            res == Self::spec_min_frequency(*specs),
    {
        match specs.min_frequency {
            Some(device_min_frequency) => {
                let region_min = R::min_frequency();
                if device_min_frequency >= region_min {
                    device_min_frequency
                } else {
                    region_min
                }
            },
            None => R::min_frequency(),
        }
    }

    /// Get the maximum frequency, perhaps unique to the given end device
    pub fn max_frequency(specs: &DeviceSpecs) -> (res: u32)
        ensures
            res == Self::spec_max_frequency(*specs),
    {
        match specs.max_frequency {
            Some(device_max_frequency) => {
                let region_max = R::max_frequency();
                if device_max_frequency <= region_max {
                    device_max_frequency
                } else {
                    region_max
                }
            },
            None => R::max_frequency(),
        }
    }

    /// Is the frequency within range for the given end device.
    pub fn validate_frequency(specs: &DeviceSpecs, frequency: u32) -> (res: bool)
        ensures
            res == (Self::spec_min_frequency(*specs) <= frequency <= Self::spec_max_frequency(*specs)),
    {
        Self::min_frequency(specs) <= frequency && frequency <= Self::max_frequency(specs)
    }

    /// Get the maximum uplink data rate, perhaps unique to the given end device.
    pub fn max_data_rate(specs: &DeviceSpecs) -> (res: DR)
        ensures
            res == Self::spec_max_data_rate(*specs),
    {
        match specs.max_data_rate {
            Some(device_max_data_rate) => {
                let region_max = R::ul_data_rate_range().1.value();
                let device_max = device_max_data_rate.value();
                let v = if device_max <= region_max {
                    device_max
                } else {
                    region_max
                };
                proof {
                    crate::mac::types::lemma_dr_from(v as int, device_max_data_rate);
                }
                match DR::try_from(v) {
                    Ok(dr) => {
                        proof {
                            crate::mac::types::lemma_dr_from(v as int, dr);
                        }
                        dr
                    },
                    Err(_) => R::ul_data_rate_range().1,
                }
            },
            None => R::ul_data_rate_range().1,
        }
    }

    /// Get the minumum uplink data rate, perhaps unique to the given end device.
    pub fn min_data_rate(specs: &DeviceSpecs) -> (res: DR)
        ensures
            res == Self::spec_min_data_rate(*specs),
    {
        match specs.min_data_rate {
            Some(device_min_data_rate) => {
                let region_min = R::ul_data_rate_range().0.value();
                let device_min = device_min_data_rate.value();
                let v = if device_min >= region_min {
                    device_min
                } else {
                    region_min
                };
                proof {
                    crate::mac::types::lemma_dr_from(v as int, device_min_data_rate);
                }
                match DR::try_from(v) {
                    Ok(dr) => {
                        proof {
                            crate::mac::types::lemma_dr_from(v as int, dr);
                        }
                        dr
                    },
                    Err(_) => R::ul_data_rate_range().0,
                }
            },
            None => R::ul_data_rate_range().0,
        }
    }

    /// Is the RX1 data rate offset within range for the given end device?
    pub fn validate_rx1_data_rate_offset(specs: &DeviceSpecs, rx1_dr_offset: u8) -> (res: bool)
        ensures
            res == Self::spec_rx1_offset_ok(*specs, rx1_dr_offset),
    {
        R::get_rx1_dr(Self::min_data_rate(specs), rx1_dr_offset).is_ok() && R::get_rx1_dr(
            Self::max_data_rate(specs),
            rx1_dr_offset,
        ).is_ok()
    }

    /// Is the uplink data rate within range for the given end device?
    pub fn validate_data_rate(specs: &DeviceSpecs, dr: u8) -> (res: bool)
        ensures
            res == Self::spec_data_rate_ok(*specs, dr),
    {
        match DR::try_from(dr) {
            Ok(dr) => dr.in_range((Self::min_data_rate(specs), Self::max_data_rate(specs))),
            Err(_) => false,
        }
    }

    /// Are the downlink data rate settings in range for the given end device?
    pub fn validate_dl_settings(specs: &DeviceSpecs, dl_settings: DLSettings) -> (res: (bool, bool))
        ensures
            res.0 == Self::spec_rx1_offset_ok(*specs, ((dl_settings.0 / 16) % 8) as u8),
            res.1 == Self::spec_data_rate_ok(*specs, dl_settings.0 % 16),
    {
        let rx1_data_rate_offset_ack = Self::validate_rx1_data_rate_offset(specs, dl_settings.rx1_dr_offset());
        let rx2_data_rate_ack = Self::validate_data_rate(specs, dl_settings.rx2_data_rate());
        (rx1_data_rate_offset_ack, rx2_data_rate_ack)
    }

    /// Get the maximum EIRP for the end device.
    pub fn max_eirp(specs: &DeviceSpecs) -> (res: i8)
        ensures
            res == Self::spec_max_eirp(*specs),
    {
        if let Some(device_max_eirp) = specs.max_eirp {
            let region_max = R::max_eirp();
            if region_max <= device_max_eirp {
                region_max
            } else {
                device_max_eirp
            }
        } else {
            R::max_eirp()
        }
    }

    /// Get the transmission power based on the frame type.
    pub fn get_tx_pwr(specs: &DeviceSpecs, frame: Frame, configuration: &Configuration) -> (res: i8)
        ensures
            res == Self::spec_tx_pwr(*specs, frame, *configuration),
    {
        match frame {
            Frame::Join => Self::max_eirp(specs),
            Frame::Data => match configuration.tx_power {
                Some(p) => p,
                None => Self::max_eirp(specs),
            },
        }
    }

    /// Has a session been established bteween the end device and a network server?
    pub fn is_joined(&self) -> (res: bool)
        ensures
            res == self.spec_is_joined(),
    {
        if let Some(session) = &self.session {
            !session.is_expired()
        } else {
            false
        }
    }

    /// Adopts the downlink settings of a JoinAccept or an RXParamSetupReq.
    pub fn handle_dl_settings(&mut self, dl_settings: DLSettings) -> (res: Result<(), Error>)
        ensures
            res is Ok,
            final(self).configuration == (Configuration {
                rx1_data_rate_offset: Some(((dl_settings.0 / 16) % 8) as u8),
                rx2_data_rate: Some(dr_from((dl_settings.0 % 16) as int)),
                ..old(self).configuration
            }),
            final(self).session == old(self).session,
            final(self).channel_plan == old(self).channel_plan,
            final(self).uplink_cmds == old(self).uplink_cmds,
            final(self).ack_next == old(self).ack_next,
            final(self).credentials == old(self).credentials,
    {
        self.configuration.rx1_data_rate_offset = Some(dl_settings.rx1_dr_offset());
        match DR::try_from(dl_settings.rx2_data_rate()) {
            Ok(rx2_data_rate) => {
                proof {
                    crate::mac::types::lemma_dr_from(0, rx2_data_rate);
                }
                self.configuration.rx2_data_rate = Some(rx2_data_rate);
                Ok(())
            },
            Err(_) => Err(Error::UnsupportedDataRate),
        }
    }

    /// The uplink data rate: the configured one, else the region's default.
    pub fn tx_data_rate(&self) -> (res: DR)
        ensures
            res == self.spec_tx_data_rate(),
    {
        match self.configuration.tx_data_rate {
            Some(d) => d,
            None => R::default_data_rate(),
        }
    }

    /// The RX1 data rate offset: the configured one, else the region's default.
    pub fn rx1_data_rate_offset(&self) -> (res: u8)
        ensures
            res == self.spec_rx1_data_rate_offset(),
    {
        match self.configuration.rx1_data_rate_offset {
            Some(o) => o,
            None => R::default_rx1_data_rate_offset(),
        }
    }

    /// The RX1 data rate for an uplink at `tx_dr`; the region's default data rate when
    /// the region gives none.
    pub fn rx1_data_rate(&self, tx_dr: DR) -> (res: DR)
        ensures
            res == self.spec_rx1_data_rate(tx_dr),
    {
        let offset = self.rx1_data_rate_offset();
        match R::get_rx1_dr(tx_dr, offset) {
            Ok(d) => d,
            Err(_) => R::default_data_rate(),
        }
    }

    /// The RX2 data rate: the region's default for joins, else the configured one.
    pub fn rx2_data_rate(&self, frame: &Frame) -> (res: DR)
        ensures
            res == self.spec_rx2_data_rate(*frame),
    {
        match frame {
            Frame::Join => R::default_rx2_data_rate(),
            Frame::Data => match self.configuration.rx2_data_rate {
                Some(d) => d,
                None => R::default_rx2_data_rate(),
            },
        }
    }

    /// The ADR acknowledgement limit: the device's, else 64.
    pub fn adr_ack_limit(specs: &DeviceSpecs) -> (res: u8)
        ensures
            res == Self::spec_adr_ack_limit(*specs),
    {
        match specs.adr_ack_limit {
            Some(l) => l,
            None => R::default_adr_ack_limit(),
        }
    }

    /// The ADR acknowledgement delay: the device's, else 32.
    pub fn adr_ack_delay(specs: &DeviceSpecs) -> (res: u8)
        ensures
            res == Self::spec_adr_ack_delay(*specs),
    {
        match specs.adr_ack_delay {
            Some(d) => d,
            None => R::default_adr_ack_delay(),
        }
    }

    /// The receive windows of a frame.
    pub fn get_rx_windows(&self, frame: Frame) -> (res: RxWindows)
        requires
            self.spec_rx_delay_ok(),
        ensures
            res == self.spec_rx_windows(frame),
    {
        match frame {
            Frame::Join => RxWindows {
                rx1_open: R::default_join_accept_delay1() - RX_WINDOW_ADJUST,
                rx2_open: R::default_join_accept_delay2() - RX_WINDOW_ADJUST,
            },
            Frame::Data => {
                let rx1_delay: u16 = match self.configuration.rx_delay {
                    Some(delay) => delay as u16 * 1000,
                    None => R::default_rx_delay(),
                };
                let rx2_delay = rx1_delay + 1000;
                RxWindows { rx1_open: rx1_delay - RX_WINDOW_ADJUST, rx2_open: rx2_delay - RX_WINDOW_ADJUST }
            },
        }
    }

    /// The transmission settings of a frame on `channel` at data rate `dr`.
    pub fn create_tx_config(&self, specs: &DeviceSpecs, frame: Frame, channel: &C::Channel, dr: DR) -> (res: Result<
        TxConfig,
        region::Error,
    >)
        ensures
            match R::spec_convert_data_rate(dr) {
                Ok(data_rate) => res == Ok::<TxConfig, region::Error>(
                    TxConfig {
                        pw: Self::spec_tx_pwr(*specs, frame, self.configuration),
                        rf: RfConfig {
                            frequency: channel.spec_ul_frequency(),
                            coding_rate: CodingRate::_4_5,
                            data_rate,
                        },
                    },
                ),
                Err(e) => res == Err::<TxConfig, region::Error>(e),
            },
    {
        let pw = Self::get_tx_pwr(specs, frame, &self.configuration);
        let data_rate = match R::convert_data_rate(dr) {
            Ok(d) => d,
            Err(e) => return Err(e),
        };
        Ok(
            TxConfig {
                pw,
                rf: RfConfig { frequency: channel.get_ul_frequency(), coding_rate: CodingRate::_4_5, data_rate },
            },
        )
    }

    /// The reception settings of a receive window after an uplink at `data_rate` on
    /// `channel`: RX1 listens on the channel's downlink frequency at the RX1 data rate,
    /// RX2 on the region's RX2 frequency at the RX2 data rate.
    pub fn create_rf_config(&self, frame: &Frame, window: &Window, data_rate: DR, channel: &C::Channel) -> (res: Result<
        RfConfig,
        region::Error,
    >)
        ensures
            ({
                let dr = match window {
                    Window::_1 => self.spec_rx1_data_rate(data_rate),
                    Window::_2 => self.spec_rx2_data_rate(*frame),
                };
                let frequency = match window {
                    Window::_1 => channel.spec_dl_frequency(),
                    Window::_2 => R::spec_default_rx2_frequency(),
                };
                match R::spec_convert_data_rate(dr) {
                    Ok(d) => res == Ok::<RfConfig, region::Error>(
                        RfConfig { frequency, coding_rate: CodingRate::_4_5, data_rate: d },
                    ),
                    Err(e) => res == Err::<RfConfig, region::Error>(e),
                }
            }),
    {
        let data_rate = match window {
            Window::_1 => self.rx1_data_rate(data_rate),
            Window::_2 => self.rx2_data_rate(frame),
        };
        let data_rate = match R::convert_data_rate(data_rate) {
            Ok(d) => d,
            Err(e) => return Err(e),
        };
        let rf_config = match (frame, window) {
            (Frame::Join, Window::_1) => RfConfig {
                frequency: channel.get_dl_frequency(),
                coding_rate: CodingRate::_4_5,
                data_rate,
            },
            (Frame::Join, Window::_2) => RfConfig {
                frequency: R::default_rx2_frequency(),
                coding_rate: CodingRate::_4_5,
                data_rate,
            },
            (Frame::Data, Window::_1) => RfConfig {
                frequency: channel.get_dl_frequency(),
                coding_rate: CodingRate::_4_5,
                data_rate,
            },
            (Frame::Data, Window::_2) => RfConfig {
                frequency: R::default_rx2_frequency(),
                coding_rate: CodingRate::_4_5,
                data_rate,
            },
        };
        Ok(rf_config)
    }
}

/// The JoinRequest of a device: MHDR, application EUI, device EUI and device nonce, then
/// their MIC under the application key.
pub open spec fn spec_join_request(app_eui: Seq<u8>, dev_eui: Seq<u8>, dev_nonce: u16, app_key: Seq<u8>) -> Seq<u8> {
    let body = seq![0u8] + app_eui + dev_eui + seq![(dev_nonce % 256) as u8, (dev_nonce / 256) as u8];
    body + spec_mic(app_key, body)
}

/// The first bytes of an uplink data frame before its payload is added: MHDR of a
/// confirmed or unconfirmed uplink, device address, FCtrl and the low 16 bits of the
/// frame counter, in a buffer of 255 bytes.
pub open spec fn spec_uplink_header(confirmed: bool, dev_addr: Seq<u8>, fctrl: u8, fcnt: u32) -> Seq<u8> {
    seq![
        if confirmed {
            0x80u8
        } else {
            0x40u8
        },
    ] + dev_addr + seq![fctrl, (fcnt % 256) as u8, ((fcnt / 256) % 256) as u8] + Seq::new(247, |i: int| 0u8)
}

/// Size of the buffer in which uplink frames are built.
pub const UPLINK_BUFFER_LEN: usize = 255;

impl<R: Region, C: ChannelPlan<R>> Mac<R, C> {
    /// Whether the ADR back-off is due in a session: the ADR acknowledgement count has
    /// reached the limit plus the delay, and then every further delay.
    pub open spec fn spec_back_off_due(session: Option<Session>, specs: DeviceSpecs) -> bool {
        session matches Some(s) && s.adr_ack_cnt >= Self::spec_adr_ack_limit(specs) + Self::spec_adr_ack_delay(specs)
            && (s.adr_ack_cnt - Self::spec_adr_ack_limit(specs)) % (Self::spec_adr_ack_delay(specs) as int) == 0
    }

    /// The configuration after an ADR back-off that is due or not: the transmission power
    /// returns to its default, and the data rate steps towards the default, or once it is
    /// there a single transmission is made.
    pub open spec fn spec_back_off_configuration(due: bool, c: Configuration) -> Configuration {
        if !due {
            c
        } else {
            match c.tx_data_rate {
                Some(_) => Configuration { tx_power: None, tx_data_rate: R::spec_next_adr_data_rate(c.tx_data_rate), ..c },
                None => Configuration { tx_power: None, number_of_transmissions: 1, ..c },
            }
        }
    }

    /// The channel plan after an ADR back-off: its channels are reactivated once the
    /// data rate is the default.
    pub open spec fn spec_back_off_plan(
        due: bool,
        c: Configuration,
        plan: ChannelPlanState<C::Channel>,
    ) -> ChannelPlanState<C::Channel> {
        if due && c.tx_data_rate is None {
            C::spec_reactivated(plan)
        } else {
            plan
        }
    }

    /// Whether the ADR limit and delay can be used: their sum fits a byte and the delay
    /// is not zero.
    pub open spec fn spec_adr_specs_ok(specs: DeviceSpecs) -> bool {
        &&& Self::spec_adr_ack_limit(specs) + Self::spec_adr_ack_delay(specs) <= 255
        &&& Self::spec_adr_ack_delay(specs) > 0
    }

    /// Backs off to regain connectivity when the ADR back-off is due: the transmission
    /// power returns to its default, then the data rate steps towards the default, and
    /// once it is there the channels are reactivated with a single transmission.
    pub fn adr_back_off(&mut self, specs: &DeviceSpecs)
        requires
            Self::spec_adr_specs_ok(*specs),
        ensures
            ({
                let due = Self::spec_back_off_due(old(self).session, *specs);
                &&& final(self).configuration == Self::spec_back_off_configuration(due, old(self).configuration)
                &&& final(self).channel_plan.spec_state() == Self::spec_back_off_plan(
                    due,
                    old(self).configuration,
                    old(self).channel_plan.spec_state(),
                )
                &&& !due ==> final(self).channel_plan == old(self).channel_plan
            }),
            final(self).session == old(self).session,
            final(self).uplink_cmds == old(self).uplink_cmds,
            final(self).ack_next == old(self).ack_next,
            final(self).credentials == old(self).credentials,
    {
        if let Some(session) = &self.session {
            let limit = Self::adr_ack_limit(specs);
            let delay = Self::adr_ack_delay(specs);
            if session.adr_ack_cnt >= limit + delay && (session.adr_ack_cnt - limit) % delay == 0 {
                // try to regain connectivity
                if self.configuration.tx_power.is_some() {
                    // First reset tx_power to default
                    self.configuration.tx_power = None;
                }
                // Next increse tx data rate until it reaches default
                if self.configuration.tx_data_rate.is_some() {
                    self.configuration.tx_data_rate = R::next_adr_data_rate(self.configuration.tx_data_rate);
                } else {
                    self.configuration.number_of_transmissions = 1;
                    self.channel_plan.reactivate_channels();
                }
            }
        }
    }

    /// The JoinRequest for the device's credentials.
    pub fn create_join_request(&self) -> (res: [u8; 23])
        ensures
            res@ == spec_join_request(
                self.credentials.app_eui.0@,
                self.credentials.dev_eui.0@,
                self.credentials.dev_nonce,
                self.credentials.app_key.0.0@,
            ),
    {
        let mut join_request = JoinRequestCreator::new();
        let devnonce = self.credentials.dev_nonce;
        let lo = (devnonce & 0xff) as u8;
        let hi = (devnonce >> 8) as u8;
        assert(lo == devnonce % 256 && hi == devnonce / 256) by (bit_vector)
            requires
                lo == (devnonce & 0xff) as u8,
                hi == (devnonce >> 8) as u8,
        ;
        join_request.set_app_eui(EUI64(self.credentials.app_eui.0));
        join_request.set_dev_eui(EUI64(self.credentials.dev_eui.0));
        join_request.set_dev_nonce(DevNonce([lo, hi]));
        let ghost body = join_request.bytes().subrange(0, 19);
        assert(body =~= seq![0u8] + self.credentials.app_eui.0@ + self.credentials.dev_eui.0@ + seq![lo, hi]);
        match join_request.build(&self.credentials.app_key.0) {
            Ok(b) => b,
            Err(_) => {
                assert(false);
                [0u8; 23]
            },
        }
    }

    /// The FCtrl of an uplink: ADR as asked, ACK when a confirmed downlink is to be
    /// acknowledged, and ADRACKReq once the ADR acknowledgement count reaches the limit
    /// while the power or data rate differ from their defaults.
    pub open spec fn spec_fctrl(s: Session, ack_next: bool, configuration: Configuration, specs: DeviceSpecs, adr: bool) -> u8 {
        let b0: u8 = if adr {
            0x80
        } else {
            0
        };
        let b1: u8 = if ack_next {
            b0 | 0x20
        } else {
            b0
        };
        if s.adr_ack_cnt >= Self::spec_adr_ack_limit(specs) && (configuration.tx_power is Some
            || configuration.tx_data_rate is Some) {
            b1 | 0x40
        } else {
            b1
        }
    }

    /// What preparing an uplink of `data` on `fport` gives with this session, queued
    /// answers, acknowledgement flag and configuration.
    pub open spec fn spec_prepare_frame(
        session: Option<Session>,
        cmds: Seq<UplinkMacCommandCreator>,
        ack_next: bool,
        configuration: Configuration,
        specs: DeviceSpecs,
        data: Seq<u8>,
        fport: u8,
        confirmed: bool,
        adr: bool,
    ) -> Result<Seq<u8>, Error> {
        match session {
            None => Err(Error::NetworkNotJoined),
            Some(s) => if s.fcnt_up >= 0xFFFF {
                Err(Error::SessionExpired)
            } else {
                let cb = cmds_bytes(cmds);
                match spec_build_error(data.len() as int, cb.len() as int, Some(fport)) {
                    Some(e) => Err(Error::Creator(e)),
                    None => if 13 + cb.len() + data.len() > UPLINK_BUFFER_LEN {
                        Err(Error::Creator(crate::encoding::Error::BufferTooSmall))
                    } else {
                        Ok(
                        spec_data_frame(
                            spec_uplink_header(
                                confirmed,
                                s.devaddr.0@,
                                Self::spec_fctrl(s, ack_next, configuration, specs, adr),
                                s.fcnt_up,
                            ),
                            data,
                            cb,
                            Some(fport),
                            s.fcnt_up,
                            s.nwkskey.0.0@,
                            s.appskey.0.0@,
                        ),
                    )
                    },
                }
            },
        }
    }

    /// What preparing an uplink of `data` on `fport` gives.
    pub open spec fn spec_prepare_buffer(
        &self,
        specs: DeviceSpecs,
        data: Seq<u8>,
        fport: u8,
        confirmed: bool,
        adr: bool,
    ) -> Result<Seq<u8>, Error> {
        Self::spec_prepare_frame(
            self.session,
            queued(self.uplink_cmds),
            self.ack_next,
            self.configuration,
            specs,
            data,
            fport,
            confirmed,
            adr,
        )
    }

    /// Builds the uplink frame of `data` on `fport`, with the queued MAC command answers
    /// in its FOpts, under the session keys; the frame must fit the 255-byte buffer.
    pub fn prepare_buffer(
        &self,
        specs: &DeviceSpecs,
        data: &[u8],
        fport: u8,
        confirmed: bool,
        adr: bool,
    ) -> (res: Result<Vec<u8>, Error>)
        ensures
            match self.spec_prepare_buffer(*specs, data@, fport, confirmed, adr) {
                Ok(frame) => res matches Ok(f) && f@ == frame,
                Err(e) => res == Err::<Vec<u8>, Error>(e),
            },
    {
        if let Some(session) = &self.session {
            // check if FCnt is used up
            if session.is_expired() {
                // signal that the session is expired
                return Err(Error::SessionExpired);
            }
            let cmds = queue_as_slice(&self.uplink_cmds);
            let cmds_len = mac_commands_len(cmds);
            let build_ok = !(cmds_len > PIGGYBACK_MAC_COMMANDS_MAX_LEN && fport != 0) && !(fport == 0 && data.len() > 0);
            if build_ok && (cmds_len > UPLINK_BUFFER_LEN - 13 || data.len() > UPLINK_BUFFER_LEN - 13 - cmds_len) {
                return Err(Error::Creator(crate::encoding::Error::BufferTooSmall));
            }
            let buffer: Vec<u8> = vec![0u8; UPLINK_BUFFER_LEN];
            assert(buffer@ =~= Seq::new(255, |i: int| 0u8));
            let mut phy = DataPayloadCreator::new(buffer, DefaultFactory);
            let mut fctrl = FCtrl(0x0, true);
            if adr {
                fctrl.set_adr();
            }
            if self.ack_next {
                fctrl.set_ack();
            }
            if session.adr_ack_cnt >= Self::adr_ack_limit(specs) && (self.configuration.tx_power.is_some()
                || self.configuration.tx_data_rate.is_some()) {
                fctrl.set_adr_ack_req();
            }
            assert(0u8 | 0x80u8 == 0x80u8 && ((0u8 & 0xbfu8) | 0x80u8) & 0xdfu8 == 0x80u8 && ((0u8 & 0x7fu8) | 0x40u8)
                & 0xdfu8 == 0x40u8) by (bit_vector);
            assert(fctrl.0 == Self::spec_fctrl(*session, self.ack_next, self.configuration, *specs, adr));
            phy.set_confirmed(confirmed);
            phy.set_uplink(true);
            phy.set_fctrl(&fctrl);
            phy.set_f_port(fport);
            phy.set_dev_addr(session.devaddr);
            phy.set_fcnt(session.fcnt_up);
            proof {
                let hdr = spec_uplink_header(confirmed, session.devaddr.0@, fctrl.0, session.fcnt_up);
                assert(phy.bytes() =~= hdr);
                lemma_cmds_bytes_len(cmds@);
            }
            match phy.build(data, cmds, &session.nwkskey.0, &session.appskey.0) {
                Ok(packet) => Ok(packet),
                Err(e) => Err(Error::Creator(e)),
            }
        } else {
            Err(Error::NetworkNotJoined)
        }
    }
}

} // verus!
