//! Types shared with the device-specific functionality that the caller provides.

use vstd::prelude::*;

use crate::encoding::keys::{AppEui, AppKey, DevEui, AES128};
use crate::mac::types::{Configuration, Credentials, Storable, DR};

pub mod radio;
pub mod radio_buffer;

verus! {

/// Limits of the end device, as the caller gives them; `None` leaves the region's value.
#[derive(Debug, Clone, Copy, PartialEq, Eq)]
pub struct DeviceSpecs {
    /// The minimum frequency supported by the device.
    pub min_frequency: Option<u32>,
    /// The maximum frequency supported by the device.
    pub max_frequency: Option<u32>,
    /// The minimum data rate supported by the device.
    pub min_data_rate: Option<DR>,
    /// The maximum data rate supported by the device.
    pub max_data_rate: Option<DR>,
    /// The maximum EIRP of the device.
    pub max_eirp: Option<i8>,
    /// The ADR acknowledgement limit of the device.
    pub adr_ack_limit: Option<u8>,
    /// The ADR acknowledgement delay of the device.
    pub adr_ack_delay: Option<u8>,
    /// The preferred channel block index for join requests. For both dynamic and fixed
    /// plans there are at most 80 channels: 10 channel blocks of 8 channels each, so
    /// valid indexes are 0 through 9.
    pub preferred_join_channel_block_index: usize,
}

impl Default for DeviceSpecs {
    fn default() -> (res: Self)
        ensures
            res == (DeviceSpecs {
                min_frequency: None,
                max_frequency: None,
                min_data_rate: None,
                max_data_rate: None,
                max_eirp: None,
                adr_ack_limit: None,
                adr_ack_delay: None,
                preferred_join_channel_block_index: 0,
            }),
    {
        DeviceSpecs {
            min_frequency: None,
            max_frequency: None,
            min_data_rate: None,
            max_data_rate: None,
            max_eirp: None,
            adr_ack_limit: None,
            adr_ack_delay: None,
            preferred_join_channel_block_index: 0,
        }
    }
}

/// Information from the network server that the device is told of.
#[derive(Debug, Clone, Copy, PartialEq, Eq)]
pub enum DeviceNotification {
    /// A LinkCheckAns: the number of gateways that received the LinkCheckReq, and the
    /// link margin.
    LinkCheck { gateway_count: u8, margin: u8 },
    /// A DeviceTimeAns: seconds since the GPS epoch, and the fraction of a second.
    DeviceTime { seconds: u32, nano_seconds: u32 },
}

/// What is persisted of a configuration and credentials.
pub open spec fn spec_storable(configuration: Configuration, credentials: Credentials) -> Storable {
    Storable {
        rx1_data_rate_offset: configuration.rx1_data_rate_offset,
        rx_delay: configuration.rx_delay,
        rx2_data_rate: configuration.rx2_data_rate,
        rx2_frequency: configuration.rx2_frequency,
        dev_nonce: credentials.dev_nonce,
    }
}

/// The information required to maintain communication with a network server through
/// end device power cycles.
pub fn storable_of(configuration: &Configuration, credentials: &Credentials) -> (res: Storable)
    ensures
        res == spec_storable(*configuration, *credentials),
{
    Storable {
        rx1_data_rate_offset: configuration.rx1_data_rate_offset,
        rx_delay: configuration.rx_delay,
        rx2_data_rate: configuration.rx2_data_rate,
        rx2_frequency: configuration.rx2_frequency,
        dev_nonce: credentials.dev_nonce,
    }
}

/// Whether `storable` must be saved, given what loading the store gave: it is saved
/// when nothing could be loaded or when it differs from what was loaded.
pub fn needs_save(storable: &Storable, loaded: Option<Storable>) -> (res: bool)
    ensures
        res == match loaded {
            Some(old_storable) => old_storable != *storable,
            None => true,
        },
{
    match loaded {
        Some(old_storable) => old_storable != *storable,
        None => true,
    }
}

/// The configuration and credentials restored from what was persisted, with the
/// device's identifiers and key: the persisted settings on the default configuration.
pub open spec fn spec_restore(storable: Storable, app_eui: [u8; 8], dev_eui: [u8; 8], app_key: [u8; 16]) -> (
    Configuration,
    Credentials,
) {
    (
        Configuration {
            rx1_data_rate_offset: storable.rx1_data_rate_offset,
            rx_delay: storable.rx_delay,
            rx2_data_rate: storable.rx2_data_rate,
            rx2_frequency: storable.rx2_frequency,
            ..Configuration::spec_default()
        },
        Credentials {
            app_eui: AppEui(app_eui),
            dev_eui: DevEui(dev_eui),
            app_key: AppKey(AES128(app_key)),
            dev_nonce: storable.dev_nonce,
        },
    )
}

/// Restores the configuration and credentials from what was persisted, with the
/// device's identifiers and key.
pub fn restore_from_storable(storable: &Storable, app_eui: [u8; 8], dev_eui: [u8; 8], app_key: [u8; 16]) -> (res: (
    Configuration,
    Credentials,
))
    ensures
        res == spec_restore(*storable, app_eui, dev_eui, app_key),
{
    let configuration = Configuration {
        rx1_data_rate_offset: storable.rx1_data_rate_offset,
        rx_delay: storable.rx_delay,
        rx2_data_rate: storable.rx2_data_rate,
        rx2_frequency: storable.rx2_frequency,
        ..Configuration::default()
    };
    let mut credentials = Credentials::new(app_eui, dev_eui, app_key);
    credentials.dev_nonce = storable.dev_nonce;
    (configuration, credentials)
}

} // verus!
