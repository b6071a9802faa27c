use vstd::prelude::*;

verus! {

/// A 128-bit AES key.
#[derive(Debug, Clone, Copy, PartialEq, Eq)]
pub struct AES128(pub [u8; 16]);

/// A 4-byte message integrity code.
#[derive(Debug, Clone, Copy, PartialEq, Eq)]
pub struct MIC(pub [u8; 4]);

/// The application key shared between the end device and the join server.
#[derive(Debug, Clone, Copy, PartialEq, Eq)]
pub struct AppKey(pub AES128);

/// The network session key.
#[derive(Debug, Clone, Copy, PartialEq, Eq)]
pub struct NwkSKey(pub AES128);

/// The application session key.
#[derive(Debug, Clone, Copy, PartialEq, Eq)]
pub struct AppSKey(pub AES128);

/// The application (join) EUI.
#[derive(Debug, Clone, Copy, PartialEq, Eq)]
pub struct AppEui(pub [u8; 8]);

/// The device EUI.
#[derive(Debug, Clone, Copy, PartialEq, Eq)]
pub struct DevEui(pub [u8; 8]);

impl AppKey {
    /// The key itself.
    pub fn inner(&self) -> (res: &AES128)
        ensures
            *res == self.0,
    {
        &self.0
    }
}

impl NwkSKey {
    /// The key itself.
    pub fn inner(&self) -> (res: &AES128)
        ensures
            *res == self.0,
    {
        &self.0
    }
}

impl AppSKey {
    /// The key itself.
    pub fn inner(&self) -> (res: &AES128)
        ensures
            *res == self.0,
    {
        &self.0
    }
}

} // verus!
