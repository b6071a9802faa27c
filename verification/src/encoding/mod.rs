//! LoRaWAN packet handling and parsing.

pub mod default_crypto;
pub mod keys;
pub mod parser;
pub mod securityhelpers;
pub mod maccommandcreator;
pub mod maccommands;

use vstd::prelude::*;

verus! {

#[derive(Debug, Clone, Copy, PartialEq, Eq)]
#[allow(missing_docs)]
pub enum Error {
    OutOfRange,
    BufferTooSmall,
    IncorrectSizeForMacCommand,
    InvalidDataRange,
    InvalidKey,
    InvalidData,
    InvalidMic,
    InvalidChannelIndex,
    UnsupportedMessageType,
    PhyDataEmpty,
    InsufficeientNumberOfBytes,
    UnsupportedMajorVersion,
    MacCommandTooBigForFOpts,
    DataAndMacCommandsInPayloadNotAllowed,
    FRMPayloadWithFportZero,
    CfListTooLong,
}

} // verus!
