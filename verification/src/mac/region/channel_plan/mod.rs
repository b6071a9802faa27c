//! Specification of the functionality implemented for dynamic and fixed channel plans.

use vstd::prelude::*;

use crate::channel_mask::ChannelMask;
use crate::encoding::maccommands::{DlChannelReqPayload, NewChannelReqPayload};
use crate::encoding::parser::CfList;
use crate::mac::region::{Error, Region};
use crate::mac::types::{Frame, DR};

pub mod dynamic;
pub mod fixed;

verus! {

/// Maximum number of channels in a deployed channel plan.
pub const MAX_CHANNELS: usize = 80;

/// Maximum number of configurable channels in an 800 fixed list.
pub const MAX_800_CHANNELS: usize = 40;

/// Maximum number of configurable channels in a 900 fixed list.
pub const MAX_900_CHANNELS: usize = 96;

/// Number of channel blocks for a channel plan.
pub const NUM_OF_CHANNEL_BLOCKS: usize = 10;

/// Number of channels in a channel block.
pub const NUM_OF_CHANNELS_IN_BLOCK: usize = 8;

/// Specification of basic functionality to get channel properties.
pub trait Channel {
    spec fn spec_ul_frequency(&self) -> u32;

    spec fn spec_dl_frequency(&self) -> u32;

    spec fn spec_ul_data_rate_range(&self) -> (DR, DR);

    /// Get the uplink frequency.
    fn get_ul_frequency(&self) -> (res: u32)
        ensures
            res == self.spec_ul_frequency(),
    ;

    /// Get the downlink frequency.
    fn get_dl_frequency(&self) -> (res: u32)
        ensures
            res == self.spec_dl_frequency(),
    ;

    /// Get the uplink data rate range.
    fn get_ul_data_rate_range(&self) -> (res: (DR, DR))
        ensures
            res == self.spec_ul_data_rate_range(),
    ;
}

/// What a channel plan holds: its channels, and which of them are enabled.
#[verifier::ext_equal]
pub struct ChannelPlanState<Ch> {
    pub channels: Seq<Option<Ch>>,
    pub mask: Seq<bool>,
}

/// Specification of functionality to handle a channel plan for a region.
///
/// Each operation is described by a specification function of the plan type over
/// [`ChannelPlanState`]: what it returns, and the state it leaves behind.
pub trait ChannelPlan<R: Region>: Sized {
    /// Dynamic or fixed channel type.
    type Channel: Channel + Copy;

    /// The channels and mask of this plan.
    spec fn spec_state(&self) -> ChannelPlanState<Self::Channel>;

    /// A plan holds an entry for each of the 80 channels, and a mask bit for each.
    proof fn lemma_state_len(&self)
        ensures
            self.spec_state().channels.len() == MAX_CHANNELS,
            self.spec_state().mask.len() == MAX_CHANNELS,
    ;

    /// The state a device starts with.
    spec fn spec_initial() -> ChannelPlanState<Self::Channel>;

    /// Whether random channels can be drawn for frames of this kind.
    spec fn spec_random_channels_ok(frame: Frame) -> bool;

    /// The channel drawn from channel block `block` with the random numbers `randoms`.
    spec fn spec_random_channel(
        s: ChannelPlanState<Self::Channel>,
        randoms: Seq<u32>,
        frame: Frame,
        block: int,
    ) -> Option<Self::Channel>;

    /// The state after a NewChannelReq, and the outcome.
    spec fn spec_new_channel_req(s: ChannelPlanState<Self::Channel>, payload: NewChannelReqPayload) -> (
        ChannelPlanState<Self::Channel>,
        Result<(), Error>,
    );

    /// Whether the channel with this index exists.
    spec fn spec_uplink_frequency_exists(s: ChannelPlanState<Self::Channel>, index: usize) -> bool;

    /// Whether a channel mask control value can be handled.
    spec fn spec_channel_mask_ctrl_ok(ctrl: u8) -> bool;

    /// The channel mask that a LinkADRReq's mask and control make of `new_mask`, or the
    /// error that refuses them.
    spec fn spec_channel_mask(new_mask: Seq<bool>, channel_mask: ChannelMask, ctrl: u8) -> Result<Seq<bool>, Error>;

    /// The state after a DlChannelReq, and the outcome.
    spec fn spec_dl_channel_req(s: ChannelPlanState<Self::Channel>, payload: DlChannelReqPayload) -> (
        ChannelPlanState<Self::Channel>,
        Result<(), Error>,
    );

    /// Whether a CFList can be handled.
    spec fn spec_cf_list_ok() -> bool;

    /// The state after the CFList of a JoinAccept, and the outcome.
    spec fn spec_cf_list(s: ChannelPlanState<Self::Channel>, cf_list: CfList) -> (
        ChannelPlanState<Self::Channel>,
        Result<(), Error>,
    );

    /// Whether an uplink channel has this frequency.
    spec fn spec_validate_frequency(s: ChannelPlanState<Self::Channel>, frequency: u32) -> Result<(), Error>;

    /// The state after the channels are reactivated for ADR back-off.
    spec fn spec_reactivated(s: ChannelPlanState<Self::Channel>) -> ChannelPlanState<Self::Channel>;

    /// Whether a channel mask control value can be handled.
    fn channel_mask_ctrl_supported(ctrl: u8) -> (res: bool)
        ensures
            res == Self::spec_channel_mask_ctrl_ok(ctrl),
    ;

    /// Whether random channels can be drawn for frames of this kind.
    fn random_channels_supported(frame: Frame) -> (res: bool)
        ensures
            res == Self::spec_random_channels_ok(frame),
    ;

    /// Whether a CFList can be handled.
    fn cf_list_supported() -> (res: bool)
        ensures
            res == Self::spec_cf_list_ok(),
    ;

    /// The plan a device starts with.
    fn initial() -> (res: Self)
        ensures
            res.spec_state() == Self::spec_initial(),
    ;

    /// Get an active channel randomly from each channel block based on the frame type (join or data).  The resulting
    /// collection may be sparesely populated.
    fn get_random_channels_from_blocks(&self, channel_block_randoms: [u32; NUM_OF_CHANNEL_BLOCKS], frame: Frame) -> (res:
        Result<[Option<Self::Channel>; NUM_OF_CHANNEL_BLOCKS], Error>)
        requires
            Self::spec_random_channels_ok(frame),
        ensures
            res matches Ok(cs) && forall|i: int|
                0 <= i < NUM_OF_CHANNEL_BLOCKS ==> #[trigger] cs@[i] == Self::spec_random_channel(
                    self.spec_state(),
                    channel_block_randoms@,
                    frame,
                    i,
                ),
    ;

    /// Handle a new channel request from a network server.
    fn handle_new_channel_req(&mut self, payload: NewChannelReqPayload) -> (res: Result<(), Error>)
        ensures
            (final(self).spec_state(), res) == Self::spec_new_channel_req(old(self).spec_state(), payload),
    ;

    /// Does a channel exist for the given channel ID?
    fn check_uplink_frequency_exists(&self, index: usize) -> (res: bool)
        ensures
            res == Self::spec_uplink_frequency_exists(self.spec_state(), index),
    ;

    /// Create a new channel mask collection based on guidance in the input channel_mask_ctrl and input channel_mask,
    /// both contained in a LinkADRReq packet from a network server to the end device.
    fn handle_channel_mask(&mut self, new_mask: &mut [bool; MAX_CHANNELS], channel_mask: ChannelMask, channel_mask_ctrl: u8) -> (res:
        Result<(), Error>)
        requires
            Self::spec_channel_mask_ctrl_ok(channel_mask_ctrl),
        ensures
            final(self).spec_state() == old(self).spec_state(),
            match Self::spec_channel_mask(old(new_mask)@, channel_mask, channel_mask_ctrl) {
                Ok(m) => res is Ok && final(new_mask)@ == m,
                Err(e) => res == Err::<(), Error>(e) && final(new_mask)@ == old(new_mask)@,
            },
    ;

    /// Get the current channel mask collection.
    fn get_channel_mask(&self) -> (res: [bool; MAX_CHANNELS])
        ensures
            res@ == self.spec_state().mask,
    ;

    /// Set the current channel mask collection.
    fn set_channel_mask(&mut self, mask: [bool; MAX_CHANNELS]) -> (res: Result<(), Error>)
        ensures
            res is Ok,
            final(self).spec_state() == (ChannelPlanState { mask: mask@, ..old(self).spec_state() }),
    ;

    /// Handle a DlChannelReq packet from a network server to the end device.
    fn handle_dl_channel_req(&mut self, payload: DlChannelReqPayload) -> (res: Result<(), Error>)
        ensures
            (final(self).spec_state(), res) == Self::spec_dl_channel_req(old(self).spec_state(), payload),
    ;

    /// Handle the CFList included in a JoinAccept packet from a network server to the end device.
    fn handle_cf_list(&mut self, cf_list: CfList) -> (res: Result<(), Error>)
        requires
            Self::spec_cf_list_ok(),
        ensures
            (final(self).spec_state(), res) == Self::spec_cf_list(old(self).spec_state(), cf_list),
    ;

    /// Does the uplink frequency exist in the channel plan?
    fn validate_frequency(&self, frequency: u32) -> (res: Result<(), Error>)
        ensures
            res == Self::spec_validate_frequency(self.spec_state(), frequency),
    ;

    /// Reactivate channels for ADR
    fn reactivate_channels(&mut self)
        ensures
            final(self).spec_state() == Self::spec_reactivated(old(self).spec_state()),
    ;
}

} // verus!
