//! Fixed channel plan processing.

use vstd::prelude::*;

use core::marker::PhantomData;

use super::dynamic::{block_indices, mask_group, new_channel_of, pick_channel, usable};
use super::{Channel, ChannelPlan, ChannelPlanState, MAX_CHANNELS, NUM_OF_CHANNELS_IN_BLOCK, NUM_OF_CHANNEL_BLOCKS};
use crate::channel_mask::ChannelMask;
use crate::encoding::maccommands::{DlChannelReqPayload, NewChannelReqPayload};
use crate::encoding::parser::CfList;
use crate::mac::region::{Error, Region};
use crate::mac::types::{Frame, DR};

verus! {

/// Composition of properties and functions needed to represent a fixed channel.
#[derive(Debug, Clone, Copy, PartialEq, Eq)]
pub struct FixedChannel {
    pub ul_frequency: u32,
    pub dl_frequency: u32,
    pub ul_data_rate_range: (DR, DR),
}

impl Channel for FixedChannel {
    open spec fn spec_ul_frequency(&self) -> u32 {
        self.ul_frequency
    }

    open spec fn spec_dl_frequency(&self) -> u32 {
        self.dl_frequency
    }

    open spec fn spec_ul_data_rate_range(&self) -> (DR, DR) {
        self.ul_data_rate_range
    }

    fn get_ul_frequency(&self) -> (res: u32) {
        self.ul_frequency
    }

    fn get_dl_frequency(&self) -> (res: u32) {
        self.dl_frequency
    }

    fn get_ul_data_rate_range(&self) -> (res: (DR, DR)) {
        self.ul_data_rate_range
    }
}

/// The mask that control value 6 (enabled) or 7 (disabled) makes: every channel but the
/// 500 kHz ones takes `enabled`; channels 64 to 79 take the mask's bits.
pub open spec fn mask_upper(channel_mask: ChannelMask, enabled: bool) -> Seq<bool> {
    Seq::new(
        MAX_CHANNELS as nat,
        |k: int|
            if 64 <= k < 80 {
                channel_mask.enabled((k - 64) as nat)
            } else {
                enabled
            },
    )
}

/// The mask that control value 5 makes: bit `i` of the mask enables or disables all
/// channels of channel block `i`.
pub open spec fn mask_blocks(channel_mask: ChannelMask) -> Seq<bool> {
    Seq::new(MAX_CHANNELS as nat, |k: int| channel_mask.enabled((k / 8) as nat))
}

/// The mask that a fixed CFList makes: channel `k` below 64 takes bit `k % 16` of mask
/// `k / 16`; the others keep `mask`.
pub open spec fn mask_cf_list(mask: Seq<bool>, masks: [ChannelMask; 4]) -> Seq<bool> {
    Seq::new(
        MAX_CHANNELS as nat,
        |k: int|
            if k < 64 {
                masks@[k / 16].enabled((k % 16) as nat)
            } else {
                mask[k]
            },
    )
}

/// A mask that enables the first `n` channels only.
pub open spec fn mask_first(n: int) -> Seq<bool> {
    Seq::new(MAX_CHANNELS as nat, |k: int| k < n)
}

/// Composition of properties and functions needed to control a fixed channel plan.
pub struct FixedChannelPlan<R: Region> {
    channels: [Option<FixedChannel>; MAX_CHANNELS],
    mask: [bool; MAX_CHANNELS],
    region: PhantomData<R>,
}

impl<R: Region> FixedChannelPlan<R> {
    /// The candidate channel indices of channel block `i`, in ascending order: the
    /// block's channels that exist and that the mask enables.
    fn block_candidates(&self, i: usize) -> (res: ([usize; NUM_OF_CHANNELS_IN_BLOCK], usize))
        requires
            i < NUM_OF_CHANNEL_BLOCKS,
        ensures
            ({
                let cands = block_indices(i as int).filter(usable(self.spec_state()));
                &&& res.1 == cands.len()
                &&& forall|k: int| 0 <= k < res.1 ==> #[trigger] res.0@[k] == cands[k]
                &&& forall|k: int| 0 <= k < res.1 ==> 0 <= #[trigger] cands[k] < MAX_CHANNELS
            }),
    {
        let mut ids: [usize; NUM_OF_CHANNELS_IN_BLOCK] = [0; NUM_OF_CHANNELS_IN_BLOCK];
        let mut count: usize = 0;
        let ghost st = self.spec_state();
        let ghost f = |j: int| (i as int) * NUM_OF_CHANNELS_IN_BLOCK + j;
        let mut j: usize = 0;
        while j < NUM_OF_CHANNELS_IN_BLOCK
            invariant
                i < NUM_OF_CHANNEL_BLOCKS,
                st == self.spec_state(),
                f == (|j: int| (i as int) * NUM_OF_CHANNELS_IN_BLOCK + j),
                j <= NUM_OF_CHANNELS_IN_BLOCK,
                count == Seq::new(j as nat, f).filter(usable(st)).len(),
                forall|k: int| 0 <= k < count ==> #[trigger] ids@[k] == Seq::new(j as nat, f).filter(usable(st))[k],
                forall|k: int| 0 <= k < count ==> 0 <= #[trigger] Seq::new(j as nat, f).filter(usable(st))[k] < i * 8 + j,
            decreases NUM_OF_CHANNELS_IN_BLOCK - j,
        {
            let channel_index: usize = (i * NUM_OF_CHANNELS_IN_BLOCK) + j;
            proof {
                assert(Seq::new((j + 1) as nat, f) =~= Seq::new(j as nat, f).push(f(j as int)));
                Seq::new(j as nat, f).lemma_filter_push(f(j as int), usable(st));
                Seq::new(j as nat, f).lemma_filter_len(usable(st));
            }
            if self.channels[channel_index].is_some() && self.mask[channel_index] {
                ids[count] = channel_index;
                count = count + 1;
            }
            j = j + 1;
        }
        proof {
            assert(Seq::new(NUM_OF_CHANNELS_IN_BLOCK as nat, f) =~= block_indices(i as int));
        }
        (ids, count)
    }

    /// Whether channel block `i` is enabled by the 16-bit little-endian value of a mask.
    fn block_enabled(channel_mask_be: u16, i: usize, channel_mask: ChannelMask) -> (res: bool)
        requires
            i < NUM_OF_CHANNEL_BLOCKS,
            channel_mask_be == channel_mask.bytes()[0] + 256 * channel_mask.bytes()[1],
        ensures
            res == channel_mask.enabled(i as nat),
    {
        proof {
            channel_mask.lemma_bytes_len();
        }
        let ghost b0 = channel_mask.bytes()[0];
        let ghost b1 = channel_mask.bytes()[1];
        let s: u16 = i as u16;
        let r = channel_mask_be & (1u16 << s) != 0;
        if i < 8 {
            assert(r == ((b0 >> s) & 1 == 1)) by (bit_vector)
                requires
                    s < 8,
                    channel_mask_be == b0 + 256 * b1,
                    r == (channel_mask_be & (1u16 << s) != 0),
            ;
        } else {
            let ghost t: u16 = (s - 8) as u16;
            assert(r == ((b1 >> t) & 1 == 1)) by (bit_vector)
                requires
                    8 <= s < 16,
                    t == s - 8,
                    channel_mask_be == b0 + 256 * b1,
                    r == (channel_mask_be & (1u16 << s) != 0),
            ;
        }
        r
    }
}

impl<R: Region> ChannelPlan<R> for FixedChannelPlan<R> {
    type Channel = FixedChannel;

    closed spec fn spec_state(&self) -> ChannelPlanState<FixedChannel> {
        ChannelPlanState { channels: self.channels@, mask: self.mask@ }
    }

    proof fn lemma_state_len(&self) {
    }

    open spec fn spec_initial() -> ChannelPlanState<FixedChannel> {
        ChannelPlanState {
            channels: Seq::new(
                MAX_CHANNELS as nat,
                |k: int|
                    if k < R::spec_default_channels(true) {
                        Some(
                            FixedChannel {
                                ul_frequency: R::spec_mandatory_frequency(k as usize, true),
                                dl_frequency: R::spec_mandatory_frequency(
                                    (k % R::spec_default_channels(false) as int) as usize,
                                    false,
                                ),
                                ul_data_rate_range: R::spec_mandatory_ul_data_rate_range(k as usize),
                            },
                        )
                    } else {
                        None
                    },
            ),
            mask: mask_first(R::spec_default_channels(true) as int),
        }
    }

    open spec fn spec_random_channels_ok(frame: Frame) -> bool {
        true
    }

    open spec fn spec_random_channel(
        s: ChannelPlanState<FixedChannel>,
        randoms: Seq<u32>,
        frame: Frame,
        block: int,
    ) -> Option<FixedChannel> {
        pick_channel(s.channels, block_indices(block).filter(usable(s)), randoms[block])
    }

    open spec fn spec_new_channel_req(s: ChannelPlanState<FixedChannel>, payload: NewChannelReqPayload) -> (
        ChannelPlanState<FixedChannel>,
        Result<(), Error>,
    ) {
        let index = payload.bytes()[0];
        if index < MAX_CHANNELS {
            let (f, range) = new_channel_of(payload);
            (
                ChannelPlanState {
                    channels: s.channels.update(
                        index as int,
                        Some(FixedChannel { ul_frequency: f, dl_frequency: f, ul_data_rate_range: range }),
                    ),
                    ..s
                },
                Ok(()),
            )
        } else {
            (s, Err(Error::InvalidChannelIndex))
        }
    }

    open spec fn spec_uplink_frequency_exists(s: ChannelPlanState<FixedChannel>, index: usize) -> bool {
        index < MAX_CHANNELS && s.channels[index as int] is Some
    }

    open spec fn spec_channel_mask_ctrl_ok(ctrl: u8) -> bool {
        true
    }

    open spec fn spec_channel_mask(new_mask: Seq<bool>, channel_mask: ChannelMask, ctrl: u8) -> Result<Seq<bool>, Error> {
        if ctrl <= 4 {
            Ok(mask_group(new_mask, channel_mask, ctrl))
        } else if ctrl == 5 {
            Ok(mask_blocks(channel_mask))
        } else if ctrl == 6 {
            Ok(mask_upper(channel_mask, true))
        } else if ctrl == 7 {
            Ok(mask_upper(channel_mask, false))
        } else {
            Err(Error::InvalidChannelMaskCtrl)
        }
    }

    open spec fn spec_dl_channel_req(s: ChannelPlanState<FixedChannel>, payload: DlChannelReqPayload) -> (
        ChannelPlanState<FixedChannel>,
        Result<(), Error>,
    ) {
        (s, Err(Error::CommandNotImplementedForRegion))
    }

    open spec fn spec_cf_list_ok() -> bool {
        true
    }

    open spec fn spec_cf_list(s: ChannelPlanState<FixedChannel>, cf_list: CfList) -> (
        ChannelPlanState<FixedChannel>,
        Result<(), Error>,
    ) {
        match cf_list {
            CfList::FixedChannel(masks) => (ChannelPlanState { mask: mask_cf_list(s.mask, masks), ..s }, Ok(())),
            CfList::DynamicChannel(_) => (s, Err(Error::InvalidCfListType)),
        }
    }

    open spec fn spec_validate_frequency(s: ChannelPlanState<FixedChannel>, frequency: u32) -> Result<(), Error> {
        Err(Error::CommandNotImplementedForRegion)
    }

    open spec fn spec_reactivated(s: ChannelPlanState<FixedChannel>) -> ChannelPlanState<FixedChannel> {
        ChannelPlanState { mask: mask_first(R::spec_default_channels(true) as int), ..s }
    }

    fn channel_mask_ctrl_supported(_ctrl: u8) -> (res: bool) {
        true
    }

    fn random_channels_supported(_frame: Frame) -> (res: bool) {
        true
    }

    fn cf_list_supported() -> (res: bool) {
        true
    }

    fn initial() -> (res: Self) {
        let mut channels: [Option<FixedChannel>; MAX_CHANNELS] = [None; MAX_CHANNELS];
        let mut mask: [bool; MAX_CHANNELS] = [false; MAX_CHANNELS];
        let n = R::default_channels(true);
        let n_dl = R::default_channels(false);
        proof {
            R::lemma_default_channels();
        }
        let mut index: usize = 0;
        while index < n
            invariant
                n == R::spec_default_channels(true),
                n_dl == R::spec_default_channels(false),
                1 <= n_dl <= n <= MAX_CHANNELS,
                index <= n,
                forall|k: int|
                    0 <= k < MAX_CHANNELS ==> #[trigger] channels@[k] == if k < index {
                        Self::spec_initial().channels[k]
                    } else {
                        None
                    },
                forall|k: int| 0 <= k < MAX_CHANNELS ==> #[trigger] mask@[k] == (k < index),
            decreases n - index,
        {
            channels[index] = Some(
                FixedChannel {
                    ul_frequency: R::mandatory_frequency(index, true),
                    dl_frequency: R::mandatory_frequency(index % n_dl, false),
                    ul_data_rate_range: R::mandatory_ul_data_rate_range(index),
                },
            );
            mask[index] = true;
            index = index + 1;
        }
        let res = Self { channels, mask, region: PhantomData };
        assert(res.spec_state() =~= Self::spec_initial());
        res
    }

    fn get_random_channels_from_blocks(&self, channel_block_randoms: [u32; NUM_OF_CHANNEL_BLOCKS], _frame: Frame) -> (res:
        Result<[Option<FixedChannel>; NUM_OF_CHANNEL_BLOCKS], Error>) {
        let mut random_channels: [Option<FixedChannel>; NUM_OF_CHANNEL_BLOCKS] = [None; NUM_OF_CHANNEL_BLOCKS];
        let mut i: usize = 0;
        while i < NUM_OF_CHANNEL_BLOCKS
            invariant
                i <= NUM_OF_CHANNEL_BLOCKS,
                forall|b: int|
                    0 <= b < NUM_OF_CHANNEL_BLOCKS ==> #[trigger] random_channels@[b] == if b < i {
                        Self::spec_random_channel(self.spec_state(), channel_block_randoms@, _frame, b)
                    } else {
                        None
                    },
            decreases NUM_OF_CHANNEL_BLOCKS - i,
        {
            let (ids, count) = self.block_candidates(i);
            if count > 0 {
                let random = channel_block_randoms[i] % (count as u32);
                let channel_id = ids[random as usize];
                random_channels[i] = self.channels[channel_id];
            }
            i = i + 1;
        }
        Ok(random_channels)
    }

    fn handle_new_channel_req(&mut self, payload: NewChannelReqPayload) -> (res: Result<(), Error>) {
        let index = payload.channel_index() as usize;
        if index < MAX_CHANNELS {
            let freq = payload.frequency();
            let frequency = freq.value();
            let range = payload.data_rate_range();
            let min = DR::try_from(range.min_data_rate());
            let max = DR::try_from(range.max_data_rate());
            match (min, max) {
                (Ok(min), Ok(max)) => {
                    proof {
                        crate::mac::types::lemma_dr_from(0, min);
                        crate::mac::types::lemma_dr_from(0, max);
                        let b = payload.bytes();
                        let fb = freq.bytes();
                        payload.lemma_bytes_len();
                        assert(fb[0] == b[1] && fb[1] == b[2] && fb[2] == b[3]);
                    }
                    self.channels[index] = Some(
                        FixedChannel { ul_frequency: frequency, dl_frequency: frequency, ul_data_rate_range: (min, max) },
                    );
                    assert(self.spec_state() =~= Self::spec_new_channel_req(old(self).spec_state(), payload).0);
                    Ok(())
                },
                _ => Err(Error::InvalidChannelIndex),
            }
        } else {
            Err(Error::InvalidChannelIndex)
        }
    }

    fn check_uplink_frequency_exists(&self, index: usize) -> (res: bool) {
        if index < MAX_CHANNELS {
            return self.channels[index].is_some();
        }
        false
    }

    fn handle_channel_mask(&mut self, new_mask: &mut [bool; MAX_CHANNELS], channel_mask: ChannelMask, channel_mask_ctrl: u8) -> (res:
        Result<(), Error>) {
        if channel_mask_ctrl <= 4 {
            let base: usize = (channel_mask_ctrl as usize) * 16;
            let mut i: usize = 0;
            while i < 16
                invariant
                    base == channel_mask_ctrl * 16,
                    channel_mask_ctrl <= 4,
                    i <= 16,
                    forall|k: int|
                        0 <= k < MAX_CHANNELS ==> #[trigger] new_mask@[k] == if base <= k < base + i {
                            channel_mask.enabled((k - base) as nat)
                        } else {
                            old(new_mask)@[k]
                        },
                decreases 16 - i,
            {
                let index = i + base;
                match channel_mask.is_enabled(i) {
                    Ok(b) => {
                        new_mask[index] = b;
                    },
                    Err(_) => {},
                }
                i = i + 1;
            }
            assert(new_mask@ =~= mask_group(old(new_mask)@, channel_mask, channel_mask_ctrl));
            Ok(())
        } else if channel_mask_ctrl == 5 {
            // This algorithm does not implement the modification of single 500 KHz channels
            // for bits 0 through 7, since processing of bit 8 affects the entire 500 KHz channel block.
            // Until further evidence, the regional specification for fixed channels is taken to need clarification.
            let bytes = channel_mask.as_bytes();
            let channel_mask_be: u16 = (bytes[0] as u16) + (bytes[1] as u16) * 256;
            let mut i: usize = 0;
            while i < NUM_OF_CHANNEL_BLOCKS
                invariant
                    i <= NUM_OF_CHANNEL_BLOCKS,
                    channel_mask_be == channel_mask.bytes()[0] + 256 * channel_mask.bytes()[1],
                    forall|k: int|
                        0 <= k < MAX_CHANNELS ==> #[trigger] new_mask@[k] == if k < i * 8 {
                            channel_mask.enabled((k / 8) as nat)
                        } else {
                            old(new_mask)@[k]
                        },
                decreases NUM_OF_CHANNEL_BLOCKS - i,
            {
                let is_channel_block_enabled = Self::block_enabled(channel_mask_be, i, channel_mask);
                let mut j: usize = 0;
                while j < NUM_OF_CHANNELS_IN_BLOCK
                    invariant
                        i < NUM_OF_CHANNEL_BLOCKS,
                        j <= NUM_OF_CHANNELS_IN_BLOCK,
                        is_channel_block_enabled == channel_mask.enabled(i as nat),
                        forall|k: int|
                            0 <= k < MAX_CHANNELS ==> #[trigger] new_mask@[k] == if k < i * 8 + j {
                                channel_mask.enabled((k / 8) as nat)
                            } else {
                                old(new_mask)@[k]
                            },
                    decreases NUM_OF_CHANNELS_IN_BLOCK - j,
                {
                    new_mask[(i * NUM_OF_CHANNELS_IN_BLOCK) + j] = is_channel_block_enabled;
                    j = j + 1;
                }
                i = i + 1;
            }
            assert(new_mask@ =~= mask_blocks(channel_mask));
            Ok(())
        } else if channel_mask_ctrl == 6 || channel_mask_ctrl == 7 {
            let fill = channel_mask_ctrl == 6;
            let mut k: usize = 0;
            while k < MAX_CHANNELS
                invariant
                    k <= MAX_CHANNELS,
                    forall|j: int| 0 <= j < k ==> #[trigger] new_mask@[j] == fill,
                decreases MAX_CHANNELS - k,
            {
                new_mask[k] = fill;
                k = k + 1;
            }
            let mut i: usize = 0;
            while i < 16
                invariant
                    i <= 16,
                    forall|k: int|
                        0 <= k < MAX_CHANNELS ==> #[trigger] new_mask@[k] == if 64 <= k < 64 + i {
                            channel_mask.enabled((k - 64) as nat)
                        } else {
                            fill
                        },
                decreases 16 - i,
            {
                let index = i + 64;
                match channel_mask.is_enabled(i) {
                    Ok(b) => {
                        new_mask[index] = b;
                    },
                    Err(_) => {},
                }
                i = i + 1;
            }
            assert(new_mask@ =~= mask_upper(channel_mask, fill));
            Ok(())
        } else {
            Err(Error::InvalidChannelMaskCtrl)
        }
    }

    fn get_channel_mask(&self) -> (res: [bool; MAX_CHANNELS]) {
        self.mask
    }

    fn set_channel_mask(&mut self, mask: [bool; MAX_CHANNELS]) -> (res: Result<(), Error>) {
        self.mask = mask;
        Ok(())
    }

    fn handle_dl_channel_req(&mut self, _payload: DlChannelReqPayload) -> (res: Result<(), Error>) {
        Err(Error::CommandNotImplementedForRegion)
    }

    fn handle_cf_list(&mut self, cf_list: CfList) -> (res: Result<(), Error>) {
        match cf_list {
            CfList::FixedChannel(masks) => {
                let ghost old_mask = self.mask@;
                let mut index: usize = 0;
                while index < 64
                    invariant
                        index <= 64,
                        self.channels@ == old(self).channels@,
                        forall|k: int|
                            0 <= k < MAX_CHANNELS ==> #[trigger] self.mask@[k] == if k < index {
                                masks@[k / 16].enabled((k % 16) as nat)
                            } else {
                                old_mask[k]
                            },
                    decreases 64 - index,
                {
                    match masks[index / 16].is_enabled(index % 16) {
                        Ok(b) => {
                            self.mask[index] = b;
                        },
                        Err(_) => {},
                    }
                    index = index + 1;
                }
                assert(self.spec_state() =~= Self::spec_cf_list(old(self).spec_state(), cf_list).0);
                Ok(())
            },
            CfList::DynamicChannel(_) => Err(Error::InvalidCfListType),
        }
    }

    fn validate_frequency(&self, _frequency: u32) -> (res: Result<(), Error>) {
        // Possibly the validation done here should only be to check that the frequency is within min/max limits.  It seems to
        // be mostly called to validate downlink frequencies, and some MAC commands using it are inapplicable to fixed channel plans.
        Err(Error::CommandNotImplementedForRegion)
    }

    fn reactivate_channels(&mut self) {
        // Set all default channels to active.
        let n = R::default_channels(true);
        self.mask = [false; MAX_CHANNELS];
        let mut index: usize = 0;
        while index < n
            invariant
                n == R::spec_default_channels(true),
                n <= MAX_CHANNELS,
                index <= n,
                self.channels@ == old(self).channels@,
                forall|k: int| 0 <= k < MAX_CHANNELS ==> #[trigger] self.mask@[k] == (k < index),
            decreases n - index,
        {
            self.mask[index] = true;
            index = index + 1;
        }
        assert(self.spec_state() =~= Self::spec_reactivated(old(self).spec_state()));
    }
}

impl<R: Region> Default for FixedChannelPlan<R> {
    fn default() -> (res: Self)
        ensures
            res.spec_state() == Self::spec_initial(),
    {
        Self::initial()
    }
}

} // verus!
