//! Dynamic channel plan processing.

use vstd::prelude::*;

use core::marker::PhantomData;

use super::fixed::FixedChannel;
use super::{Channel, ChannelPlan, ChannelPlanState, MAX_CHANNELS, NUM_OF_CHANNELS_IN_BLOCK, NUM_OF_CHANNEL_BLOCKS};
use crate::channel_mask::ChannelMask;
use crate::encoding::maccommands::{DlChannelReqPayload, NewChannelReqPayload};
use crate::encoding::parser::CfList;
use crate::frequency::steps_of;
use crate::mac::region::{Error, Region};
use crate::mac::types::{dr_from, Frame, DR};

verus! {

/// A channel of a dynamic channel plan.
#[derive(Debug, Clone, Copy, PartialEq, Eq)]
pub struct DynamicChannel {
    pub ul_frequency: u32,
    pub dl_frequency: u32,
    pub ul_data_rate_range: (DR, DR),
}

impl Channel for DynamicChannel {
    open spec fn spec_ul_frequency(&self) -> u32 {
        self.ul_frequency
    }

    open spec fn spec_dl_frequency(&self) -> u32 {
        self.dl_frequency
    }

    open spec fn spec_ul_data_rate_range(&self) -> (DR, DR) {
        self.ul_data_rate_range
    }

    fn get_ul_frequency(&self) -> (res: u32) {
        self.ul_frequency
    }

    fn get_dl_frequency(&self) -> (res: u32) {
        self.dl_frequency
    }

    fn get_ul_data_rate_range(&self) -> (res: (DR, DR)) {
        self.ul_data_rate_range
    }
}

/// The frequency in Hz of bytes `i..i + 3` of a MAC command payload.
pub open spec fn payload_frequency(b: Seq<u8>, i: int) -> u32 {
    (steps_of(b[i], b[i + 1], b[i + 2]) * 100) as u32
}

/// The channel that a NewChannelReq describes: its frequency for both directions, and
/// the data rates of its data rate range.
pub open spec fn new_channel_of(p: NewChannelReqPayload) -> (u32, (DR, DR)) {
    (payload_frequency(p.bytes(), 1), (dr_from((p.bytes()[4] % 16) as int), dr_from((p.bytes()[4] / 16) as int)))
}

/// The channel indices of channel block `block`.
pub open spec fn block_indices(block: int) -> Seq<int> {
    Seq::new(NUM_OF_CHANNELS_IN_BLOCK as nat, |j: int| block * NUM_OF_CHANNELS_IN_BLOCK + j)
}

/// Whether a channel index holds a channel that the mask enables.
pub open spec fn usable<Ch>(s: ChannelPlanState<Ch>) -> spec_fn(int) -> bool {
    |idx: int| s.channels[idx] is Some && s.mask[idx]
}

/// The channel that `random` picks from the candidate indices `cands`, if there is one.
pub open spec fn pick_channel<Ch>(channels: Seq<Option<Ch>>, cands: Seq<int>, random: u32) -> Option<Ch> {
    if cands.len() > 0 {
        channels[cands[random as int % cands.len() as int]]
    } else {
        None
    }
}

/// The mask that a LinkADRReq's mask and control value 0 to 4 make of `new_mask`: the
/// sixteen channels of the addressed group take the mask's bits.
pub open spec fn mask_group(new_mask: Seq<bool>, channel_mask: ChannelMask, ctrl: u8) -> Seq<bool> {
    Seq::new(
        MAX_CHANNELS as nat,
        |k: int|
            if ctrl * 16 <= k < ctrl * 16 + 16 {
                channel_mask.enabled((k - ctrl * 16) as nat)
            } else {
                new_mask[k]
            },
    )
}

/// Whether a channel is there and has the uplink frequency `f`.
pub open spec fn has_ul_frequency(c: Option<DynamicChannel>, f: u32) -> bool {
    c matches Some(ch) && ch.ul_frequency == f
}

/// A mask that enables or disables every channel.
pub open spec fn mask_all(enabled: bool) -> Seq<bool> {
    Seq::new(MAX_CHANNELS as nat, |k: int| enabled)
}

/// Channel plan of a region whose channels the network server can add and change.
pub struct DynamicChannelPlan<R: Region> {
    channels: [Option<DynamicChannel>; MAX_CHANNELS],
    mask: [bool; MAX_CHANNELS],
    region: PhantomData<R>,
}

impl<R: Region> DynamicChannelPlan<R> {
    /// The candidate channel indices of channel block `i`, in ascending order: for a
    /// join in the first block the region's default channels, else the block's channels
    /// that exist and that the mask enables.
    fn block_candidates(&self, i: usize, frame: Frame) -> (res: ([usize; NUM_OF_CHANNELS_IN_BLOCK], usize))
        requires
            i < NUM_OF_CHANNEL_BLOCKS,
            Self::spec_random_channels_ok(frame),
        ensures
            ({
                let cands = Self::candidates(self.spec_state(), frame, i as int);
                &&& res.1 == cands.len()
                &&& forall|k: int| 0 <= k < res.1 ==> #[trigger] res.0@[k] == cands[k]
                &&& forall|k: int| 0 <= k < res.1 ==> 0 <= #[trigger] cands[k] < MAX_CHANNELS
            }),
    {
        let mut ids: [usize; NUM_OF_CHANNELS_IN_BLOCK] = [0; NUM_OF_CHANNELS_IN_BLOCK];
        let mut count: usize = 0;
        if i == 0 && frame == Frame::Join {
            let n = R::default_channels(true);
            let mut j: usize = 0;
            while j < n
                invariant
                    n == R::spec_default_channels(true),
                    n <= NUM_OF_CHANNELS_IN_BLOCK,
                    j <= n,
                    count == j,
                    forall|k: int| 0 <= k < j ==> #[trigger] ids@[k] == k,
                decreases n - j,
            {
                ids[count] = j;
                count = count + 1;
                j = j + 1;
            }
        } else {
            let ghost st = self.spec_state();
            let ghost f = |j: int| (i as int) * NUM_OF_CHANNELS_IN_BLOCK + j;
            let mut j: usize = 0;
            while j < NUM_OF_CHANNELS_IN_BLOCK
                invariant
                    i < NUM_OF_CHANNEL_BLOCKS,
                    st == self.spec_state(),
                    f == (|j: int| (i as int) * NUM_OF_CHANNELS_IN_BLOCK + j),
                    j <= NUM_OF_CHANNELS_IN_BLOCK,
                    count == Seq::new(j as nat, f).filter(usable(st)).len(),
                    forall|k: int| 0 <= k < count ==> #[trigger] ids@[k] == Seq::new(j as nat, f).filter(usable(st))[k],
                    forall|k: int| 0 <= k < count ==> 0 <= #[trigger] Seq::new(j as nat, f).filter(usable(st))[k] < i * 8 + j,
                decreases NUM_OF_CHANNELS_IN_BLOCK - j,
            {
                let channel_index: usize = (i * NUM_OF_CHANNELS_IN_BLOCK) + j;
                proof {
                    assert(Seq::new((j + 1) as nat, f) =~= Seq::new(j as nat, f).push(f(j as int)));
                    Seq::new(j as nat, f).lemma_filter_push(f(j as int), usable(st));
                    Seq::new(j as nat, f).lemma_filter_len(usable(st));
                }
                if self.channels[channel_index].is_some() && self.mask[channel_index] {
                    ids[count] = channel_index;
                    count = count + 1;
                }
                j = j + 1;
            }
            proof {
                assert(Seq::new(NUM_OF_CHANNELS_IN_BLOCK as nat, f) =~= block_indices(i as int));
            }
        }
        (ids, count)
    }

    /// The candidate channel indices of channel block `block`.
    pub open spec fn candidates(s: ChannelPlanState<DynamicChannel>, frame: Frame, block: int) -> Seq<int> {
        if block == 0 && frame == Frame::Join {
            Seq::new(R::spec_default_channels(true) as nat, |j: int| j)
        } else {
            block_indices(block).filter(usable(s))
        }
    }
}

impl<R: Region> ChannelPlan<R> for DynamicChannelPlan<R> {
    type Channel = DynamicChannel;

    closed spec fn spec_state(&self) -> ChannelPlanState<DynamicChannel> {
        ChannelPlanState { channels: self.channels@, mask: self.mask@ }
    }

    proof fn lemma_state_len(&self) {
    }

    open spec fn spec_initial() -> ChannelPlanState<DynamicChannel> {
        ChannelPlanState {
            channels: Seq::new(
                MAX_CHANNELS as nat,
                |k: int|
                    if k < R::spec_default_channels(true) {
                        Some(
                            DynamicChannel {
                                ul_frequency: R::spec_mandatory_frequency(k as usize, true),
                                dl_frequency: R::spec_mandatory_frequency(k as usize, false),
                                ul_data_rate_range: R::spec_mandatory_ul_data_rate_range(k as usize),
                            },
                        )
                    } else {
                        None
                    },
            ),
            mask: mask_all(true),
        }
    }

    open spec fn spec_random_channels_ok(frame: Frame) -> bool {
        frame == Frame::Join ==> R::spec_default_channels(true) <= NUM_OF_CHANNELS_IN_BLOCK
    }

    open spec fn spec_random_channel(
        s: ChannelPlanState<DynamicChannel>,
        randoms: Seq<u32>,
        frame: Frame,
        block: int,
    ) -> Option<DynamicChannel> {
        pick_channel(s.channels, Self::candidates(s, frame, block), randoms[block])
    }

    open spec fn spec_new_channel_req(s: ChannelPlanState<DynamicChannel>, payload: NewChannelReqPayload) -> (
        ChannelPlanState<DynamicChannel>,
        Result<(), Error>,
    ) {
        let index = payload.bytes()[0];
        if index < MAX_CHANNELS {
            let (f, range) = new_channel_of(payload);
            (
                ChannelPlanState {
                    channels: s.channels.update(
                        index as int,
                        Some(DynamicChannel { ul_frequency: f, dl_frequency: f, ul_data_rate_range: range }),
                    ),
                    ..s
                },
                Ok(()),
            )
        } else {
            (s, Err(Error::InvalidChannelIndex))
        }
    }

    open spec fn spec_uplink_frequency_exists(s: ChannelPlanState<DynamicChannel>, index: usize) -> bool {
        index < MAX_CHANNELS && s.channels[index as int] is Some
    }

    open spec fn spec_channel_mask_ctrl_ok(ctrl: u8) -> bool {
        ctrl != 5
    }

    open spec fn spec_channel_mask(new_mask: Seq<bool>, channel_mask: ChannelMask, ctrl: u8) -> Result<Seq<bool>, Error> {
        if ctrl <= 4 {
            Ok(mask_group(new_mask, channel_mask, ctrl))
        } else if ctrl == 6 {
            Ok(mask_all(true))
        } else {
            Err(Error::InvalidChannelMaskCtrl)
        }
    }

    open spec fn spec_dl_channel_req(s: ChannelPlanState<DynamicChannel>, payload: DlChannelReqPayload) -> (
        ChannelPlanState<DynamicChannel>,
        Result<(), Error>,
    ) {
        let index = payload.bytes()[0];
        if index < MAX_CHANNELS && s.channels[index as int] is Some {
            let c = s.channels[index as int]->0;
            (
                ChannelPlanState {
                    channels: s.channels.update(
                        index as int,
                        Some(DynamicChannel { dl_frequency: payload_frequency(payload.bytes(), 1), ..c }),
                    ),
                    ..s
                },
                Ok(()),
            )
        } else {
            (s, Err(Error::InvalidChannelIndex))
        }
    }

    open spec fn spec_cf_list_ok() -> bool {
        R::spec_default_channels(true) + 5 <= MAX_CHANNELS
    }

    open spec fn spec_cf_list(s: ChannelPlanState<DynamicChannel>, cf_list: CfList) -> (
        ChannelPlanState<DynamicChannel>,
        Result<(), Error>,
    ) {
        match cf_list {
            CfList::DynamicChannel(fs) => {
                let d = R::spec_default_channels(true) as int;
                (
                    ChannelPlanState {
                        channels: Seq::new(
                            MAX_CHANNELS as nat,
                            |k: int|
                                if d <= k < d + 5 {
                                    Some(
                                        DynamicChannel {
                                            ul_frequency: fs@[k - d].spec_value() as u32,
                                            dl_frequency: fs@[k - d].spec_value() as u32,
                                            ul_data_rate_range: R::spec_ul_data_rate_range(),
                                        },
                                    )
                                } else {
                                    s.channels[k]
                                },
                        ),
                        ..s
                    },
                    Ok(()),
                )
            },
            CfList::FixedChannel(_) => (s, Err(Error::InvalidCfListType)),
        }
    }

    open spec fn spec_validate_frequency(s: ChannelPlanState<DynamicChannel>, frequency: u32) -> Result<(), Error> {
        if exists|k: int| 0 <= k < MAX_CHANNELS && #[trigger] has_ul_frequency(s.channels[k], frequency) {
            Ok(())
        } else {
            Err(Error::InvalidFrequency)
        }
    }

    open spec fn spec_reactivated(s: ChannelPlanState<DynamicChannel>) -> ChannelPlanState<DynamicChannel> {
        ChannelPlanState { mask: mask_all(true), ..s }
    }

    fn channel_mask_ctrl_supported(ctrl: u8) -> (res: bool) {
        ctrl != 5
    }

    fn random_channels_supported(frame: Frame) -> (res: bool) {
        match frame {
            Frame::Join => R::default_channels(true) <= NUM_OF_CHANNELS_IN_BLOCK,
            Frame::Data => true,
        }
    }

    fn cf_list_supported() -> (res: bool) {
        R::default_channels(true) + 5 <= MAX_CHANNELS
    }

    fn initial() -> (res: Self) {
        let mut channels: [Option<DynamicChannel>; MAX_CHANNELS] = [None; MAX_CHANNELS];
        let n = R::default_channels(true);
        let mut index: usize = 0;
        while index < n
            invariant
                n == R::spec_default_channels(true),
                n <= MAX_CHANNELS,
                index <= n,
                forall|k: int|
                    0 <= k < MAX_CHANNELS ==> #[trigger] channels@[k] == if k < index {
                        Self::spec_initial().channels[k]
                    } else {
                        None
                    },
            decreases n - index,
        {
            channels[index] = Some(
                DynamicChannel {
                    ul_frequency: R::mandatory_frequency(index, true),
                    dl_frequency: R::mandatory_frequency(index, false),
                    ul_data_rate_range: R::mandatory_ul_data_rate_range(index),
                },
            );
            index = index + 1;
        }
        let res = Self { channels, mask: [true; MAX_CHANNELS], region: PhantomData };
        assert(res.spec_state() =~= Self::spec_initial());
        res
    }

    fn get_random_channels_from_blocks(&self, channel_block_randoms: [u32; NUM_OF_CHANNEL_BLOCKS], frame: Frame) -> (res:
        Result<[Option<DynamicChannel>; NUM_OF_CHANNEL_BLOCKS], Error>) {
        let mut random_channels: [Option<DynamicChannel>; NUM_OF_CHANNEL_BLOCKS] = [None; NUM_OF_CHANNEL_BLOCKS];
        let mut i: usize = 0;
        while i < NUM_OF_CHANNEL_BLOCKS
            invariant
                i <= NUM_OF_CHANNEL_BLOCKS,
                Self::spec_random_channels_ok(frame),
                forall|b: int|
                    0 <= b < NUM_OF_CHANNEL_BLOCKS ==> #[trigger] random_channels@[b] == if b < i {
                        Self::spec_random_channel(self.spec_state(), channel_block_randoms@, frame, b)
                    } else {
                        None
                    },
            decreases NUM_OF_CHANNEL_BLOCKS - i,
        {
            let (ids, count) = self.block_candidates(i, frame);
            if count > 0 {
                let random = channel_block_randoms[i] % (count as u32);
                let channel_id = ids[random as usize];
                random_channels[i] = self.channels[channel_id];
            }
            i = i + 1;
        }
        Ok(random_channels)
    }

    fn handle_new_channel_req(&mut self, payload: NewChannelReqPayload) -> (res: Result<(), Error>) {
        let index = payload.channel_index() as usize;
        if index < MAX_CHANNELS {
            let freq = payload.frequency();
            let frequency = freq.value();
            let range = payload.data_rate_range();
            let min = DR::try_from(range.min_data_rate());
            let max = DR::try_from(range.max_data_rate());
            match (min, max) {
                (Ok(min), Ok(max)) => {
                    proof {
                        crate::mac::types::lemma_dr_from(0, min);
                        crate::mac::types::lemma_dr_from(0, max);
                    }
                    proof {
                        let b = payload.bytes();
                        let fb = freq.bytes();
                        payload.lemma_bytes_len();
                        assert(fb[0] == b[1] && fb[1] == b[2] && fb[2] == b[3]);
                        assert(frequency == payload_frequency(b, 1));
                        assert((min, max) == new_channel_of(payload).1);
                    }
                    self.channels[index] = Some(
                        DynamicChannel { ul_frequency: frequency, dl_frequency: frequency, ul_data_rate_range: (min, max) },
                    );
                    assert(self.spec_state() =~= Self::spec_new_channel_req(old(self).spec_state(), payload).0);
                    Ok(())
                },
                _ => Err(Error::InvalidChannelIndex),
            }
        } else {
            Err(Error::InvalidChannelIndex)
        }
    }

    fn check_uplink_frequency_exists(&self, index: usize) -> (res: bool) {
        if index < MAX_CHANNELS {
            return self.channels[index].is_some();
        }
        false
    }

    fn handle_channel_mask(&mut self, new_mask: &mut [bool; MAX_CHANNELS], channel_mask: ChannelMask, channel_mask_ctrl: u8) -> (res:
        Result<(), Error>) {
        if channel_mask_ctrl <= 4 {
            let base: usize = (channel_mask_ctrl as usize) * 16;
            let mut i: usize = 0;
            while i < 16
                invariant
                    base == channel_mask_ctrl * 16,
                    channel_mask_ctrl <= 4,
                    i <= 16,
                    forall|k: int|
                        0 <= k < MAX_CHANNELS ==> #[trigger] new_mask@[k] == if base <= k < base + i {
                            channel_mask.enabled((k - base) as nat)
                        } else {
                            old(new_mask)@[k]
                        },
                decreases 16 - i,
            {
                let index = i + base;
                match channel_mask.is_enabled(i) {
                    Ok(b) => {
                        new_mask[index] = b;
                    },
                    Err(_) => {},
                }
                i = i + 1;
            }
            assert(new_mask@ =~= mask_group(old(new_mask)@, channel_mask, channel_mask_ctrl));
            Ok(())
        } else if channel_mask_ctrl == 6 {
            let mut k: usize = 0;
            while k < MAX_CHANNELS
                invariant
                    k <= MAX_CHANNELS,
                    forall|j: int| 0 <= j < k ==> #[trigger] new_mask@[j],
                decreases MAX_CHANNELS - k,
            {
                new_mask[k] = true;
                k = k + 1;
            }
            assert(new_mask@ =~= mask_all(true));
            Ok(())
        } else {
            Err(Error::InvalidChannelMaskCtrl)
        }
    }

    fn get_channel_mask(&self) -> (res: [bool; MAX_CHANNELS]) {
        self.mask
    }

    fn set_channel_mask(&mut self, mask: [bool; MAX_CHANNELS]) -> (res: Result<(), Error>) {
        self.mask = mask;
        Ok(())
    }

    fn handle_dl_channel_req(&mut self, payload: DlChannelReqPayload) -> (res: Result<(), Error>) {
        let index = payload.channel_index() as usize;
        if index < MAX_CHANNELS {
            if let Some(channel) = self.channels[index] {
                let freq = payload.frequency();
                let frequency = freq.value();
                proof {
                    let b = payload.bytes();
                    let fb = freq.bytes();
                    payload.lemma_bytes_len();
                    assert(fb[0] == b[1] && fb[1] == b[2] && fb[2] == b[3]);
                    assert(frequency == payload_frequency(b, 1));
                }
                self.channels[index] = Some(DynamicChannel { dl_frequency: frequency, ..channel });
                assert(self.spec_state() =~= Self::spec_dl_channel_req(old(self).spec_state(), payload).0);
                return Ok(());
            }
        }
        Err(Error::InvalidChannelIndex)
    }

    fn handle_cf_list(&mut self, cf_list: CfList) -> (res: Result<(), Error>) {
        match cf_list {
            CfList::DynamicChannel(frequencies) => {
                let d = R::default_channels(true);
                let ghost old_channels = self.channels@;
                let mut index: usize = 0;
                while index < 5
                    invariant
                        d == R::spec_default_channels(true),
                        d + 5 <= MAX_CHANNELS,
                        index <= 5,
                        self.mask@ == old(self).mask@,
                        forall|k: int|
                            0 <= k < MAX_CHANNELS ==> #[trigger] self.channels@[k] == if d <= k < d + index {
                                Some(
                                    DynamicChannel {
                                        ul_frequency: frequencies@[k - d].spec_value() as u32,
                                        dl_frequency: frequencies@[k - d].spec_value() as u32,
                                        ul_data_rate_range: R::spec_ul_data_rate_range(),
                                    },
                                )
                            } else {
                                old_channels[k]
                            },
                    decreases 5 - index,
                {
                    let frequency = frequencies[index].value();
                    self.channels[d + index] = Some(
                        DynamicChannel {
                            ul_frequency: frequency,
                            dl_frequency: frequency,
                            ul_data_rate_range: R::ul_data_rate_range(),
                        },
                    );
                    index = index + 1;
                }
                assert(self.spec_state() =~= Self::spec_cf_list(old(self).spec_state(), cf_list).0);
                Ok(())
            },
            CfList::FixedChannel(_) => Err(Error::InvalidCfListType),
        }
    }

    fn validate_frequency(&self, frequency: u32) -> (res: Result<(), Error>) {
        let mut k: usize = 0;
        while k < MAX_CHANNELS
            invariant
                k <= MAX_CHANNELS,
                forall|j: int| 0 <= j < k ==> !#[trigger] has_ul_frequency(self.channels@[j], frequency),
            decreases MAX_CHANNELS - k,
        {
            if let Some(channel) = self.channels[k] {
                if channel.get_ul_frequency() == frequency {
                    assert(has_ul_frequency(self.spec_state().channels[k as int], frequency));
                    return Ok(());
                }
            }
            k = k + 1;
        }
        Err(Error::InvalidFrequency)
    }

    fn reactivate_channels(&mut self) {
        self.mask = [true; MAX_CHANNELS];
        assert(self.spec_state() =~= Self::spec_reactivated(old(self).spec_state()));
    }
}

impl<R: Region> Default for DynamicChannelPlan<R> {
    fn default() -> (res: Self)
        ensures
            res.spec_state() == Self::spec_initial(),
    {
        Self::initial()
    }
}

/// A region's list of channels that a dynamic plan can draw from.
pub trait FixedChannelList {
    spec fn spec_len() -> usize;

    spec fn spec_channel(id: usize) -> Result<FixedChannel, Error>;

    /// Number of channels in the list.
    fn len() -> (res: usize)
        ensures
            res == Self::spec_len(),
    ;

    /// The channel with this index.
    fn channel(id: usize) -> (res: Result<FixedChannel, Error>)
        ensures
            res == Self::spec_channel(id),
    ;
}

/// The channel list of the 800 MHz band.
pub struct FixedChannelList800<R: Region> {
    region: PhantomData<R>,
}

/// Frequency of channel `id` of the 800 MHz list, if there is one.
pub open spec fn list800_frequency(id: usize) -> Option<u32> {
    if id <= 34 {
        Some((863100000 + 200000 * id) as u32)
    } else if id == 35 {
        Some(865062500)
    } else if id == 36 {
        Some(865402500)
    } else if id == 37 {
        Some(865602500)
    } else if id == 38 {
        Some(86578500)
    } else if id == 39 {
        Some(86598500)
    } else {
        None
    }
}

/// Channel `id` of the 800 MHz list, with the uplink data rates `range`.
pub open spec fn spec_channel_800(id: usize, range: (DR, DR)) -> Result<FixedChannel, Error> {
    match list800_frequency(id) {
        Some(f) => Ok(FixedChannel { ul_frequency: f, dl_frequency: f, ul_data_rate_range: range }),
        None => Err(Error::InvalidChannelIndex),
    }
}

/// Channel `id` of the 800 MHz list, with the uplink data rates `range`.
pub fn channel_800(id: usize, range: (DR, DR)) -> (res: Result<FixedChannel, Error>)
    ensures
        res == spec_channel_800(id, range),
{
    let frequency: u32 = if id <= 34 {
        863100000 + (200000 * id as u32)
    } else if id == 35 {
        865062500
    } else if id == 36 {
        865402500
    } else if id == 37 {
        865602500
    } else if id == 38 {
        86578500
    } else if id == 39 {
        86598500
    } else {
        return Err(Error::InvalidChannelIndex);
    };
    Ok(FixedChannel { ul_frequency: frequency, dl_frequency: frequency, ul_data_rate_range: range })
}

impl<R: Region> FixedChannelList for FixedChannelList800<R> {
    open spec fn spec_len() -> usize {
        80
    }

    open spec fn spec_channel(id: usize) -> Result<FixedChannel, Error> {
        spec_channel_800(id, R::spec_ul_data_rate_range())
    }

    fn len() -> (res: usize) {
        80
    }

    fn channel(id: usize) -> (res: Result<FixedChannel, Error>) {
        channel_800(id, R::ul_data_rate_range())
    }
}

/// The channel list of the 900 MHz band.
pub struct FixedChannelList900<R: Region> {
    region: PhantomData<R>,
}

impl<R: Region> FixedChannelList for FixedChannelList900<R> {
    open spec fn spec_len() -> usize {
        96
    }

    open spec fn spec_channel(id: usize) -> Result<FixedChannel, Error> {
        if id < 96 {
            let f = (915100000 + 200000 * id) as u32;
            Ok(FixedChannel { ul_frequency: f, dl_frequency: f, ul_data_rate_range: R::spec_ul_data_rate_range() })
        } else {
            Err(Error::InvalidChannelIndex)
        }
    }

    fn len() -> (res: usize) {
        96
    }

    fn channel(id: usize) -> (res: Result<FixedChannel, Error>) {
        if id < Self::len() {
            let frequency = 915100000 + (200000 * id as u32);
            Ok(FixedChannel { ul_frequency: frequency, dl_frequency: frequency, ul_data_rate_range: R::ul_data_rate_range() })
        } else {
            Err(Error::InvalidChannelIndex)
        }
    }
}

} // verus!
