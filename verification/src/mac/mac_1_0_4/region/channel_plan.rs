//! The dynamic channel plan of LoRaWAN 1.0.4.

use vstd::prelude::*;

use core::marker::PhantomData;

use super::{Error, Region};
use crate::channel_mask::ChannelMask;
use crate::encoding::maccommands::{DlChannelReqPayload, NewChannelReqPayload};
use crate::encoding::parser::CfList;
use crate::frequency::{steps_of, Frequency};
use crate::mac::region::channel_plan::dynamic::{mask_all, mask_group};
use crate::mac::types::{dr_value, Frame, DR};

verus! {

/// Specification of basic functionality to get channel properties.
pub trait Channel {
    spec fn spec_frequency(&self) -> Frequency;

    /// Get the frequency.
    fn get_frequency(&self) -> (res: Frequency)
        ensures
            res == self.spec_frequency(),
    ;
}

/// A channel of a dynamic channel plan.
#[derive(Debug, Clone, Copy, PartialEq, Eq)]
pub struct DynamicChannel {
    pub frequency: Frequency,
    pub dl_frequency: Option<Frequency>,
    pub max_data_rate: u8,
    pub min_data_rate: u8,
}

impl Channel for DynamicChannel {
    open spec fn spec_frequency(&self) -> Frequency {
        self.frequency
    }

    fn get_frequency(&self) -> (res: Frequency) {
        self.frequency
    }
}

/// Whether a channel carries the data rate `dr`: from its minimum up to, but not
/// including, its maximum.
pub open spec fn carries(c: DynamicChannel, dr: DR) -> bool {
    c.min_data_rate <= dr_value(dr) < c.max_data_rate
}

/// Whether a channel is there and has the frequency `f`.
pub open spec fn has_frequency(c: Option<DynamicChannel>, f: u32) -> bool {
    c matches Some(ch) && ch.frequency.spec_value() == f
}

/// Channel plan with `N` channels whose channels the network server can add.
pub struct DynamicChannelPlan<R: Region, const N: usize> {
    channels: [Option<DynamicChannel>; N],
    mask: [bool; 80],
    region: PhantomData<R>,
}

impl<R: Region, const N: usize> DynamicChannelPlan<R, N> {
    /// The channels.
    pub closed spec fn channels(&self) -> Seq<Option<DynamicChannel>> {
        self.channels@
    }

    /// Which channels are enabled.
    pub closed spec fn mask(&self) -> Seq<bool> {
        self.mask@
    }

    /// The channels hold `N` entries and the mask 80.
    pub proof fn lemma_lens(&self)
        ensures
            self.channels().len() == N,
            self.mask().len() == 80,
    {
    }

    /// Whether the channel with index `i` can carry a frame at data rate `dr`: it
    /// exists, carries the data rate and is enabled.
    pub open spec fn usable(&self, dr: DR) -> spec_fn(int) -> bool {
        |i: int| self.channels()[i] matches Some(c) && carries(c, dr) && self.mask()[i]
    }

    /// The candidate indices of a frame: the default channels for a join, all channels
    /// otherwise.
    pub open spec fn candidate_count(frame: Frame) -> int {
        match frame {
            Frame::Join => R::spec_default_channels() as int,
            Frame::Data => N as int,
        }
    }

    /// The indices of the channels that can carry a frame, in ascending order.
    pub open spec fn valid_channels(&self, frame: Frame, dr: DR) -> Seq<int> {
        Seq::new(Self::candidate_count(frame) as nat, |i: int| i).filter(self.usable(dr))
    }

    /// The plan a device starts with: the region's mandatory frequencies, at the data
    /// rates of a join request, all enabled.
    pub fn initial() -> (res: Self)
        requires
            R::spec_mandatory_frequencies().len() <= N,
        ensures
            forall|i: int|
                0 <= i < N ==> if i < R::spec_mandatory_frequencies().len() {
                    (#[trigger] res.channels()[i]) matches Some(c) && c.dl_frequency is None && c.max_data_rate
                        == dr_value(R::spec_max_data_rate_join_req()) && c.min_data_rate == dr_value(
                        R::spec_min_data_rate_join_req(),
                    ) && steps_of(c.frequency.bytes()[0], c.frequency.bytes()[1], c.frequency.bytes()[2]) == (
                    R::spec_mandatory_frequencies()[i] / 100) % 0x100_0000
                } else {
                    res.channels()[i] is None
                },
            res.mask() == mask_all(true),
    {
        let mut channels: [Option<DynamicChannel>; N] = [None; N];
        let frequencies = R::mandatory_frequencies();
        let mut index: usize = 0;
        while index < frequencies.len()
            invariant
                frequencies@ == R::spec_mandatory_frequencies(),
                frequencies@.len() <= N,
                index <= frequencies@.len(),
                forall|i: int|
                    0 <= i < N ==> if i < index {
                        (#[trigger] channels@[i]) matches Some(c) && c.dl_frequency is None && c.max_data_rate
                            == dr_value(R::spec_max_data_rate_join_req()) && c.min_data_rate == dr_value(
                            R::spec_min_data_rate_join_req(),
                        ) && steps_of(c.frequency.bytes()[0], c.frequency.bytes()[1], c.frequency.bytes()[2]) == (
                        R::spec_mandatory_frequencies()[i] / 100) % 0x100_0000
                    } else {
                        channels@[i] is None
                    },
            decreases frequencies@.len() - index,
        {
            channels[index] = Some(
                DynamicChannel {
                    frequency: Frequency::new_from_value(&frequencies[index]),
                    dl_frequency: None,
                    max_data_rate: R::max_data_rate_join_req().value(),
                    min_data_rate: R::min_data_rate_join_req().value(),
                },
            );
            index = index + 1;
        }
        let res = Self { channels, mask: [true; 80], region: PhantomData };
        assert(res.mask() =~= mask_all(true));
        res
    }

    /// Create a new channel mask collection based on guidance in the input
    /// channel_mask_ctrl and input channel_mask, both contained in a LinkADRReq packet.
    pub fn handle_channel_mask(&mut self, new_mask: &mut [bool; 80], channel_mask: ChannelMask, channel_mask_ctrl: u8) -> (res:
        Result<(), Error>)
        requires
            channel_mask_ctrl != 5,
        ensures
            *final(self) == *old(self),
            channel_mask_ctrl <= 4 ==> res is Ok && final(new_mask)@ == mask_group(
                old(new_mask)@,
                channel_mask,
                channel_mask_ctrl,
            ),
            channel_mask_ctrl == 6 ==> res is Ok && final(new_mask)@ == mask_all(true),
            channel_mask_ctrl > 6 ==> res == Err::<(), Error>(Error::InvalidChannelMaskCtrl)
                && final(new_mask)@ == old(new_mask)@,
    {
        if channel_mask_ctrl <= 4 {
            let base: usize = (channel_mask_ctrl as usize) * 16;
            let mut i: usize = 0;
            while i < 16
                invariant
                    base == channel_mask_ctrl * 16,
                    channel_mask_ctrl <= 4,
                    i <= 16,
                    forall|k: int|
                        0 <= k < 80 ==> #[trigger] new_mask@[k] == if base <= k < base + i {
                            channel_mask.enabled((k - base) as nat)
                        } else {
                            old(new_mask)@[k]
                        },
                decreases 16 - i,
            {
                match channel_mask.is_enabled(i) {
                    Ok(b) => {
                        new_mask[i + base] = b;
                    },
                    Err(_) => {},
                }
                i = i + 1;
            }
            assert(new_mask@ =~= mask_group(old(new_mask)@, channel_mask, channel_mask_ctrl));
            Ok(())
        } else if channel_mask_ctrl == 6 {
            let mut k: usize = 0;
            while k < 80
                invariant
                    k <= 80,
                    forall|j: int| 0 <= j < k ==> #[trigger] new_mask@[j],
                decreases 80 - k,
            {
                new_mask[k] = true;
                k = k + 1;
            }
            assert(new_mask@ =~= mask_all(true));
            Ok(())
        } else {
            Err(Error::InvalidChannelMaskCtrl)
        }
    }

    /// A random channel among those that can carry a frame at `data_rate`: the one that
    /// `random` picks among them in index order.
    pub fn get_random_channel(&self, random: u32, frame: Frame, data_rate: DR) -> (res: Result<DynamicChannel, Error>)
        requires
            N <= 80,
            frame == Frame::Join ==> R::spec_default_channels() <= N,
        ensures
            ({
                let valid = self.valid_channels(frame, data_rate);
                if valid.len() == 0 {
                    res == Err::<DynamicChannel, Error>(Error::NoValidChannelFound)
                } else {
                    res == Ok::<DynamicChannel, Error>(self.channels()[valid[random as int % valid.len() as int]]->0)
                }
            }),
    {
        let count: usize = match frame {
            Frame::Join => R::default_channels() as usize,
            Frame::Data => N,
        };
        let ghost f = |i: int| i;
        let mut valid_channels: Vec<usize> = Vec::new();
        let mut i: usize = 0;
        while i < count
            invariant
                count == Self::candidate_count(frame),
                count <= N <= 80,
                i <= count,
                f == (|i: int| i),
                valid_channels@.len() == Seq::new(i as nat, f).filter(self.usable(data_rate)).len(),
                forall|k: int|
                    0 <= k < valid_channels@.len() ==> #[trigger] valid_channels@[k] == Seq::new(i as nat, f).filter(
                        self.usable(data_rate),
                    )[k],
                forall|k: int|
                    0 <= k < valid_channels@.len() ==> #[trigger] Seq::new(i as nat, f).filter(self.usable(data_rate))[k]
                        < i,
            decreases count - i,
        {
            proof {
                assert(Seq::new((i + 1) as nat, f) =~= Seq::new(i as nat, f).push(f(i as int)));
                Seq::new(i as nat, f).lemma_filter_push(f(i as int), self.usable(data_rate));
            }
            if let Some(ch) = self.channels[i] {
                let dr = data_rate.value();
                if ch.min_data_rate <= dr && dr < ch.max_data_rate && self.mask[i] {
                    valid_channels.push(i);
                }
            }
            i = i + 1;
        }
        proof {
            assert(Seq::new(count as nat, f) =~= Seq::new(Self::candidate_count(frame) as nat, |i: int| i));
        }
        if valid_channels.len() == 0 {
            Err(Error::NoValidChannelFound)
        } else {
            let pick = valid_channels[(random % (valid_channels.len() as u32)) as usize];
            match self.channels[pick] {
                Some(c) => Ok(c),
                None => Err(Error::NoValidChannelFound),
            }
        }
    }

    /// Handle a new channel request from a network server.
    pub fn handle_new_channel_req(&mut self, payload: NewChannelReqPayload) -> (res: Result<(), Error>)
        ensures
            (payload.bytes()[0] as int) < N ==> res is Ok && final(self).mask() == old(self).mask()
                && final(self).channels() == old(self).channels().update(
                payload.bytes()[0] as int,
                Some(
                    DynamicChannel {
                        frequency: Frequency::of_bytes(payload.bytes().subrange(1, 4)),
                        dl_frequency: None,
                        max_data_rate: payload.bytes()[4] / 16,
                        min_data_rate: payload.bytes()[4] % 16,
                    },
                ),
            ),
            (payload.bytes()[0] as int) >= N ==> res == Err::<(), Error>(Error::InvalidChannelIndex) && *final(self)
                == *old(self),
    {
        let index = payload.channel_index() as usize;
        if index < N {
            let frequency = payload.frequency();
            proof {
                frequency.lemma_of_bytes(frequency.bytes());
            }
            self.channels[index] = Some(
                DynamicChannel {
                    frequency,
                    max_data_rate: payload.data_rate_range().max_data_rate(),
                    min_data_rate: payload.data_rate_range().min_data_rate(),
                    dl_frequency: None,
                },
            );
            Ok(())
        } else {
            Err(Error::InvalidChannelIndex)
        }
    }

    /// Handle a DlChannelReq packet from a network server to the end device: the
    /// addressed channel, when it exists, takes the payload's frequency as its downlink
    /// frequency.
    pub fn handle_dl_channel_req(&mut self, payload: DlChannelReqPayload) -> (res: Result<(), Error>)
        ensures
            res is Ok <==> (payload.bytes()[0] as int) < N && old(self).channels()[payload.bytes()[0] as int] is Some,
            res is Ok ==> final(self).mask() == old(self).mask() && final(self).channels() == old(self).channels().update(
                payload.bytes()[0] as int,
                Some(
                    DynamicChannel {
                        dl_frequency: Some(Frequency::of_bytes(payload.bytes().subrange(1, 4))),
                        ..old(self).channels()[payload.bytes()[0] as int]->0
                    },
                ),
            ),
            res is Err ==> res == Err::<(), Error>(Error::InvalidChannelIndex) && *final(self) == *old(self),
    {
        let index = payload.channel_index() as usize;
        if index < N {
            if let Some(channel) = self.channels[index] {
                let frequency = payload.frequency();
                proof {
                    frequency.lemma_of_bytes(frequency.bytes());
                }
                self.channels[index] = Some(DynamicChannel { dl_frequency: Some(frequency), ..channel });
                return Ok(());
            }
        }
        Err(Error::InvalidChannelIndex)
    }

    /// Get the current channel mask collection.
    pub fn get_channel_mask(&self) -> (res: [bool; 80])
        ensures
            res@ == self.mask(),
    {
        self.mask
    }

    /// Set the current channel mask collection.
    pub fn set_channel_mask(&mut self, mask: [bool; 80]) -> (res: Result<(), Error>)
        ensures
            res is Ok,
            final(self).mask() == mask@,
            final(self).channels() == old(self).channels(),
    {
        self.mask = mask;
        Ok(())
    }

    /// Does a channel exist for the given channel ID?
    pub fn check_uplink_frequency_exists(&self, index: usize) -> (res: bool)
        ensures
            res == (index < N && self.channels()[index as int] is Some),
    {
        if index < N {
            return self.channels[index].is_some();
        }
        false
    }

    /// Handle the CFList included in a JoinAccept packet from a network server: five
    /// channels after the default ones, at the region's data rates.
    pub fn handle_cf_list(&mut self, cf_list: CfList) -> (res: Result<(), Error>)
        requires
            R::spec_default_channels() + 5 <= N,
        ensures
            match cf_list {
                CfList::DynamicChannel(fs) => {
                    let d = R::spec_default_channels() as int;
                    &&& res is Ok
                    &&& final(self).mask() == old(self).mask()
                    &&& forall|k: int|
                        0 <= k < N ==> #[trigger] final(self).channels()[k] == if d <= k < d + 5 {
                            Some(
                                DynamicChannel {
                                    frequency: fs@[k - d],
                                    dl_frequency: None,
                                    max_data_rate: dr_value(R::spec_max_data_rate()),
                                    min_data_rate: dr_value(R::spec_min_data_rate()),
                                },
                            )
                        } else {
                            old(self).channels()[k]
                        }
                },
                CfList::FixedChannel(_) => res == Err::<(), Error>(Error::InvalidCfListType) && *final(self) == *old(self),
            },
    {
        match cf_list {
            CfList::DynamicChannel(frequencies) => {
                let d = R::default_channels() as usize;
                let mut index: usize = 0;
                while index < 5
                    invariant
                        d == R::spec_default_channels(),
                        d + 5 <= N,
                        index <= 5,
                        self.mask@ == old(self).mask@,
                        forall|k: int|
                            0 <= k < N ==> #[trigger] self.channels@[k] == if d <= k < d + index {
                                Some(
                                    DynamicChannel {
                                        frequency: frequencies@[k - d],
                                        dl_frequency: None,
                                        max_data_rate: dr_value(R::spec_max_data_rate()),
                                        min_data_rate: dr_value(R::spec_min_data_rate()),
                                    },
                                )
                            } else {
                                old(self).channels@[k]
                            },
                    decreases 5 - index,
                {
                    self.channels[d + index] = Some(
                        DynamicChannel {
                            frequency: frequencies[index],
                            dl_frequency: None,
                            max_data_rate: R::max_data_rate().value(),
                            min_data_rate: R::min_data_rate().value(),
                        },
                    );
                    index = index + 1;
                }
                Ok(())
            },
            CfList::FixedChannel(_) => Err(Error::InvalidCfListType),
        }
    }

    /// Does the uplink frequency exist in the channel plan?
    pub fn validate_frequency(&self, frequency: u32) -> (res: Result<(), Error>)
        ensures
            res is Ok <==> exists|k: int| 0 <= k < N && #[trigger] has_frequency(self.channels()[k], frequency),
            res is Err ==> res == Err::<(), Error>(Error::InvalidFrequency),
    {
        let mut k: usize = 0;
        while k < N
            invariant
                k <= N,
                forall|j: int| 0 <= j < k ==> !#[trigger] has_frequency(self.channels@[j], frequency),
            decreases N - k,
        {
            if let Some(channel) = self.channels[k] {
                if channel.get_frequency().value() == frequency {
                    assert(has_frequency(self.channels()[k as int], frequency));
                    return Ok(());
                }
            }
            k = k + 1;
        }
        Err(Error::InvalidFrequency)
    }
}

} // verus!
