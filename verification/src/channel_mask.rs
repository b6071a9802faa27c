use vstd::prelude::*;

verus! {

/// Two-byte channel mask as carried by LinkADRReq: bit `i % 8` of byte `i / 8`
/// tells whether channel `i` is enabled.
#[derive(Debug, Clone, Copy, PartialEq, Eq)]
pub struct ChannelMask([u8; 2]);

/// Whether bit `k` of `b` is set.
pub open spec fn bit_set(b: u8, k: nat) -> bool {
    (b >> k) & 1 == 1
}

impl ChannelMask {
    /// The two raw bytes of the mask.
    pub closed spec fn bytes(&self) -> Seq<u8> {
        self.0@
    }

    /// Whether channel `index` is enabled by this mask.
    pub open spec fn enabled(&self, index: nat) -> bool {
        bit_set(self.bytes()[(index / 8) as int], index % 8)
    }

    /// The raw bytes of a mask are always two.
    pub broadcast proof fn lemma_bytes_len(&self)
        ensures
            #[trigger] self.bytes().len() == 2,
    {
    }

    /// The mask whose raw bytes are the first two of `b`.
    pub closed spec fn of_bytes(b: Seq<u8>) -> ChannelMask {
        ChannelMask([b[0], b[1]])
    }

    /// A mask is the one its raw bytes make, and those are the bytes it was made from.
    pub proof fn lemma_of_bytes(self, b: Seq<u8>)
        ensures
            self == Self::of_bytes(self.bytes()),
            b.len() == 2 ==> Self::of_bytes(b).bytes() == b,
    {
        assert(self.0 =~= [self.0[0], self.0[1]]);
        assert(b.len() == 2 ==> Self::of_bytes(b).bytes() =~= b);
    }

    /// Constructs a new ChannelMask from the provided data.
    pub fn new(data: &[u8]) -> (res: Result<Self, &'static str>)
        ensures
            data@.len() < 2 <==> res is Err,
            res matches Ok(m) ==> m.bytes() == data@.subrange(0, 2),
            res matches Err(e) ==> e@ == "not enough bytes to read"@,
    {
        if data.len() < 2 {
            return Err("not enough bytes to read");
        }
        Ok(Self::new_from_raw(data))
    }

    /// Constructs a new ChannelMask from the first two bytes of `data`.
    pub fn new_from_raw(data: &[u8]) -> (res: Self)
        requires
            data@.len() >= 2,
        ensures
            res.bytes() == data@.subrange(0, 2),
    {
        let payload = [data[0], data[1]];
        proof {
            assert(payload@ =~= data@.subrange(0, 2));
        }
        ChannelMask(payload)
    }

    /// Builds a mask from its two raw bytes.
    pub fn from_bytes(v: [u8; 2]) -> (res: Self)
        ensures
            res.bytes() == v@,
    {
        ChannelMask(v)
    }

    /// The two raw bytes of the mask.
    pub fn as_bytes(&self) -> (res: [u8; 2])
        ensures
            res@ == self.bytes(),
    {
        self.0
    }

    fn channel_enabled(&self, index: usize) -> (res: bool)
        requires
            index < 16,
        ensures
            res == self.enabled(index as nat),
    {
        assert(index >> 3 == index / 8) by (bit_vector)
            requires
                index < 16,
        ;
        let b = self.0[index >> 3];
        let k = index & 0x07;
        assert(index & 0x07 == index % 8) by (bit_vector);
        let k8: u8 = k as u8;
        assert(k8 < 8);
        let r = b & (1u8 << k8) != 0;
        assert(r == ((b >> k8) & 1 == 1)) by (bit_vector)
            requires
                k8 < 8,
                r == (b & (1u8 << k8) != 0),
        ;
        r
    }

    /// Verifies if a given channel is enabled.
    pub fn is_enabled(&self, index: usize) -> (res: Result<bool, &'static str>)
        ensures
            index > 15 <==> res is Err,
            res matches Err(e) ==> e@ == "index should be between 0 and 15"@,
            res matches Ok(b) ==> b == self.enabled(index as nat),
    {
        if index > 15 {
            return Err("index should be between 0 and 15");
        }
        Ok(self.channel_enabled(index))
    }

    /// Provides information for each of the 16 channels if they are enabled.
    pub fn statuses(&self) -> (res: [bool; 16])
        ensures
            forall|i: int| 0 <= i < 16 ==> res@[i] == self.enabled(i as nat),
    {
        let mut res = [false; 16];
        let mut i: usize = 0;
        while i < 16
            invariant
                i <= 16,
                forall|j: int| 0 <= j < i ==> res@[j] == self.enabled(j as nat),
            decreases 16 - i,
        {
            res[i] = self.channel_enabled(i);
            i = i + 1;
        }
        res
    }
}

} // verus!
