use vstd::prelude::*;

verus! {

/// A frequency as carried in MAC commands and CFLists: a 24-bit little-endian
/// count of 100 Hz steps.
#[derive(Debug, Copy, Clone, PartialEq, Eq)]
pub struct Frequency([u8; 3]);

/// The number of 100 Hz steps that three little-endian bytes encode.
pub open spec fn steps_of(b0: u8, b1: u8, b2: u8) -> int {
    b0 + 256 * b1 + 65536 * b2
}

impl Frequency {
    /// The three raw bytes.
    pub closed spec fn bytes(&self) -> Seq<u8> {
        self.0@
    }

    /// The raw bytes of a frequency are always three.
    pub broadcast proof fn lemma_bytes_len(&self)
        ensures
            #[trigger] self.bytes().len() == 3,
    {
    }

    /// The frequency whose raw bytes are the first three of `b`.
    pub closed spec fn of_bytes(b: Seq<u8>) -> Frequency {
        Frequency([b[0], b[1], b[2]])
    }

    /// A frequency is the one its raw bytes make, and those are the bytes it was made
    /// from.
    pub proof fn lemma_of_bytes(self, b: Seq<u8>)
        ensures
            self == Self::of_bytes(self.bytes()),
            b.len() == 3 ==> Self::of_bytes(b).bytes() == b,
    {
        assert(self.0 =~= [self.0[0], self.0[1], self.0[2]]);
        assert(b.len() == 3 ==> Self::of_bytes(b).bytes() =~= b);
    }

    /// The frequency in Hz that the bytes encode.
    pub open spec fn spec_value(&self) -> int {
        steps_of(self.bytes()[0], self.bytes()[1], self.bytes()[2]) * 100
    }

    /// Constructs a new Frequency from the first three bytes of the provided data, if
    /// there are three.
    pub fn new(data: &[u8]) -> (res: Result<Self, &'static str>)
        ensures
            data@.len() < 3 <==> res is Err,
            res matches Ok(f) ==> f.bytes() == data@.subrange(0, 3),
            res matches Err(e) ==> e@ == "not enough bytes to read"@,
    {
        if data.len() < 3 {
            return Err("not enough bytes to read");
        }
        Ok(Self::new_from_raw(data))
    }

    /// Constructs a new Frequency from the first three bytes of `data`.
    pub fn new_from_raw(data: &[u8]) -> (res: Self)
        requires
            data@.len() >= 3,
        ensures
            res.bytes() == data@.subrange(0, 3),
    {
        let payload = [data[0], data[1], data[2]];
        assert(payload@ =~= data@.subrange(0, 3));
        Self(payload)
    }

    /// Builds the frequency nearest below `value` Hz on the 100 Hz grid; the step
    /// count is truncated to 24 bits.
    pub fn new_from_value(value: &u32) -> (res: Self)
        ensures
            steps_of(res.bytes()[0], res.bytes()[1], res.bytes()[2]) == (*value / 100) % 0x100_0000,
    {
        let v = *value / 100;
        let b0 = (v % 256) as u8;
        let b1 = ((v / 256) % 256) as u8;
        let b2 = ((v / 65536) % 256) as u8;
        let payload = [b0, b1, b2];
        assert(payload@[0] == b0 && payload@[1] == b1 && payload@[2] == b2);
        assert(steps_of(b0, b1, b2) == v % 0x100_0000) by (nonlinear_arith)
            requires
                b0 == v % 256,
                b1 == (v / 256) % 256,
                b2 == (v / 65536) % 256,
        {
        }
        Self(payload)
    }

    /// Builds a frequency from its three raw bytes.
    pub fn from_bytes(v: [u8; 3]) -> (res: Self)
        ensures
            res.bytes() == v@,
    {
        Self(v)
    }

    /// The three raw bytes.
    pub fn as_bytes(&self) -> (res: [u8; 3])
        ensures
            res@ == self.bytes(),
    {
        self.0
    }

    /// Provides the decimal value in Hz of the frequency.
    pub fn value(&self) -> (res: u32)
        ensures
            res == self.spec_value(),
    {
        let b0 = self.0[0] as u32;
        let b1 = self.0[1] as u32;
        let b2 = self.0[2] as u32;
        assert((b2 << 16) == b2 * 65536) by (bit_vector)
            requires
                b2 < 256,
        ;
        assert((b1 << 8) == b1 * 256) by (bit_vector)
            requires
                b1 < 256,
        ;
        ((b2 << 16) + (b1 << 8) + b0) * 100
    }
}

/// Encoding a frequency of `v` Hz gives back `v` rounded down to the 100 Hz grid,
/// for every `v` whose step count fits in 24 bits.
pub proof fn lemma_value_of_new_from_value(v: u32, f: Frequency)
    requires
        v / 100 < 0x100_0000,
        steps_of(f.bytes()[0], f.bytes()[1], f.bytes()[2]) == (v / 100) % 0x100_0000,
    ensures
        f.spec_value() == (v / 100) * 100,
{
}

} // verus!
