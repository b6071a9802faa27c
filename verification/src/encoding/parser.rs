use vstd::prelude::*;

use super::default_crypto::DefaultFactory;
use super::keys::{AES128, MIC};
use super::securityhelpers::{calculate_data_mic, calculate_mic, spec_data_mic, spec_mic};

verus! {

/// Copies `N` bytes of `s` starting at `off`.
pub(crate) fn read_bytes<const N: usize>(s: &[u8], off: usize) -> (res: [u8; N])
    requires
        off + N <= s@.len(),
    ensures
        res@ == s@.subrange(off as int, off + N),
{
    let mut res = [0u8; N];
    let n = s.len();
    let mut i: usize = 0;
    while i < N
        invariant
            n == s@.len(),
            off + N <= s@.len(),
            i <= N,
            res@.len() == N,
            forall|j: int| 0 <= j < i ==> res@[j] == s@[off + j],
        decreases N - i,
    {
        assert(off + i < s@.len());
        res[i] = s[off + i];
        i = i + 1;
    }
    assert(res@ =~= s@.subrange(off as int, off + N));
    res
}

/// MType gives the possible message types of the PhyPayload.
#[derive(Debug, Clone, Copy, PartialEq, Eq, Structural)]
pub enum MType {
    JoinRequest,
    JoinAccept,
    UnconfirmedDataUp,
    UnconfirmedDataDown,
    ConfirmedDataUp,
    ConfirmedDataDown,
    RFU,
    Proprietary,
}

/// Major gives the supported LoRaWAN payload formats.
#[derive(Debug, Clone, Copy, PartialEq, Eq, Structural)]
pub enum Major {
    LoRaWANR1,
    RFU,
}

/// The message type that an MHDR byte announces (its three high bits).
pub open spec fn mtype_of(b: u8) -> MType {
    let t = b >> 5;
    if t == 0 {
        MType::JoinRequest
    } else if t == 1 {
        MType::JoinAccept
    } else if t == 2 {
        MType::UnconfirmedDataUp
    } else if t == 3 {
        MType::UnconfirmedDataDown
    } else if t == 4 {
        MType::ConfirmedDataUp
    } else if t == 5 {
        MType::ConfirmedDataDown
    } else if t == 6 {
        MType::RFU
    } else {
        MType::Proprietary
    }
}

/// The major version that an MHDR byte announces (its two low bits).
pub open spec fn major_of(b: u8) -> Major {
    if b % 4 == 0 {
        Major::LoRaWANR1
    } else {
        Major::RFU
    }
}

/// Whether a message type is one of the four data frame types.
pub open spec fn is_data_mtype(t: MType) -> bool {
    t == MType::ConfirmedDataUp || t == MType::ConfirmedDataDown || t == MType::UnconfirmedDataUp
        || t == MType::UnconfirmedDataDown
}

/// Whether a message type is an uplink data frame type.
pub open spec fn is_uplink_mtype(t: MType) -> bool {
    t == MType::UnconfirmedDataUp || t == MType::ConfirmedDataUp
}

/// Whether a message type is a confirmed data frame type.
pub open spec fn is_confirmed_mtype(t: MType) -> bool {
    t == MType::ConfirmedDataUp || t == MType::ConfirmedDataDown
}

/// Length of the FHDR given its FCtrl byte: seven bytes plus the FOpts.
pub open spec fn spec_fhdr_length(b: u8) -> int {
    7 + (b % 16)
}

/// The bytes can form a JoinRequest.
pub open spec fn join_request_ok(b: Seq<u8>) -> bool {
    b.len() == 23 && mtype_of(b[0]) == MType::JoinRequest
}

/// The bytes can form an encrypted JoinAccept.
pub open spec fn join_accept_ok(b: Seq<u8>) -> bool {
    (b.len() == 17 || b.len() == 33) && mtype_of(b[0]) == MType::JoinAccept
}

/// The bytes can form a data frame: MHDR, FHDR with its FOpts, and MIC all fit.
pub open spec fn data_ok(b: Seq<u8>) -> bool {
    b.len() >= 12 && 12 + b[5] % 16 <= b.len() && is_data_mtype(mtype_of(b[0]))
}

/// The last four bytes: where every frame carries its MIC.
pub open spec fn last4(b: Seq<u8>) -> Seq<u8> {
    b.subrange(b.len() - 4, b.len() as int)
}

/// Everything but the last four bytes: what the MIC covers.
pub open spec fn without_mic(b: Seq<u8>) -> Seq<u8> {
    b.subrange(0, b.len() - 4)
}

/// MHDR represents LoRaWAN MHDR.
#[derive(Debug, Clone, Copy, PartialEq, Eq)]
pub struct MHDR(pub u8);

impl MHDR {
    pub fn new(byte: u8) -> (res: MHDR)
        ensures
            res.0 == byte,
    {
        MHDR(byte)
    }

    /// Gives the type of message that PhyPayload is carrying.
    pub fn mtype(&self) -> (res: MType)
        ensures
            res == mtype_of(self.0),
    {
        match self.0 >> 5 {
            0 => MType::JoinRequest,
            1 => MType::JoinAccept,
            2 => MType::UnconfirmedDataUp,
            3 => MType::UnconfirmedDataDown,
            4 => MType::ConfirmedDataUp,
            5 => MType::ConfirmedDataDown,
            6 => MType::RFU,
            _ => MType::Proprietary,
        }
    }

    /// Gives the version of LoRaWAN payload format.
    pub fn major(&self) -> (res: Major)
        ensures
            res == major_of(self.0),
    {
        let b = self.0;
        assert((b & 0x03 == 0) == (b % 4 == 0)) by (bit_vector);
        if b & 0x03 == 0 {
            Major::LoRaWANR1
        } else {
            Major::RFU
        }
    }
}

/// EUI64 represents a 64 bit EUI.
#[derive(Debug, Clone, Copy, PartialEq, Eq)]
pub struct EUI64(pub [u8; 8]);

/// DevNonce represents a 16 bit device nonce.
#[derive(Debug, Clone, Copy, PartialEq, Eq)]
pub struct DevNonce(pub [u8; 2]);

/// AppNonce represents a 24 bit network server nonce.
#[derive(Debug, Clone, Copy, PartialEq, Eq)]
pub struct AppNonce(pub [u8; 3]);

/// DevAddr represents a 32 bit device address.
#[derive(Debug, Clone, Copy, PartialEq, Eq)]
pub struct DevAddr(pub [u8; 4]);

/// NwkAddr represents a 24 bit network address.
#[derive(Debug, Clone, Copy, PartialEq, Eq)]
pub struct NwkAddr(pub [u8; 3]);

impl EUI64 {
    /// Takes the bytes, which must be exactly eight.
    pub fn new_from_raw(bytes: &[u8]) -> (res: Self)
        requires
            bytes@.len() == 8,
        ensures
            res.0@ == bytes@,
    {
        let r = EUI64(read_bytes::<8>(bytes, 0));
        assert(bytes@.subrange(0, 8) =~= bytes@);
        r
    }

    /// Takes the bytes if they are exactly eight.
    pub fn new(bytes: &[u8]) -> (res: Option<Self>)
        ensures
            res is Some <==> bytes@.len() == 8,
            res matches Some(r) ==> r.0@ == bytes@,
    {
        if bytes.len() != 8 {
            None
        } else {
            Some(Self::new_from_raw(bytes))
        }
    }
}

impl DevNonce {
    /// Takes the bytes, which must be exactly two.
    pub fn new_from_raw(bytes: &[u8]) -> (res: Self)
        requires
            bytes@.len() == 2,
        ensures
            res.0@ == bytes@,
    {
        let r = DevNonce(read_bytes::<2>(bytes, 0));
        assert(bytes@.subrange(0, 2) =~= bytes@);
        r
    }

    /// Takes the bytes if they are exactly two.
    pub fn new(bytes: &[u8]) -> (res: Option<Self>)
        ensures
            res is Some <==> bytes@.len() == 2,
            res matches Some(r) ==> r.0@ == bytes@,
    {
        if bytes.len() != 2 {
            None
        } else {
            Some(Self::new_from_raw(bytes))
        }
    }
}

impl AppNonce {
    /// Takes the bytes, which must be exactly three.
    pub fn new_from_raw(bytes: &[u8]) -> (res: Self)
        requires
            bytes@.len() == 3,
        ensures
            res.0@ == bytes@,
    {
        let r = AppNonce(read_bytes::<3>(bytes, 0));
        assert(bytes@.subrange(0, 3) =~= bytes@);
        r
    }
}

impl NwkAddr {
    /// Takes the bytes, which must be exactly three.
    pub fn new_from_raw(bytes: &[u8]) -> (res: Self)
        requires
            bytes@.len() == 3,
        ensures
            res.0@ == bytes@,
    {
        let r = NwkAddr(read_bytes::<3>(bytes, 0));
        assert(bytes@.subrange(0, 3) =~= bytes@);
        r
    }
}

impl DevAddr {
    /// Takes the bytes, which must be exactly four.
    pub fn new_from_raw(bytes: &[u8]) -> (res: Self)
        requires
            bytes@.len() == 4,
        ensures
            res.0@ == bytes@,
    {
        let r = DevAddr(read_bytes::<4>(bytes, 0));
        assert(bytes@.subrange(0, 4) =~= bytes@);
        r
    }

    /// Takes the bytes if they are exactly four.
    pub fn new(bytes: &[u8]) -> (res: Option<Self>)
        ensures
            res is Some <==> bytes@.len() == 4,
            res matches Some(r) ==> r.0@ == bytes@,
    {
        if bytes.len() != 4 {
            None
        } else {
            Some(Self::new_from_raw(bytes))
        }
    }

    /// The network identifier: the seven high bits of the first byte.
    pub fn nwk_id(&self) -> (res: u8)
        ensures
            res == self.0@[0] / 2,
    {
        let b = self.0[0];
        assert(b >> 1 == b / 2) by (bit_vector);
        b >> 1
    }

    /// Whether two addresses hold the same bytes.
    pub fn same_as(&self, other: &DevAddr) -> (res: bool)
        ensures
            res == (self.0@ == other.0@),
    {
        let r = self.0[0] == other.0[0] && self.0[1] == other.0[1] && self.0[2] == other.0[2]
            && self.0[3] == other.0[3];
        assert(r ==> self.0@ =~= other.0@);
        r
    }

    /// The four bytes of the address.
    pub fn as_ref(&self) -> (res: &[u8])
        ensures
            res@ == self.0@,
    {
        self.0.as_slice()
    }
}

/// FCtrl represents the FCtrl from FHDR: the control byte and whether the frame is
/// uplink.
#[derive(Debug, Clone, Copy, PartialEq, Eq)]
pub struct FCtrl(pub u8, pub bool);

impl FCtrl {
    /// Sets the ACK bit (bit 5).
    pub fn set_ack(&mut self)
        ensures
            final(self).1 == old(self).1,
            final(self).0 == old(self).0 | 0x20,
    {
        self.0 = self.0 | 0x20;
    }

    /// Sets the ADR bit (bit 7).
    pub fn set_adr(&mut self)
        ensures
            final(self).1 == old(self).1,
            final(self).0 == old(self).0 | 0x80,
    {
        self.0 = self.0 | 0x80;
    }

    /// Sets the ADR ACK request bit (bit 6).
    pub fn set_adr_ack_req(&mut self)
        ensures
            final(self).1 == old(self).1,
            final(self).0 == old(self).0 | 0x40,
    {
        self.0 = self.0 | 0x40;
    }

    pub fn new(bytes: u8, uplink: bool) -> (res: FCtrl)
        ensures
            res.0 == bytes && res.1 == uplink,
    {
        FCtrl(bytes, uplink)
    }

    /// Gives whether ADR is enabled or not.
    pub fn adr(&self) -> (res: bool)
        ensures
            res == (self.0 >= 0x80),
    {
        let b = self.0;
        assert((b >> 7 == 1) == (b >= 0x80)) by (bit_vector);
        self.0 >> 7 == 1
    }

    /// Gives whether ADR ACK is requested (only meaningful for uplink).
    pub fn adr_ack_req(&self) -> (res: bool)
        ensures
            res == (self.1 && (self.0 / 64) % 2 == 1),
    {
        let b = self.0;
        assert((b & (1u8 << 6u8) != 0) == ((b / 64) % 2 == 1)) by (bit_vector);
        self.1 && self.0 & (1 << 6) != 0
    }

    /// Gives whether ack bit is set.
    pub fn ack(&self) -> (res: bool)
        ensures
            res == ((self.0 / 32) % 2 == 1),
    {
        let b = self.0;
        assert((b & (1u8 << 5u8) != 0) == ((b / 32) % 2 == 1)) by (bit_vector);
        self.0 & (1 << 5) != 0
    }

    /// Gives whether there are more payloads pending (only meaningful for downlink).
    pub fn f_pending(&self) -> (res: bool)
        ensures
            res == (!self.1 && (self.0 / 16) % 2 == 1),
    {
        let b = self.0;
        assert((b & (1u8 << 4u8) != 0) == ((b / 16) % 2 == 1)) by (bit_vector);
        !self.1 && self.0 & (1 << 4) != 0
    }

    /// Gives the size of FOpts.
    pub fn f_opts_len(&self) -> (res: u8)
        ensures
            res == self.0 % 16,
    {
        let b = self.0;
        proof {
            crate::encoding::maccommands::lemma_byte_fields(b);
        }
        self.0 & 0x0f
    }

    /// Gives the binary representation of the FCtrl.
    pub fn raw_value(&self) -> (res: u8)
        ensures
            res == self.0,
    {
        self.0
    }
}

/// Length of the FHDR given its FCtrl byte.
pub fn fhdr_length(b: u8) -> (res: usize)
    ensures
        res == spec_fhdr_length(b),
{
    proof {
        crate::encoding::maccommands::lemma_byte_fields(b);
    }
    7 + (b & 0x0f) as usize
}

/// FHDR represents FHDR from DataPayload: DevAddr, FCtrl, FCnt and FOpts.
#[derive(Debug, PartialEq, Eq)]
pub struct FHDR {
    data: Vec<u8>,
    uplink: bool,
}

impl FHDR {
    #[verifier::type_invariant]
    spec fn inv(&self) -> bool {
        self.data@.len() >= 7
    }

    /// The bytes of the header.
    pub closed spec fn bytes(&self) -> Seq<u8> {
        self.data@
    }

    /// Whether the header belongs to an uplink frame.
    pub closed spec fn is_uplink(&self) -> bool {
        self.uplink
    }

    /// Takes the bytes without checking that the FOpts are all there.
    pub fn new_from_raw(bytes: &[u8], uplink: bool) -> (res: FHDR)
        requires
            bytes@.len() >= 7,
        ensures
            res.bytes() == bytes@,
            res.is_uplink() == uplink,
    {
        let mut v: Vec<u8> = Vec::new();
        let mut i: usize = 0;
        while i < bytes.len()
            invariant
                i <= bytes@.len(),
                v@ == bytes@.subrange(0, i as int),
            decreases bytes@.len() - i,
        {
            v.push(bytes[i]);
            i = i + 1;
            assert(v@ =~= bytes@.subrange(0, i as int));
        }
        assert(bytes@.subrange(0, bytes@.len() as int) =~= bytes@);
        FHDR { data: v, uplink }
    }

    /// Takes the bytes if they hold at least the fixed part and all the FOpts that the
    /// FCtrl announces.
    pub fn new(bytes: &[u8], uplink: bool) -> (res: Option<FHDR>)
        ensures
            res is Some <==> (bytes@.len() >= 7 && bytes@.len() >= spec_fhdr_length(bytes@[4])),
            res matches Some(h) ==> h.bytes() == bytes@ && h.is_uplink() == uplink,
    {
        let data_len = bytes.len();
        if data_len < 7 {
            return None;
        }
        if data_len < fhdr_length(bytes[4]) {
            return None;
        }
        Some(Self::new_from_raw(bytes, uplink))
    }

    /// The header is never shorter than seven bytes.
    pub fn len_at_least_7(&self) -> (res: usize)
        ensures
            res == self.bytes().len(),
            res >= 7,
    {
        proof {
            use_type_invariant(self);
        }
        self.data.len()
    }

    /// Gives the device address associated with the given payload.
    pub fn dev_addr(&self) -> (res: DevAddr)
        ensures
            res.0@ == self.bytes().subrange(0, 4),
    {
        proof {
            use_type_invariant(self);
        }
        DevAddr(read_bytes::<4>(self.data.as_slice(), 0))
    }

    /// Gives the FCtrl associated with the given payload.
    pub fn fctrl(&self) -> (res: FCtrl)
        ensures
            res.0 == self.bytes()[4],
            res.1 == self.is_uplink(),
    {
        proof {
            use_type_invariant(self);
        }
        FCtrl(self.data[4], self.uplink)
    }

    /// Gives the truncated FCnt associated with the given payload.
    pub fn fcnt(&self) -> (res: u16)
        ensures
            res == self.bytes()[5] + 256 * self.bytes()[6],
    {
        proof {
            use_type_invariant(self);
        }
        let lo = self.data[5] as u16;
        let hi = self.data[6] as u16;
        assert((hi << 8) | lo == lo + 256 * hi) by (bit_vector)
            requires
                lo < 256,
                hi < 256,
        ;
        (hi << 8) | lo
    }

    /// Gives the number of FOpts bytes that FCtrl announces.
    pub fn fopts_len(&self) -> (res: u8)
        ensures
            res == self.bytes()[4] % 16,
    {
        proof {
            use_type_invariant(self);
        }
        FCtrl(self.data[4], self.uplink).f_opts_len()
    }

    /// The FOpts bytes: what follows the fixed seven bytes.
    pub fn data(&self) -> (res: Vec<u8>)
        ensures
            res@ == self.bytes().subrange(7, self.bytes().len() as int),
    {
        proof {
            use_type_invariant(self);
        }
        let mut v: Vec<u8> = Vec::new();
        let mut i: usize = 7;
        while i < self.data.len()
            invariant
                7 <= i <= self.data@.len(),
                v@ == self.data@.subrange(7, i as int),
            decreases self.data@.len() - i,
        {
            v.push(self.data[i]);
            i = i + 1;
            assert(v@ =~= self.data@.subrange(7, i as int));
        }
        v
    }
}

/// FRMMacCommands represents the mac commands carried in a FRMPayload with FPort 0.
#[derive(Debug, Clone, PartialEq, Eq)]
pub struct FRMMacCommands(pub bool, pub Vec<u8>);

impl FRMMacCommands {
    pub fn new(bytes: Vec<u8>, uplink: bool) -> (res: Self)
        ensures
            res.0 == uplink,
            res.1@ == bytes@,
    {
        FRMMacCommands(uplink, bytes)
    }
}

/// FRMPayload represents the FRMPayload that can either be the application
/// data or mac commands.
#[derive(Debug, Clone, PartialEq, Eq)]
pub enum FRMPayload {
    Data(Vec<u8>),
    MACCommands(FRMMacCommands),
    Empty,
}

} // verus!

verus! {

/// Copies the bytes `start..end` of `s`.
pub(crate) fn copy_range(s: &[u8], start: usize, end: usize) -> (res: Vec<u8>)
    requires
        start <= end <= s@.len(),
    ensures
        res@ == s@.subrange(start as int, end as int),
{
    let mut v: Vec<u8> = Vec::new();
    let mut i: usize = start;
    while i < end
        invariant
            start <= i <= end <= s@.len(),
            v@ == s@.subrange(start as int, i as int),
        decreases end - i,
    {
        v.push(s[i]);
        i = i + 1;
        assert(v@ =~= s@.subrange(start as int, i as int));
    }
    v
}

/// The FPort of a data frame, if the frame is long enough to carry one.
pub open spec fn spec_f_port(b: Seq<u8>) -> Option<u8> {
    if spec_fhdr_length(b[5]) + 1 >= b.len() - 5 {
        None
    } else {
        Some(b[1 + spec_fhdr_length(b[5])])
    }
}

/// Trait of the payload types that are backed by the bytes of a whole frame.
pub trait AsPhyPayloadBytes {
    /// The bytes of the frame.
    spec fn phy_bytes(&self) -> Seq<u8>;

    /// The bytes of the frame; every frame has at least twelve.
    fn as_bytes(&self) -> (res: &[u8])
        ensures
            res@ == self.phy_bytes(),
            res@.len() >= 12,
    ;
}

/// Helper trait to add mic to all types that should have it.
pub trait MICAble: AsPhyPayloadBytes {
    /// Gives the MIC of the PhyPayload: its last four bytes.
    fn mic(&self) -> (res: MIC)
        ensures
            res.0@ == last4(self.phy_bytes()),
    {
        let data = self.as_bytes();
        let len = data.len();
        let m = [data[len - 4], data[len - 3], data[len - 2], data[len - 1]];
        assert(m@ =~= last4(self.phy_bytes()));
        MIC(m)
    }
}

/// Helper trait to add mhdr to all types that should have it.
pub trait MHDRAble: AsPhyPayloadBytes {
    /// Gives the MHDR of the PhyPayload: its first byte.
    fn mhdr(&self) -> (res: MHDR)
        ensures
            res.0 == self.phy_bytes()[0],
    {
        let data = self.as_bytes();
        MHDR(data[0])
    }
}

/// Helper trait for EncryptedDataPayload and DecryptedDataPayload.
pub trait DataHeader {
    /// The bytes of the data frame.
    spec fn data_bytes(&self) -> Seq<u8>;

    /// Equivalent to AsRef<[u8]>.
    fn as_data_bytes(&self) -> (res: &[u8])
        ensures
            res@ == self.data_bytes(),
            data_ok(res@),
    ;

    /// Gives the FHDR of the DataPayload.
    fn fhdr(&self) -> (res: FHDR)
        ensures
            res.bytes() == self.data_bytes().subrange(1, 1 + spec_fhdr_length(self.data_bytes()[5])),
            res.is_uplink() == is_uplink_mtype(mtype_of(self.data_bytes()[0])),
    {
        let data = self.as_data_bytes();
        let fl = fhdr_length(data[5]);
        let v = copy_range(data, 1, 1 + fl);
        FHDR::new_from_raw(v.as_slice(), self.is_uplink())
    }

    /// Gives whether the frame is confirmed
    fn is_confirmed(&self) -> (res: bool)
        ensures
            res == is_confirmed_mtype(mtype_of(self.data_bytes()[0])),
    {
        let mtype = MHDR(self.as_data_bytes()[0]).mtype();
        mtype == MType::ConfirmedDataUp || mtype == MType::ConfirmedDataDown
    }

    /// Gives whether the payload is uplink or not.
    fn is_uplink(&self) -> (res: bool)
        ensures
            res == is_uplink_mtype(mtype_of(self.data_bytes()[0])),
    {
        let mtype = MHDR(self.as_data_bytes()[0]).mtype();
        mtype == MType::UnconfirmedDataUp || mtype == MType::ConfirmedDataUp
    }

    /// Gives the FPort of the DataPayload if there is one.
    fn f_port(&self) -> (res: Option<u8>)
        ensures
            res == spec_f_port(self.data_bytes()),
    {
        let fhdr_length = self.fhdr_length();
        let data = self.as_data_bytes();
        if fhdr_length + 1 >= data.len() - 5 {
            return None;
        }
        Some(data[1 + fhdr_length])
    }

    /// Gives the length of the FHDR field.
    fn fhdr_length(&self) -> (res: usize)
        ensures
            res == spec_fhdr_length(self.data_bytes()[5]),
    {
        fhdr_length(self.as_data_bytes()[5])
    }
}

/// JoinRequestPayload represents a JoinRequest.
#[derive(Debug, PartialEq, Eq)]
pub struct JoinRequestPayload(Vec<u8>, DefaultFactory);

impl JoinRequestPayload {
    #[verifier::type_invariant]
    spec fn inv(&self) -> bool {
        join_request_ok(self.0@)
    }

    /// Creates a new JoinRequestPayload if the provided data is acceptable.
    pub fn new_with_factory(data: Vec<u8>, factory: DefaultFactory) -> (res: Result<Self, &'static str>)
        ensures
            res is Ok <==> join_request_ok(data@),
            res matches Ok(p) ==> p.phy_bytes() == data@,
            res matches Err(e) ==> e@ == "can not build JoinRequestPayload from the provided data"@,
    {
        if !Self::can_build_from(data.as_slice()) {
            Err("can not build JoinRequestPayload from the provided data")
        } else {
            Ok(Self(data, factory))
        }
    }

    fn can_build_from(bytes: &[u8]) -> (res: bool)
        ensures
            res == join_request_ok(bytes@),
    {
        bytes.len() == 23 && MHDR(bytes[0]).mtype() == MType::JoinRequest
    }

    /// Gives the APP EUI of the JoinRequest.
    pub fn app_eui(&self) -> (res: EUI64)
        ensures
            res.0@ == self.phy_bytes().subrange(1, 9),
    {
        proof {
            use_type_invariant(self);
        }
        EUI64(read_bytes::<8>(self.0.as_slice(), 1))
    }

    /// Gives the DEV EUI of the JoinRequest.
    pub fn dev_eui(&self) -> (res: EUI64)
        ensures
            res.0@ == self.phy_bytes().subrange(9, 17),
    {
        proof {
            use_type_invariant(self);
        }
        EUI64(read_bytes::<8>(self.0.as_slice(), 9))
    }

    /// Gives the DEV Nonce of the JoinRequest.
    pub fn dev_nonce(&self) -> (res: DevNonce)
        ensures
            res.0@ == self.phy_bytes().subrange(17, 19),
    {
        proof {
            use_type_invariant(self);
        }
        DevNonce(read_bytes::<2>(self.0.as_slice(), 17))
    }

    /// Verifies that the JoinRequest has correct MIC.
    pub fn validate_mic(&self, key: &AES128) -> (res: bool)
        ensures
            res == (last4(self.phy_bytes()) == spec_mic(key.0@, without_mic(self.phy_bytes()))),
    {
        let m = self.mic();
        let c = self.calculate_mic(key);
        let r = m.0[0] == c.0[0] && m.0[1] == c.0[1] && m.0[2] == c.0[2] && m.0[3] == c.0[3];
        assert(r <==> m.0@ =~= c.0@);
        r
    }

    fn calculate_mic(&self, key: &AES128) -> (res: MIC)
        ensures
            res.0@ == spec_mic(key.0@, without_mic(self.phy_bytes())),
    {
        proof {
            use_type_invariant(self);
        }
        let d = self.0.as_slice();
        let v = copy_range(d, 0, d.len() - 4);
        calculate_mic(v.as_slice(), key)
    }
}

impl AsPhyPayloadBytes for JoinRequestPayload {
    closed spec fn phy_bytes(&self) -> Seq<u8> {
        self.0@
    }

    fn as_bytes(&self) -> (res: &[u8]) {
        proof {
            use_type_invariant(self);
        }
        self.0.as_slice()
    }
}

impl MICAble for JoinRequestPayload {}

impl MHDRAble for JoinRequestPayload {}

/// EncryptedJoinAcceptPayload represents an encrypted JoinAccept.
#[derive(Debug, PartialEq, Eq)]
pub struct EncryptedJoinAcceptPayload(Vec<u8>, DefaultFactory);

impl EncryptedJoinAcceptPayload {
    #[verifier::type_invariant]
    spec fn inv(&self) -> bool {
        join_accept_ok(self.0@)
    }

    /// Creates a new EncryptedJoinAcceptPayload if the provided data is acceptable.
    pub fn new_with_factory(data: Vec<u8>, factory: DefaultFactory) -> (res: Result<Self, &'static str>)
        ensures
            res is Ok <==> join_accept_ok(data@),
            res matches Ok(p) ==> p.phy_bytes() == data@,
            res matches Err(e) ==> e@ == "can not build EncryptedJoinAcceptPayload from the provided data"@,
    {
        if Self::can_build_from(data.as_slice()) {
            Ok(Self(data, factory))
        } else {
            Err("can not build EncryptedJoinAcceptPayload from the provided data")
        }
    }

    fn can_build_from(bytes: &[u8]) -> (res: bool)
        ensures
            res == join_accept_ok(bytes@),
    {
        (bytes.len() == 17 || bytes.len() == 33) && MHDR(bytes[0]).mtype() == MType::JoinAccept
    }

    /// Gives up the frame's bytes and the crypto provider.
    pub fn into_parts(self) -> (res: (Vec<u8>, DefaultFactory))
        ensures
            res.0@ == self.phy_bytes(),
            join_accept_ok(res.0@),
    {
        proof {
            use_type_invariant(&self);
        }
        (self.0, self.1)
    }
}

impl AsPhyPayloadBytes for EncryptedJoinAcceptPayload {
    closed spec fn phy_bytes(&self) -> Seq<u8> {
        self.0@
    }

    fn as_bytes(&self) -> (res: &[u8]) {
        proof {
            use_type_invariant(self);
        }
        self.0.as_slice()
    }
}

impl MICAble for EncryptedJoinAcceptPayload {}

impl MHDRAble for EncryptedJoinAcceptPayload {}

/// EncryptedDataPayload represents an encrypted data payload.
#[derive(Debug, PartialEq, Eq)]
pub struct EncryptedDataPayload(Vec<u8>, DefaultFactory);

impl EncryptedDataPayload {
    #[verifier::type_invariant]
    spec fn inv(&self) -> bool {
        data_ok(self.0@)
    }

    /// Creates a new EncryptedDataPayload if the provided data is acceptable.
    pub fn new_with_factory(data: Vec<u8>, factory: DefaultFactory) -> (res: Result<Self, &'static str>)
        ensures
            res is Ok <==> data_ok(data@),
            res matches Ok(p) ==> p.data_bytes() == data@,
            res matches Err(e) ==> e@ == "can not build EncryptedDataPayload from the provided data"@,
    {
        if Self::can_build_from(data.as_slice()) {
            Ok(Self(data, factory))
        } else {
            Err("can not build EncryptedDataPayload from the provided data")
        }
    }

    fn can_build_from(bytes: &[u8]) -> (res: bool)
        ensures
            res == data_ok(bytes@),
    {
        let has_acceptable_len = bytes.len() >= 12 && 5 + fhdr_length(bytes[5]) <= bytes.len();
        if !has_acceptable_len {
            return false;
        }
        let t = MHDR(bytes[0]).mtype();
        t == MType::ConfirmedDataUp || t == MType::ConfirmedDataDown || t == MType::UnconfirmedDataUp
            || t == MType::UnconfirmedDataDown
    }

    /// Verifies that the DataPayload has correct MIC for the full frame counter `fcnt`.
    pub fn validate_mic(&self, key: &AES128, fcnt: u32) -> (res: bool)
        ensures
            res == (last4(self.data_bytes()) == spec_data_mic(key.0@, without_mic(self.data_bytes()), fcnt)),
    {
        let m = self.mic();
        let c = self.calculate_mic(key, fcnt);
        let r = m.0[0] == c.0[0] && m.0[1] == c.0[1] && m.0[2] == c.0[2] && m.0[3] == c.0[3];
        assert(r <==> m.0@ =~= c.0@);
        r
    }

    fn calculate_mic(&self, key: &AES128, fcnt: u32) -> (res: MIC)
        ensures
            res.0@ == spec_data_mic(key.0@, without_mic(self.data_bytes()), fcnt),
    {
        proof {
            use_type_invariant(self);
        }
        let d = self.0.as_slice();
        let v = copy_range(d, 0, d.len() - 4);
        calculate_data_mic(v.as_slice(), key, fcnt)
    }

    /// The frame's data bytes are its physical payload bytes.
    pub proof fn lemma_data_bytes(&self)
        ensures
            self.data_bytes() == self.phy_bytes(),
    {
    }

    /// Gives up the frame's bytes and the crypto provider.
    pub fn into_parts(self) -> (res: (Vec<u8>, DefaultFactory))
        ensures
            res.0@ == self.data_bytes(),
            data_ok(res.0@),
    {
        proof {
            use_type_invariant(&self);
        }
        (self.0, self.1)
    }
}

impl DataHeader for EncryptedDataPayload {
    closed spec fn data_bytes(&self) -> Seq<u8> {
        self.0@
    }

    fn as_data_bytes(&self) -> (res: &[u8]) {
        proof {
            use_type_invariant(self);
        }
        self.0.as_slice()
    }
}

impl AsPhyPayloadBytes for EncryptedDataPayload {
    closed spec fn phy_bytes(&self) -> Seq<u8> {
        self.0@
    }

    fn as_bytes(&self) -> (res: &[u8]) {
        proof {
            use_type_invariant(self);
        }
        self.0.as_slice()
    }
}

impl MICAble for EncryptedDataPayload {}

impl MHDRAble for EncryptedDataPayload {}

/// PhyPayload is a type that represents a physical LoRaWAN payload.
///
/// It can either be JoinRequest, JoinAccept, or DataPayload.
#[derive(Debug, PartialEq, Eq)]
pub enum PhyPayload {
    JoinRequest(JoinRequestPayload),
    JoinAccept(EncryptedJoinAcceptPayload),
    Data(EncryptedDataPayload),
}

impl PhyPayload {
    /// The bytes of the frame, whatever its kind.
    pub open spec fn bytes(&self) -> Seq<u8> {
        match self {
            PhyPayload::JoinRequest(jr) => jr.phy_bytes(),
            PhyPayload::JoinAccept(ja) => ja.phy_bytes(),
            PhyPayload::Data(d) => d.phy_bytes(),
        }
    }

    /// The bytes of the frame, whatever its kind.
    pub fn as_ref(&self) -> (res: &[u8])
        ensures
            res@ == self.bytes(),
    {
        match self {
            PhyPayload::JoinRequest(jr) => jr.as_bytes(),
            PhyPayload::JoinAccept(ja) => ja.as_bytes(),
            PhyPayload::Data(data) => data.as_bytes(),
        }
    }
}

/// The error, if any, that the checks common to all frames find in `b`.
pub open spec fn spec_check_phy_data(b: Seq<u8>) -> Option<Seq<char>> {
    if b.len() == 0 {
        Some("can not parse empty payload as LoRaWAN phy payload"@)
    } else if major_of(b[0]) != Major::LoRaWANR1 {
        Some("Unsupported major version"@)
    } else if b.len() < 12 {
        Some("insufficient number of bytes"@)
    } else {
        None
    }
}

/// The error that parsing `b` as a LoRaWAN physical payload gives, when it does not
/// parse: that of the common checks, or that of the frame type's constructor.
pub open spec fn spec_parse_error(b: Seq<u8>) -> Seq<char> {
    match spec_check_phy_data(b) {
        Some(m) => m,
        None => match mtype_of(b[0]) {
            MType::JoinRequest => "can not build JoinRequestPayload from the provided data"@,
            MType::JoinAccept => "can not build EncryptedJoinAcceptPayload from the provided data"@,
            MType::RFU | MType::Proprietary => "unsupported message type"@,
            _ => "can not build EncryptedDataPayload from the provided data"@,
        },
    }
}

/// Whether `b` parses as a LoRaWAN physical payload.
pub open spec fn spec_parses(b: Seq<u8>) -> bool {
    spec_check_phy_data(b) is None && match mtype_of(b[0]) {
        MType::JoinRequest => join_request_ok(b),
        MType::JoinAccept => join_accept_ok(b),
        MType::RFU | MType::Proprietary => false,
        _ => data_ok(b),
    }
}

fn check_phy_data(bytes: &[u8]) -> (res: Result<(), &'static str>)
    ensures
        res is Ok <==> spec_check_phy_data(bytes@) is None,
        res matches Err(e) ==> spec_check_phy_data(bytes@) == Some(e@),
{
    let len = bytes.len();
    if len == 0 {
        return Err("can not parse empty payload as LoRaWAN phy payload");
    }
    let mhdr = MHDR(bytes[0]);
    if mhdr.major() != Major::LoRaWANR1 {
        return Err("Unsupported major version");
    }
    // the smallest payload is a data payload without fport and FRMPayload
    // which is 12 bytes long.
    if len < 12 {
        Err("insufficient number of bytes")
    } else {
        Ok(())
    }
}

/// Parses a payload as LoRaWAN physical payload, with the default crypto provider.
pub fn parse(data: Vec<u8>) -> (res: Result<PhyPayload, &'static str>)
    ensures
        res is Ok <==> spec_parses(data@),
        res matches Ok(p) ==> p.bytes() == data@ && match p {
            PhyPayload::JoinRequest(_) => mtype_of(data@[0]) == MType::JoinRequest,
            PhyPayload::JoinAccept(_) => mtype_of(data@[0]) == MType::JoinAccept,
            PhyPayload::Data(_) => is_data_mtype(mtype_of(data@[0])),
        },
        res matches Err(e) ==> e@ == spec_parse_error(data@),
{
    parse_with_factory(data, DefaultFactory)
}

/// Parses a payload as LoRaWAN physical payload.
///
/// Returns error "Unsupported major version" if the major version is unsupported.
pub fn parse_with_factory(data: Vec<u8>, factory: DefaultFactory) -> (res: Result<PhyPayload, &'static str>)
    ensures
        res is Ok <==> spec_parses(data@),
        res matches Ok(p) ==> p.bytes() == data@ && match p {
            PhyPayload::JoinRequest(_) => mtype_of(data@[0]) == MType::JoinRequest,
            PhyPayload::JoinAccept(_) => mtype_of(data@[0]) == MType::JoinAccept,
            PhyPayload::Data(_) => is_data_mtype(mtype_of(data@[0])),
        },
        res matches Err(e) ==> e@ == spec_parse_error(data@),
{
    if let Err(e) = check_phy_data(data.as_slice()) {
        return Err(e);
    }
    match MHDR(data[0]).mtype() {
        MType::JoinRequest => match JoinRequestPayload::new_with_factory(data, factory) {
            Ok(p) => Ok(PhyPayload::JoinRequest(p)),
            Err(e) => Err(e),
        },
        MType::JoinAccept => match EncryptedJoinAcceptPayload::new_with_factory(data, factory) {
            Ok(p) => Ok(PhyPayload::JoinAccept(p)),
            Err(e) => Err(e),
        },
        MType::UnconfirmedDataUp
        | MType::ConfirmedDataUp
        | MType::UnconfirmedDataDown
        | MType::ConfirmedDataDown => match EncryptedDataPayload::new_with_factory(data, factory) {
            Ok(p) => Ok(PhyPayload::Data(p)),
            Err(e) => Err(e),
        },
        _ => Err("unsupported message type"),
    }
}

/// The full 32-bit frame counter whose high half comes from `old_fcnt` and whose low
/// half is the transmitted 16-bit `fcnt`.
pub open spec fn spec_compute_fcnt(old_fcnt: u32, fcnt: u16) -> int {
    (old_fcnt / 65536) * 65536 + fcnt
}

pub(crate) fn compute_fcnt(old_fcnt: u32, fcnt: u16) -> (res: u32)
    ensures
        res == spec_compute_fcnt(old_fcnt, fcnt),
{
    let f = fcnt as u32;
    assert(((old_fcnt >> 16) << 16) ^ f == (old_fcnt / 65536) * 65536 + f) by (bit_vector)
        requires
            f < 65536,
    ;
    ((old_fcnt >> 16) << 16) ^ (fcnt as u32)
}

} // verus!

verus! {

/// The channel list that a JoinAccept may carry.
#[derive(Debug, Clone, Copy, PartialEq, Eq)]
pub enum CfList {
    /// Five additional channel frequencies.
    DynamicChannel([crate::frequency::Frequency; 5]),
    /// Channel masks of a fixed channel plan.
    FixedChannel([crate::channel_mask::ChannelMask; 4]),
}

} // verus!
