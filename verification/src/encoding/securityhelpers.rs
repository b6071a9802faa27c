use vstd::prelude::*;

use super::default_crypto::{aes128_cmac, aes128_cmac_tag, aes128_encrypt, aes128_encrypt_block};
use super::keys::{AES128, MIC};

verus! {

/// The four little-endian bytes of `x`.
pub open spec fn u32_le(x: u32) -> Seq<u8> {
    seq![
        (x % 256) as u8,
        ((x / 256) % 256) as u8,
        ((x / 65536) % 256) as u8,
        ((x / 16777216) % 256) as u8,
    ]
}

/// The direction bit of a data frame's MHDR: 0 for uplink, 1 for downlink.
pub open spec fn dir_bit(mhdr: u8) -> u8 {
    (mhdr & 0x20) >> 5
}

/// The MIC of `message` under `key`: the first four bytes of its AES-CMAC.
pub open spec fn spec_mic(key: Seq<u8>, message: Seq<u8>) -> Seq<u8> {
    Seq::new(4, |i: int| aes128_cmac(key, message)[i])
}

/// Block B0 that is prepended to a data frame (MHDR..FRMPayload) before its MIC is
/// computed.
pub open spec fn data_mic_block(data: Seq<u8>, fcnt: u32) -> Seq<u8> {
    seq![0x49u8, 0u8, 0u8, 0u8, 0u8, dir_bit(data[0])] + data.subrange(1, 5) + u32_le(fcnt) + seq![
        0u8,
        (data.len() % 256) as u8,
    ]
}

/// The MIC of a data frame (MHDR..FRMPayload) for frame counter `fcnt`.
pub open spec fn spec_data_mic(key: Seq<u8>, data: Seq<u8>, fcnt: u32) -> Seq<u8> {
    spec_mic(key, data_mic_block(data, fcnt) + data)
}

/// Block A_i from which the i-th keystream block of a FRMPayload is derived.
pub open spec fn frm_block(dir: u8, dev_addr: Seq<u8>, fcnt: u32, i: int) -> Seq<u8> {
    seq![0x01u8, 0u8, 0u8, 0u8, 0u8, dir] + dev_addr + u32_le(fcnt) + seq![0u8, (i % 256) as u8]
}

proof fn lemma_frm_block(dir: u8, dev_addr: Seq<u8>, fcnt: u32, i: int)
    requires
        dev_addr.len() == 4,
    ensures
        frm_block(dir, dev_addr, fcnt, i).len() == 16,
        frm_block(dir, dev_addr, fcnt, i)[0] == 1,
        frm_block(dir, dev_addr, fcnt, i)[1] == 0,
        frm_block(dir, dev_addr, fcnt, i)[2] == 0,
        frm_block(dir, dev_addr, fcnt, i)[3] == 0,
        frm_block(dir, dev_addr, fcnt, i)[4] == 0,
        frm_block(dir, dev_addr, fcnt, i)[5] == dir,
        frm_block(dir, dev_addr, fcnt, i)[6] == dev_addr[0],
        frm_block(dir, dev_addr, fcnt, i)[7] == dev_addr[1],
        frm_block(dir, dev_addr, fcnt, i)[8] == dev_addr[2],
        frm_block(dir, dev_addr, fcnt, i)[9] == dev_addr[3],
        frm_block(dir, dev_addr, fcnt, i)[10] == (fcnt % 256) as u8,
        frm_block(dir, dev_addr, fcnt, i)[11] == ((fcnt / 256) % 256) as u8,
        frm_block(dir, dev_addr, fcnt, i)[12] == ((fcnt / 65536) % 256) as u8,
        frm_block(dir, dev_addr, fcnt, i)[13] == ((fcnt / 16777216) % 256) as u8,
        frm_block(dir, dev_addr, fcnt, i)[14] == 0,
        frm_block(dir, dev_addr, fcnt, i)[15] == (i % 256) as u8,
{
}

/// Byte `k` of the FRMPayload keystream.
pub open spec fn keystream_byte(key: Seq<u8>, dir: u8, dev_addr: Seq<u8>, fcnt: u32, k: int) -> u8 {
    aes128_encrypt(key, frm_block(dir, dev_addr, fcnt, k / 16 + 1))[k % 16]
}

/// `data` with the bytes in `start..end` XORed with the keystream for the direction and
/// device address found in `data` itself; the other bytes are unchanged.
pub open spec fn spec_crypt_range(data: Seq<u8>, start: int, end: int, fcnt: u32, key: Seq<u8>) -> Seq<u8> {
    Seq::new(
        data.len(),
        |k: int|
            if start <= k < end {
                data[k] ^ keystream_byte(key, dir_bit(data[0]), data.subrange(1, 5), fcnt, k - start)
            } else {
                data[k]
            },
    )
}

/// Computes the MIC of `data` under `key`.
pub fn calculate_mic(data: &[u8], key: &AES128) -> (res: MIC)
    ensures
        res.0@ == spec_mic(key.0@, data@),
{
    let tag = aes128_cmac_tag(&key.0, data);
    let mic = [tag[0], tag[1], tag[2], tag[3]];
    assert(mic@ =~= spec_mic(key.0@, data@));
    MIC(mic)
}

fn push_u32_le(v: &mut Vec<u8>, x: u32)
    ensures
        final(v)@ == old(v)@ + u32_le(x),
{
    v.push((x & 0xff) as u8);
    v.push(((x >> 8) & 0xff) as u8);
    v.push(((x >> 16) & 0xff) as u8);
    v.push(((x >> 24) & 0xff) as u8);
    assert((x & 0xff) == x % 256) by (bit_vector);
    assert(((x >> 8) & 0xff) == (x / 256) % 256) by (bit_vector);
    assert(((x >> 16) & 0xff) == (x / 65536) % 256) by (bit_vector);
    assert(((x >> 24) & 0xff) == (x / 16777216) % 256) by (bit_vector);
    assert(final(v)@ =~= old(v)@ + u32_le(x));
}

fn extend_from(v: &mut Vec<u8>, s: &[u8])
    ensures
        final(v)@ == old(v)@ + s@,
{
    let mut i: usize = 0;
    while i < s.len()
        invariant
            i <= s@.len(),
            v@ == old(v)@ + s@.subrange(0, i as int),
        decreases s@.len() - i,
    {
        v.push(s[i]);
        i = i + 1;
        assert(v@ =~= old(v)@ + s@.subrange(0, i as int));
    }
    assert(s@.subrange(0, s@.len() as int) =~= s@);
}

/// Computes the MIC of a data frame (MHDR..FRMPayload) for frame counter `fcnt`.
pub fn calculate_data_mic(data: &[u8], key: &AES128, fcnt: u32) -> (res: MIC)
    requires
        data@.len() >= 5,
    ensures
        res.0@ == spec_data_mic(key.0@, data@, fcnt),
{
    let mut b0: Vec<u8> = Vec::new();
    b0.push(0x49);
    b0.push(0);
    b0.push(0);
    b0.push(0);
    b0.push(0);
    b0.push((data[0] & 0x20) >> 5);
    b0.push(data[1]);
    b0.push(data[2]);
    b0.push(data[3]);
    b0.push(data[4]);
    push_u32_le(&mut b0, fcnt);
    b0.push(0);
    b0.push((data.len() % 256) as u8);
    assert(b0@ =~= data_mic_block(data@, fcnt));
    extend_from(&mut b0, data);
    calculate_mic(b0.as_slice(), key)
}

/// XORs the bytes `start..end` of a data frame with the FRMPayload keystream (this both
/// encrypts and decrypts).
pub fn encrypt_frm_data_payload(phy_payload: &mut Vec<u8>, start: usize, end: usize, fcnt: u32, key: &AES128)
    requires
        5 <= start <= end <= old(phy_payload)@.len(),
    ensures
        final(phy_payload)@ == spec_crypt_range(old(phy_payload)@, start as int, end as int, fcnt, key.0@),
{
    let ghost orig = phy_payload@;
    let dir = (phy_payload[0] & 0x20) >> 5;
    assert((fcnt & 0xff) == fcnt % 256) by (bit_vector);
    assert(((fcnt >> 8) & 0xff) == (fcnt / 256) % 256) by (bit_vector);
    assert(((fcnt >> 16) & 0xff) == (fcnt / 65536) % 256) by (bit_vector);
    assert(((fcnt >> 24) & 0xff) == (fcnt / 16777216) % 256) by (bit_vector);
    let f0 = (fcnt & 0xff) as u8;
    let f1 = ((fcnt >> 8) & 0xff) as u8;
    let f2 = ((fcnt >> 16) & 0xff) as u8;
    let f3 = ((fcnt >> 24) & 0xff) as u8;
    let mut a = [0u8; 16];
    a[0] = 0x01;
    a[5] = dir;
    a[6] = phy_payload[1];
    a[7] = phy_payload[2];
    a[8] = phy_payload[3];
    a[9] = phy_payload[4];
    a[10] = f0;
    a[11] = f1;
    a[12] = f2;
    a[13] = f3;
    a[14] = 0;
    let ghost dev_addr = orig.subrange(1, 5);
    let len = end - start;
    let mut k: usize = 0;
    while k < len
        invariant
            start + len == end,
            end <= orig.len(),
            5 <= start,
            k <= len,
            k < len ==> k % 16 == 0,
            phy_payload@.len() == orig.len(),
            dir == dir_bit(orig[0]),
            a[0] == 1 && a[1] == 0 && a[2] == 0 && a[3] == 0 && a[4] == 0 && a[5] == dir,
            a[6] == orig[1] && a[7] == orig[2] && a[8] == orig[3] && a[9] == orig[4],
            a[10] == (fcnt % 256) as u8 && a[11] == ((fcnt / 256) % 256) as u8,
            a[12] == ((fcnt / 65536) % 256) as u8 && a[13] == ((fcnt / 16777216) % 256) as u8,
            a[14] == 0,
            dev_addr == orig.subrange(1, 5),
            forall|j: int|
                0 <= j < orig.len() ==> #[trigger] phy_payload@[j] == if start <= j < start + k {
                    orig[j] ^ keystream_byte(key.0@, dir, dev_addr, fcnt, j - start)
                } else {
                    orig[j]
                },
        decreases len - k,
    {
        let block_index: usize = k / 16;
        a[15] = ((block_index + 1) % 256) as u8;
        let ghost ab = frm_block(dir, dev_addr, fcnt, block_index + 1);
        proof {
            lemma_frm_block(dir, dev_addr, fcnt, block_index + 1);
        }
        assert(a@ =~= ab);
        let s = aes128_encrypt_block(&key.0, &a);
        let mut j: usize = 0;
        let ghost k0 = k;
        while j < 16 && k < len
            invariant
                start + len == end,
                end <= orig.len(),
                k0 <= k <= len,
                k == k0 + j,
                j <= 16,
                block_index == k0 / 16,
                k0 == block_index * 16,
                phy_payload@.len() == orig.len(),
                s@ == aes128_encrypt(key.0@, frm_block(dir, dev_addr, fcnt, block_index + 1)),
                forall|i: int|
                    0 <= i < orig.len() ==> #[trigger] phy_payload@[i] == if start <= i < start + k {
                        orig[i] ^ keystream_byte(key.0@, dir, dev_addr, fcnt, i - start)
                    } else {
                        orig[i]
                    },
            decreases 16 - j,
        {
            let idx = start + k;
            let old_byte = phy_payload[idx];
            assert((k as int) / 16 == block_index && (k as int) % 16 == j) by {
                assert(k == block_index * 16 + j);
            }
            phy_payload.set(idx, old_byte ^ s[j]);
            j = j + 1;
            k = k + 1;
        }
        assert(k % 16 == 0 || k == len);
    }
    assert(phy_payload@ =~= spec_crypt_range(orig, start as int, end as int, fcnt, key.0@));
}

} // verus!

verus! {

/// Applying the FRMPayload keystream twice to the same range, with the same key and
/// frame counter, gives back the frame it started from: encryption and decryption are the same
/// operation.
pub proof fn lemma_crypt_range_involution(data: Seq<u8>, start: int, end: int, fcnt: u32, key: Seq<u8>)
    requires
        5 <= start <= end <= data.len(),
    ensures
        spec_crypt_range(spec_crypt_range(data, start, end, fcnt, key), start, end, fcnt, key) == data,
{
    let once = spec_crypt_range(data, start, end, fcnt, key);
    let twice = spec_crypt_range(once, start, end, fcnt, key);
    assert(once[0] == data[0]);
    assert(once.subrange(1, 5) =~= data.subrange(1, 5));
    assert forall|k: int| 0 <= k < data.len() implies twice[k] == data[k] by {
        if start <= k < end {
            let ks = keystream_byte(key, dir_bit(data[0]), data.subrange(1, 5), fcnt, k - start);
            let b = data[k];
            assert((b ^ ks) ^ ks == b) by (bit_vector);
        }
    }
    assert(twice =~= data);
}

} // verus!

verus! {

/// Encrypting a prefix of a frame is the prefix of encrypting the frame, provided the
/// range lies in the prefix.
pub proof fn lemma_crypt_range_prefix(a: Seq<u8>, b: Seq<u8>, start: int, end: int, fcnt: u32, key: Seq<u8>)
    requires
        5 <= start <= end <= a.len(),
    ensures
        spec_crypt_range(a + b, start, end, fcnt, key).subrange(0, a.len() as int) == spec_crypt_range(
            a,
            start,
            end,
            fcnt,
            key,
        ),
{
    assert((a + b).subrange(1, 5) =~= a.subrange(1, 5));
    assert(spec_crypt_range(a + b, start, end, fcnt, key).subrange(0, a.len() as int) =~= spec_crypt_range(
        a,
        start,
        end,
        fcnt,
        key,
    ));
}

} // verus!
