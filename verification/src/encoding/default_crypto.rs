use aes::cipher::{BlockEncrypt, KeyInit};
use aes::Aes128;
use cmac::Mac;
use generic_array::GenericArray;
use vstd::prelude::*;

verus! {

/// AES-128 encryption of one 16-byte block under `key` (FIPS 197).
pub uninterp spec fn aes128_encrypt(key: Seq<u8>, block: Seq<u8>) -> Seq<u8>;

/// AES-CMAC of `message` under the 128-bit `key` (RFC 4493).
pub uninterp spec fn aes128_cmac(key: Seq<u8>, message: Seq<u8>) -> Seq<u8>;

/// Provides the default implementation of the cryptographic primitives: AES-128
/// from the `aes` crate and AES-CMAC from the `cmac` crate.
#[derive(Default, Debug, PartialEq, Eq, Clone, Copy)]
pub struct DefaultFactory;

/// Encrypts one block with `aes::Aes128` (`KeyInit::new` then `BlockEncrypt::encrypt_block`).
/// Claimed: the result is the AES-128 encryption of `block` under `key`, a function of
/// these two arguments alone.
#[verifier::external_body]
pub(crate) fn aes128_encrypt_block(key: &[u8; 16], block: &[u8; 16]) -> (res: [u8; 16])
    ensures
        res@ == aes128_encrypt(key@, block@),
{
    let cipher = Aes128::new(GenericArray::from_slice(&key[..]));
    let mut b = GenericArray::clone_from_slice(&block[..]);
    cipher.encrypt_block(&mut b);
    b.into()
}

/// Computes `cmac::Cmac<aes::Aes128>` over `message` (`KeyInit::new`, `Mac::update`,
/// `Mac::finalize`). Claimed: the 16-byte tag is the AES-CMAC of `message` under `key`,
/// a function of these two arguments alone.
#[verifier::external_body]
pub(crate) fn aes128_cmac_tag(key: &[u8; 16], message: &[u8]) -> (res: [u8; 16])
    ensures
        res@ == aes128_cmac(key@, message@),
{
    let mut mac = <cmac::Cmac<Aes128> as KeyInit>::new(GenericArray::from_slice(&key[..]));
    mac.update(message);
    mac.finalize().into_bytes().into()
}

} // verus!
