//! Symmetric sealing of secret shares with AES-256-GCM, as `rust-crypto`
//! implements it, under the protocol's fixed nonce.

use vstd::prelude::*;

use crate::types::AEAD;
use crypto::aead::AeadDecryptor;
use crypto::aead::AeadEncryptor;
use crypto::aes::KeySize::KeySize256;
use crypto::aes_gcm::AesGcm;
use std::iter::repeat;

verus! {

/// The ciphertext that sealing `plaintext` under `key` produces.
pub uninterp spec fn aes_ct_spec(key: Seq<u8>, plaintext: Seq<u8>) -> Seq<u8>;

/// The authentication tag that sealing `plaintext` under `key` produces.
pub uninterp spec fn aes_tag_spec(key: Seq<u8>, plaintext: Seq<u8>) -> Seq<u8>;

/// What opening a box under `key` yields.  When the tag does not
/// authenticate, the output is all zero bytes; either way it is a function
/// of the three arguments.
pub uninterp spec fn aes_open_spec(key: Seq<u8>, ciphertext: Seq<u8>, tag: Seq<u8>) -> Seq<u8>;

/// Relies on `rust-crypto`'s `AesGcm`: AES-256-GCM under the fixed twelve-
/// byte nonce `3` and empty additional data.  Sealing is deterministic in
/// the key and plaintext, the ciphertext is as long as the plaintext, and
/// opening the box under the same key yields the plaintext back.  The
/// cipher constructor accepts only 32-byte keys.
#[verifier::external_body]
pub fn aes_encrypt(key: &[u8], plaintext: &[u8]) -> (r: AEAD)
    requires
        key@.len() == 32,
    ensures
        r.ciphertext@ == aes_ct_spec(key@, plaintext@),
        r.tag@ == aes_tag_spec(key@, plaintext@),
        r.ciphertext@.len() == plaintext@.len(),
        r.tag@.len() == 16,
        aes_open_spec(key@, r.ciphertext@, r.tag@) == plaintext@,
{
    let nonce: Vec<u8> = repeat(3).take(12).collect();
    let aad: [u8; 0] = [];
    let mut gcm = AesGcm::new(KeySize256, key, &nonce[..], &aad);
    let mut out: Vec<u8> = repeat(0).take(plaintext.len()).collect();
    let mut out_tag: Vec<u8> = repeat(0).take(16).collect();
    gcm.encrypt(plaintext, &mut out[..], &mut out_tag[..]);
    AEAD { ciphertext: out, tag: out_tag }
}

/// Relies on `rust-crypto`'s `AesGcm`: opens a box sealed by
/// [`aes_encrypt`].  When the tag fails to authenticate the output stays
/// all zero; the cipher constructor accepts only 32-byte keys.
#[verifier::external_body]
pub fn aes_decrypt(key: &[u8], aead_pack: AEAD) -> (r: Vec<u8>)
    requires
        key@.len() == 32,
    ensures
        r@ == aes_open_spec(key@, aead_pack.ciphertext@, aead_pack.tag@),
        r@.len() == aead_pack.ciphertext@.len(),
{
    let mut out: Vec<u8> = repeat(0).take(aead_pack.ciphertext.len()).collect();
    let nonce: Vec<u8> = repeat(3).take(12).collect();
    let aad: [u8; 0] = [];
    let mut gcm = AesGcm::new(KeySize256, key, &nonce[..], &aad);
    gcm.decrypt(&aead_pack.ciphertext[..], &mut out, &aead_pack.tag[..]);
    out
}

} // verus!
