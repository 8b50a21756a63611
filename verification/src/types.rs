//! The durable data model: protocol sizing, sealed share boxes, and the
//! keystore a successful key generation leaves behind.

use vstd::prelude::*;

use crate::primitives::vss_ncoms;
use crate::primitives::FieldScalar;
use crate::primitives::GroupPoint;
use crate::primitives::PartyKeys;
use crate::primitives::VssScheme;
use kzen_paillier::EncryptionKey;
use multi_party_ecdsa::protocols::multi_party_ecdsa::gg_2018::party_i::SharedKeys;

verus! {

/// An AES-GCM sealed box: the ciphertext and its authentication tag.
#[derive(Clone, PartialEq, Debug)]
pub struct AEAD {
    pub ciphertext: Vec<u8>,
    pub tag: Vec<u8>,
}

impl Default for AEAD {
    /// The empty box, used only as a structural placeholder for a party's
    /// own slot while collecting encrypted shares.
    fn default() -> (r: Self)
        ensures
            r.ciphertext@.len() == 0,
            r.tag@.len() == 0,
    {
        AEAD { ciphertext: Vec::new(), tag: Vec::new() }
    }
}

/// Protocol sizing: `threshold` (t) and `share_count` (n).
#[derive(Clone, Copy, PartialEq, Eq, Structural, Debug)]
pub struct KeystoreParameters {
    pub threshold: u16,
    pub share_count: u16,
}

/// The durable output of distributed key generation, held privately by one
/// party: its long-term keys, its share of the joint secret, every peer's
/// VSS commitment and Paillier key, and the joint public point.
#[derive(Clone, Debug)]
pub struct Keystore {
    pub params: KeystoreParameters,
    pub party_key: PartyKeys,
    pub party_shares: Vec<FieldScalar>,
    pub shared_keys: SharedKeys,
    pub party_index: usize,
    pub vss_scheme_vec: Vec<VssScheme>,
    pub paillier_key_vec: Vec<EncryptionKey>,
    pub y_sum: GroupPoint,
}

impl Keystore {
    /// Well-formedness: the per-party vectors are sized by `share_count`,
    /// the party's own index is in range, the threshold leaves room for at
    /// least one other share, and every VSS scheme carries at least one
    /// commitment.
    pub open spec fn wf(self) -> bool {
        &&& self.params.threshold < self.params.share_count
        &&& (self.party_index as int) < self.params.share_count as int
        &&& self.party_shares@.len() == self.params.share_count as int
        &&& self.vss_scheme_vec@.len() == self.params.share_count as int
        &&& self.paillier_key_vec@.len() == self.params.share_count as int
        &&& forall|i: int|
            0 <= i < self.vss_scheme_vec@.len() ==> vss_ncoms(#[trigger] self.vss_scheme_vec@[i])
                >= 1
    }

    /// Runtime mirror of [`Keystore::wf`], for callers that receive a
    /// keystore from storage or from another component.
    pub fn check(&self) -> (b: bool)
        ensures
            b == self.wf(),
    {
        if !(self.params.threshold < self.params.share_count) {
            return false;
        }
        if !(self.party_index < self.params.share_count as usize) {
            return false;
        }
        if self.party_shares.len() != self.params.share_count as usize {
            return false;
        }
        if self.vss_scheme_vec.len() != self.params.share_count as usize {
            return false;
        }
        if self.paillier_key_vec.len() != self.params.share_count as usize {
            return false;
        }
        let mut i: usize = 0;
        while i < self.vss_scheme_vec.len()
            invariant
                0 <= i <= self.vss_scheme_vec@.len(),
                forall|k: int| 0 <= k < i ==> vss_ncoms(#[trigger] self.vss_scheme_vec@[k]) >= 1,
            decreases self.vss_scheme_vec@.len() - i,
        {
            if crate::primitives::vss_commitments_len(&self.vss_scheme_vec[i]) < 1 {
                return false;
            }
            i = i + 1;
        }
        true
    }
}

} // verus!
