//! Trusted boundary to the elliptic-curve, Paillier, VSS and zero-knowledge
//! primitives of `curv` and `multi-party-ecdsa`.  Every executable function
//! here is an `external_body` wrapper around one call into those crates; the
//! orchestration logic elsewhere in this crate is verified against the
//! contracts stated here.
//!
//! The generic `curv` types (`Point<E>`, `Scalar<E>`, ...) cannot be given
//! external type declarations, so each is held in a private field of an
//! opaque struct of this crate (`GroupPoint`, `FieldScalar`, ...).

use vstd::prelude::*;

use curv::cryptographic_primitives::proofs::sigma_correct_homomorphic_elgamal_enc::HomoELGamalProof;
use curv::cryptographic_primitives::proofs::sigma_dlog::DLogProof;
use curv::cryptographic_primitives::secret_sharing::feldman_vss::VerifiableSS;
use curv::elliptic::curves::Point;
use curv::elliptic::curves::Scalar;
use curv::elliptic::curves::Secp256k1;
use curv::arithmetic::Converter;
use curv::BigInt;
use kzen_paillier::EncryptionKey;
use multi_party_ecdsa::protocols::multi_party_ecdsa::gg_2018::party_i::KeyGenBroadcastMessage1;
use multi_party_ecdsa::protocols::multi_party_ecdsa::gg_2018::party_i::KeyGenDecommitMessage1;
use multi_party_ecdsa::protocols::multi_party_ecdsa::gg_2018::party_i::Keys;
use multi_party_ecdsa::protocols::multi_party_ecdsa::gg_2018::party_i::LocalSignature;
use multi_party_ecdsa::protocols::multi_party_ecdsa::gg_2018::party_i::Parameters;
use multi_party_ecdsa::protocols::multi_party_ecdsa::gg_2018::party_i::PartyPrivate;
use multi_party_ecdsa::protocols::multi_party_ecdsa::gg_2018::party_i::Phase5ADecom1;
use multi_party_ecdsa::protocols::multi_party_ecdsa::gg_2018::party_i::Phase5Com1;
use multi_party_ecdsa::protocols::multi_party_ecdsa::gg_2018::party_i::Phase5Com2;
use multi_party_ecdsa::protocols::multi_party_ecdsa::gg_2018::party_i::Phase5DDecom2;
use multi_party_ecdsa::protocols::multi_party_ecdsa::gg_2018::party_i::SharedKeys;
use multi_party_ecdsa::protocols::multi_party_ecdsa::gg_2018::party_i::SignBroadcastPhase1;
use multi_party_ecdsa::protocols::multi_party_ecdsa::gg_2018::party_i::SignDecommitPhase1;
use multi_party_ecdsa::protocols::multi_party_ecdsa::gg_2018::party_i::SignKeys;
use multi_party_ecdsa::protocols::multi_party_ecdsa::gg_2018::party_i::SignatureRecid;
use multi_party_ecdsa::utilities::mta::MessageA;
use multi_party_ecdsa::utilities::mta::MessageB;
use sha2::Sha256;

verus! {

#[verifier::external_type_specification]
#[verifier::external_body]
pub struct ExBigInt(BigInt);

#[verifier::external_type_specification]
#[verifier::external_body]
pub struct ExEncryptionKey(EncryptionKey);

#[verifier::external_type_specification]
#[verifier::external_body]
pub struct ExPartyPrivate(PartyPrivate);

#[verifier::external_type_specification]
#[verifier::external_body]
pub struct ExSharedKeys(SharedKeys);

#[verifier::external_type_specification]
#[verifier::external_body]
pub struct ExSignKeys(SignKeys);

#[verifier::external_type_specification]
#[verifier::external_body]
pub struct ExKeyGenBroadcastMessage1(KeyGenBroadcastMessage1);

#[verifier::external_type_specification]
#[verifier::external_body]
pub struct ExKeyGenDecommitMessage1(KeyGenDecommitMessage1);

#[verifier::external_type_specification]
#[verifier::external_body]
pub struct ExSignBroadcastPhase1(SignBroadcastPhase1);

#[verifier::external_type_specification]
#[verifier::external_body]
pub struct ExSignDecommitPhase1(SignDecommitPhase1);

#[verifier::external_type_specification]
#[verifier::external_body]
pub struct ExLocalSignature(LocalSignature);

#[verifier::external_type_specification]
#[verifier::external_body]
pub struct ExPhase5Com1(Phase5Com1);

#[verifier::external_type_specification]
#[verifier::external_body]
pub struct ExPhase5Com2(Phase5Com2);

#[verifier::external_type_specification]
#[verifier::external_body]
pub struct ExPhase5ADecom1(Phase5ADecom1);

#[verifier::external_type_specification]
#[verifier::external_body]
pub struct ExPhase5DDecom2(Phase5DDecom2);

#[verifier::external_type_specification]
#[verifier::external_body]
pub struct ExSignatureRecid(SignatureRecid);

#[verifier::external_type_specification]
#[verifier::external_body]
pub struct ExMessageA(MessageA);

#[verifier::external_type_specification]
#[verifier::external_body]
pub struct ExMessageB(MessageB);

#[verifier::external_type_specification]
#[verifier::external_body]
pub struct ExMpeError(multi_party_ecdsa::Error);

/// A point on the secp256k1 curve, opaque to the verifier.
#[verifier::external_body]
#[derive(Debug)]
pub struct GroupPoint {
    p: Point<Secp256k1>,
}

/// A scalar of the secp256k1 scalar field, opaque to the verifier.
#[verifier::external_body]
#[derive(Debug)]
pub struct FieldScalar {
    s: Scalar<Secp256k1>,
}

/// A non-interactive proof of knowledge of a discrete logarithm.
#[verifier::external_body]
#[derive(Debug)]
pub struct DlogProof {
    pr: DLogProof<Secp256k1, Sha256>,
}

/// A proof of correct homomorphic-ElGamal encryption.
#[verifier::external_body]
#[derive(Debug)]
pub struct ElGamalProof {
    pr: HomoELGamalProof<Secp256k1, Sha256>,
}

/// A Feldman verifiable-secret-sharing scheme (parameters and commitments).
#[verifier::external_body]
#[derive(Debug)]
pub struct VssScheme {
    v: VerifiableSS<Secp256k1>,
}

/// A party's long-term key material: curve keypair and Paillier keypair.
#[verifier::external_body]
#[derive(Debug)]
pub struct PartyKeys {
    k: Keys,
}

impl Clone for GroupPoint {
    /// Relies on the wrapped type's `Clone`: a deep copy of a value type
    /// without interior mutability, equal to the original.
    #[verifier::external_body]
    fn clone(&self) -> (r: Self)
        ensures
            r == *self,
    {
        GroupPoint { p: self.p.clone() }
    }
}

impl Clone for FieldScalar {
    /// Relies on the wrapped type's `Clone`: a deep copy of a value type
    /// without interior mutability, equal to the original.
    #[verifier::external_body]
    fn clone(&self) -> (r: Self)
        ensures
            r == *self,
    {
        FieldScalar { s: self.s.clone() }
    }
}

impl Clone for VssScheme {
    /// Relies on the wrapped type's `Clone`: a deep copy of a value type
    /// without interior mutability, equal to the original.
    #[verifier::external_body]
    fn clone(&self) -> (r: Self)
        ensures
            r == *self,
    {
        VssScheme { v: self.v.clone() }
    }
}

impl Clone for DlogProof {
    /// Relies on the wrapped type's `Clone`: a deep copy of a value type
    /// without interior mutability, equal to the original.
    #[verifier::external_body]
    fn clone(&self) -> (r: Self)
        ensures
            r == *self,
    {
        DlogProof { pr: self.pr.clone() }
    }
}

impl Clone for ElGamalProof {
    /// Relies on the wrapped type's `Clone`: a deep copy of a value type
    /// without interior mutability, equal to the original.
    #[verifier::external_body]
    fn clone(&self) -> (r: Self)
        ensures
            r == *self,
    {
        ElGamalProof { pr: self.pr.clone() }
    }
}

impl Clone for PartyKeys {
    /// Relies on the wrapped type's `Clone`: a deep copy of a value type
    /// without interior mutability, equal to the original.
    #[verifier::external_body]
    fn clone(&self) -> (r: Self)
        ensures
            r == *self,
    {
        PartyKeys { k: self.k.clone() }
    }
}

/// Relies on `KeyGenBroadcastMessage1`'s derived `Clone`: a deep copy of a value type
/// without interior mutability, equal to the original.
pub assume_specification[ <KeyGenBroadcastMessage1 as Clone>::clone ](v: &KeyGenBroadcastMessage1) -> (r: KeyGenBroadcastMessage1)
    ensures
        r == *v,
;

/// Relies on `KeyGenDecommitMessage1`'s derived `Clone`: a deep copy of a value type
/// without interior mutability, equal to the original.
pub assume_specification[ <KeyGenDecommitMessage1 as Clone>::clone ](v: &KeyGenDecommitMessage1) -> (r: KeyGenDecommitMessage1)
    ensures
        r == *v,
;

/// Relies on `SignBroadcastPhase1`'s derived `Clone`: a deep copy of a value type
/// without interior mutability, equal to the original.
pub assume_specification[ <SignBroadcastPhase1 as Clone>::clone ](v: &SignBroadcastPhase1) -> (r: SignBroadcastPhase1)
    ensures
        r == *v,
;

/// Relies on `SignDecommitPhase1`'s derived `Clone`: a deep copy of a value type
/// without interior mutability, equal to the original.
pub assume_specification[ <SignDecommitPhase1 as Clone>::clone ](v: &SignDecommitPhase1) -> (r: SignDecommitPhase1)
    ensures
        r == *v,
;

/// Relies on `Phase5ADecom1`'s derived `Clone`: a deep copy of a value type
/// without interior mutability, equal to the original.
pub assume_specification[ <Phase5ADecom1 as Clone>::clone ](v: &Phase5ADecom1) -> (r: Phase5ADecom1)
    ensures
        r == *v,
;

/// Relies on `Phase5Com1`'s derived `Clone`: a deep copy of a value type
/// without interior mutability, equal to the original.
pub assume_specification[ <Phase5Com1 as Clone>::clone ](v: &Phase5Com1) -> (r: Phase5Com1)
    ensures
        r == *v,
;

/// Relies on `Phase5Com2`'s derived `Clone`: a deep copy of a value type
/// without interior mutability, equal to the original.
pub assume_specification[ <Phase5Com2 as Clone>::clone ](v: &Phase5Com2) -> (r: Phase5Com2)
    ensures
        r == *v,
;

/// Relies on `Phase5DDecom2`'s derived `Clone`: a deep copy of a value type
/// without interior mutability, equal to the original.
pub assume_specification[ <Phase5DDecom2 as Clone>::clone ](v: &Phase5DDecom2) -> (r: Phase5DDecom2)
    ensures
        r == *v,
;

/// Relies on `SignatureRecid`'s derived `Clone`: a deep copy of a value type
/// without interior mutability, equal to the original.
pub assume_specification[ <SignatureRecid as Clone>::clone ](v: &SignatureRecid) -> (r: SignatureRecid)
    ensures
        r == *v,
;

/// Relies on `MessageA`'s derived `Clone`: a deep copy of a value type
/// without interior mutability, equal to the original.
pub assume_specification[ <MessageA as Clone>::clone ](v: &MessageA) -> (r: MessageA)
    ensures
        r == *v,
;

/// Relies on `MessageB`'s derived `Clone`: a deep copy of a value type
/// without interior mutability, equal to the original.
pub assume_specification[ <MessageB as Clone>::clone ](v: &MessageB) -> (r: MessageB)
    ensures
        r == *v,
;

/// Relies on `SharedKeys`'s derived `Clone`: a deep copy of a value type
/// without interior mutability, equal to the original.
pub assume_specification[ <SharedKeys as Clone>::clone ](v: &SharedKeys) -> (r: SharedKeys)
    ensures
        r == *v,
;

/// Relies on `EncryptionKey`'s derived `Clone`: a deep copy of a value type
/// without interior mutability, equal to the original.
pub assume_specification[ <EncryptionKey as Clone>::clone ](v: &EncryptionKey) -> (r: EncryptionKey)
    ensures
        r == *v,
;

/// Relies on `PartyPrivate`'s derived `Clone`: a deep copy of a value type
/// without interior mutability, equal to the original.
pub assume_specification[ <PartyPrivate as Clone>::clone ](v: &PartyPrivate) -> (r: PartyPrivate)
    ensures
        r == *v,
;

/// Relies on `LocalSignature`'s derived `Clone`: a deep copy of a value type
/// without interior mutability, equal to the original.
pub assume_specification[ <LocalSignature as Clone>::clone ](v: &LocalSignature) -> (r: LocalSignature)
    ensures
        r == *v,
;

/// Relies on `SignKeys`'s derived `Clone`: a deep copy of a value type
/// without interior mutability, equal to the original.
pub assume_specification[ <SignKeys as Clone>::clone ](v: &SignKeys) -> (r: SignKeys)
    ensures
        r == *v,
;

/// The sum of two curve points, as `curv`'s point addition computes it.
pub uninterp spec fn point_add_spec(a: GroupPoint, b: GroupPoint) -> GroupPoint;

/// The affine x-coordinate of a curve point, absent for the point at infinity.
pub uninterp spec fn point_x_of(p: GroupPoint) -> Option<BigInt>;

/// The sum of two curve scalars, as `curv`'s field addition computes it.
pub uninterp spec fn scalar_add_spec(a: FieldScalar, b: FieldScalar) -> FieldScalar;

/// Whether a curve scalar is the zero scalar.
pub uninterp spec fn scalar_is_zero_spec(s: FieldScalar) -> bool;

/// The number of polynomial commitments a VSS scheme carries.
pub uninterp spec fn vss_ncoms(v: VssScheme) -> int;

/// The left-fold sum of a non-empty sequence of scalars.
pub open spec fn scalars_sum(s: Seq<FieldScalar>) -> FieldScalar
    recommends
        s.len() >= 1,
    decreases s.len(),
{
    if s.len() <= 1 {
        s[0]
    } else {
        scalar_add_spec(scalars_sum(s.drop_last()), s.last())
    }
}

/// The left-fold sum of a non-empty sequence of curve points.
pub open spec fn points_sum(s: Seq<GroupPoint>) -> GroupPoint
    recommends
        s.len() >= 1,
    decreases s.len(),
{
    if s.len() <= 1 {
        s[0]
    } else {
        point_add_spec(points_sum(s.drop_last()), s.last())
    }
}

/// Relies on `curv`'s `Add` impl for `&Point`: point addition on secp256k1,
/// a pure function of the two operands.
#[verifier::external_body]
pub(crate) fn point_add(a: &GroupPoint, b: &GroupPoint) -> (r: GroupPoint)
    ensures
        r == point_add_spec(*a, *b),
{
    GroupPoint { p: &a.p + &b.p }
}

/// Relies on `curv`'s `Mul` impl for `&Point`: scalar multiplication.
#[verifier::external_body]
pub(crate) fn point_mul(p: &GroupPoint, s: &FieldScalar) -> (r: GroupPoint) {
    GroupPoint { p: &p.p * &s.s }
}

/// Relies on `curv::elliptic::curves::Point::x_coord`: returns the affine
/// x-coordinate, `None` exactly for the point at infinity.
#[verifier::external_body]
pub(crate) fn point_x_coord(p: &GroupPoint) -> (r: Option<BigInt>)
    ensures
        r == point_x_of(*p),
{
    p.p.x_coord()
}

/// Relies on `curv`'s `PartialEq` for `Point`, which decides value equality
/// of curve points.
#[verifier::external_body]
pub fn points_eq(a: &GroupPoint, b: &GroupPoint) -> (r: bool)
    ensures
        r == (*a == *b),
{
    a.p == b.p
}

/// Relies on `curv`'s `Add` impl for `&Scalar`: addition mod the group order.
#[verifier::external_body]
pub(crate) fn scalar_add(a: &FieldScalar, b: &FieldScalar) -> (r: FieldScalar)
    ensures
        r == scalar_add_spec(*a, *b),
{
    FieldScalar { s: &a.s + &b.s }
}

/// Relies on `curv::elliptic::curves::Scalar::is_zero`.
#[verifier::external_body]
pub(crate) fn scalar_is_zero(s: &FieldScalar) -> (r: bool)
    ensures
        r == scalar_is_zero_spec(*s),
{
    s.s.is_zero()
}

/// Relies on `VerifiableSS`'s public `commitments` vector.
#[verifier::external_body]
pub(crate) fn vss_commitments_len(v: &VssScheme) -> (r: usize)
    ensures
        r as int == vss_ncoms(*v),
{
    v.v.commitments.len()
}

/// What `curv`'s big-endian `BigInt::to_bytes` returns for a value.
pub uninterp spec fn bigint_bytes_spec(b: BigInt) -> Seq<u8>;

/// What `curv`'s `BigInt::from_bytes` returns for a byte string.
pub uninterp spec fn bytes_bigint_spec(s: Seq<u8>) -> BigInt;

/// What `curv`'s `Scalar::to_bigint` returns for a scalar.
pub uninterp spec fn scalar_bigint_spec(s: FieldScalar) -> BigInt;

/// What `curv`'s `Scalar::from_bigint` returns for a big integer.
pub uninterp spec fn bigint_scalar_spec(b: BigInt) -> FieldScalar;

/// Relies on `curv::arithmetic::Converter::to_bytes`: the big-endian
/// magnitude of the integer.
#[verifier::external_body]
pub(crate) fn bigint_to_bytes(b: &BigInt) -> (r: Vec<u8>)
    ensures
        r@ == bigint_bytes_spec(*b),
{
    BigInt::to_bytes(b)
}

/// Relies on `curv::arithmetic::Converter::from_bytes`, the big-endian
/// parse; it inverts `to_bytes` on any non-negative integer.
#[verifier::external_body]
pub(crate) fn bigint_from_bytes(bytes: &[u8]) -> (r: BigInt)
    ensures
        r == bytes_bigint_spec(bytes@),
{
    BigInt::from_bytes(bytes)
}

/// Relies on `curv::elliptic::curves::Scalar::to_bigint`.  A scalar's
/// integer lies in `[0, q)`, so parsing its big-endian bytes and reducing
/// gives back the same scalar; both round trips are stated here.
#[verifier::external_body]
pub fn scalar_to_bigint(s: &FieldScalar) -> (r: BigInt)
    ensures
        r == scalar_bigint_spec(*s),
        bigint_scalar_spec(r) == *s,
        bytes_bigint_spec(bigint_bytes_spec(r)) == r,
{
    s.s.to_bigint()
}

/// Relies on `curv::elliptic::curves::Scalar::from_bigint`: reduction mod
/// the group order.
#[verifier::external_body]
pub fn scalar_from_bigint(b: &BigInt) -> (r: FieldScalar)
    ensures
        r == bigint_scalar_spec(*b),
{
    FieldScalar { s: Scalar::from_bigint(b) }
}

/// Relies on `Keys::create`: fresh random curve and Paillier key material
/// labelled with the party's one-based index.
#[verifier::external_body]
pub(crate) fn keys_create(index: u16) -> PartyKeys {
    PartyKeys { k: Keys::create(index) }
}

/// Relies on `Keys::phase1_broadcast_phase3_proof_of_correct_key`: the
/// hash commitment to `y_i` with a fresh blind factor, and its opening.
#[verifier::external_body]
pub(crate) fn phase1_broadcast_proof(
    keys: &PartyKeys,
) -> (KeyGenBroadcastMessage1, KeyGenDecommitMessage1) {
    keys.k.phase1_broadcast_phase3_proof_of_correct_key()
}

/// Relies on the public `y_i` field of `KeyGenDecommitMessage1`.
#[verifier::external_body]
pub(crate) fn decom_y(d: &KeyGenDecommitMessage1) -> GroupPoint {
    GroupPoint { p: d.y_i.clone() }
}

/// Relies on the public `u_i` field of `Keys`.
#[verifier::external_body]
pub(crate) fn keys_u(keys: &PartyKeys) -> FieldScalar {
    FieldScalar { s: keys.k.u_i.clone() }
}

/// Relies on the public Paillier encryption key field `ek` of `Keys`.
#[verifier::external_body]
pub(crate) fn keys_ek(keys: &PartyKeys) -> EncryptionKey {
    keys.k.ek.clone()
}

/// Relies on the public Paillier encryption key field `e` of
/// `KeyGenBroadcastMessage1`.
#[verifier::external_body]
pub(crate) fn bc1_ek(bc: &KeyGenBroadcastMessage1) -> EncryptionKey {
    bc.e.clone()
}

/// Relies on
/// `Keys::phase1_verify_com_phase3_verify_correct_key_phase2_distribute`:
/// verifies every peer's decommitment and Paillier correct-key proof, and
/// shares this party's secret with a fresh degree-`threshold` polynomial,
/// returning one share per party.  The callee asserts that both vectors
/// have `share_count` entries and that `threshold < share_count`.
#[verifier::external_body]
pub(crate) fn phase1_verify_distribute(
    keys: &PartyKeys,
    threshold: u16,
    share_count: u16,
    decoms: &Vec<KeyGenDecommitMessage1>,
    bcs: &Vec<KeyGenBroadcastMessage1>,
) -> (r: Result<(VssScheme, Vec<FieldScalar>, u16), multi_party_ecdsa::Error>)
    requires
        threshold < share_count,
        decoms@.len() == share_count as int,
        bcs@.len() == share_count as int,
    ensures
        r matches Ok(out) ==> out.1@.len() == share_count as int,
{
    let params = Parameters { threshold, share_count };
    keys.k
        .phase1_verify_com_phase3_verify_correct_key_phase2_distribute(&params, decoms, bcs)
        .map(|(v, shares, idx)| {
            let wrapped: Vec<FieldScalar> = shares.into_iter().map(|s| FieldScalar { s }).collect();
            (VssScheme { v }, wrapped, idx)
        })
}

/// Relies on `Keys::phase2_verify_vss_construct_keypair_phase3_pok_dlog`:
/// validates every peer's VSS against the received shares, builds this
/// party's additive share, and proves knowledge of it.  The callee asserts
/// that all three vectors have `share_count` entries and evaluates each
/// scheme's non-empty commitment polynomial.
#[verifier::external_body]
pub(crate) fn phase2_verify_vss_pok(
    keys: &PartyKeys,
    threshold: u16,
    share_count: u16,
    y_vec: &Vec<GroupPoint>,
    shares: &Vec<FieldScalar>,
    vss_vec: &Vec<VssScheme>,
    index: u16,
) -> Result<(SharedKeys, DlogProof), multi_party_ecdsa::Error>
    requires
        y_vec@.len() == share_count as int,
        shares@.len() == share_count as int,
        vss_vec@.len() == share_count as int,
        forall|i: int| 0 <= i < vss_vec@.len() ==> vss_ncoms(vss_vec@[i]) >= 1,
{
    let params = Parameters { threshold, share_count };
    let ys: Vec<Point<Secp256k1>> = y_vec.iter().map(|g| g.p.clone()).collect();
    let ss: Vec<Scalar<Secp256k1>> = shares.iter().map(|f| f.s.clone()).collect();
    let vs: Vec<VerifiableSS<Secp256k1>> = vss_vec.iter().map(|w| w.v.clone()).collect();
    keys.k
        .phase2_verify_vss_construct_keypair_phase3_pok_dlog(&params, &ys, &ss, &vs, index)
        .map(|(sk, pr)| (sk, DlogProof { pr }))
}

/// Relies on `Keys::verify_dlog_proofs`: checks every party's proof of
/// knowledge of its additive share.  The callee asserts that both vectors
/// have `share_count` entries.
#[verifier::external_body]
pub(crate) fn verify_dlog_proofs(
    threshold: u16,
    share_count: u16,
    proofs: &Vec<DlogProof>,
    y_vec: &Vec<GroupPoint>,
) -> Result<(), multi_party_ecdsa::Error>
    requires
        proofs@.len() == share_count as int,
        y_vec@.len() == share_count as int,
{
    let params = Parameters { threshold, share_count };
    let ps: Vec<DLogProof<Secp256k1, Sha256>> = proofs.iter().map(|d| d.pr.clone()).collect();
    let ys: Vec<Point<Secp256k1>> = y_vec.iter().map(|g| g.p.clone()).collect();
    Keys::verify_dlog_proofs(&params, &ps, &ys)
}

/// Relies on `PartyPrivate::set_private`: repackages this party's key
/// material and additive share for signing.
#[verifier::external_body]
pub(crate) fn set_private(keys: &PartyKeys, shared: &SharedKeys) -> PartyPrivate {
    PartyPrivate::set_private(keys.k.clone(), shared.clone())
}

/// Relies on `SignKeys::create`: derives `w_i` from the stored share by the
/// Lagrange coefficient of `index` within the signer subset `s`, and draws
/// fresh `k_i`, `gamma_i`.  The callee looks `index` up in `s`, adds one to
/// each entry, and inverts pairwise differences, so `s` must contain
/// `index`, stay below the `u16` maximum, and hold no duplicates.
#[verifier::external_body]
pub(crate) fn sign_keys_create(
    private: &PartyPrivate,
    vss: &VssScheme,
    index: u16,
    s: &Vec<u16>,
) -> SignKeys
    requires
        s@.contains(index),
        forall|i: int| 0 <= i < s@.len() ==> s@[i] < 0xffffu16,
        forall|i: int, j: int| 0 <= i < j < s@.len() ==> s@[i] != s@[j],
{
    SignKeys::create(private, &vss.v, index, s)
}

/// Relies on `SignKeys::phase1_broadcast`: the hash commitment to
/// `g^gamma_i` with a fresh blind factor, and its opening.
#[verifier::external_body]
pub(crate) fn sign_phase1_broadcast(sk: &SignKeys) -> (SignBroadcastPhase1, SignDecommitPhase1) {
    sk.phase1_broadcast()
}

/// Relies on `MessageA::a`: the Paillier encryption of `k_i` under this
/// party's encryption key, without range proofs.
#[verifier::external_body]
pub(crate) fn message_a(sk: &SignKeys, ek: &EncryptionKey) -> MessageA {
    MessageA::a(&sk.k_i, ek, &[]).0
}

/// Relies on the public `gamma_i` field of `SignKeys`.
#[verifier::external_body]
pub(crate) fn sign_keys_gamma(sk: &SignKeys) -> FieldScalar {
    FieldScalar { s: sk.gamma_i.clone() }
}

/// Relies on the public `w_i` field of `SignKeys`.
#[verifier::external_body]
pub(crate) fn sign_keys_w(sk: &SignKeys) -> FieldScalar {
    FieldScalar { s: sk.w_i.clone() }
}

/// Relies on `MessageB::b`: the MtA responder message against the
/// initiator's ciphertext, and the responder's additive correction.  It
/// fails when the initiator message carries range proofs (none are used
/// here) or on malformed data.
#[verifier::external_body]
pub(crate) fn message_b(
    b: &FieldScalar,
    ek: &EncryptionKey,
    m_a: &MessageA,
) -> Result<(MessageB, FieldScalar), multi_party_ecdsa::Error> {
    MessageB::b(&b.s, ek, m_a.clone(), &[]).map(|(mb, beta, _, _)| (mb, FieldScalar { s: beta }))
}

/// Relies on `MessageB::verify_proofs_get_alpha`: decrypts the responder
/// ciphertext with this party's Paillier key and checks both discrete-log
/// proofs; returns the additive share `alpha` on success.
#[verifier::external_body]
pub(crate) fn verify_proofs_get_alpha(
    mb: &MessageB,
    keys: &PartyKeys,
    sk: &SignKeys,
) -> Result<FieldScalar, multi_party_ecdsa::Error> {
    mb.verify_proofs_get_alpha(&keys.k.dk, &sk.k_i).map(|(a, _)| FieldScalar { s: a })
}

/// Relies on the public `b_proof.pk` field of `MessageB`.
#[verifier::external_body]
pub(crate) fn b_proof_pk(mb: &MessageB) -> GroupPoint {
    GroupPoint { p: mb.b_proof.pk.clone() }
}

/// Relies on `Keys::get_commitments_to_xi`: one point per party, the sum of
/// all parties' polynomial commitments evaluated at that party's index.
/// The callee converts the length to `u16` and evaluates each scheme's
/// non-empty commitment polynomial.
#[verifier::external_body]
pub(crate) fn get_commitments_to_xi(vss_vec: &Vec<VssScheme>) -> (r: Vec<GroupPoint>)
    requires
        vss_vec@.len() <= 0xffff,
        forall|i: int| 0 <= i < vss_vec@.len() ==> vss_ncoms(vss_vec@[i]) >= 1,
    ensures
        r@.len() == vss_vec@.len(),
{
    let vs: Vec<VerifiableSS<Secp256k1>> = vss_vec.iter().map(|w| w.v.clone()).collect();
    Keys::get_commitments_to_xi(&vs).into_iter().map(|p| GroupPoint { p }).collect()
}

/// Relies on `Keys::update_commitments_to_xi`: rescales a commitment by the
/// Lagrange coefficient of `index` within the signer subset `s`; the same
/// demands on `s` as for `sign_keys_create`.
#[verifier::external_body]
pub(crate) fn update_commitments_to_xi(
    comm: &GroupPoint,
    vss: &VssScheme,
    index: u16,
    s: &Vec<u16>,
) -> GroupPoint
    requires
        s@.contains(index),
        forall|i: int| 0 <= i < s@.len() ==> s@[i] < 0xffffu16,
        forall|i: int, j: int| 0 <= i < j < s@.len() ==> s@[i] != s@[j],
{
    GroupPoint { p: Keys::update_commitments_to_xi(&comm.p, &vss.v, index, s) }
}

/// Relies on `SignKeys::phase2_delta_i`: `k_i * gamma_i` plus the sum of
/// all entries of both vectors.  The callee asserts equal lengths.
#[verifier::external_body]
pub(crate) fn phase2_delta_i(
    sk: &SignKeys,
    alpha_vec: &Vec<FieldScalar>,
    beta_vec: &Vec<FieldScalar>,
) -> FieldScalar
    requires
        alpha_vec@.len() == beta_vec@.len(),
{
    let av: Vec<Scalar<Secp256k1>> = alpha_vec.iter().map(|f| f.s.clone()).collect();
    let bv: Vec<Scalar<Secp256k1>> = beta_vec.iter().map(|f| f.s.clone()).collect();
    FieldScalar { s: sk.phase2_delta_i(&av, &bv) }
}

/// Relies on `SignKeys::phase2_sigma_i`: `k_i * w_i` plus the sum of all
/// entries of both vectors.  The callee asserts equal lengths.
#[verifier::external_body]
pub(crate) fn phase2_sigma_i(
    sk: &SignKeys,
    miu_vec: &Vec<FieldScalar>,
    ni_vec: &Vec<FieldScalar>,
) -> FieldScalar
    requires
        miu_vec@.len() == ni_vec@.len(),
{
    let mv: Vec<Scalar<Secp256k1>> = miu_vec.iter().map(|f| f.s.clone()).collect();
    let nv: Vec<Scalar<Secp256k1>> = ni_vec.iter().map(|f| f.s.clone()).collect();
    FieldScalar { s: sk.phase2_sigma_i(&mv, &nv) }
}

/// Relies on `SignKeys::phase3_reconstruct_delta`: the inverse of the sum
/// of all entries.  The callee unwraps the inversion, which exists exactly
/// when the sum is not zero; `Scalar`'s `Sum` folds the same addition that
/// `scalars_sum` names.
#[verifier::external_body]
pub(crate) fn phase3_reconstruct_delta(delta_vec: &Vec<FieldScalar>) -> FieldScalar
    requires
        delta_vec@.len() >= 1,
        !scalar_is_zero_spec(scalars_sum(delta_vec@)),
{
    let dv: Vec<Scalar<Secp256k1>> = delta_vec.iter().map(|f| f.s.clone()).collect();
    FieldScalar { s: SignKeys::phase3_reconstruct_delta(&dv) }
}

/// Relies on `SignKeys::phase4`: checks every co-signer's decommitment
/// against its commitment and MtA proof point, and returns the sum of the
/// revealed `g^gamma_j` scaled by `delta_inv`.  The callee indexes the
/// decommitment and commitment vectors by the proof vector's positions.
#[verifier::external_body]
pub(crate) fn phase4(
    delta_inv: &FieldScalar,
    m_b_gammas: &Vec<MessageB>,
    decommits: &Vec<SignDecommitPhase1>,
    bcs: &Vec<SignBroadcastPhase1>,
) -> Result<GroupPoint, multi_party_ecdsa::Error>
    requires
        decommits@.len() >= m_b_gammas@.len(),
        bcs@.len() >= m_b_gammas@.len(),
{
    let proofs: Vec<&DLogProof<Secp256k1, Sha256>> =
        m_b_gammas.iter().map(|m| &m.b_proof).collect();
    SignKeys::phase4(&delta_inv.s, &proofs, decommits.clone(), bcs)
        .map(|p| GroupPoint { p })
}

/// Relies on the public `g_gamma_i` field of `SignDecommitPhase1`.
#[verifier::external_body]
pub(crate) fn decom_g_gamma(d: &SignDecommitPhase1) -> GroupPoint {
    GroupPoint { p: d.g_gamma_i.clone() }
}

/// Relies on `LocalSignature::phase5_local_sig`: this party's partial
/// signature scalar together with fresh blinding scalars.  The callee
/// unwraps the x-coordinate of `r`, so `r` must not be the point at
/// infinity.
#[verifier::external_body]
pub(crate) fn phase5_local_sig(
    sk: &SignKeys,
    message: &BigInt,
    r: &GroupPoint,
    sigma: &FieldScalar,
    y: &GroupPoint,
) -> LocalSignature
    requires
        point_x_of(*r) is Some,
{
    LocalSignature::phase5_local_sig(&sk.k_i, message, &r.p, &sigma.s, &y.p)
}

/// Relies on `LocalSignature::phase5a_broadcast_5b_zkproof`: the phase-5A
/// commitment, its opening, the homomorphic-ElGamal proof and the proof of
/// knowledge of `rho_i`.
#[verifier::external_body]
pub(crate) fn phase5a_broadcast_zkproof(
    ls: &LocalSignature,
) -> (Phase5Com1, Phase5ADecom1, ElGamalProof, DlogProof) {
    let (c, d, e, r) = ls.phase5a_broadcast_5b_zkproof();
    (c, d, ElGamalProof { pr: e }, DlogProof { pr: r })
}

/// Relies on the public `V_i` field of `Phase5ADecom1`.
#[verifier::external_body]
pub(crate) fn decom5a_v(d: &Phase5ADecom1) -> GroupPoint {
    GroupPoint { p: d.V_i.clone() }
}

/// Relies on `LocalSignature::phase5c`: checks every co-signer's phase-5A
/// decommitment, ElGamal proof and `rho` proof, and commits to this party's
/// consistency points.  The callee asserts that the decommitment and
/// commitment vectors match and indexes the two proof vectors by their
/// positions.
#[verifier::external_body]
pub(crate) fn phase5c(
    ls: &LocalSignature,
    decoms: &Vec<Phase5ADecom1>,
    coms: &Vec<Phase5Com1>,
    elgamals: &Vec<ElGamalProof>,
    rhos: &Vec<DlogProof>,
    v_i: &GroupPoint,
    r: &GroupPoint,
) -> Result<(Phase5Com2, Phase5DDecom2), multi_party_ecdsa::Error>
    requires
        decoms@.len() == coms@.len(),
        elgamals@.len() >= coms@.len(),
        rhos@.len() >= coms@.len(),
{
    let es: Vec<HomoELGamalProof<Secp256k1, Sha256>> =
        elgamals.iter().map(|e| e.pr.clone()).collect();
    let rs: Vec<DLogProof<Secp256k1, Sha256>> = rhos.iter().map(|d| d.pr.clone()).collect();
    ls.phase5c(decoms, coms, &es, &rs, &v_i.p, &r.p)
}

/// Relies on `LocalSignature::phase5d`: checks every phase-5C commitment
/// and the global consistency sum, and releases this party's partial `s_i`.
/// The callee asserts that all three vectors have equal lengths.
#[verifier::external_body]
pub(crate) fn phase5d(
    ls: &LocalSignature,
    decom_vec2: &Vec<Phase5DDecom2>,
    com_vec2: &Vec<Phase5Com2>,
    decom_vec1: &Vec<Phase5ADecom1>,
) -> Result<FieldScalar, multi_party_ecdsa::Error>
    requires
        decom_vec2@.len() == decom_vec1@.len(),
        decom_vec2@.len() == com_vec2@.len(),
{
    ls.phase5d(decom_vec2, com_vec2, decom_vec1).map(|s| FieldScalar { s })
}

/// Relies on `LocalSignature::output_signature`: sums the partial
/// signatures, canonicalizes `s`, and verifies the assembled signature
/// against the joint public key before returning it.
#[verifier::external_body]
pub(crate) fn output_signature(
    ls: &LocalSignature,
    s_vec: &Vec<FieldScalar>,
) -> Result<SignatureRecid, multi_party_ecdsa::Error> {
    let sv: Vec<Scalar<Secp256k1>> = s_vec.iter().map(|f| f.s.clone()).collect();
    ls.output_signature(&sv)
}

/// Relies on `multi_party_ecdsa`'s `gg_2018::party_i::verify`: ECDSA
/// verification of a signature against a public key and message hash.
#[verifier::external_body]
pub fn verify_signature(sig: &SignatureRecid, y: &GroupPoint, message: &BigInt) -> bool {
    multi_party_ecdsa::protocols::multi_party_ecdsa::gg_2018::party_i::verify(
        sig, &y.p, message,
    ).is_ok()
}

/// Relies on `multi_party_ecdsa::Error`'s `Display` impl for a diagnostic.
#[verifier::external_body]
pub(crate) fn mpe_error_text(e: multi_party_ecdsa::Error) -> String {
    format!("{}", e)
}

} // verus!
