//! The per-session drivers: a five-round distributed key generation and a
//! nine-round distributed signing, each a linear state machine of
//! broadcast-collect-compute steps over the channel substrate.  Their
//! contracts pin the emission discipline: every non-terminal emission is a
//! trace line or a peer-addressed payload under the party's own sender
//! label, a `Quit` is only ever the final emission and follows the
//! completed artifact, and an error surfaces as a trace line followed by a
//! terminal `Error(Halted)`.

use vstd::prelude::*;

use crate::channel::lemma_routine_extension_trans;
use crate::channel::routine_extension;
use crate::channel::routine_msg;
use crate::channel::Emitter;
use crate::channel::Inbox;
use crate::collector::collect_round;
use crate::collector::log_line;
use crate::errors::CoreErrors;
use crate::messages::extract_keygen_round1;
use crate::messages::extract_keygen_round2;
use crate::messages::extract_keygen_round3;
use crate::messages::extract_keygen_round4;
use crate::messages::extract_keygen_round5;
use crate::messages::extract_sign_round1;
use crate::messages::extract_sign_round2;
use crate::messages::extract_sign_round4;
use crate::messages::extract_sign_round5;
use crate::messages::extract_sign_round6;
use crate::messages::extract_sign_round7;
use crate::messages::extract_sign_round8;
use crate::messages::extract_sign_scalars;
use crate::messages::SignRound1Data;
use crate::messages::SignRound2Data;
use crate::messages::SignRound6Data;
use crate::messages::Errors;
use crate::messages::MessageData;
use crate::messages::OutgoingMessages;
use crate::messages::RoundResult;
use crate::messages::RoundTag;
use crate::primitives::b_proof_pk;
use crate::primitives::bc1_ek;
use crate::primitives::decom5a_v;
use crate::primitives::decom_g_gamma;
use crate::primitives::get_commitments_to_xi;
use crate::primitives::keys_ek;
use crate::primitives::message_a;
use crate::primitives::message_b;
use crate::primitives::output_signature;
use crate::primitives::phase2_delta_i;
use crate::primitives::phase2_sigma_i;
use crate::primitives::phase3_reconstruct_delta;
use crate::primitives::phase4;
use crate::primitives::phase5_local_sig;
use crate::primitives::phase5a_broadcast_zkproof;
use crate::primitives::phase5c;
use crate::primitives::phase5d;
use crate::primitives::points_eq;
use crate::primitives::set_private;
use crate::primitives::sign_keys_create;
use crate::primitives::sign_keys_gamma;
use crate::primitives::sign_keys_w;
use crate::primitives::sign_phase1_broadcast;
use crate::primitives::update_commitments_to_xi;
use crate::primitives::verify_proofs_get_alpha;
use crate::primitives::bigint_from_bytes;
use crate::primitives::bigint_to_bytes;
use crate::primitives::decom_y;
use crate::primitives::keys_create;
use crate::primitives::keys_u;
use crate::primitives::mpe_error_text;
use crate::primitives::phase1_broadcast_proof;
use crate::primitives::phase1_verify_distribute;
use crate::primitives::phase2_verify_vss_pok;
use crate::primitives::point_add;
use crate::primitives::point_mul;
use crate::primitives::point_x_coord;
use crate::primitives::points_sum;
use crate::primitives::scalar_add;
use crate::primitives::scalar_from_bigint;
use crate::primitives::scalar_is_zero;
use crate::primitives::scalar_to_bigint;
use crate::primitives::scalars_sum;
use crate::primitives::verify_dlog_proofs;
use crate::primitives::vss_commitments_len;
use crate::primitives::FieldScalar;
use crate::primitives::GroupPoint;
use crate::types::Keystore;
use crate::types::KeystoreParameters;
use crate::types::AEAD;
use crate::utils::aes_decrypt;
use curv::BigInt;
use multi_party_ecdsa::protocols::multi_party_ecdsa::gg_2018::party_i::Phase5ADecom1;
use multi_party_ecdsa::utilities::mta::MessageB;
use crate::utils::aes_encrypt;

verus! {

/// Unicasts one payload to `target`; on success exactly that `Send` is
/// appended to the history.
fn sendp2p(em: &mut Emitter, target: u8, party_id: u8, participants: u8, data: &MessageData) -> (r:
    Result<(), CoreErrors>)
    requires
        target < participants,
        target != party_id,
    ensures
        routine_extension(old(em).hist(), final (em).hist(), party_id, participants),
        r is Ok ==> final (em).hist() == old(em).hist().push(
            (OutgoingMessages::Send { sender: party_id, target, data: *data }),
        ),
        r is Err ==> final (em).hist() == old(em).hist(),
        r is Err ==> r matches Err(CoreErrors::TransportIssue(_)),
{
    let ok = em.send_to(party_id, target, data);
    if ok {
        Ok(())
    } else {
        Err(CoreErrors::TransportIssue("the emitter refused a send".to_string()))
    }
}

/// Fans a payload out to every other party of the session, in ascending
/// order of the target index.
fn broadcast(em: &mut Emitter, participants: u8, party_id: u8, data: &MessageData) -> (r: Result<
    (),
    CoreErrors,
>)
    requires
        party_id < participants,
    ensures
        routine_extension(old(em).hist(), final (em).hist(), party_id, participants),
        r is Ok ==> final (em).hist().len() == old(em).hist().len() + participants - 1,
        r is Ok ==> forall|k: int|
            0 <= k < participants - 1 ==> #[trigger] final (em).hist()[old(em).hist().len() + k]
                == (OutgoingMessages::Send {
                sender: party_id,
                target: (if k < party_id as int {
                    k
                } else {
                    k + 1
                }) as u8,
                data: *data,
            }),
        r is Err ==> r matches Err(CoreErrors::TransportIssue(_)),
{
    let ghost h0 = old(em).hist();
    let mut p: u8 = 0;
    let mut sent: usize = 0;
    while p < participants
        invariant
            h0 == old(em).hist(),
            party_id < participants,
            p <= participants,
            sent as int == (if p <= party_id {
                p as int
            } else {
                p as int - 1
            }),
            em.hist().len() == h0.len() + sent,
            forall|k: int|
                0 <= k < sent ==> #[trigger] em.hist()[h0.len() + k] == (OutgoingMessages::Send {
                    sender: party_id,
                    target: (if k < party_id as int {
                        k
                    } else {
                        k + 1
                    }) as u8,
                    data: *data,
                }),
            routine_extension(h0, em.hist(), party_id, participants),
        decreases participants - p,
    {
        if p != party_id {
            let ghost pre = em.hist();
            match sendp2p(em, p, party_id, participants, data) {
                Ok(_) => {
                    proof {
                        lemma_routine_extension_trans(h0, pre, em.hist(), party_id, participants);
                    }
                    sent = sent + 1;
                },
                Err(e) => {
                    proof {
                        lemma_routine_extension_trans(h0, pre, em.hist(), party_id, participants);
                    }
                    return Err(e);
                },
            }
        }
        p = p + 1;
    }
    Ok(())
}

/// Sums a non-empty vector of curve points, left to right.
pub fn sum_points_vec(v: &Vec<GroupPoint>) -> (r: GroupPoint)
    requires
        v@.len() >= 1,
    ensures
        r == points_sum(v@),
{
    let mut acc = v[0].clone();
    proof {
        assert(v@.take(1) =~= seq![v@[0]]);
    }
    let mut i: usize = 1;
    while i < v.len()
        invariant
            1 <= i <= v@.len(),
            acc == points_sum(v@.take(i as int)),
        decreases v@.len() - i,
    {
        acc = point_add(&acc, &v[i]);
        proof {
            assert(v@.take(i as int + 1).drop_last() =~= v@.take(i as int));
            assert(v@.take(i as int + 1).last() == v@[i as int]);
        }
        i = i + 1;
    }
    proof {
        assert(v@.take(v@.len() as int) =~= v@);
    }
    acc
}

/// Sums a non-empty vector of scalars, left to right.
pub fn sum_scalars_vec(v: &Vec<FieldScalar>) -> (r: FieldScalar)
    requires
        v@.len() >= 1,
    ensures
        r == scalars_sum(v@),
{
    let mut acc = v[0].clone();
    proof {
        assert(v@.take(1) =~= seq![v@[0]]);
    }
    let mut i: usize = 1;
    while i < v.len()
        invariant
            1 <= i <= v@.len(),
            acc == scalars_sum(v@.take(i as int)),
        decreases v@.len() - i,
    {
        acc = scalar_add(&acc, &v[i]);
        proof {
            assert(v@.take(i as int + 1).drop_last() =~= v@.take(i as int));
            assert(v@.take(i as int + 1).last() == v@[i as int]);
        }
        i = i + 1;
    }
    proof {
        assert(v@.take(v@.len() as int) =~= v@);
    }
    acc
}

/// Left-pads big-endian coordinate bytes to the cipher's 32-byte key size.
fn key32(bytes: Vec<u8>) -> (r: Result<Vec<u8>, CoreErrors>)
    ensures
        r matches Ok(k) ==> k@.len() == 32,
        r is Err ==> r matches Err(CoreErrors::ExecutionIssue(_)),
{
    if bytes.len() > 32 {
        return Err(
            CoreErrors::ExecutionIssue("coordinate too wide for the cipher key".to_string()),
        );
    }
    let mut k: Vec<u8> = Vec::new();
    let mut i: usize = bytes.len();
    while i < 32
        invariant
            bytes@.len() <= 32,
            k@.len() + bytes@.len() == i,
            i <= 32,
        decreases 32 - i,
    {
        k.push(0u8);
        i = i + 1;
    }
    let mut tail = bytes;
    k.append(&mut tail);
    Ok(k)
}

/// The completed-key-generation artifact: a well-formed keystore sized by
/// the session, published together with its own joint public key.
pub open spec fn keygen_artifact(
    m: OutgoingMessages,
    participants: u8,
    threshold: u8,
    party_id: u8,
) -> bool {
    m matches OutgoingMessages::Complete(RoundResult::KeyGen { private_key, public_key })
        && public_key == private_key.y_sum && private_key.wf() && private_key.params.share_count
        == participants as u16 && private_key.params.threshold == threshold as u16
        && private_key.party_index == party_id as usize
}

/// Drives one party through the five rounds of distributed key generation.
/// On success the final two emissions are the completed artifact and
/// `Quit`; on failure nothing terminal has been emitted and the caller
/// surfaces the error.
pub fn safe_keygeneration(
    participants: u8,
    threshold: u8,
    party_id: u8,
    em: &mut Emitter,
    inbox: &Inbox,
) -> (r: Result<(), CoreErrors>)
    requires
        party_id < participants,
        threshold < participants,
    ensures
        old(em).hist().is_prefix_of(final (em).hist()),
        forall|i: int| old(em).hist().len() <= i < final (em).hist().len() ==> routine_msg(#[trigger] final (em).hist()[i], party_id, participants) || keygen_artifact(final (em).hist()[i], participants, threshold, party_id) || final (em).hist()[i] is Quit,
        forall|i: int| old(em).hist().len() <= i < final (em).hist().len() && (#[trigger] final (em).hist()[i]) is Quit ==> i == final (em).hist().len() - 1,
        r is Ok ==> final (em).hist().len() >= old(em).hist().len() + 2 && final (em).hist()[final (em).hist().len() - 1] is Quit && keygen_artifact(final (em).hist()[final (em).hist().len() - 2], participants, threshold, party_id),
        r is Err ==> forall|i: int| old(em).hist().len() <= i < final (em).hist().len() ==> !((#[trigger] final (em).hist()[i]) is Quit),
        forall|i: int, j: int| old(em).hist().len() <= i < j < final (em).hist().len() && (#[trigger] final (em).hist()[i]) is Complete ==> !((#[trigger] final (em).hist()[j]) is Complete),
{
    let ghost h0 = old(em).hist();
    let parties: u16 = participants as u16;
    let t16: u16 = threshold as u16;
    let party_num_int: u16 = party_id as u16 + 1;
    let party_keys = keys_create(party_num_int);
    let (bc_i, decom_i) = phase1_broadcast_proof(&party_keys);

    let ghost pre = em.hist();
    let lg = log_line(em, "broadcasting round 1");
    proof {
        log_step(h0, pre, em.hist(), party_id, participants);
    }
    if let Err(e) = lg {
        return Err(e);
    }
    let msg1 = MessageData::KeyGenRound1(bc_i);
    let ghost pre = em.hist();
    let bres = broadcast(em, participants, party_id, &msg1);
    proof {
        lemma_routine_extension_trans(h0, pre, em.hist(), party_id, participants);
    }
    if let Err(e) = bres {
        return Err(e);
    }
    let ghost pre = em.hist();
    let collected = collect_round(inbox, em, msg1, party_id, participants, RoundTag::KeyGen1);
    proof {
        log_step(h0, pre, em.hist(), party_id, participants);
    }
    let round1 = match collected {
        Ok(v) => v,
        Err(e) => { return Err(e) },
    };
    let bc1_vec = extract_keygen_round1(round1);

    let ghost pre = em.hist();
    let lg = log_line(em, "broadcasting round 2");
    proof {
        log_step(h0, pre, em.hist(), party_id, participants);
    }
    if let Err(e) = lg {
        return Err(e);
    }
    let msg2 = MessageData::KeyGenRound2(decom_i);
    let ghost pre = em.hist();
    let bres = broadcast(em, participants, party_id, &msg2);
    proof {
        lemma_routine_extension_trans(h0, pre, em.hist(), party_id, participants);
    }
    if let Err(e) = bres {
        return Err(e);
    }
    let ghost pre = em.hist();
    let collected = collect_round(inbox, em, msg2, party_id, participants, RoundTag::KeyGen2);
    proof {
        log_step(h0, pre, em.hist(), party_id, participants);
    }
    let round2 = match collected {
        Ok(v) => v,
        Err(e) => { return Err(e) },
    };
    let decom_vec = extract_keygen_round2(round2);

    // Openings: each peer's y_i, and the pairwise symmetric keys derived
    // from the shared Diffie-Hellman points.
    let mut point_vec: Vec<GroupPoint> = Vec::new();
    let mut i: usize = 0;
    while i < participants as usize
        invariant
            decom_vec@.len() == participants as int,
            point_vec@.len() == i,
            i <= participants as usize,
        decreases participants as usize - i,
    {
        point_vec.push(decom_y(&decom_vec[i]));
        i = i + 1;
    }
    let u_i = keys_u(&party_keys);
    let mut enc_keys: Vec<Vec<u8>> = Vec::new();
    let mut i: usize = 0;
    while i < participants as usize
        invariant
            h0 == old(em).hist(),
            routine_extension(h0, em.hist(), party_id, participants),
            point_vec@.len() == participants as int,
            party_id < participants,
            i <= participants as usize,
            enc_keys@.len() == (if i <= party_id as usize {
                i as int
            } else {
                i as int - 1
            }),
            forall|k: int| 0 <= k < enc_keys@.len() ==> (#[trigger] enc_keys@[k])@.len() == 32,
        decreases participants as usize - i,
    {
        if i != party_id as usize {
            let shared = point_mul(&point_vec[i], &u_i);
            let x = match point_x_coord(&shared) {
                Some(x) => x,
                None => {
                    return Err(
                        CoreErrors::ExecutionIssue(
                            "a shared point has no x-coordinate".to_string(),
                        ),
                    );
                },
            };
            let kb = match key32(bigint_to_bytes(&x)) {
                Ok(k) => k,
                Err(e) => { return Err(e) },
            };
            enc_keys.push(kb);
        }
        i = i + 1;
    }

    let y_sum = sum_points_vec(&point_vec);

    let dist = phase1_verify_distribute(&party_keys, t16, parties, &decom_vec, &bc1_vec);
    let (vss_scheme, secret_shares, _index) = match dist {
        Ok(x) => x,
        Err(e) => {
            return Err(CoreErrors::ExecutionIssue(mpe_error_text(e)));
        },
    };

    // Round 3: one sealed share per peer, keyed pairwise; the cursor `j`
    // walks the excluding-self key vector while `k` walks all parties.
    let mut j: usize = 0;
    let mut k: usize = 0;
    while k < participants as usize
        invariant
            h0 == old(em).hist(),
            party_id < participants,
            secret_shares@.len() == participants as int,
            enc_keys@.len() == participants as int - 1,
            forall|q: int| 0 <= q < enc_keys@.len() ==> (#[trigger] enc_keys@[q])@.len() == 32,
            k <= participants as usize,
            j as int == (if k <= party_id as usize {
                k as int
            } else {
                k as int - 1
            }),
            routine_extension(h0, em.hist(), party_id, participants),
        decreases participants as usize - k,
    {
        if k != party_id as usize {
            let plaintext = bigint_to_bytes(&scalar_to_bigint(&secret_shares[k]));
            let aead = aes_encrypt(enc_keys[j].as_slice(), plaintext.as_slice());
            let md = MessageData::KeyGenRound3(aead);
            let ghost pre = em.hist();
            let sres = sendp2p(em, k as u8, party_id, participants, &md);
            proof {
                lemma_routine_extension_trans(h0, pre, em.hist(), party_id, participants);
            }
            if let Err(e) = sres {
                return Err(e);
            }
            j = j + 1;
        }
        k = k + 1;
    }

    let ghost pre = em.hist();
    let collected = collect_round(
        inbox,
        em,
        MessageData::KeyGenRound3(AEAD::default()),
        party_id,
        participants,
        RoundTag::KeyGen3,
    );
    proof {
        log_step(h0, pre, em.hist(), party_id, participants);
    }
    let round3 = match collected {
        Ok(v) => v,
        Err(e) => { return Err(e) },
    };
    let mut encrypted = extract_keygen_round3(round3);
    let _own_placeholder = encrypted.remove(party_id as usize);

    // Recover each peer's share; the own share comes from the local VSS
    // output.
    let mut party_shares: Vec<FieldScalar> = Vec::new();
    let mut i: usize = 0;
    let mut j: usize = 0;
    while i < participants as usize
        invariant
            party_id < participants,
            secret_shares@.len() == participants as int,
            enc_keys@.len() == participants as int - 1,
            forall|q: int| 0 <= q < enc_keys@.len() ==> (#[trigger] enc_keys@[q])@.len() == 32,
            i <= participants as usize,
            j as int == (if i <= party_id as usize {
                i as int
            } else {
                i as int - 1
            }),
            encrypted@.len() == participants as int - 1 - j,
            party_shares@.len() == i,
        decreases participants as usize - i,
    {
        if i == party_id as usize {
            party_shares.push(secret_shares[i].clone());
        } else {
            let aead_pack = encrypted.remove(0);
            let out = aes_decrypt(enc_keys[j].as_slice(), aead_pack);
            let out_bn = bigint_from_bytes(out.as_slice());
            let out_fe = scalar_from_bigint(&out_bn);
            party_shares.push(out_fe);
            j = j + 1;
        }
        i = i + 1;
    }

    let ghost pre = em.hist();
    let lg = log_line(em, "broadcasting round 4");
    proof {
        log_step(h0, pre, em.hist(), party_id, participants);
    }
    if let Err(e) = lg {
        return Err(e);
    }
    let msg4 = MessageData::KeyGenRound4(vss_scheme);
    let ghost pre = em.hist();
    let bres = broadcast(em, participants, party_id, &msg4);
    proof {
        lemma_routine_extension_trans(h0, pre, em.hist(), party_id, participants);
    }
    if let Err(e) = bres {
        return Err(e);
    }
    let ghost pre = em.hist();
    let collected = collect_round(inbox, em, msg4, party_id, participants, RoundTag::KeyGen4);
    proof {
        log_step(h0, pre, em.hist(), party_id, participants);
    }
    let round4 = match collected {
        Ok(v) => v,
        Err(e) => { return Err(e) },
    };
    let vss_vec = extract_keygen_round4(round4);
    let mut i: usize = 0;
    while i < vss_vec.len()
        invariant
            h0 == old(em).hist(),
            routine_extension(h0, em.hist(), party_id, participants),
            party_id < participants,
            i <= vss_vec@.len(),
            forall|q: int|
                0 <= q < i ==> crate::primitives::vss_ncoms(#[trigger] vss_vec@[q]) >= 1,
        decreases vss_vec@.len() - i,
    {
        if vss_commitments_len(&vss_vec[i]) < 1 {
            return Err(
                CoreErrors::ExecutionIssue("a peer's VSS scheme has no commitments".to_string()),
            );
        }
        i = i + 1;
    }

    let pok = phase2_verify_vss_pok(
        &party_keys,
        t16,
        parties,
        &point_vec,
        &party_shares,
        &vss_vec,
        party_num_int,
    );
    let (shared_keys, dlog_proof) = match pok {
        Ok(x) => x,
        Err(e) => {
            return Err(CoreErrors::ExecutionIssue(mpe_error_text(e)));
        },
    };

    let ghost pre = em.hist();
    let lg = log_line(em, "broadcasting round 5");
    proof {
        log_step(h0, pre, em.hist(), party_id, participants);
    }
    if let Err(e) = lg {
        return Err(e);
    }
    let msg5 = MessageData::KeyGenRound5(dlog_proof);
    let ghost pre = em.hist();
    let bres = broadcast(em, participants, party_id, &msg5);
    proof {
        lemma_routine_extension_trans(h0, pre, em.hist(), party_id, participants);
    }
    if let Err(e) = bres {
        return Err(e);
    }
    let ghost pre = em.hist();
    let collected = collect_round(inbox, em, msg5, party_id, participants, RoundTag::KeyGen5);
    proof {
        log_step(h0, pre, em.hist(), party_id, participants);
    }
    let round5 = match collected {
        Ok(v) => v,
        Err(e) => { return Err(e) },
    };
    let dlog_proof_vec = extract_keygen_round5(round5);
    if let Err(e) = verify_dlog_proofs(t16, parties, &dlog_proof_vec, &point_vec) {
        return Err(CoreErrors::ExecutionIssue(mpe_error_text(e)));
    }

    let mut paillier_key_vec: Vec<kzen_paillier::EncryptionKey> = Vec::new();
    let mut i: usize = 0;
    while i < participants as usize
        invariant
            bc1_vec@.len() == participants as int,
            paillier_key_vec@.len() == i,
            i <= participants as usize,
        decreases participants as usize - i,
    {
        paillier_key_vec.push(bc1_ek(&bc1_vec[i]));
        i = i + 1;
    }

    let keystore = Keystore {
        params: KeystoreParameters { threshold: t16, share_count: parties },
        party_key: party_keys,
        party_shares,
        shared_keys,
        party_index: party_id as usize,
        vss_scheme_vec: vss_vec,
        paillier_key_vec,
        y_sum,
    };
    let ghost pre = em.hist();
    let lg = log_line(em, "publishing the keystore");
    proof {
        log_step(h0, pre, em.hist(), party_id, participants);
    }
    if let Err(e) = lg {
        return Err(e);
    }
    let complete = OutgoingMessages::make_complete_keygen(keystore);
    let ghost complete_snapshot = complete;
    let ghost pre_complete = em.hist();
    if !em.send(complete) {
        return Err(CoreErrors::TransportIssue("the emitter refused the result".to_string()));
    }
    let ghost pre_quit = em.hist();
    if !em.send(OutgoingMessages::Quit) {
        proof {
            assert(keygen_artifact(complete_snapshot, participants, threshold, party_id));
        }
        return Err(CoreErrors::TransportIssue("the emitter refused the close".to_string()));
    }
    proof {
        assert(keygen_artifact(complete_snapshot, participants, threshold, party_id));
        assert(em.hist() == pre_complete.push(complete_snapshot).push(OutgoingMessages::Quit));
    }
    Ok(())
}

/// A trace-only step composed into a routine extension.
proof fn log_step(
    h0: Seq<OutgoingMessages>,
    pre: Seq<OutgoingMessages>,
    post: Seq<OutgoingMessages>,
    party_id: u8,
    participants: u8,
)
    requires
        routine_extension(h0, pre, party_id, participants),
        crate::channel::trace_extension(pre, post),
    ensures
        routine_extension(h0, post, party_id, participants),
{
    assert forall|i: int| pre.len() <= i < post.len() implies routine_msg(
        #[trigger] post[i],
        party_id,
        participants,
    ) by {
        assert(post[i] is Log);
    }
    lemma_routine_extension_trans(h0, pre, post, party_id, participants);
}

/// Runs [`safe_keygeneration`] and reports its outcome only through the
/// emitter: on failure, a trace line with the diagnostic and then the
/// terminal `Error(Halted)`.
pub fn keygeneration(
    participants: u8,
    threshold: u8,
    party_id: u8,
    em: &mut Emitter,
    inbox: &Inbox,
)
    ensures
        old(em).hist().is_prefix_of(final (em).hist()),
        forall|i: int| old(em).hist().len() <= i < final (em).hist().len() && (#[trigger] final (em).hist()[i]) is Error ==> final (em).hist()[i] == OutgoingMessages::Error(Errors::Halted) && i == final (em).hist().len() - 1,
        forall|i: int| old(em).hist().len() <= i < final (em).hist().len() && (#[trigger] final (em).hist()[i]) is Quit ==> i == final (em).hist().len() - 1 && i >= old(em).hist().len() + 1 && keygen_artifact(final (em).hist()[i - 1], participants, threshold, party_id),
        forall|i: int| old(em).hist().len() <= i < final (em).hist().len() && (#[trigger] final (em).hist()[i]) is Complete ==> keygen_artifact(final (em).hist()[i], participants, threshold, party_id),
        forall|i: int, j: int| old(em).hist().len() <= i < j < final (em).hist().len() && (#[trigger] final (em).hist()[i]) is Complete ==> !((#[trigger] final (em).hist()[j]) is Complete),
{
    let ghost h0 = old(em).hist();
    if !(party_id < participants && threshold < participants) {
        let _ = log_line(em, "rejected: the session sizing is inconsistent");
        let _ = em.send(OutgoingMessages::Error(Errors::Halted));
        return ;
    }
    let outcome = safe_keygeneration(participants, threshold, party_id, em, inbox);
    match outcome {
        Ok(_) => {},
        Err(e) => {
            let _ = em.send(OutgoingMessages::Log(e.into_message()));
            let _ = em.send(OutgoingMessages::Error(Errors::Halted));
        },
    }
}

/// The completed-signing artifact.
pub open spec fn sign_artifact(m: OutgoingMessages) -> bool {
    m matches OutgoingMessages::Complete(RoundResult::Sign { .. })
}

/// Whether the entries of a signer subset are pairwise distinct.
pub fn all_distinct(v: &Vec<u16>) -> (b: bool)
    ensures
        b == (forall|a: int, c: int| 0 <= a < c < v@.len() ==> v@[a] != v@[c]),
{
    let mut i: usize = 0;
    while i < v.len()
        invariant
            i <= v@.len(),
            forall|a: int, c: int| 0 <= a < c < v@.len() && a < i ==> v@[a] != v@[c],
        decreases v@.len() - i,
    {
        let mut j: usize = i + 1;
        while j < v.len()
            invariant
                i < j,
                j <= v@.len(),
                i < v@.len(),
                forall|c: int| i < c < j ==> v@[i as int] != #[trigger] v@[c],
            decreases v@.len() - j,
        {
            if v[i] == v[j] {
                return false;
            }
            j = j + 1;
        }
        i = i + 1;
    }
    true
}

/// Whether every entry of a signer subset indexes into `bound` slots.
pub fn all_below(v: &Vec<u16>, bound: u16) -> (b: bool)
    ensures
        b == (forall|a: int| 0 <= a < v@.len() ==> (#[trigger] v@[a]) < bound),
{
    let mut i: usize = 0;
    while i < v.len()
        invariant
            i <= v@.len(),
            forall|a: int| 0 <= a < i ==> (#[trigger] v@[a]) < bound,
        decreases v@.len() - i,
    {
        if !(v[i] < bound) {
            return false;
        }
        i = i + 1;
    }
    true
}

/// Drives one party through the nine rounds of distributed signing over
/// `digest`, as the signer at position `party_num_id` within
/// `signers_vec`.  On success the final two emissions are the signature
/// artifact and `Quit`; on failure nothing terminal has been emitted.
pub fn safe_sign(
    participants: u8,
    threshold: u8,
    party_num_id: u8,
    keystore: &Keystore,
    digest: &BigInt,
    signers_vec: &Vec<u16>,
    em: &mut Emitter,
    inbox: &Inbox,
) -> (r: Result<(), CoreErrors>)
    requires
        threshold >= 1,
        participants as int == threshold as int + 1,
        party_num_id < participants,
        signers_vec@.len() == participants as int,
        forall|i: int| 0 <= i < signers_vec@.len() ==> (#[trigger] signers_vec@[i]) < keystore.params.share_count,
        forall|i: int, j: int| 0 <= i < j < signers_vec@.len() ==> signers_vec@[i] != signers_vec@[j],
        keystore.wf(),
    ensures
        old(em).hist().is_prefix_of(final (em).hist()),
        forall|i: int| old(em).hist().len() <= i < final (em).hist().len() ==> routine_msg(#[trigger] final (em).hist()[i], party_num_id, participants) || sign_artifact(final (em).hist()[i]) || final (em).hist()[i] is Quit,
        forall|i: int| old(em).hist().len() <= i < final (em).hist().len() && (#[trigger] final (em).hist()[i]) is Quit ==> i == final (em).hist().len() - 1,
        r is Ok ==> final (em).hist().len() >= old(em).hist().len() + 2 && final (em).hist()[final (em).hist().len() - 1] is Quit && sign_artifact(final (em).hist()[final (em).hist().len() - 2]),
        r is Err ==> forall|i: int| old(em).hist().len() <= i < final (em).hist().len() ==> !((#[trigger] final (em).hist()[i]) is Quit),
        forall|i: int, j: int| old(em).hist().len() <= i < j < final (em).hist().len() && (#[trigger] final (em).hist()[i]) is Complete ==> !((#[trigger] final (em).hist()[j]) is Complete),
{
    let ghost h0 = old(em).hist();
    let pid = party_num_id as usize;

    let ghost pre = em.hist();
    let lg = log_line(em, "start of signature generation");
    proof { log_step(h0, pre, em.hist(), party_num_id, participants); }
    if let Err(e) = lg { return Err(e); }

    let private = set_private(&keystore.party_key, &keystore.shared_keys);
    let own_index: u16 = signers_vec[pid];
    proof {
        assert(signers_vec@[pid as int] == own_index);
        assert(signers_vec@.contains(own_index));
    }
    let sign_keys = sign_keys_create(
        &private,
        &keystore.vss_scheme_vec[own_index as usize],
        own_index,
        signers_vec,
    );
    let xi_com_vec = get_commitments_to_xi(&keystore.vss_scheme_vec);
    let (com, decommit) = sign_phase1_broadcast(&sign_keys);
    let own_ek = keys_ek(&keystore.party_key);
    let m_a_k = message_a(&sign_keys, &own_ek);

    let msg1 = MessageData::SignRound1((SignRound1Data { com, enc: m_a_k }));
    let ghost pre = em.hist();
    let bres = broadcast(em, participants, party_num_id, &msg1);
    proof { lemma_routine_extension_trans(h0, pre, em.hist(), party_num_id, participants); }
    if let Err(e) = bres { return Err(e); }
    let ghost pre = em.hist();
    let collected = collect_round(inbox, em, msg1, party_num_id, participants, RoundTag::Sign1);
    proof { log_step(h0, pre, em.hist(), party_num_id, participants); }
    let round1 = match collected { Ok(v) => v, Err(e) => { return Err(e) } };
    let (bc1_all, m_a_all) = extract_sign_round1(round1);
    let mut bc1_vec = bc1_all;
    let mut m_a_vec = m_a_all;
    let _own_m_a = m_a_vec.remove(pid);

    // MtA responder step: the cursor `j` walks the excluding-self vectors
    // while `i` walks the signer positions.
    let gamma_i = sign_keys_gamma(&sign_keys);
    let w_i = sign_keys_w(&sign_keys);
    let mut m_b_gamma_send_vec: Vec<MessageB> = Vec::new();
    let mut m_b_w_send_vec: Vec<MessageB> = Vec::new();
    let mut beta_vec: Vec<FieldScalar> = Vec::new();
    let mut ni_vec: Vec<FieldScalar> = Vec::new();
    let mut j: usize = 0;
    let mut i: usize = 0;
    while i < participants as usize
        invariant
            h0 == old(em).hist(),
            routine_extension(h0, em.hist(), party_num_id, participants),
            party_num_id < participants,
            keystore.wf(),
            signers_vec@.len() == participants as int,
            forall|q: int| 0 <= q < signers_vec@.len() ==> (#[trigger] signers_vec@[q]) < keystore.params.share_count,
            m_a_vec@.len() == participants as int - 1,
            i <= participants as usize,
            j as int == (if i <= party_num_id as usize { i as int } else { i as int - 1 }),
            m_b_gamma_send_vec@.len() == j,
            m_b_w_send_vec@.len() == j,
            beta_vec@.len() == j,
            ni_vec@.len() == j,
        decreases participants as usize - i,
    {
        if i != party_num_id as usize {
            let peer_ek = &keystore.paillier_key_vec[signers_vec[i] as usize];
            let bg = message_b(&gamma_i, peer_ek, &m_a_vec[j]);
            let (m_b_gamma, beta_gamma) = match bg {
                Ok(x) => x,
                Err(e) => { return Err(CoreErrors::ExecutionIssue(mpe_error_text(e))) },
            };
            let bw = message_b(&w_i, peer_ek, &m_a_vec[j]);
            let (m_b_w, beta_wi) = match bw {
                Ok(x) => x,
                Err(e) => { return Err(CoreErrors::ExecutionIssue(mpe_error_text(e))) },
            };
            m_b_gamma_send_vec.push(m_b_gamma);
            m_b_w_send_vec.push(m_b_w);
            beta_vec.push(beta_gamma);
            ni_vec.push(beta_wi);
            j = j + 1;
        }
        i = i + 1;
    }

    let ghost pre = em.hist();
    let lg = log_line(em, "dispatching round 2");
    proof { log_step(h0, pre, em.hist(), party_num_id, participants); }
    if let Err(e) = lg { return Err(e); }
    let mut j: usize = 0;
    let mut i: usize = 0;
    while i < participants as usize
        invariant
            h0 == old(em).hist(),
            routine_extension(h0, em.hist(), party_num_id, participants),
            party_num_id < participants,
            m_b_gamma_send_vec@.len() == participants as int - 1,
            m_b_w_send_vec@.len() == participants as int - 1,
            i <= participants as usize,
            j as int == (if i <= party_num_id as usize { i as int } else { i as int - 1 }),
        decreases participants as usize - i,
    {
        if i != party_num_id as usize {
            let md = MessageData::SignRound2(
                (SignRound2Data {
                    g: m_b_gamma_send_vec[j].clone(),
                    w: m_b_w_send_vec[j].clone(),
                }),
            );
            let ghost pre = em.hist();
            let sres = sendp2p(em, i as u8, party_num_id, participants, &md);
            proof { lemma_routine_extension_trans(h0, pre, em.hist(), party_num_id, participants); }
            if let Err(e) = sres { return Err(e); }
            j = j + 1;
        }
        i = i + 1;
    }

    let g0 = m_b_gamma_send_vec.remove(0);
    let w0 = m_b_w_send_vec.remove(0);
    let msg2 = MessageData::SignRound2((SignRound2Data { g: g0, w: w0 }));
    let ghost pre = em.hist();
    let collected = collect_round(inbox, em, msg2, party_num_id, participants, RoundTag::Sign2);
    proof { log_step(h0, pre, em.hist(), party_num_id, participants); }
    let round2 = match collected { Ok(v) => v, Err(e) => { return Err(e) } };
    let mut round2 = round2;
    let _own_round2 = round2.remove(pid);
    let (m_b_gamma_rec_vec, m_b_w_rec_vec) = extract_sign_round2(round2);

    // Verify both MtA proofs per co-signer and check the w-side public
    // point against the rescaled Feldman commitment.
    let mut alpha_vec: Vec<FieldScalar> = Vec::new();
    let mut miu_vec: Vec<FieldScalar> = Vec::new();
    let mut j: usize = 0;
    let mut i: usize = 0;
    while i < participants as usize
        invariant
            h0 == old(em).hist(),
            routine_extension(h0, em.hist(), party_num_id, participants),
            party_num_id < participants,
            keystore.wf(),
            signers_vec@.len() == participants as int,
            forall|q: int| 0 <= q < signers_vec@.len() ==> (#[trigger] signers_vec@[q]) < keystore.params.share_count,
            forall|a: int, c: int| 0 <= a < c < signers_vec@.len() ==> signers_vec@[a] != signers_vec@[c],
            m_b_gamma_rec_vec@.len() == participants as int - 1,
            m_b_w_rec_vec@.len() == participants as int - 1,
            xi_com_vec@.len() == keystore.params.share_count as int,
            i <= participants as usize,
            j as int == (if i <= party_num_id as usize { i as int } else { i as int - 1 }),
            alpha_vec@.len() == j,
            miu_vec@.len() == j,
        decreases participants as usize - i,
    {
        if i != party_num_id as usize {
            let ag = verify_proofs_get_alpha(&m_b_gamma_rec_vec[j], &keystore.party_key, &sign_keys);
            let alpha_ij_gamma = match ag {
                Ok(x) => x,
                Err(e) => { return Err(CoreErrors::ExecutionIssue(mpe_error_text(e))) },
            };
            let aw = verify_proofs_get_alpha(&m_b_w_rec_vec[j], &keystore.party_key, &sign_keys);
            let alpha_ij_wi = match aw {
                Ok(x) => x,
                Err(e) => { return Err(CoreErrors::ExecutionIssue(mpe_error_text(e))) },
            };
            alpha_vec.push(alpha_ij_gamma);
            miu_vec.push(alpha_ij_wi);
            let peer_index: u16 = signers_vec[i];
            proof {
                assert(signers_vec@[i as int] == peer_index);
                assert(signers_vec@.contains(peer_index));
            }
            let g_w_i = update_commitments_to_xi(
                &xi_com_vec[peer_index as usize],
                &keystore.vss_scheme_vec[peer_index as usize],
                peer_index,
                signers_vec,
            );
            let pk = b_proof_pk(&m_b_w_rec_vec[j]);
            if !points_eq(&pk, &g_w_i) {
                return Err(
                    CoreErrors::ExecutionIssue(
                        "an MtA proof point differs from the rescaled commitment".to_string(),
                    ),
                );
            }
            j = j + 1;
        }
        i = i + 1;
    }

    let delta_i = phase2_delta_i(&sign_keys, &alpha_vec, &beta_vec);
    let sigma = phase2_sigma_i(&sign_keys, &miu_vec, &ni_vec);

    let msg3 = MessageData::SignRound3(delta_i);
    let ghost pre = em.hist();
    let bres = broadcast(em, participants, party_num_id, &msg3);
    proof { lemma_routine_extension_trans(h0, pre, em.hist(), party_num_id, participants); }
    if let Err(e) = bres { return Err(e); }
    let ghost pre = em.hist();
    let collected = collect_round(inbox, em, msg3, party_num_id, participants, RoundTag::Sign3);
    proof { log_step(h0, pre, em.hist(), party_num_id, participants); }
    let round3 = match collected { Ok(v) => v, Err(e) => { return Err(e) } };
    let delta_vec = extract_sign_scalars(round3);
    let delta_total = sum_scalars_vec(&delta_vec);
    if scalar_is_zero(&delta_total) {
        return Err(CoreErrors::ExecutionIssue("the summed deltas are zero".to_string()));
    }
    let delta_inv = phase3_reconstruct_delta(&delta_vec);

    let msg4 = MessageData::SignRound4(decommit);
    let ghost pre = em.hist();
    let bres = broadcast(em, participants, party_num_id, &msg4);
    proof { lemma_routine_extension_trans(h0, pre, em.hist(), party_num_id, participants); }
    if let Err(e) = bres { return Err(e); }
    let ghost pre = em.hist();
    let collected = collect_round(inbox, em, msg4, party_num_id, participants, RoundTag::Sign4);
    proof { log_step(h0, pre, em.hist(), party_num_id, participants); }
    let round4 = match collected { Ok(v) => v, Err(e) => { return Err(e) } };
    let mut decommit_vec = extract_sign_round4(round4);
    let decomm_i = decommit_vec.remove(pid);
    let _removed_bc = bc1_vec.remove(pid);

    let r_others = match phase4(&delta_inv, &m_b_gamma_rec_vec, &decommit_vec, &bc1_vec) {
        Ok(p) => p,
        Err(e) => { return Err(CoreErrors::ExecutionIssue(mpe_error_text(e))) },
    };
    let own_gamma_term = point_mul(&decom_g_gamma(&decomm_i), &delta_inv);
    let big_r = point_add(&r_others, &own_gamma_term);
    match point_x_coord(&big_r) {
        Some(_) => {},
        None => {
            return Err(
                CoreErrors::ExecutionIssue("the combined nonce point is degenerate".to_string()),
            );
        },
    }

    let local_sig = phase5_local_sig(&sign_keys, digest, &big_r, &sigma, &keystore.y_sum);
    let (phase5_com, phase_5a_decom, helgamal_proof, dlog_proof_rho) = phase5a_broadcast_zkproof(
        &local_sig,
    );
    let v_i = decom5a_v(&phase_5a_decom);

    let msg5 = MessageData::SignRound5(phase5_com);
    let ghost pre = em.hist();
    let bres = broadcast(em, participants, party_num_id, &msg5);
    proof { lemma_routine_extension_trans(h0, pre, em.hist(), party_num_id, participants); }
    if let Err(e) = bres { return Err(e); }
    let ghost pre = em.hist();
    let collected = collect_round(inbox, em, msg5, party_num_id, participants, RoundTag::Sign5);
    proof { log_step(h0, pre, em.hist(), party_num_id, participants); }
    let round5 = match collected { Ok(v) => v, Err(e) => { return Err(e) } };
    let mut commit5a_vec = extract_sign_round5(round5);

    let msg6 = MessageData::SignRound6(
        (SignRound6Data { com: phase_5a_decom, proof: helgamal_proof, proof_rho: dlog_proof_rho }),
    );
    let ghost pre = em.hist();
    let bres = broadcast(em, participants, party_num_id, &msg6);
    proof { lemma_routine_extension_trans(h0, pre, em.hist(), party_num_id, participants); }
    if let Err(e) = bres { return Err(e); }
    let ghost pre = em.hist();
    let collected = collect_round(inbox, em, msg6, party_num_id, participants, RoundTag::Sign6);
    proof { log_step(h0, pre, em.hist(), party_num_id, participants); }
    let round6 = match collected { Ok(v) => v, Err(e) => { return Err(e) } };
    let (coms_all, elg_all, rho_all) = extract_sign_round6(round6);
    let mut elg_vec = elg_all;
    let mut rho_vec = rho_all;
    let _removed_elg = elg_vec.remove(pid);
    let _removed_rho = rho_vec.remove(pid);
    let _removed_com5a = commit5a_vec.remove(pid);
    let mut coms_no_self: Vec<Phase5ADecom1> = Vec::new();
    let mut i: usize = 0;
    while i < coms_all.len()
        invariant
            party_num_id < participants,
            coms_all@.len() == participants as int,
            i <= participants as usize,
            coms_no_self@.len() == (if i <= party_num_id as usize { i as int } else { i as int - 1 }),
        decreases coms_all@.len() - i,
    {
        if i != party_num_id as usize {
            coms_no_self.push(coms_all[i].clone());
        }
        i = i + 1;
    }

    let p5c = phase5c(
        &local_sig,
        &coms_no_self,
        &commit5a_vec,
        &elg_vec,
        &rho_vec,
        &v_i,
        &big_r,
    );
    let (phase5_com2, phase_5d_decom2) = match p5c {
        Ok(x) => x,
        Err(e) => { return Err(CoreErrors::ExecutionIssue(mpe_error_text(e))) },
    };

    let msg7 = MessageData::SignRound7(phase5_com2);
    let ghost pre = em.hist();
    let bres = broadcast(em, participants, party_num_id, &msg7);
    proof { lemma_routine_extension_trans(h0, pre, em.hist(), party_num_id, participants); }
    if let Err(e) = bres { return Err(e); }
    let ghost pre = em.hist();
    let collected = collect_round(inbox, em, msg7, party_num_id, participants, RoundTag::Sign7);
    proof { log_step(h0, pre, em.hist(), party_num_id, participants); }
    let round7 = match collected { Ok(v) => v, Err(e) => { return Err(e) } };
    let commit5c_vec = extract_sign_round7(round7);

    let msg8 = MessageData::SignRound8(phase_5d_decom2);
    let ghost pre = em.hist();
    let bres = broadcast(em, participants, party_num_id, &msg8);
    proof { lemma_routine_extension_trans(h0, pre, em.hist(), party_num_id, participants); }
    if let Err(e) = bres { return Err(e); }
    let ghost pre = em.hist();
    let collected = collect_round(inbox, em, msg8, party_num_id, participants, RoundTag::Sign8);
    proof { log_step(h0, pre, em.hist(), party_num_id, participants); }
    let round8 = match collected { Ok(v) => v, Err(e) => { return Err(e) } };
    let decommit5d_vec = extract_sign_round8(round8);

    let s_i = match phase5d(&local_sig, &decommit5d_vec, &commit5c_vec, &coms_all) {
        Ok(x) => x,
        Err(e) => { return Err(CoreErrors::ExecutionIssue(mpe_error_text(e))) },
    };

    let msg9 = MessageData::SignRound9(s_i);
    let ghost pre = em.hist();
    let bres = broadcast(em, participants, party_num_id, &msg9);
    proof { lemma_routine_extension_trans(h0, pre, em.hist(), party_num_id, participants); }
    if let Err(e) = bres { return Err(e); }
    let ghost pre = em.hist();
    let collected = collect_round(inbox, em, msg9, party_num_id, participants, RoundTag::Sign9);
    proof { log_step(h0, pre, em.hist(), party_num_id, participants); }
    let round9 = match collected { Ok(v) => v, Err(e) => { return Err(e) } };
    let mut s_i_vec = extract_sign_scalars(round9);
    let _own_s = s_i_vec.remove(pid);

    let sig = match output_signature(&local_sig, &s_i_vec) {
        Ok(x) => x,
        Err(e) => { return Err(CoreErrors::ExecutionIssue(mpe_error_text(e))) },
    };

    let complete = OutgoingMessages::make_complete_signature(sig);
    let ghost complete_snapshot = complete;
    let ghost pre_complete = em.hist();
    if !em.send(complete) {
        return Err(CoreErrors::TransportIssue("the emitter refused the result".to_string()));
    }
    if !em.send(OutgoingMessages::Quit) {
        proof { assert(sign_artifact(complete_snapshot)); }
        return Err(CoreErrors::TransportIssue("the emitter refused the close".to_string()));
    }
    proof {
        assert(sign_artifact(complete_snapshot));
        assert(em.hist() == pre_complete.push(complete_snapshot).push(OutgoingMessages::Quit));
    }
    Ok(())
}

/// Runs [`safe_sign`] after validating the session shape and the keystore,
/// and reports the outcome only through the emitter: on failure, a trace
/// line with the diagnostic and then the terminal `Error(Halted)`.
pub fn sign(
    participants: u8,
    threshold: u8,
    party_num_id: u8,
    keystore: &Keystore,
    digest: &BigInt,
    signers_vec: &Vec<u16>,
    em: &mut Emitter,
    inbox: &Inbox,
)
    ensures
        old(em).hist().is_prefix_of(final (em).hist()),
        forall|i: int| old(em).hist().len() <= i < final (em).hist().len() && (#[trigger] final (em).hist()[i]) is Error ==> final (em).hist()[i] == OutgoingMessages::Error(Errors::Halted) && i == final (em).hist().len() - 1,
        forall|i: int| old(em).hist().len() <= i < final (em).hist().len() && (#[trigger] final (em).hist()[i]) is Quit ==> i == final (em).hist().len() - 1 && i >= old(em).hist().len() + 1 && sign_artifact(final (em).hist()[i - 1]),
        forall|i: int| old(em).hist().len() <= i < final (em).hist().len() && (#[trigger] final (em).hist()[i]) is Complete ==> sign_artifact(final (em).hist()[i]),
        forall|i: int, j: int| old(em).hist().len() <= i < j < final (em).hist().len() && (#[trigger] final (em).hist()[i]) is Complete ==> !((#[trigger] final (em).hist()[j]) is Complete),
{
    let shape_ok = threshold >= 1 && participants as u16 == threshold as u16 + 1 && party_num_id
        < participants && signers_vec.len() == participants as usize;
    let keystore_ok = keystore.check();
    let signers_ok = all_below(signers_vec, keystore.params.share_count) && all_distinct(
        signers_vec,
    );
    if !(shape_ok && keystore_ok && signers_ok) {
        let _ = log_line(em, "rejected: the signing session shape is inconsistent");
        let _ = em.send(OutgoingMessages::Error(Errors::Halted));
        return ;
    }
    let outcome = safe_sign(
        participants,
        threshold,
        party_num_id,
        keystore,
        digest,
        signers_vec,
        em,
        inbox,
    );
    match outcome {
        Ok(_) => {},
        Err(e) => {
            let _ = em.send(OutgoingMessages::Log(e.into_message()));
            let _ = em.send(OutgoingMessages::Error(Errors::Halted));
        },
    }
}

} // verus!
