//! Collector and driver tests: a single party wired to in-process
//! channels, with peers simulated by pre-loading the inbound queue.

use std::sync::mpsc::channel;
use std::time::Instant;

use multi_party_ecdsa::protocols::multi_party_ecdsa::gg_2018::party_i::Keys;
use tss_core::channel::{Emitter, Inbox};
use tss_core::collector::{collect_round, collect_round_with_budget};
use tss_core::errors::CoreErrors;
use tss_core::messages::{IncomingMessages, MessageData, OutgoingMessages, RoundTag, RoundResult};
use tss_core::primitives::points_eq;
use tss_core::scenarios::{keygeneration, sign};

fn endpoints() -> (
    Emitter,
    Inbox,
    std::sync::mpsc::Receiver<OutgoingMessages>,
    std::sync::mpsc::Sender<IncomingMessages>,
) {
    let (out_tx, out_rx) = channel::<OutgoingMessages>();
    let (in_tx, in_rx) = channel::<IncomingMessages>();
    (Emitter::new(out_tx), Inbox::new(in_rx), out_rx, in_tx)
}

fn round1_payload(index: u16) -> MessageData {
    let keys = Keys::create(index);
    let (bc, _) = keys.phase1_broadcast_phase3_proof_of_correct_key();
    MessageData::KeyGenRound1(bc)
}

fn payload_com(m: &MessageData) -> curv::BigInt {
    match m {
        MessageData::KeyGenRound1(b) => b.com.clone(),
        _ => panic!("not a round 1 payload"),
    }
}

#[test]
fn collector_returns_prefilled_single_slot() {
    let (mut em, inbox, _out, _in_tx) = endpoints();
    let mine = round1_payload(1);
    let my_com = payload_com(&mine);
    let got = collect_round(&inbox, &mut em, mine, 0, 1, RoundTag::KeyGen1).expect("collects");
    assert_eq!(got.len(), 1);
    assert_eq!(payload_com(&got[0]), my_com);
}

#[test]
fn collector_gathers_every_peer_slot() {
    let (mut em, inbox, _out, in_tx) = endpoints();
    let mine = round1_payload(1);
    let my_com = payload_com(&mine);
    let peer1 = round1_payload(2);
    let peer2 = round1_payload(3);
    let com1 = payload_com(&peer1);
    let com2 = payload_com(&peer2);
    in_tx.send(IncomingMessages::Send { sender: 1, target: 0, data: peer1 }).unwrap();
    in_tx.send(IncomingMessages::Send { sender: 2, target: 0, data: peer2 }).unwrap();
    let got = collect_round(&inbox, &mut em, mine, 0, 3, RoundTag::KeyGen1).expect("collects");
    assert_eq!(got.len(), 3);
    assert_eq!(payload_com(&got[0]), my_com);
    assert_eq!(payload_com(&got[1]), com1);
    assert_eq!(payload_com(&got[2]), com2);
}

#[test]
fn collector_keeps_the_own_slot_despite_spoofing() {
    let (mut em, inbox, _out, in_tx) = endpoints();
    let mine = round1_payload(1);
    let my_com = payload_com(&mine);
    let spoof = round1_payload(4);
    let peer = round1_payload(2);
    in_tx.send(IncomingMessages::Send { sender: 0, target: 0, data: spoof }).unwrap();
    in_tx.send(IncomingMessages::Send { sender: 1, target: 0, data: peer }).unwrap();
    let got = collect_round(&inbox, &mut em, mine, 0, 2, RoundTag::KeyGen1).expect("collects");
    assert_eq!(payload_com(&got[0]), my_com);
}

#[test]
fn collector_overwrites_a_duplicate_sender() {
    let (mut em, inbox, _out, in_tx) = endpoints();
    let mine = round1_payload(1);
    let first = round1_payload(2);
    let second = round1_payload(3);
    let replacement_com = payload_com(&second);
    let last = round1_payload(4);
    in_tx.send(IncomingMessages::Send { sender: 1, target: 0, data: first }).unwrap();
    in_tx.send(IncomingMessages::Send { sender: 1, target: 0, data: second }).unwrap();
    in_tx.send(IncomingMessages::Send { sender: 2, target: 0, data: last }).unwrap();
    let got = collect_round(&inbox, &mut em, mine, 0, 3, RoundTag::KeyGen1).expect("collects");
    assert_eq!(payload_com(&got[1]), replacement_com);
}

#[test]
fn collector_rejects_a_wrong_round_tag() {
    let (mut em, inbox, _out, in_tx) = endpoints();
    let keys = Keys::create(2);
    let (_, decom) = keys.phase1_broadcast_phase3_proof_of_correct_key();
    in_tx
        .send(IncomingMessages::Send { sender: 1, target: 0, data: MessageData::KeyGenRound2(decom) })
        .unwrap();
    let got = collect_round(&inbox, &mut em, round1_payload(1), 0, 2, RoundTag::KeyGen1);
    match got {
        Err(CoreErrors::InvalidData(_)) => {}
        _ => panic!("a mis-tagged payload must be fatal"),
    }
}

#[test]
fn collector_rejects_a_sender_outside_the_session() {
    let (mut em, inbox, _out, in_tx) = endpoints();
    let stray = round1_payload(5);
    in_tx.send(IncomingMessages::Send { sender: 7, target: 0, data: stray }).unwrap();
    let got = collect_round(&inbox, &mut em, round1_payload(1), 0, 2, RoundTag::KeyGen1);
    match got {
        Err(CoreErrors::InvalidData(_)) => {}
        _ => panic!("an out-of-session sender must be fatal"),
    }
}

#[test]
fn collector_times_out_at_the_policy_boundary() {
    let (mut em, inbox, _out, _in_tx) = endpoints();
    let started = Instant::now();
    let got = collect_round(&inbox, &mut em, round1_payload(1), 0, 2, RoundTag::KeyGen1);
    let elapsed = started.elapsed();
    match got {
        Err(CoreErrors::Timeout(_)) => {}
        _ => panic!("a silent peer must time the round out"),
    }
    assert!(elapsed.as_millis() >= 2700, "budget ended early: {:?}", elapsed);
    assert!(elapsed.as_millis() <= 8000, "budget overran: {:?}", elapsed);
}

#[test]
fn collector_honours_a_shortened_budget() {
    let (mut em, inbox, _out, _in_tx) = endpoints();
    let started = Instant::now();
    let got = collect_round_with_budget(
        &inbox,
        &mut em,
        round1_payload(1),
        0,
        2,
        RoundTag::KeyGen1,
        300,
    );
    match got {
        Err(CoreErrors::Timeout(_)) => {}
        _ => panic!("the shortened budget must time out"),
    }
    assert!(started.elapsed().as_millis() < 2500);
}

#[test]
fn collector_reports_a_disconnected_inbox() {
    let (mut em, inbox, _out, in_tx) = endpoints();
    drop(in_tx);
    let got = collect_round(&inbox, &mut em, round1_payload(1), 0, 2, RoundTag::KeyGen1);
    match got {
        Err(CoreErrors::TransportIssue(_)) => {}
        _ => panic!("a disconnected inbox must be fatal"),
    }
}

#[test]
fn keygen_single_party_publishes_a_keystore() {
    let (mut em, inbox, out_rx, _in_tx) = endpoints();
    keygeneration(1, 0, 0, &mut em, &inbox);
    let mut emitted: Vec<OutgoingMessages> = Vec::new();
    while let Ok(m) = out_rx.try_recv() {
        emitted.push(m);
    }
    assert!(emitted.len() >= 2);
    match &emitted[emitted.len() - 1] {
        OutgoingMessages::Quit => {}
        other => panic!("the session must close with Quit, not {:?}", other),
    }
    match &emitted[emitted.len() - 2] {
        OutgoingMessages::Complete(result) => {
            let (keystore, public_key) = result.as_keygen().expect("a key generation artifact");
            assert!(result.as_signature().is_none());
            assert!(keystore.check());
            assert_eq!(keystore.params.share_count, 1);
            assert_eq!(keystore.params.threshold, 0);
            assert_eq!(keystore.party_index, 0);
            assert_eq!(keystore.party_shares.len(), 1);
            assert!(points_eq(public_key, &keystore.y_sum));
            assert!(points_eq(result.as_public_key().unwrap(), &keystore.y_sum));
            assert!(result.as_keystore().unwrap().check());
        }
        other => panic!("the artifact must precede Quit, not {:?}", other),
    }
    for m in &emitted[..emitted.len() - 2] {
        assert!(
            matches!(m, OutgoingMessages::Log(_)),
            "a lone party emits only trace lines before the artifact"
        );
    }
}

#[test]
fn keystore_check_rejects_inconsistent_sizing() {
    let (mut em, inbox, out_rx, _in_tx) = endpoints();
    keygeneration(1, 0, 0, &mut em, &inbox);
    let mut keystore = None;
    while let Ok(m) = out_rx.try_recv() {
        if let OutgoingMessages::Complete(RoundResult::KeyGen { private_key, .. }) = m {
            keystore = Some(private_key);
        }
    }
    let mut keystore = keystore.expect("the single-party key generation succeeds");
    assert!(keystore.check());
    keystore.params.share_count = 5;
    assert!(!keystore.check());
}

#[test]
fn keygen_rejects_an_inconsistent_shape() {
    let (mut em, inbox, out_rx, _in_tx) = endpoints();
    keygeneration(0, 0, 0, &mut em, &inbox);
    let mut emitted: Vec<OutgoingMessages> = Vec::new();
    while let Ok(m) = out_rx.try_recv() {
        emitted.push(m);
    }
    match emitted.last() {
        Some(OutgoingMessages::Error(e)) => assert_eq!(e.code(), 0),
        other => panic!("an invalid shape must halt, not {:?}", other),
    }
}

#[test]
fn keygen_halts_when_the_peer_stays_silent() {
    let (mut em, inbox, out_rx, _in_tx) = endpoints();
    let started = Instant::now();
    keygeneration(2, 1, 0, &mut em, &inbox);
    assert!(started.elapsed().as_millis() >= 2700);
    let mut emitted: Vec<OutgoingMessages> = Vec::new();
    while let Ok(m) = out_rx.try_recv() {
        emitted.push(m);
    }
    match emitted.last() {
        Some(OutgoingMessages::Error(e)) => assert_eq!(e.code(), 0),
        other => panic!("a silent peer must halt the session, not {:?}", other),
    }
    assert!(!emitted.iter().any(|m| matches!(m, OutgoingMessages::Quit)));
    assert!(!emitted.iter().any(|m| matches!(m, OutgoingMessages::Complete(_))));
    let first_send = emitted
        .iter()
        .find_map(|m| match m {
            OutgoingMessages::Send { sender, target, data } => {
                Some((*sender, *target, data.tag()))
            }
            _ => None,
        })
        .expect("round 1 must be fanned out before the timeout");
    assert_eq!(first_send, (0, 1, RoundTag::KeyGen1));
}

#[test]
fn sign_rejects_signers_outside_the_keystore() {
    let (mut em, inbox, out_rx, _in_tx) = endpoints();
    keygeneration(1, 0, 0, &mut em, &inbox);
    let mut keystore = None;
    while let Ok(m) = out_rx.try_recv() {
        if let OutgoingMessages::Complete(RoundResult::KeyGen { private_key, .. }) = m {
            keystore = Some(private_key);
        }
    }
    let keystore = keystore.expect("the single-party key generation succeeds");

    let (mut em2, inbox2, out_rx2, _in_tx2) = endpoints();
    let digest = curv::BigInt::from(42u32);
    let signers: Vec<u16> = vec![0, 1];
    sign(2, 1, 0, &keystore, &digest, &signers, &mut em2, &inbox2);
    let mut emitted: Vec<OutgoingMessages> = Vec::new();
    while let Ok(m) = out_rx2.try_recv() {
        emitted.push(m);
    }
    match emitted.last() {
        Some(OutgoingMessages::Error(e)) => assert_eq!(e.code(), 0),
        other => panic!("signers outside the keystore must halt, not {:?}", other),
    }
}

#[test]
fn sign_rejects_a_zero_threshold() {
    let (mut em, inbox, out_rx, _in_tx) = endpoints();
    keygeneration(1, 0, 0, &mut em, &inbox);
    let mut keystore = None;
    while let Ok(m) = out_rx.try_recv() {
        if let OutgoingMessages::Complete(RoundResult::KeyGen { private_key, .. }) = m {
            keystore = Some(private_key);
        }
    }
    let keystore = keystore.expect("the single-party key generation succeeds");

    let (mut em2, inbox2, out_rx2, _in_tx2) = endpoints();
    let digest = curv::BigInt::from(7u32);
    let signers: Vec<u16> = vec![0];
    sign(1, 0, 0, &keystore, &digest, &signers, &mut em2, &inbox2);
    let mut emitted: Vec<OutgoingMessages> = Vec::new();
    while let Ok(m) = out_rx2.try_recv() {
        emitted.push(m);
    }
    match emitted.last() {
        Some(OutgoingMessages::Error(e)) => assert_eq!(e.code(), 0),
        other => panic!("a zero threshold must halt, not {:?}", other),
    }
}

#[test]
fn keygen_halts_on_a_tampered_decommitment() {
    let (mut em, inbox, out_rx, in_tx) = endpoints();
    let honest = Keys::create(2);
    let (bc, _) = honest.phase1_broadcast_phase3_proof_of_correct_key();
    let unrelated = Keys::create(2);
    let (_, foreign_decom) = unrelated.phase1_broadcast_phase3_proof_of_correct_key();
    in_tx
        .send(IncomingMessages::Send { sender: 1, target: 0, data: MessageData::KeyGenRound1(bc) })
        .unwrap();
    in_tx
        .send(IncomingMessages::Send {
            sender: 1,
            target: 0,
            data: MessageData::KeyGenRound2(foreign_decom),
        })
        .unwrap();
    keygeneration(2, 1, 0, &mut em, &inbox);
    let mut emitted: Vec<OutgoingMessages> = Vec::new();
    while let Ok(m) = out_rx.try_recv() {
        emitted.push(m);
    }
    match emitted.last() {
        Some(OutgoingMessages::Error(e)) => assert_eq!(e.code(), 0),
        other => panic!("a tampered decommitment must halt, not {:?}", other),
    }
    let mentions_key = emitted.iter().any(|m| match m {
        OutgoingMessages::Log(text) => text.contains("InvalidKey"),
        _ => false,
    });
    assert!(mentions_key, "the diagnostic must name the failed verification");
    assert!(!emitted.iter().any(|m| matches!(m, OutgoingMessages::Complete(_))));
}
