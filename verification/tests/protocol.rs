//! Unit tests for the message taxonomy, error codes and share sealing.

use multi_party_ecdsa::protocols::multi_party_ecdsa::gg_2018::party_i::{
    KeyGenBroadcastMessage1, KeyGenDecommitMessage1, Keys,
};
use tss_core::messages::{
    Errors, GetData, IncomingMessages, MessageData, OutgoingMessages, RoundTag,
};
use tss_core::errors::CoreErrors;
use tss_core::primitives::{scalar_from_bigint, scalar_to_bigint};
use tss_core::utils::{aes_decrypt, aes_encrypt};

fn sample_round1() -> (KeyGenBroadcastMessage1, KeyGenDecommitMessage1) {
    let keys = Keys::create(1);
    keys.phase1_broadcast_phase3_proof_of_correct_key()
}

#[test]
fn error_codes_are_stable() {
    assert_eq!(Errors::Halted.code(), 0);
    assert_eq!(Errors::Unknown.code(), 1);
    assert_eq!(Errors::CollectTimeout.code(), 10);
    assert_eq!(Errors::CollectUnexpectedData.code(), 11);
    assert_eq!(Errors::CollectDisconnected.code(), 12);
}

#[test]
fn core_errors_map_to_wire_codes() {
    assert_eq!(
        CoreErrors::InvalidData(String::from("a")).code(),
        Errors::CollectUnexpectedData
    );
    assert_eq!(
        CoreErrors::TransportIssue(String::from("b")).code(),
        Errors::CollectDisconnected
    );
    assert_eq!(CoreErrors::Timeout(String::from("c")).code(), Errors::CollectTimeout);
    assert_eq!(CoreErrors::ExecutionIssue(String::from("d")).code(), Errors::Halted);
    assert_eq!(CoreErrors::Timeout(String::from("budget")).into_message(), "budget");
}

#[test]
fn message_tags_identify_rounds() {
    let (bc, decom) = sample_round1();
    assert_eq!(MessageData::Empty.tag(), RoundTag::Idle);
    assert_eq!(MessageData::KeyGenRound1(bc).tag(), RoundTag::KeyGen1);
    assert_eq!(MessageData::KeyGenRound2(decom).tag(), RoundTag::KeyGen2);
    assert_eq!(
        MessageData::KeyGenRound3(tss_core::types::AEAD::default()).tag(),
        RoundTag::KeyGen3
    );
}

#[test]
fn projection_accepts_only_its_round() {
    let (bc, decom) = sample_round1();
    let com = bc.com.clone();
    let wrapped = MessageData::KeyGenRound1(bc);
    let back: Option<KeyGenBroadcastMessage1> = wrapped.get_data();
    assert_eq!(back.expect("round 1 body").com, com);

    let mismatched = MessageData::KeyGenRound2(decom);
    let none: Option<KeyGenBroadcastMessage1> = mismatched.get_data();
    assert!(none.is_none());

    let sealed = MessageData::KeyGenRound3(tss_core::types::AEAD::default());
    let back: Option<tss_core::types::AEAD> = sealed.get_data();
    assert_eq!(back.expect("round 3 body"), tss_core::types::AEAD::default());
}

#[test]
fn send_reflects_into_incoming() {
    let (bc, _) = sample_round1();
    let com = bc.com.clone();
    let out = OutgoingMessages::make_send(2, 5, MessageData::KeyGenRound1(bc));
    match out.into_incoming() {
        Some(IncomingMessages::Send { sender, target, data }) => {
            assert_eq!(sender, 2);
            assert_eq!(target, 5);
            match data {
                MessageData::KeyGenRound1(b) => assert_eq!(b.com, com),
                _ => panic!("wrong payload"),
            }
        }
        None => panic!("a send must reflect"),
    }
    assert!(OutgoingMessages::Quit.into_incoming().is_none());
}

#[test]
fn aes_seals_and_opens() {
    let key = [7u8; 32];
    let plaintext = b"thirty-two byte share material!!";
    let sealed = aes_encrypt(&key, plaintext);
    assert_eq!(sealed.ciphertext.len(), plaintext.len());
    assert_eq!(sealed.tag.len(), 16);
    assert_ne!(&sealed.ciphertext[..], &plaintext[..]);
    let opened = aes_decrypt(&key, sealed);
    assert_eq!(&opened[..], &plaintext[..]);
}

#[test]
fn aes_rejects_a_foreign_key() {
    let key = [7u8; 32];
    let other = [8u8; 32];
    let plaintext = b"thirty-two byte share material!!";
    let sealed = aes_encrypt(&key, plaintext);
    let opened = aes_decrypt(&other, sealed);
    assert_ne!(&opened[..], &plaintext[..]);
}

#[test]
fn scalar_conversions_round_trip() {
    let n = curv::BigInt::from(123456789u64);
    let scalar = scalar_from_bigint(&n);
    assert_eq!(scalar_to_bigint(&scalar), n);
    let tagged = MessageData::SignRound3(scalar);
    assert_eq!(tagged.tag(), RoundTag::Sign3);
}

#[test]
fn sign_scalar_rounds_share_a_body_under_distinct_tags() {
    let a = scalar_from_bigint(&curv::BigInt::from(5u32));
    let b = scalar_from_bigint(&curv::BigInt::from(5u32));
    assert_eq!(MessageData::SignRound3(a).tag(), RoundTag::Sign3);
    assert_eq!(MessageData::SignRound9(b).tag(), RoundTag::Sign9);
}
