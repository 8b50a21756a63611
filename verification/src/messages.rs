//! The message taxonomy: one tagged payload per protocol round, the
//! emitter- and receiver-side message envelopes, and the statically-typed
//! projections that round drivers use to open collected payloads.

use vstd::prelude::*;

use crate::primitives::DlogProof;
use crate::primitives::ElGamalProof;
use crate::primitives::FieldScalar;
use crate::primitives::GroupPoint;
use crate::primitives::VssScheme;
use crate::types::Keystore;
use crate::types::AEAD;
use multi_party_ecdsa::protocols::multi_party_ecdsa::gg_2018::party_i::KeyGenBroadcastMessage1;
use multi_party_ecdsa::protocols::multi_party_ecdsa::gg_2018::party_i::KeyGenDecommitMessage1;
use multi_party_ecdsa::protocols::multi_party_ecdsa::gg_2018::party_i::Phase5ADecom1;
use multi_party_ecdsa::protocols::multi_party_ecdsa::gg_2018::party_i::Phase5Com1;
use multi_party_ecdsa::protocols::multi_party_ecdsa::gg_2018::party_i::Phase5Com2;
use multi_party_ecdsa::protocols::multi_party_ecdsa::gg_2018::party_i::Phase5DDecom2;
use multi_party_ecdsa::protocols::multi_party_ecdsa::gg_2018::party_i::SignBroadcastPhase1;
use multi_party_ecdsa::protocols::multi_party_ecdsa::gg_2018::party_i::SignDecommitPhase1;
use multi_party_ecdsa::protocols::multi_party_ecdsa::gg_2018::party_i::SignatureRecid;
use multi_party_ecdsa::utilities::mta::MessageA;
use multi_party_ecdsa::utilities::mta::MessageB;

verus! {

/// Stable wire codes for the terminal error signal of a protocol session.
#[derive(Debug, Clone, Copy, PartialEq, Eq, Structural)]
pub enum Errors {
    Halted,
    Unknown,
    CollectTimeout,
    CollectUnexpectedData,
    CollectDisconnected,
}

impl Errors {
    /// The numeric code of this error on the wire.
    pub open spec fn code_spec(self) -> u8 {
        match self {
            Errors::Halted => 0u8,
            Errors::Unknown => 1u8,
            Errors::CollectTimeout => 10u8,
            Errors::CollectUnexpectedData => 11u8,
            Errors::CollectDisconnected => 12u8,
        }
    }

    pub fn code(&self) -> (c: u8)
        ensures
            c == self.code_spec(),
    {
        match self {
            Errors::Halted => 0u8,
            Errors::Unknown => 1u8,
            Errors::CollectTimeout => 10u8,
            Errors::CollectUnexpectedData => 11u8,
            Errors::CollectDisconnected => 12u8,
        }
    }
}

/// The round a tagged payload belongs to.
#[derive(Debug, Clone, Copy, PartialEq, Eq, Structural)]
pub enum RoundTag {
    Idle,
    KeyGen1,
    KeyGen2,
    KeyGen3,
    KeyGen4,
    KeyGen5,
    Sign1,
    Sign2,
    Sign3,
    Sign4,
    Sign5,
    Sign6,
    Sign7,
    Sign8,
    Sign9,
}

/// Signing round 1 payload: the phase-1 commitment and the MtA initiator
/// ciphertext.
#[derive(Clone, Debug)]
pub struct SignRound1Data {
    pub com: SignBroadcastPhase1,
    pub enc: MessageA,
}

/// Signing round 2 payload: the two MtA responder messages, one against the
/// sender's `gamma_i` and one against its `w_i`.
#[derive(Clone, Debug)]
pub struct SignRound2Data {
    pub g: MessageB,
    pub w: MessageB,
}

/// Signing round 6 payload: the phase-5A decommitment with its
/// homomorphic-ElGamal consistency proof and the proof of knowledge of
/// `rho_i`.
#[derive(Clone, Debug)]
pub struct SignRound6Data {
    pub com: Phase5ADecom1,
    pub proof: ElGamalProof,
    pub proof_rho: DlogProof,
}

/// One variant per protocol round; the variant tag identifies the round and
/// statically the body type.
#[derive(Clone, Debug)]
pub enum MessageData {
    Empty,
    KeyGenRound1(KeyGenBroadcastMessage1),
    KeyGenRound2(KeyGenDecommitMessage1),
    KeyGenRound3(AEAD),
    KeyGenRound4(VssScheme),
    KeyGenRound5(DlogProof),
    SignRound1(SignRound1Data),
    SignRound2(SignRound2Data),
    SignRound3(FieldScalar),
    SignRound4(SignDecommitPhase1),
    SignRound5(Phase5Com1),
    SignRound6(SignRound6Data),
    SignRound7(Phase5Com2),
    SignRound8(Phase5DDecom2),
    SignRound9(FieldScalar),
}

/// The round tag of a payload.
pub open spec fn tag_of(m: MessageData) -> RoundTag {
    match m {
        MessageData::Empty => RoundTag::Idle,
        MessageData::KeyGenRound1(_) => RoundTag::KeyGen1,
        MessageData::KeyGenRound2(_) => RoundTag::KeyGen2,
        MessageData::KeyGenRound3(_) => RoundTag::KeyGen3,
        MessageData::KeyGenRound4(_) => RoundTag::KeyGen4,
        MessageData::KeyGenRound5(_) => RoundTag::KeyGen5,
        MessageData::SignRound1(_) => RoundTag::Sign1,
        MessageData::SignRound2(_) => RoundTag::Sign2,
        MessageData::SignRound3(_) => RoundTag::Sign3,
        MessageData::SignRound4(_) => RoundTag::Sign4,
        MessageData::SignRound5(_) => RoundTag::Sign5,
        MessageData::SignRound6(_) => RoundTag::Sign6,
        MessageData::SignRound7(_) => RoundTag::Sign7,
        MessageData::SignRound8(_) => RoundTag::Sign8,
        MessageData::SignRound9(_) => RoundTag::Sign9,
    }
}

impl MessageData {
    pub fn tag(&self) -> (t: RoundTag)
        ensures
            t == tag_of(*self),
    {
        match self {
            MessageData::Empty => RoundTag::Idle,
            MessageData::KeyGenRound1(_) => RoundTag::KeyGen1,
            MessageData::KeyGenRound2(_) => RoundTag::KeyGen2,
            MessageData::KeyGenRound3(_) => RoundTag::KeyGen3,
            MessageData::KeyGenRound4(_) => RoundTag::KeyGen4,
            MessageData::KeyGenRound5(_) => RoundTag::KeyGen5,
            MessageData::SignRound1(_) => RoundTag::Sign1,
            MessageData::SignRound2(_) => RoundTag::Sign2,
            MessageData::SignRound3(_) => RoundTag::Sign3,
            MessageData::SignRound4(_) => RoundTag::Sign4,
            MessageData::SignRound5(_) => RoundTag::Sign5,
            MessageData::SignRound6(_) => RoundTag::Sign6,
            MessageData::SignRound7(_) => RoundTag::Sign7,
            MessageData::SignRound8(_) => RoundTag::Sign8,
            MessageData::SignRound9(_) => RoundTag::Sign9,
        }
    }
}

/// Law: a payload's tag identifies its round, so a message observed with a
/// round's tag carries exactly the body type that round demands.
pub proof fn lemma_tag_identifies_round(m: MessageData)
    ensures
        (tag_of(m) == RoundTag::KeyGen1) == (m matches MessageData::KeyGenRound1(_)),
        (tag_of(m) == RoundTag::KeyGen2) == (m matches MessageData::KeyGenRound2(_)),
        (tag_of(m) == RoundTag::KeyGen3) == (m matches MessageData::KeyGenRound3(_)),
        (tag_of(m) == RoundTag::KeyGen4) == (m matches MessageData::KeyGenRound4(_)),
        (tag_of(m) == RoundTag::KeyGen5) == (m matches MessageData::KeyGenRound5(_)),
        (tag_of(m) == RoundTag::Sign1) == (m matches MessageData::SignRound1(_)),
        (tag_of(m) == RoundTag::Sign2) == (m matches MessageData::SignRound2(_)),
        (tag_of(m) == RoundTag::Sign3) == (m matches MessageData::SignRound3(_)),
        (tag_of(m) == RoundTag::Sign4) == (m matches MessageData::SignRound4(_)),
        (tag_of(m) == RoundTag::Sign5) == (m matches MessageData::SignRound5(_)),
        (tag_of(m) == RoundTag::Sign6) == (m matches MessageData::SignRound6(_)),
        (tag_of(m) == RoundTag::Sign7) == (m matches MessageData::SignRound7(_)),
        (tag_of(m) == RoundTag::Sign8) == (m matches MessageData::SignRound8(_)),
        (tag_of(m) == RoundTag::Sign9) == (m matches MessageData::SignRound9(_)),
{
}

/// The terminal artifact of a session: a keystore with the joint public
/// key after key generation, or a signature after signing.
#[derive(Clone, Debug)]
pub enum RoundResult {
    KeyGen { private_key: Keystore, public_key: GroupPoint },
    Sign { signature: SignatureRecid },
}

impl RoundResult {
    pub fn as_signature(&self) -> (r: Option<&SignatureRecid>)
        ensures
            match r {
                Some(s) => *self matches RoundResult::Sign { signature } && *s == signature,
                None => !(*self is Sign),
            },
    {
        match self {
            RoundResult::Sign { signature } => Some(signature),
            _ => None,
        }
    }

    pub fn as_keystore(&self) -> (r: Option<&Keystore>)
        ensures
            match r {
                Some(k) => *self matches RoundResult::KeyGen { private_key, .. } && *k
                    == private_key,
                None => !(*self is KeyGen),
            },
    {
        match self {
            RoundResult::KeyGen { private_key, .. } => Some(private_key),
            _ => None,
        }
    }

    pub fn as_public_key(&self) -> (r: Option<&GroupPoint>)
        ensures
            match r {
                Some(p) => *self matches RoundResult::KeyGen { public_key, .. } && *p
                    == public_key,
                None => !(*self is KeyGen),
            },
    {
        match self {
            RoundResult::KeyGen { public_key, .. } => Some(public_key),
            _ => None,
        }
    }

    pub fn as_keygen(&self) -> (r: Option<(&Keystore, &GroupPoint)>)
        ensures
            match r {
                Some(kp) => *self matches RoundResult::KeyGen { private_key, public_key }
                    && *kp.0 == private_key && *kp.1 == public_key,
                None => !(*self is KeyGen),
            },
    {
        match self {
            RoundResult::KeyGen { private_key, public_key } => Some((private_key, public_key)),
            _ => None,
        }
    }
}

/// What a party may hand to the transport: peer-addressed payloads, the
/// terminal artifact, the close signal, a terminal error, or a trace line.
#[derive(Clone, Debug)]
pub enum OutgoingMessages {
    Send { sender: u8, target: u8, data: MessageData },
    Complete(RoundResult),
    Quit,
    Error(Errors),
    Log(String),
}

/// What the transport delivers to a party.
#[derive(Clone, Debug)]
pub enum IncomingMessages {
    Send { sender: u8, target: u8, data: MessageData },
}

impl OutgoingMessages {
    /// Reflects an emitted peer-addressed message back as an incoming one;
    /// test transports use this to fan messages out.
    pub fn into_incoming(self) -> (r: Option<IncomingMessages>)
        ensures
            match r {
                Some(inc) => self matches OutgoingMessages::Send { sender, target, data }
                    && inc == (IncomingMessages::Send { sender, target, data }),
                None => !(self is Send),
            },
    {
        match self {
            OutgoingMessages::Send { sender, target, data } => Some(
                IncomingMessages::Send { sender, target, data },
            ),
            _ => None,
        }
    }

    pub fn make_send(sender: u8, target: u8, data: MessageData) -> (r: Self)
        ensures
            r == (OutgoingMessages::Send { sender, target, data }),
    {
        OutgoingMessages::Send { sender, target, data }
    }

    pub fn make_complete_keygen(keystore: Keystore) -> (r: Self)
        ensures
            r == OutgoingMessages::Complete(
                RoundResult::KeyGen { private_key: keystore, public_key: keystore.y_sum },
            ),
    {
        let public_key = keystore.y_sum.clone();
        OutgoingMessages::Complete(RoundResult::KeyGen { private_key: keystore, public_key })
    }

    pub fn make_complete_signature(sig: SignatureRecid) -> (r: Self)
        ensures
            r == OutgoingMessages::Complete(RoundResult::Sign { signature: sig }),
    {
        OutgoingMessages::Complete(RoundResult::Sign { signature: sig })
    }
}

/// A statically-typed projection out of a tagged payload: `get_data`
/// returns the body exactly when this message wraps a value of the
/// requested round type.
pub trait GetData<T>: Sized {
    /// Whether this message is the round wrapping of `value`.
    spec fn wraps(&self, value: T) -> bool;

    fn get_data(self) -> (r: Option<T>)
        ensures
            r matches Some(v) ==> self.wraps(v),
            r is None ==> (forall|v: T| !self.wraps(v)),
    ;
}

impl GetData<KeyGenBroadcastMessage1> for MessageData {
    open spec fn wraps(&self, value: KeyGenBroadcastMessage1) -> bool {
        *self == MessageData::KeyGenRound1(value)
    }

    fn get_data(self) -> (r: Option<KeyGenBroadcastMessage1>) {
        match self {
            MessageData::KeyGenRound1(value) => Some(value),
            _ => None,
        }
    }
}

impl GetData<KeyGenDecommitMessage1> for MessageData {
    open spec fn wraps(&self, value: KeyGenDecommitMessage1) -> bool {
        *self == MessageData::KeyGenRound2(value)
    }

    fn get_data(self) -> (r: Option<KeyGenDecommitMessage1>) {
        match self {
            MessageData::KeyGenRound2(value) => Some(value),
            _ => None,
        }
    }
}

impl GetData<AEAD> for MessageData {
    open spec fn wraps(&self, value: AEAD) -> bool {
        *self == MessageData::KeyGenRound3(value)
    }

    fn get_data(self) -> (r: Option<AEAD>) {
        match self {
            MessageData::KeyGenRound3(value) => Some(value),
            _ => None,
        }
    }
}

impl GetData<VssScheme> for MessageData {
    open spec fn wraps(&self, value: VssScheme) -> bool {
        *self == MessageData::KeyGenRound4(value)
    }

    fn get_data(self) -> (r: Option<VssScheme>) {
        match self {
            MessageData::KeyGenRound4(value) => Some(value),
            _ => None,
        }
    }
}

impl GetData<DlogProof> for MessageData {
    open spec fn wraps(&self, value: DlogProof) -> bool {
        *self == MessageData::KeyGenRound5(value)
    }

    fn get_data(self) -> (r: Option<DlogProof>) {
        match self {
            MessageData::KeyGenRound5(value) => Some(value),
            _ => None,
        }
    }
}


/// Opens a collected round vector into its payloads, in slot order.
pub fn extract_keygen_round1(v: Vec<MessageData>) -> (r: Vec<KeyGenBroadcastMessage1>)
    requires
        forall|i: int| 0 <= i < v@.len() ==> tag_of(#[trigger] v@[i]) == RoundTag::KeyGen1,
    ensures
        r@.len() == v@.len(),
        forall|i: int| 0 <= i < v@.len() ==> v@[i] == MessageData::KeyGenRound1(#[trigger] r@[i]),
{
    let ghost orig = v@;
    let mut rest = v;
    let mut out: Vec<KeyGenBroadcastMessage1> = Vec::new();
    while rest.len() > 0
        invariant
            out@.len() + rest@.len() == orig.len(),
            rest@ == orig.subrange(out@.len() as int, orig.len() as int),
            forall|i: int| 0 <= i < orig.len() ==> tag_of(#[trigger] orig[i]) == RoundTag::KeyGen1,
            forall|i: int| 0 <= i < out@.len() ==> orig[i] == MessageData::KeyGenRound1(#[trigger] out@[i]),
        decreases rest@.len(),
    {
        let ghost k = out@.len() as int;
        let m = rest.remove(0);
        proof {
            assert(m == orig[k]);
            assert(rest@ =~= orig.subrange(k + 1, orig.len() as int));
            assert(tag_of(m) == RoundTag::KeyGen1);
        }
        match m {
            MessageData::KeyGenRound1(b) => { out.push(b); },
            _ => { proof { assert(false); } },
        }
    }
    out
}


/// Opens a collected round vector into its payloads, in slot order.
pub fn extract_keygen_round2(v: Vec<MessageData>) -> (r: Vec<KeyGenDecommitMessage1>)
    requires
        forall|i: int| 0 <= i < v@.len() ==> tag_of(#[trigger] v@[i]) == RoundTag::KeyGen2,
    ensures
        r@.len() == v@.len(),
        forall|i: int| 0 <= i < v@.len() ==> v@[i] == MessageData::KeyGenRound2(#[trigger] r@[i]),
{
    let ghost orig = v@;
    let mut rest = v;
    let mut out: Vec<KeyGenDecommitMessage1> = Vec::new();
    while rest.len() > 0
        invariant
            out@.len() + rest@.len() == orig.len(),
            rest@ == orig.subrange(out@.len() as int, orig.len() as int),
            forall|i: int| 0 <= i < orig.len() ==> tag_of(#[trigger] orig[i]) == RoundTag::KeyGen2,
            forall|i: int| 0 <= i < out@.len() ==> orig[i] == MessageData::KeyGenRound2(#[trigger] out@[i]),
        decreases rest@.len(),
    {
        let ghost k = out@.len() as int;
        let m = rest.remove(0);
        proof {
            assert(m == orig[k]);
            assert(rest@ =~= orig.subrange(k + 1, orig.len() as int));
            assert(tag_of(m) == RoundTag::KeyGen2);
        }
        match m {
            MessageData::KeyGenRound2(b) => { out.push(b); },
            _ => { proof { assert(false); } },
        }
    }
    out
}


/// Opens a collected round vector into its payloads, in slot order.
pub fn extract_keygen_round3(v: Vec<MessageData>) -> (r: Vec<AEAD>)
    requires
        forall|i: int| 0 <= i < v@.len() ==> tag_of(#[trigger] v@[i]) == RoundTag::KeyGen3,
    ensures
        r@.len() == v@.len(),
        forall|i: int| 0 <= i < v@.len() ==> v@[i] == MessageData::KeyGenRound3(#[trigger] r@[i]),
{
    let ghost orig = v@;
    let mut rest = v;
    let mut out: Vec<AEAD> = Vec::new();
    while rest.len() > 0
        invariant
            out@.len() + rest@.len() == orig.len(),
            rest@ == orig.subrange(out@.len() as int, orig.len() as int),
            forall|i: int| 0 <= i < orig.len() ==> tag_of(#[trigger] orig[i]) == RoundTag::KeyGen3,
            forall|i: int| 0 <= i < out@.len() ==> orig[i] == MessageData::KeyGenRound3(#[trigger] out@[i]),
        decreases rest@.len(),
    {
        let ghost k = out@.len() as int;
        let m = rest.remove(0);
        proof {
            assert(m == orig[k]);
            assert(rest@ =~= orig.subrange(k + 1, orig.len() as int));
            assert(tag_of(m) == RoundTag::KeyGen3);
        }
        match m {
            MessageData::KeyGenRound3(b) => { out.push(b); },
            _ => { proof { assert(false); } },
        }
    }
    out
}


/// Opens a collected round vector into its payloads, in slot order.
pub fn extract_keygen_round4(v: Vec<MessageData>) -> (r: Vec<VssScheme>)
    requires
        forall|i: int| 0 <= i < v@.len() ==> tag_of(#[trigger] v@[i]) == RoundTag::KeyGen4,
    ensures
        r@.len() == v@.len(),
        forall|i: int| 0 <= i < v@.len() ==> v@[i] == MessageData::KeyGenRound4(#[trigger] r@[i]),
{
    let ghost orig = v@;
    let mut rest = v;
    let mut out: Vec<VssScheme> = Vec::new();
    while rest.len() > 0
        invariant
            out@.len() + rest@.len() == orig.len(),
            rest@ == orig.subrange(out@.len() as int, orig.len() as int),
            forall|i: int| 0 <= i < orig.len() ==> tag_of(#[trigger] orig[i]) == RoundTag::KeyGen4,
            forall|i: int| 0 <= i < out@.len() ==> orig[i] == MessageData::KeyGenRound4(#[trigger] out@[i]),
        decreases rest@.len(),
    {
        let ghost k = out@.len() as int;
        let m = rest.remove(0);
        proof {
            assert(m == orig[k]);
            assert(rest@ =~= orig.subrange(k + 1, orig.len() as int));
            assert(tag_of(m) == RoundTag::KeyGen4);
        }
        match m {
            MessageData::KeyGenRound4(b) => { out.push(b); },
            _ => { proof { assert(false); } },
        }
    }
    out
}


/// Opens a collected round vector into its payloads, in slot order.
pub fn extract_keygen_round5(v: Vec<MessageData>) -> (r: Vec<DlogProof>)
    requires
        forall|i: int| 0 <= i < v@.len() ==> tag_of(#[trigger] v@[i]) == RoundTag::KeyGen5,
    ensures
        r@.len() == v@.len(),
        forall|i: int| 0 <= i < v@.len() ==> v@[i] == MessageData::KeyGenRound5(#[trigger] r@[i]),
{
    let ghost orig = v@;
    let mut rest = v;
    let mut out: Vec<DlogProof> = Vec::new();
    while rest.len() > 0
        invariant
            out@.len() + rest@.len() == orig.len(),
            rest@ == orig.subrange(out@.len() as int, orig.len() as int),
            forall|i: int| 0 <= i < orig.len() ==> tag_of(#[trigger] orig[i]) == RoundTag::KeyGen5,
            forall|i: int| 0 <= i < out@.len() ==> orig[i] == MessageData::KeyGenRound5(#[trigger] out@[i]),
        decreases rest@.len(),
    {
        let ghost k = out@.len() as int;
        let m = rest.remove(0);
        proof {
            assert(m == orig[k]);
            assert(rest@ =~= orig.subrange(k + 1, orig.len() as int));
            assert(tag_of(m) == RoundTag::KeyGen5);
        }
        match m {
            MessageData::KeyGenRound5(b) => { out.push(b); },
            _ => { proof { assert(false); } },
        }
    }
    out
}


/// Opens a collected round vector into its payloads, in slot order.
pub fn extract_sign_round4(v: Vec<MessageData>) -> (r: Vec<SignDecommitPhase1>)
    requires
        forall|i: int| 0 <= i < v@.len() ==> tag_of(#[trigger] v@[i]) == RoundTag::Sign4,
    ensures
        r@.len() == v@.len(),
        forall|i: int| 0 <= i < v@.len() ==> v@[i] == MessageData::SignRound4(#[trigger] r@[i]),
{
    let ghost orig = v@;
    let mut rest = v;
    let mut out: Vec<SignDecommitPhase1> = Vec::new();
    while rest.len() > 0
        invariant
            out@.len() + rest@.len() == orig.len(),
            rest@ == orig.subrange(out@.len() as int, orig.len() as int),
            forall|i: int| 0 <= i < orig.len() ==> tag_of(#[trigger] orig[i]) == RoundTag::Sign4,
            forall|i: int| 0 <= i < out@.len() ==> orig[i] == MessageData::SignRound4(#[trigger] out@[i]),
        decreases rest@.len(),
    {
        let ghost k = out@.len() as int;
        let m = rest.remove(0);
        proof {
            assert(m == orig[k]);
            assert(rest@ =~= orig.subrange(k + 1, orig.len() as int));
            assert(tag_of(m) == RoundTag::Sign4);
        }
        match m {
            MessageData::SignRound4(b) => { out.push(b); },
            _ => { proof { assert(false); } },
        }
    }
    out
}


/// Opens a collected round vector into its payloads, in slot order.
pub fn extract_sign_round5(v: Vec<MessageData>) -> (r: Vec<Phase5Com1>)
    requires
        forall|i: int| 0 <= i < v@.len() ==> tag_of(#[trigger] v@[i]) == RoundTag::Sign5,
    ensures
        r@.len() == v@.len(),
        forall|i: int| 0 <= i < v@.len() ==> v@[i] == MessageData::SignRound5(#[trigger] r@[i]),
{
    let ghost orig = v@;
    let mut rest = v;
    let mut out: Vec<Phase5Com1> = Vec::new();
    while rest.len() > 0
        invariant
            out@.len() + rest@.len() == orig.len(),
            rest@ == orig.subrange(out@.len() as int, orig.len() as int),
            forall|i: int| 0 <= i < orig.len() ==> tag_of(#[trigger] orig[i]) == RoundTag::Sign5,
            forall|i: int| 0 <= i < out@.len() ==> orig[i] == MessageData::SignRound5(#[trigger] out@[i]),
        decreases rest@.len(),
    {
        let ghost k = out@.len() as int;
        let m = rest.remove(0);
        proof {
            assert(m == orig[k]);
            assert(rest@ =~= orig.subrange(k + 1, orig.len() as int));
            assert(tag_of(m) == RoundTag::Sign5);
        }
        match m {
            MessageData::SignRound5(b) => { out.push(b); },
            _ => { proof { assert(false); } },
        }
    }
    out
}


/// Opens a collected round vector into its payloads, in slot order.
pub fn extract_sign_round7(v: Vec<MessageData>) -> (r: Vec<Phase5Com2>)
    requires
        forall|i: int| 0 <= i < v@.len() ==> tag_of(#[trigger] v@[i]) == RoundTag::Sign7,
    ensures
        r@.len() == v@.len(),
        forall|i: int| 0 <= i < v@.len() ==> v@[i] == MessageData::SignRound7(#[trigger] r@[i]),
{
    let ghost orig = v@;
    let mut rest = v;
    let mut out: Vec<Phase5Com2> = Vec::new();
    while rest.len() > 0
        invariant
            out@.len() + rest@.len() == orig.len(),
            rest@ == orig.subrange(out@.len() as int, orig.len() as int),
            forall|i: int| 0 <= i < orig.len() ==> tag_of(#[trigger] orig[i]) == RoundTag::Sign7,
            forall|i: int| 0 <= i < out@.len() ==> orig[i] == MessageData::SignRound7(#[trigger] out@[i]),
        decreases rest@.len(),
    {
        let ghost k = out@.len() as int;
        let m = rest.remove(0);
        proof {
            assert(m == orig[k]);
            assert(rest@ =~= orig.subrange(k + 1, orig.len() as int));
            assert(tag_of(m) == RoundTag::Sign7);
        }
        match m {
            MessageData::SignRound7(b) => { out.push(b); },
            _ => { proof { assert(false); } },
        }
    }
    out
}


/// Opens a collected round vector into its payloads, in slot order.
pub fn extract_sign_round8(v: Vec<MessageData>) -> (r: Vec<Phase5DDecom2>)
    requires
        forall|i: int| 0 <= i < v@.len() ==> tag_of(#[trigger] v@[i]) == RoundTag::Sign8,
    ensures
        r@.len() == v@.len(),
        forall|i: int| 0 <= i < v@.len() ==> v@[i] == MessageData::SignRound8(#[trigger] r@[i]),
{
    let ghost orig = v@;
    let mut rest = v;
    let mut out: Vec<Phase5DDecom2> = Vec::new();
    while rest.len() > 0
        invariant
            out@.len() + rest@.len() == orig.len(),
            rest@ == orig.subrange(out@.len() as int, orig.len() as int),
            forall|i: int| 0 <= i < orig.len() ==> tag_of(#[trigger] orig[i]) == RoundTag::Sign8,
            forall|i: int| 0 <= i < out@.len() ==> orig[i] == MessageData::SignRound8(#[trigger] out@[i]),
        decreases rest@.len(),
    {
        let ghost k = out@.len() as int;
        let m = rest.remove(0);
        proof {
            assert(m == orig[k]);
            assert(rest@ =~= orig.subrange(k + 1, orig.len() as int));
            assert(tag_of(m) == RoundTag::Sign8);
        }
        match m {
            MessageData::SignRound8(b) => { out.push(b); },
            _ => { proof { assert(false); } },
        }
    }
    out
}


/// Opens a signing round 1 collection into commitments and MtA initiator
/// ciphertexts, in slot order.
pub fn extract_sign_round1(v: Vec<MessageData>) -> (r: (Vec<SignBroadcastPhase1>, Vec<MessageA>))
    requires
        forall|i: int| 0 <= i < v@.len() ==> tag_of(#[trigger] v@[i]) == RoundTag::Sign1,
    ensures
        r.0@.len() == v@.len(),
        r.1@.len() == v@.len(),
        forall|i: int|
            0 <= i < v@.len() ==> #[trigger] v@[i] == MessageData::SignRound1(
                (SignRound1Data { com: r.0@[i], enc: r.1@[i] }),
            ),
{
    let ghost orig = v@;
    let mut rest = v;
    let mut coms: Vec<SignBroadcastPhase1> = Vec::new();
    let mut encs: Vec<MessageA> = Vec::new();
    while rest.len() > 0
        invariant
            coms@.len() == encs@.len(),
            coms@.len() + rest@.len() == orig.len(),
            rest@ == orig.subrange(coms@.len() as int, orig.len() as int),
            forall|i: int| 0 <= i < orig.len() ==> tag_of(#[trigger] orig[i]) == RoundTag::Sign1,
            forall|i: int|
                0 <= i < coms@.len() ==> #[trigger] orig[i] == MessageData::SignRound1(
                    (SignRound1Data { com: coms@[i], enc: encs@[i] }),
                ),
        decreases rest@.len(),
    {
        let ghost k = coms@.len() as int;
        let m = rest.remove(0);
        proof {
            assert(m == orig[k]);
            assert(rest@ =~= orig.subrange(k + 1, orig.len() as int));
            assert(tag_of(m) == RoundTag::Sign1);
        }
        match m {
            MessageData::SignRound1(d) => {
                let SignRound1Data { com, enc } = d;
                coms.push(com);
                encs.push(enc);
            },
            _ => { proof { assert(false); } },
        }
    }
    (coms, encs)
}

/// Opens a signing round 2 collection into the gamma-side and w-side MtA
/// responder messages, in slot order.
pub fn extract_sign_round2(v: Vec<MessageData>) -> (r: (Vec<MessageB>, Vec<MessageB>))
    requires
        forall|i: int| 0 <= i < v@.len() ==> tag_of(#[trigger] v@[i]) == RoundTag::Sign2,
    ensures
        r.0@.len() == v@.len(),
        r.1@.len() == v@.len(),
        forall|i: int|
            0 <= i < v@.len() ==> #[trigger] v@[i] == MessageData::SignRound2(
                (SignRound2Data { g: r.0@[i], w: r.1@[i] }),
            ),
{
    let ghost orig = v@;
    let mut rest = v;
    let mut gs: Vec<MessageB> = Vec::new();
    let mut ws: Vec<MessageB> = Vec::new();
    while rest.len() > 0
        invariant
            gs@.len() == ws@.len(),
            gs@.len() + rest@.len() == orig.len(),
            rest@ == orig.subrange(gs@.len() as int, orig.len() as int),
            forall|i: int| 0 <= i < orig.len() ==> tag_of(#[trigger] orig[i]) == RoundTag::Sign2,
            forall|i: int|
                0 <= i < gs@.len() ==> #[trigger] orig[i] == MessageData::SignRound2(
                    (SignRound2Data { g: gs@[i], w: ws@[i] }),
                ),
        decreases rest@.len(),
    {
        let ghost k = gs@.len() as int;
        let m = rest.remove(0);
        proof {
            assert(m == orig[k]);
            assert(rest@ =~= orig.subrange(k + 1, orig.len() as int));
            assert(tag_of(m) == RoundTag::Sign2);
        }
        match m {
            MessageData::SignRound2(d) => {
                let SignRound2Data { g, w } = d;
                gs.push(g);
                ws.push(w);
            },
            _ => { proof { assert(false); } },
        }
    }
    (gs, ws)
}

/// Opens a signing round 6 collection into phase-5A decommitments, ElGamal
/// proofs and rho proofs, in slot order.
pub fn extract_sign_round6(v: Vec<MessageData>) -> (r: (
    Vec<Phase5ADecom1>,
    Vec<ElGamalProof>,
    Vec<DlogProof>,
))
    requires
        forall|i: int| 0 <= i < v@.len() ==> tag_of(#[trigger] v@[i]) == RoundTag::Sign6,
    ensures
        r.0@.len() == v@.len(),
        r.1@.len() == v@.len(),
        r.2@.len() == v@.len(),
        forall|i: int|
            0 <= i < v@.len() ==> #[trigger] v@[i] == MessageData::SignRound6(
                (SignRound6Data { com: r.0@[i], proof: r.1@[i], proof_rho: r.2@[i] }),
            ),
{
    let ghost orig = v@;
    let mut rest = v;
    let mut coms: Vec<Phase5ADecom1> = Vec::new();
    let mut proofs: Vec<ElGamalProof> = Vec::new();
    let mut rhos: Vec<DlogProof> = Vec::new();
    while rest.len() > 0
        invariant
            coms@.len() == proofs@.len(),
            coms@.len() == rhos@.len(),
            coms@.len() + rest@.len() == orig.len(),
            rest@ == orig.subrange(coms@.len() as int, orig.len() as int),
            forall|i: int| 0 <= i < orig.len() ==> tag_of(#[trigger] orig[i]) == RoundTag::Sign6,
            forall|i: int|
                0 <= i < coms@.len() ==> #[trigger] orig[i] == MessageData::SignRound6(
                    (SignRound6Data { com: coms@[i], proof: proofs@[i], proof_rho: rhos@[i] }),
                ),
        decreases rest@.len(),
    {
        let ghost k = coms@.len() as int;
        let m = rest.remove(0);
        proof {
            assert(m == orig[k]);
            assert(rest@ =~= orig.subrange(k + 1, orig.len() as int));
            assert(tag_of(m) == RoundTag::Sign6);
        }
        match m {
            MessageData::SignRound6(d) => {
                let SignRound6Data { com, proof, proof_rho } = d;
                coms.push(com);
                proofs.push(proof);
                rhos.push(proof_rho);
            },
            _ => { proof { assert(false); } },
        }
    }
    (coms, proofs, rhos)
}

/// Whether a payload is the scalar body shared by signing rounds 3 and 9,
/// wrapping `s` under either tag.
pub open spec fn wraps_round_scalar(m: MessageData, s: FieldScalar) -> bool {
    m == MessageData::SignRound3(s) || m == MessageData::SignRound9(s)
}

/// Opens a collection of the scalar rounds of signing (rounds 3 and 9 share
/// the same body type under distinct tags) into its scalars, in slot order.
pub fn extract_sign_scalars(v: Vec<MessageData>) -> (r: Vec<FieldScalar>)
    requires
        forall|i: int|
            0 <= i < v@.len() ==> tag_of(#[trigger] v@[i]) == RoundTag::Sign3 || tag_of(v@[i])
                == RoundTag::Sign9,
    ensures
        r@.len() == v@.len(),
        forall|i: int| 0 <= i < v@.len() ==> wraps_round_scalar(v@[i], #[trigger] r@[i]),
{
    let ghost orig = v@;
    let mut rest = v;
    let mut out: Vec<FieldScalar> = Vec::new();
    while rest.len() > 0
        invariant
            out@.len() + rest@.len() == orig.len(),
            rest@ == orig.subrange(out@.len() as int, orig.len() as int),
            forall|i: int|
                0 <= i < orig.len() ==> tag_of(#[trigger] orig[i]) == RoundTag::Sign3 || tag_of(
                    orig[i],
                ) == RoundTag::Sign9,
            forall|i: int| 0 <= i < out@.len() ==> wraps_round_scalar(orig[i], #[trigger] out@[i]),
        decreases rest@.len(),
    {
        let ghost k = out@.len() as int;
        let m = rest.remove(0);
        proof {
            assert(m == orig[k]);
            assert(rest@ =~= orig.subrange(k + 1, orig.len() as int));
            assert(tag_of(m) == RoundTag::Sign3 || tag_of(m) == RoundTag::Sign9);
        }
        match m {
            MessageData::SignRound3(s) => { out.push(s); },
            MessageData::SignRound9(s) => { out.push(s); },
            _ => { proof { assert(false); } },
        }
    }
    out
}

} // verus!
