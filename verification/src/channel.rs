//! The channel substrate: an outbound emitter that records every accepted
//! emission in a ghost history, and an inbound receiver polled with a
//! bounded wait.  The drivers' contracts are stated over the emitter's
//! history.

use vstd::prelude::*;

use crate::messages::IncomingMessages;
use crate::messages::MessageData;
use crate::messages::OutgoingMessages;
use std::sync::mpsc::Receiver;
use std::sync::mpsc::Sender;
use std::time::Duration;

verus! {

#[verifier::external_type_specification]
#[verifier::external_body]
#[verifier::reject_recursive_types(T)]
pub struct ExSender<T>(Sender<T>);

#[verifier::external_type_specification]
#[verifier::external_body]
#[verifier::reject_recursive_types(T)]
pub struct ExReceiver<T>(Receiver<T>);

/// The party's outbound endpoint.  `history` is the ghost sequence of all
/// messages the channel has accepted, in emission order.
pub struct Emitter {
    tx: Sender<OutgoingMessages>,
    history: Ghost<Seq<OutgoingMessages>>,
}

/// The party's inbound endpoint.
pub struct Inbox {
    rx: Receiver<IncomingMessages>,
}

/// What one bounded poll of the inbox yielded.
pub enum PollOutcome {
    /// The transport delivered a message.
    Delivered(IncomingMessages),
    /// The wait elapsed with nothing to deliver.
    Idle,
    /// The sending side of the channel is gone.
    Closed,
}

impl Emitter {
    /// The messages the channel has accepted, in emission order.
    pub closed spec fn hist(self) -> Seq<OutgoingMessages> {
        self.history@
    }

    pub fn new(tx: Sender<OutgoingMessages>) -> (e: Emitter)
        ensures
            e.hist() == Seq::<OutgoingMessages>::empty(),
    {
        Emitter { tx, history: Ghost(Seq::empty()) }
    }

    /// Relies on `std::sync::mpsc::Sender::send`: returns whether the
    /// channel accepted the message.
    #[verifier::external_body]
    fn raw_send(&self, m: OutgoingMessages) -> bool {
        self.tx.send(m).is_ok()
    }

    /// Emits a terminal or trace message; on success it is appended to the
    /// history.
    pub fn send(&mut self, m: OutgoingMessages) -> (ok: bool)
        ensures
            ok ==> final(self).hist() == old(self).hist().push(m),
            !ok ==> final(self).hist() == old(self).hist(),
    {
        let ghost gm = m;
        let ok = self.raw_send(m);
        if ok {
            proof {
                self.history@ = self.history@.push(gm);
            }
        }
        ok
    }

    /// Relies on `std::sync::mpsc::Sender::send` and the payload types'
    /// `Clone` impls: emits one peer-addressed message carrying an equal
    /// copy of `data`.
    #[verifier::external_body]
    pub(crate) fn send_to(&mut self, sender: u8, target: u8, data: &MessageData) -> (ok: bool)
        ensures
            ok ==> final(self).hist() == old(self).hist().push(
                (OutgoingMessages::Send { sender, target, data: *data }),
            ),
            !ok ==> final(self).hist() == old(self).hist(),
    {
        self.tx.send(OutgoingMessages::Send { sender, target, data: data.clone() }).is_ok()
    }
}

impl Inbox {
    pub fn new(rx: Receiver<IncomingMessages>) -> Inbox {
        Inbox { rx }
    }

    /// Relies on `std::sync::mpsc::Receiver::recv_timeout`: waits up to
    /// `wait` for a delivery.  What arrives, if anything, depends on the
    /// transport and the peers, so nothing is promised of the outcome.
    #[verifier::external_body]
    pub(crate) fn poll(&self, wait: Duration) -> PollOutcome {
        match self.rx.recv_timeout(wait) {
            Ok(m) => PollOutcome::Delivered(m),
            Err(std::sync::mpsc::RecvTimeoutError::Timeout) => PollOutcome::Idle,
            Err(std::sync::mpsc::RecvTimeoutError::Disconnected) => PollOutcome::Closed,
        }
    }
}

/// Relies on `std::time::Duration::from_millis`.
#[verifier::external_body]
pub(crate) fn duration_from_millis(ms: u64) -> Duration {
    Duration::from_millis(ms)
}

/// A non-terminal emission of a party: a trace line, or a payload addressed
/// to another party of the session under the party's own sender label.
pub open spec fn routine_msg(m: OutgoingMessages, party_id: u8, participants: u8) -> bool {
    match m {
        OutgoingMessages::Send { sender, target, data } => sender == party_id && target != party_id
            && target < participants,
        OutgoingMessages::Log(_) => true,
        _ => false,
    }
}

/// `h1` extends `h0` with trace lines only.
pub open spec fn trace_extension(h0: Seq<OutgoingMessages>, h1: Seq<OutgoingMessages>) -> bool {
    &&& h0.is_prefix_of(h1)
    &&& forall|i: int| h0.len() <= i < h1.len() ==> (#[trigger] h1[i]) is Log
}

pub proof fn lemma_trace_extension_trans(
    h0: Seq<OutgoingMessages>,
    h1: Seq<OutgoingMessages>,
    h2: Seq<OutgoingMessages>,
)
    requires
        trace_extension(h0, h1),
        trace_extension(h1, h2),
    ensures
        trace_extension(h0, h2),
{
    assert(h0.is_prefix_of(h2));
    assert forall|i: int| h0.len() <= i < h2.len() implies (#[trigger] h2[i]) is Log by {
        if i < h1.len() {
            assert(h1[i] == h2[i]);
        }
    }
}

/// `h1` extends `h0` with non-terminal emissions only.
pub open spec fn routine_extension(
    h0: Seq<OutgoingMessages>,
    h1: Seq<OutgoingMessages>,
    party_id: u8,
    participants: u8,
) -> bool {
    &&& h0.is_prefix_of(h1)
    &&& forall|i: int|
        h0.len() <= i < h1.len() ==> routine_msg(#[trigger] h1[i], party_id, participants)
}

pub proof fn lemma_routine_extension_trans(
    h0: Seq<OutgoingMessages>,
    h1: Seq<OutgoingMessages>,
    h2: Seq<OutgoingMessages>,
    party_id: u8,
    participants: u8,
)
    requires
        routine_extension(h0, h1, party_id, participants),
        routine_extension(h1, h2, party_id, participants),
    ensures
        routine_extension(h0, h2, party_id, participants),
{
    assert(h0.is_prefix_of(h2));
    assert forall|i: int| h0.len() <= i < h2.len() implies routine_msg(
        #[trigger] h2[i],
        party_id,
        participants,
    ) by {
        if i < h1.len() {
            assert(h1[i] == h2[i]);
            assert(routine_msg(h1[i], party_id, participants));
        } else {
            assert(routine_msg(h2[i], party_id, participants));
        }
    }
}

} // verus!
