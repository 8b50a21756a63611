//! The round collector: fills one slot per party with a round-tagged
//! payload polled from the inbox, under a wall-clock budget.  The party's
//! own slot is pre-filled with its contribution and protected against
//! overwrites, so a successful collection returns exactly one payload per
//! party, the owner's being the value it supplied.

use vstd::prelude::*;

use crate::channel::duration_from_millis;
use crate::channel::lemma_trace_extension_trans;
use crate::channel::trace_extension;
use crate::channel::Emitter;
use crate::channel::Inbox;
use crate::channel::PollOutcome;
use crate::errors::CoreErrors;
use crate::messages::tag_of;
use crate::messages::IncomingMessages;
use crate::messages::MessageData;
use crate::messages::OutgoingMessages;
use crate::messages::RoundTag;

verus! {

/// The per-round collection budget, in milliseconds.
pub const COLLECT_BUDGET_MS: u64 = 3000;

/// The poll quantum, in milliseconds.
pub const POLL_INTERVAL_MS: u64 = 100;

/// Emits one trace line; the only emission it can append is a `Log`.
pub(crate) fn log_line(em: &mut Emitter, text: &str) -> (r: Result<(), CoreErrors>)
    ensures
        trace_extension(old(em).hist(), final (em).hist()),
        r is Err ==> r matches Err(CoreErrors::TransportIssue(_)),
    {
    let ok = em.send(OutgoingMessages::Log(text.to_string()));
    proof {
        assert(old(em).hist().is_prefix_of(em.hist()));
    }
    if ok {
        Ok(())
    } else {
        Err(CoreErrors::TransportIssue("the emitter refused a trace line".to_string()))
    }
}

/// Whether every slot holds a payload.
fn all_filled(slots: &Vec<Option<MessageData>>) -> (b: bool)
    ensures
        b == (forall|k: int| 0 <= k < slots@.len() ==> (#[trigger] slots@[k]) is Some),
{
    let mut i: usize = 0;
    while i < slots.len()
        invariant
            0 <= i <= slots@.len(),
            forall|k: int| 0 <= k < i ==> (#[trigger] slots@[k]) is Some,
        decreases slots@.len() - i,
    {
        if slots[i].is_none() {
            return false;
        }
        i = i + 1;
    }
    true
}

/// Gathers one round-`expected` payload from every party, the owner's slot
/// being pre-filled with `my_value`, under the default budget.
pub fn collect_round(
    inbox: &Inbox,
    em: &mut Emitter,
    my_value: MessageData,
    party_id: u8,
    participants: u8,
    expected: RoundTag,
) -> (r: Result<Vec<MessageData>, CoreErrors>)
    requires
        party_id < participants,
        tag_of(my_value) == expected,
    ensures
        trace_extension(old(em).hist(), final (em).hist()),
        r matches Ok(v) ==> {
            &&& v@.len() == participants as int
            &&& v@[party_id as int] == my_value
            &&& forall|i: int| 0 <= i < v@.len() ==> tag_of(#[trigger] v@[i]) == expected
        },
        r matches Err(e) ==> (e is Timeout || e is InvalidData || e is TransportIssue),
{
    collect_round_with_budget(
        inbox,
        em,
        my_value,
        party_id,
        participants,
        expected,
        COLLECT_BUDGET_MS,
    )
}

/// [`collect_round`] with an explicit wall-clock budget; the budget is a
/// policy parameter, exposed so that liveness bounds can be tuned.
pub fn collect_round_with_budget(
    inbox: &Inbox,
    em: &mut Emitter,
    my_value: MessageData,
    party_id: u8,
    participants: u8,
    expected: RoundTag,
    budget_ms: u64,
) -> (r: Result<Vec<MessageData>, CoreErrors>)
    requires
        party_id < participants,
        tag_of(my_value) == expected,
    ensures
        trace_extension(old(em).hist(), final (em).hist()),
        r matches Ok(v) ==> {
            &&& v@.len() == participants as int
            &&& v@[party_id as int] == my_value
            &&& forall|i: int| 0 <= i < v@.len() ==> tag_of(#[trigger] v@[i]) == expected
        },
        r matches Err(e) ==> (e is Timeout || e is InvalidData || e is TransportIssue),
{
    let ghost h0 = old(em).hist();
    let n = participants as usize;
    let mut slots: Vec<Option<MessageData>> = Vec::new();
    let mut i: usize = 0;
    while i < n
        invariant
            slots@.len() == i,
            0 <= i <= n,
            forall|k: int| 0 <= k < i ==> (#[trigger] slots@[k]) is None,
        decreases n - i,
    {
        slots.push(None);
        i = i + 1;
    }
    let _removed = slots.remove(party_id as usize);
    slots.insert(party_id as usize, Some(my_value));
    proof {
        assert forall|k: int| 0 <= k < slots@.len() && k != party_id as int implies (
        #[trigger] slots@[k]) is None by {}
    }
    let mut remaining: u64 = budget_ms;
    loop
        invariant
            h0 == old(em).hist(),
            party_id < participants,
            tag_of(my_value) == expected,
            slots@.len() == participants as int,
            slots@[party_id as int] == Some(my_value),
            forall|k: int|
                0 <= k < slots@.len() ==> ((#[trigger] slots@[k]) matches Some(m) ==> tag_of(m)
                    == expected),
            trace_extension(h0, em.hist()),
        ensures
            slots@.len() == participants as int,
            slots@[party_id as int] == Some(my_value),
            forall|k: int|
                0 <= k < slots@.len() ==> ((#[trigger] slots@[k]) matches Some(m) ==> tag_of(m)
                    == expected),
            forall|k: int| 0 <= k < slots@.len() ==> (#[trigger] slots@[k]) is Some,
            trace_extension(h0, em.hist()),
        decreases remaining,
    {
        if all_filled(&slots) {
            break ;
        }
        if remaining < POLL_INTERVAL_MS {
            let ghost pre = em.hist();
            let logged = log_line(em, "collection budget exhausted; halting the round");
            proof {
                lemma_trace_extension_trans(h0, pre, em.hist());
            }
            if let Err(e) = logged {
                return Err(e);
            }
            return Err(
                CoreErrors::Timeout("the round's collection budget is exhausted".to_string()),
            );
        }
        let outcome = inbox.poll(duration_from_millis(POLL_INTERVAL_MS));
        remaining = remaining - POLL_INTERVAL_MS;
        match outcome {
            PollOutcome::Idle => {},
            PollOutcome::Closed => {
                return Err(
                    CoreErrors::TransportIssue("the inbound channel is disconnected".to_string()),
                );
            },
            PollOutcome::Delivered(incoming) => {
                let IncomingMessages::Send { sender, target: _, data } = incoming;
                if sender == party_id {
                    let ghost pre = em.hist();
                    let logged = log_line(em, "message labelled with the own slot ignored");
                    proof {
                        lemma_trace_extension_trans(h0, pre, em.hist());
                    }
                    if let Err(e) = logged {
                        return Err(e);
                    }
                } else if sender >= participants {
                    return Err(
                        CoreErrors::InvalidData("sender label outside the session".to_string()),
                    );
                } else if data.tag() != expected {
                    return Err(
                        CoreErrors::InvalidData(
                            "payload does not belong to the current round".to_string(),
                        ),
                    );
                } else {
                    let prev = slots.remove(sender as usize);
                    slots.insert(sender as usize, Some(data));
                    if prev.is_some() {
                        let ghost pre = em.hist();
                        let logged = log_line(em, "duplicate round message overwritten");
                        proof {
                            lemma_trace_extension_trans(h0, pre, em.hist());
                        }
                        if let Err(e) = logged {
                            return Err(e);
                        }
                    }
                }
            },
        }
    }
    let ghost final_slots = slots@;
    let mut rest = slots;
    let mut out: Vec<MessageData> = Vec::new();
    while rest.len() > 0
        invariant
            out@.len() + rest@.len() == final_slots.len(),
            rest@ == final_slots.subrange(out@.len() as int, final_slots.len() as int),
            forall|k: int| 0 <= k < final_slots.len() ==> (#[trigger] final_slots[k]) is Some,
            forall|k: int|
                0 <= k < out@.len() ==> final_slots[k] == Some(#[trigger] out@[k]),
        decreases rest@.len(),
    {
        let ghost k = out@.len() as int;
        let m = rest.remove(0);
        proof {
            assert(m == final_slots[k]);
            assert(rest@ =~= final_slots.subrange(k + 1, final_slots.len() as int));
        }
        match m {
            Some(d) => {
                out.push(d);
            },
            None => {
                proof {
                    assert(false);
                }
            },
        }
    }
    proof {
        assert(final_slots[party_id as int] == Some(my_value));
        assert(out@[party_id as int] == my_value);
        assert forall|i: int| 0 <= i < out@.len() implies tag_of(#[trigger] out@[i])
            == expected by {
            assert(final_slots[i] == Some(out@[i]));
        }
    }
    Ok(out)
}

} // verus!
