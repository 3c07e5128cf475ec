//! One message, end to end: classification, chain resolution, the transport
//! action it calls for, the entry update once the transport answered, and
//! the aggregation event owed to the record store.
//!
//! The transport sits in the middle of a live resolution, so a driver works
//! in two phases: ask [`crate::classify::classify`] and
//! [`crate::chain::resolve`] what to do, perform the send or edit, then
//! apply [`apply_resolution`] and commit the event.  [`handle_message`]
//! packages the whole step for a driver that already knows the transport's
//! answer — a test harness, or a sequential embedder.

use crate::chain::{
    chain_started, extend_chain, reset_chain, resolve, snapshot, spec_resolve, ChannelChainState,
    MessageRef, Resolution,
};
use crate::classify::{classify, spec_classify, Classification};
use crate::db::{EventData, WeedTimeEvent};
use crate::text::marker_present;
use vstd::prelude::*;

verus! {

/// A visible side effect the transport is asked to perform.
#[derive(Clone, Debug, PartialEq, Eq)]
pub enum TransportAction {
    /// Send the off-window notice to the channel.
    SendCrimeNotice,
    /// Send a fresh chain message to the channel.
    SendChainMessage,
    /// Edit the stored chain message in place to show the new count,
    /// stripping the attachments it carried.
    EditChainMessage { message_id: u64, new_count: u32, remove_attachment_ids: Vec<u64> },
}

/// An exact copy of the participant list or attachment list.
fn copy_ids(v: &Vec<u64>) -> (r: Vec<u64>)
    ensures
        r@ == v@,
{
    let mut r: Vec<u64> = Vec::new();
    let mut i: usize = 0;
    while i < v.len()
        invariant
            i <= v.len(),
            r@ == v@.subrange(0, i as int),
        decreases v.len() - i,
    {
        r.push(v[i]);
        proof {
            assert(r@ =~= v@.subrange(0, i + 1));
        }
        i += 1;
    }
    proof {
        assert(r@ =~= v@);
    }
    r
}

/// The transport action a resolution calls for: none for an ignored message
/// or a plain break, a fresh send for a started chain, an in-place edit for
/// a continued one.
pub open spec fn chain_action_is(
    state: Option<ChannelChainState>,
    r: Resolution,
    a: Option<TransportAction>,
) -> bool {
    match r {
        Resolution::Ignore => a.is_none(),
        Resolution::Break => a.is_none(),
        Resolution::Start => a == Some(TransportAction::SendChainMessage),
        Resolution::Continue { new_count } => match (state, a) {
            (
                Some(s),
                Some(TransportAction::EditChainMessage { message_id, new_count: nc, remove_attachment_ids }),
            ) => {
                &&& message_id == s.last_message.message_id
                &&& nc == new_count
                &&& remove_attachment_ids@ == s.last_message.attachment_ids@
            },
            _ => false,
        },
    }
}

/// Computes the transport action for an in-window message's resolution.
pub fn chain_action(state: Option<&ChannelChainState>, r: &Resolution) -> (a: Option<
    TransportAction,
>)
    requires
        (*r matches Resolution::Continue { .. }) ==> state.is_some(),
    ensures
        chain_action_is(snapshot(state), *r, a),
{
    match r {
        Resolution::Ignore => None,
        Resolution::Break => None,
        Resolution::Start => Some(TransportAction::SendChainMessage),
        Resolution::Continue { new_count } => {
            let s = match state {
                Some(s) => s,
                None => {
                    proof {
                        assert(false);
                    }
                    unreached()
                },
            };
            Some(
                TransportAction::EditChainMessage {
                    message_id: s.last_message.message_id,
                    new_count: *new_count,
                    remove_attachment_ids: copy_ids(&s.last_message.attachment_ids),
                },
            )
        },
    }
}

/// How a channel entry evolves under a resolution, given what the transport
/// answered (`None`: the send or edit failed, or none was asked for).  A
/// failed delivery leaves the entry at its last consistent snapshot; a break
/// needs no delivery and resets the entry in place.
pub open spec fn entry_evolves(
    before: Option<ChannelChainState>,
    r: Resolution,
    participant: u64,
    delivered: Option<MessageRef>,
    after: Option<ChannelChainState>,
) -> bool {
    match r {
        Resolution::Ignore => after == before,
        Resolution::Break => match (before, after) {
            (Some(b), Some(a)) => {
                &&& a.count == 0
                &&& a.participants@ == Seq::<u64>::empty()
                &&& a.last_message == b.last_message
            },
            _ => false,
        },
        Resolution::Start => match delivered {
            Some(h) => match after {
                Some(a) => {
                    &&& a.count == 1
                    &&& a.participants@ == seq![participant]
                    &&& a.last_message == h
                },
                None => false,
            },
            None => after == before,
        },
        Resolution::Continue { new_count } => match delivered {
            Some(h) => match (before, after) {
                (Some(b), Some(a)) => {
                    &&& a.count == b.count + 1
                    &&& a.last_message == h
                    &&& a.participants@ == (if b.participants@.contains(participant) {
                        b.participants@
                    } else {
                        b.participants@.push(participant)
                    })
                },
                _ => false,
            },
            None => after == before,
        },
    }
}

/// Applies a resolution to the channel entry once the transport has
/// answered.  A present entry always survives: no resolution removes it.
pub fn apply_resolution(
    entry: Option<ChannelChainState>,
    r: &Resolution,
    participant: u64,
    delivered: Option<MessageRef>,
) -> (after: Option<ChannelChainState>)
    requires
        (*r matches Resolution::Break) ==> entry.is_some(),
        (*r matches Resolution::Continue { .. }) ==> entry.is_some(),
        entry matches Some(e) ==> e.count < u32::MAX && e.wf(),
    ensures
        entry_evolves(entry, *r, participant, delivered, after),
        entry.is_some() ==> after.is_some(),
        after matches Some(a) ==> a.wf(),
{
    match r {
        Resolution::Ignore => entry,
        Resolution::Break => {
            let mut e: ChannelChainState = entry.unwrap();
            reset_chain(&mut e);
            Some(e)
        },
        Resolution::Start => match delivered {
            Some(h) => Some(chain_started(participant, h)),
            None => entry,
        },
        Resolution::Continue { .. } => match delivered {
            Some(h) => {
                let mut e: ChannelChainState = entry.unwrap();
                extend_chain(&mut e, participant, h);
                Some(e)
            },
            None => entry,
        },
    }
}

/// The aggregation event a resolution owes the record store, given whether
/// the community is known and whether the transport delivered.  A break
/// commits without a transport call; a start or continuation commits only
/// after its message went out.
pub open spec fn spec_resolution_event(
    r: Resolution,
    guild_id: Option<u64>,
    participant: u64,
    delivered: bool,
) -> Option<WeedTimeEvent> {
    match guild_id {
        None => None,
        Some(g) => {
            let d = EventData { guild_id: g, user_id: participant };
            match r {
                Resolution::Ignore => None,
                Resolution::Break => Some(WeedTimeEvent::ChainBroken(d)),
                Resolution::Start => if delivered {
                    Some(WeedTimeEvent::NewChain(d))
                } else {
                    None
                },
                Resolution::Continue { new_count } => if delivered {
                    Some(WeedTimeEvent::WeedTime(new_count, d))
                } else {
                    None
                },
            }
        },
    }
}

/// Computes the aggregation event for an in-window message's resolution.
pub fn resolution_event(r: &Resolution, guild_id: Option<u64>, participant: u64, delivered: bool) -> (e:
    Option<WeedTimeEvent>)
    ensures
        e == spec_resolution_event(*r, guild_id, participant, delivered),
{
    let g: u64 = match guild_id {
        Some(g) => g,
        None => {
            return None;
        },
    };
    let d = EventData { guild_id: g, user_id: participant };
    match r {
        Resolution::Ignore => None,
        Resolution::Break => Some(WeedTimeEvent::ChainBroken(d)),
        Resolution::Start => if delivered {
            Some(WeedTimeEvent::NewChain(d))
        } else {
            None
        },
        Resolution::Continue { new_count } => if delivered {
            Some(WeedTimeEvent::WeedTime(*new_count, d))
        } else {
            None
        },
    }
}

/// The aggregation event an off-window marker message owes, once its notice
/// went out.
pub open spec fn spec_crime_event(
    guild_id: Option<u64>,
    participant: u64,
    delivered: bool,
) -> Option<WeedTimeEvent> {
    match guild_id {
        Some(g) => if delivered {
            Some(WeedTimeEvent::WeedCrime(EventData { guild_id: g, user_id: participant }))
        } else {
            None
        },
        None => None,
    }
}

/// Computes the crime event for an off-window marker message.
pub fn crime_event(guild_id: Option<u64>, participant: u64, delivered: bool) -> (e: Option<
    WeedTimeEvent,
>)
    ensures
        e == spec_crime_event(guild_id, participant, delivered),
{
    match guild_id {
        Some(g) => if delivered {
            Some(WeedTimeEvent::WeedCrime(EventData { guild_id: g, user_id: participant }))
        } else {
            None
        },
        None => None,
    }
}

/// Law: when the community is known and the transport delivered, an
/// off-window marker message always yields its event, and an in-window
/// message yields an event exactly when its resolution did something —
/// one aggregation event per eligible message, never more.
pub proof fn lemma_one_event_per_eligible_message(r: Resolution, g: u64, participant: u64)
    ensures
        spec_resolution_event(r, Some(g), participant, true).is_some() <==> !(r
            matches Resolution::Ignore),
        spec_crime_event(Some(g), participant, true).is_some(),
{
}

/// Everything one message did: how it was classified, the channel entry it
/// left behind, and the aggregation event it owes the record store.
#[derive(Debug)]
pub struct StepResult {
    pub classification: Classification,
    pub entry: Option<ChannelChainState>,
    pub event: Option<WeedTimeEvent>,
}

/// Handles one message in a single call, for a driver that already knows
/// the transport's answer (`delivered`: the handle of the sent or edited
/// message, `None` where the transport failed).
///
/// At most one aggregation event arises per message, and exactly one when
/// the message is eligible — classified as a crime or resolved to a break,
/// start or continuation — the community is known, and the transport
/// delivered where a delivery was owed.  An existing entry always survives.
pub fn handle_message(
    is_from_self: bool,
    ts: i64,
    offset: i32,
    text: &str,
    entry: Option<ChannelChainState>,
    participant: u64,
    guild_id: Option<u64>,
    enforce_unique: bool,
    delivered: Option<MessageRef>,
) -> (res: StepResult)
    requires
        entry matches Some(e) ==> e.count < u32::MAX && e.wf(),
    ensures
        res.classification == spec_classify(is_from_self, ts as int, offset as int, marker_present(text@)),
        res.classification == Classification::NoOp ==> res.entry == entry && res.event.is_none(),
        res.classification == Classification::WeedCrime ==> res.entry == entry && res.event
            == spec_crime_event(guild_id, participant, delivered.is_some()),
        res.classification == Classification::InWindow ==> entry_evolves(
            entry,
            spec_resolve(entry, ts as int, offset as int, marker_present(text@), participant, enforce_unique),
            participant,
            delivered,
            res.entry,
        ) && res.event == spec_resolution_event(
            spec_resolve(entry, ts as int, offset as int, marker_present(text@), participant, enforce_unique),
            guild_id,
            participant,
            delivered.is_some(),
        ),
        entry.is_some() ==> res.entry.is_some(),
        res.entry matches Some(a) ==> a.wf(),
{
    let c: Classification = classify(is_from_self, ts, offset, text);
    match c {
        Classification::NoOp => StepResult { classification: c, entry, event: None },
        Classification::WeedCrime => {
            let event = crime_event(guild_id, participant, delivered.is_some());
            StepResult { classification: c, entry, event }
        },
        Classification::InWindow => {
            let marker: bool = crate::text::contains_marker(text);
            let r: Resolution = resolve(
                entry.as_ref(),
                ts,
                offset,
                marker,
                participant,
                enforce_unique,
            );
            let event = resolution_event(&r, guild_id, participant, delivered.is_some());
            let after = apply_resolution(entry, &r, participant, delivered);
            StepResult { classification: c, entry: after, event }
        },
    }
}

} // verus!
