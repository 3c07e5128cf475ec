//! The per-channel chain state machine.
//!
//! A channel's entry is created on its first qualifying message and never
//! removed; `count == 0` is a valid resting state after a break, distinct
//! from the entry being absent.  The caller owns the map of entries and the
//! transport; this module decides, purely, what each in-window message does
//! to one channel's entry.
//!
//! Failure discipline: when the transport rejects the send or edit that a
//! resolution asks for, the caller applies no state change and commits no
//! event, leaving the entry at its last consistent snapshot.

use crate::localtime::same_occurrence_at;
use vstd::prelude::*;

verus! {

/// What the tracker remembers of the chain message it last sent: enough to
/// edit it in place and to strip its attachments.
#[derive(Clone, Debug)]
pub struct MessageRef {
    pub message_id: u64,
    pub timestamp_utc: i64,
    pub attachment_ids: Vec<u64>,
}

/// One channel's chain state.
#[derive(Clone, Debug)]
pub struct ChannelChainState {
    /// The most recently sent chain message in this channel.
    pub last_message: MessageRef,
    /// Participants who contributed to the current chain.
    pub participants: Vec<u64>,
    /// Current chain length; `0` after a break.
    pub count: u32,
}

impl ChannelChainState {
    /// The participant list is a set: no participant appears twice.
    pub open spec fn wf(self) -> bool {
        self.participants@.no_duplicates()
    }
}

/// What an in-window message does to its channel's entry.
#[derive(Clone, Copy, Debug, PartialEq, Eq, Structural)]
pub enum Resolution {
    /// No entry exists and the marker is absent: nothing happens.
    Ignore,
    /// The chain breaks: the entry is reset to `count == 0` with no
    /// participants, and a chain-broken event is due.  No transport call.
    Break,
    /// A chain starts (or restarts) at length 1: a fresh chain message is
    /// sent; once it is delivered the entry holds the sender alone.
    Start,
    /// The active chain extends to `new_count`: the stored message is edited
    /// in place; once the edit is delivered the entry is extended.
    Continue { new_count: u32 },
}

/// The message continues the active chain: same occurrence of the window as
/// the stored message, marker present, and, when uniqueness is enforced, a
/// participant that has not yet contributed.
pub open spec fn continues(
    state: ChannelChainState,
    ts: int,
    offset: int,
    marker: bool,
    participant: u64,
    enforce_unique: bool,
) -> bool {
    &&& same_occurrence_at(ts, state.last_message.timestamp_utc as int, offset)
    &&& marker
    &&& (enforce_unique ==> !state.participants@.contains(participant))
}

/// The resolution rule for an in-window message.
///
/// Absent entry: a chain starts only on an explicit marker message.  Present
/// entry: a continuing message extends the chain (from the resting state it
/// starts one instead); any other message breaks the chain, and restarts one
/// in the same call when it carries the marker itself.
pub open spec fn spec_resolve(
    state: Option<ChannelChainState>,
    ts: int,
    offset: int,
    marker: bool,
    participant: u64,
    enforce_unique: bool,
) -> Resolution {
    match state {
        None => if marker {
            Resolution::Start
        } else {
            Resolution::Ignore
        },
        Some(s) => if continues(s, ts, offset, marker, participant, enforce_unique) {
            if s.count == 0 {
                Resolution::Start
            } else {
                Resolution::Continue { new_count: (s.count + 1) as u32 }
            }
        } else {
            if marker {
                Resolution::Start
            } else {
                Resolution::Break
            }
        },
    }
}

/// Law: the count transition from 1 to 2 is the boundary between a new
/// chain and a grown one.  A resolution only continues a chain that is
/// already active, so every continuation carries a count of at least 2;
/// every chain of length 1 comes from a start.
pub proof fn lemma_continuation_extends_active_chain(
    state: Option<ChannelChainState>,
    ts: int,
    offset: int,
    marker: bool,
    participant: u64,
    enforce_unique: bool,
)
    requires
        state matches Some(s) ==> s.count < u32::MAX,
    ensures
        spec_resolve(state, ts, offset, marker, participant, enforce_unique) matches
            Resolution::Continue { new_count } ==> new_count >= 2,
{
}

/// The snapshot a borrowed entry stands for.
pub open spec fn snapshot(state: Option<&ChannelChainState>) -> Option<ChannelChainState> {
    match state {
        Some(s) => Some(*s),
        None => None,
    }
}

/// Is `x` one of the recorded participants?
fn vec_contains_u64(v: &Vec<u64>, x: u64) -> (r: bool)
    ensures
        r == v@.contains(x),
{
    let mut i: usize = 0;
    while i < v.len()
        invariant
            i <= v.len(),
            forall|k: int| 0 <= k < i ==> v@[k] != x,
        decreases v.len() - i,
    {
        if v[i] == x {
            return true;
        }
        i += 1;
    }
    false
}

/// Resolves one in-window message against the channel's current entry.
pub fn resolve(
    state: Option<&ChannelChainState>,
    ts: i64,
    offset: i32,
    marker: bool,
    participant: u64,
    enforce_unique: bool,
) -> (r: Resolution)
    requires
        match state {
            Some(s) => s.count < u32::MAX,
            None => true,
        },
    ensures
        r == spec_resolve(
            snapshot(state),
            ts as int,
            offset as int,
            marker,
            participant,
            enforce_unique,
        ),
{
    match state {
        None => if marker {
            Resolution::Start
        } else {
            Resolution::Ignore
        },
        Some(s) => {
            let same: bool = crate::localtime::same_occurrence(
                ts,
                s.last_message.timestamp_utc,
                offset,
            );
            let unique_ok: bool = !enforce_unique || !vec_contains_u64(&s.participants, participant);
            if same && marker && unique_ok {
                if s.count == 0 {
                    Resolution::Start
                } else {
                    Resolution::Continue { new_count: s.count + 1 }
                }
            } else {
                if marker {
                    Resolution::Start
                } else {
                    Resolution::Break
                }
            }
        },
    }
}

/// The entry a freshly started chain holds once its message is delivered.
pub fn chain_started(participant: u64, delivered: MessageRef) -> (s: ChannelChainState)
    ensures
        s.count == 1,
        s.participants@ == seq![participant],
        s.last_message == delivered,
        s.wf(),
{
    let mut participants: Vec<u64> = Vec::new();
    participants.push(participant);
    proof {
        assert(participants@ =~= seq![participant]);
    }
    ChannelChainState { last_message: delivered, participants, count: 1 }
}

/// Extends the active chain in place once the edited message is delivered:
/// the count rises by one, the participant joins the set, and the delivered
/// handle replaces the stored message.
pub fn extend_chain(state: &mut ChannelChainState, participant: u64, delivered: MessageRef)
    requires
        old(state).count < u32::MAX,
        old(state).wf(),
    ensures
        final(state).count == old(state).count + 1,
        final(state).last_message == delivered,
        final(state).participants@ == if old(state).participants@.contains(participant) {
            old(state).participants@
        } else {
            old(state).participants@.push(participant)
        },
        final(state).wf(),
{
    if !vec_contains_u64(&state.participants, participant) {
        state.participants.push(participant);
    }
    state.count = state.count + 1;
    state.last_message = delivered;
}

/// Resets a broken chain to its resting state: the entry survives with
/// `count == 0` and no participants, keeping the stored message.
pub fn reset_chain(state: &mut ChannelChainState)
    ensures
        final(state).count == 0,
        final(state).participants@ == Seq::<u64>::empty(),
        final(state).last_message == old(state).last_message,
        final(state).wf(),
{
    let empty: Vec<u64> = Vec::new();
    proof {
        assert(empty@ =~= Seq::<u64>::empty());
    }
    state.participants = empty;
    state.count = 0;
}

} // verus!
