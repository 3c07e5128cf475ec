//! Aggregate records and the aggregation committer.
//!
//! Two record kinds live in the keyed store: community-level and
//! participant-level counters.  The committer translates one classified
//! event into at most one new value for each record; reading and writing the
//! store itself is the caller's business (read the current value, compute
//! the new one here, write it back, inserting a fresh record where none
//! existed).

use vstd::prelude::*;

verus! {

/// Marker for the record store's schema: the store keeps the two record
/// kinds below.
#[derive(Clone, Copy, Debug)]
pub struct WeedTimeSchema;

/// Aggregate counters for one community, keyed by the community id.
#[derive(Clone, Copy, Debug, PartialEq, Eq, Structural)]
pub struct GuildStats {
    pub guild: u64,
    /// Community-local clock offset from UTC, in seconds.
    pub utc_offset: i32,
    pub total_weed_times: u32,
    pub total_weed_crimes: u32,
    pub longest_chain: u32,
}

/// Aggregate counters for one participant, keyed by the participant id.
#[derive(Clone, Copy, Debug, PartialEq, Eq, Structural)]
pub struct UserStats {
    pub user: u64,
    pub total_weed_times: u32,
    pub total_weed_crimes: u32,
    pub chains_started: u32,
    pub chains_broken: u32,
}

/// The community and participant a classified event belongs to.
#[derive(Clone, Copy, Debug, PartialEq, Eq, Structural)]
pub struct EventData {
    pub guild_id: u64,
    pub user_id: u64,
}

/// A classified outcome bound for the aggregate records.
#[derive(Clone, Copy, Debug, PartialEq, Eq, Structural)]
pub enum WeedTimeEvent {
    /// A chain started: the community counts one more qualifying event and a
    /// watermark of at least 1; the participant started a chain.
    NewChain(EventData),
    /// A chain ended without being extended: the participant broke it.
    ChainBroken(EventData),
    /// The marker appeared outside the window.
    WeedCrime(EventData),
    /// A chain grew to the given length: the community counts one more
    /// qualifying event and raises the watermark to that length.
    WeedTime(u32, EventData),
}

/// Mathematical model of a community record.
pub struct GuildStatsView {
    pub guild: int,
    pub utc_offset: int,
    pub total_weed_times: int,
    pub total_weed_crimes: int,
    pub longest_chain: int,
}

/// Mathematical model of a participant record.
pub struct UserStatsView {
    pub user: int,
    pub total_weed_times: int,
    pub total_weed_crimes: int,
    pub chains_started: int,
    pub chains_broken: int,
}

impl View for GuildStats {
    type V = GuildStatsView;

    open spec fn view(&self) -> GuildStatsView {
        GuildStatsView {
            guild: self.guild as int,
            utc_offset: self.utc_offset as int,
            total_weed_times: self.total_weed_times as int,
            total_weed_crimes: self.total_weed_crimes as int,
            longest_chain: self.longest_chain as int,
        }
    }
}

impl View for UserStats {
    type V = UserStatsView;

    open spec fn view(&self) -> UserStatsView {
        UserStatsView {
            user: self.user as int,
            total_weed_times: self.total_weed_times as int,
            total_weed_crimes: self.total_weed_crimes as int,
            chains_started: self.chains_started as int,
            chains_broken: self.chains_broken as int,
        }
    }
}

/// A community record holding nothing but its key.
pub open spec fn fresh_guild(guild: int) -> GuildStatsView {
    GuildStatsView {
        guild: guild,
        utc_offset: 0,
        total_weed_times: 0,
        total_weed_crimes: 0,
        longest_chain: 0,
    }
}

/// A participant record holding nothing but its key.
pub open spec fn fresh_user(user: int) -> UserStatsView {
    UserStatsView {
        user: user,
        total_weed_times: 0,
        total_weed_crimes: 0,
        chains_started: 0,
        chains_broken: 0,
    }
}

/// The merge rule for the community record: `None` stands for "no record
/// yet"; a missing record behaves as a fresh one.
pub open spec fn guild_step(r: Option<GuildStatsView>, e: WeedTimeEvent) -> Option<GuildStatsView> {
    match e {
        WeedTimeEvent::NewChain(d) => {
            let g = match r {
                Some(g0) => g0,
                None => fresh_guild(d.guild_id as int),
            };
            Some(
                GuildStatsView {
                    total_weed_times: g.total_weed_times + 1,
                    longest_chain: if g.longest_chain >= 1 {
                        g.longest_chain
                    } else {
                        1
                    },
                    ..g
                },
            )
        },
        WeedTimeEvent::ChainBroken(_) => r,
        WeedTimeEvent::WeedCrime(d) => {
            let g = match r {
                Some(g0) => g0,
                None => fresh_guild(d.guild_id as int),
            };
            Some(GuildStatsView { total_weed_crimes: g.total_weed_crimes + 1, ..g })
        },
        WeedTimeEvent::WeedTime(n, d) => {
            let g = match r {
                Some(g0) => g0,
                None => fresh_guild(d.guild_id as int),
            };
            Some(
                GuildStatsView {
                    total_weed_times: g.total_weed_times + 1,
                    longest_chain: if g.longest_chain >= n {
                        g.longest_chain
                    } else {
                        n as int
                    },
                    ..g
                },
            )
        },
    }
}

/// The merge rule for the participant record.
pub open spec fn user_step(r: Option<UserStatsView>, e: WeedTimeEvent) -> Option<UserStatsView> {
    match e {
        WeedTimeEvent::NewChain(d) => {
            let u = match r {
                Some(u0) => u0,
                None => fresh_user(d.user_id as int),
            };
            Some(
                UserStatsView {
                    total_weed_times: u.total_weed_times + 1,
                    chains_started: u.chains_started + 1,
                    ..u
                },
            )
        },
        WeedTimeEvent::ChainBroken(d) => {
            let u = match r {
                Some(u0) => u0,
                None => fresh_user(d.user_id as int),
            };
            Some(UserStatsView { chains_broken: u.chains_broken + 1, ..u })
        },
        WeedTimeEvent::WeedCrime(d) => {
            let u = match r {
                Some(u0) => u0,
                None => fresh_user(d.user_id as int),
            };
            Some(UserStatsView { total_weed_crimes: u.total_weed_crimes + 1, ..u })
        },
        WeedTimeEvent::WeedTime(_, d) => {
            let u = match r {
                Some(u0) => u0,
                None => fresh_user(d.user_id as int),
            };
            Some(UserStatsView { total_weed_times: u.total_weed_times + 1, ..u })
        },
    }
}

/// The community record after a whole sequence of events.
pub open spec fn guild_after_events(
    r: Option<GuildStatsView>,
    es: Seq<WeedTimeEvent>,
) -> Option<GuildStatsView>
    decreases es.len(),
{
    if es.len() == 0 {
        r
    } else {
        guild_after_events(guild_step(r, es[0]), es.drop_first())
    }
}

/// The participant record after a whole sequence of events.
pub open spec fn user_after_events(
    r: Option<UserStatsView>,
    es: Seq<WeedTimeEvent>,
) -> Option<UserStatsView>
    decreases es.len(),
{
    if es.len() == 0 {
        r
    } else {
        user_after_events(user_step(r, es[0]), es.drop_first())
    }
}

/// The longest-chain watermark of a community record; a missing record
/// carries a watermark of zero.
pub open spec fn longest_of(r: Option<GuildStatsView>) -> int {
    match r {
        Some(g) => g.longest_chain,
        None => 0,
    }
}

/// Law: the longest-chain watermark never decreases — under any sequence of
/// events, the watermark after is at least the watermark before.
pub proof fn lemma_longest_chain_monotonic(r: Option<GuildStatsView>, es: Seq<WeedTimeEvent>)
    ensures
        longest_of(guild_after_events(r, es)) >= longest_of(r),
    decreases es.len(),
{
    if es.len() > 0 {
        lemma_longest_chain_monotonic(guild_step(r, es[0]), es.drop_first());
    }
}

/// Law: committing is not idempotent.  Replaying one event against the
/// participant record is always observable: every event kind moves some
/// participant counter, so the record after two applications differs from
/// the record after one.  Exactly-once invocation per classified message is
/// therefore a duty of the caller, not a safety the committer provides.
pub proof fn lemma_commit_not_idempotent(r: Option<UserStatsView>, e: WeedTimeEvent)
    ensures
        user_step(user_step(r, e), e) != user_step(r, e),
        user_after_events(r, seq![e, e]) != user_after_events(r, seq![e]),
{
    reveal_with_fuel(user_after_events, 3);
    assert(seq![e, e].drop_first() =~= seq![e]);
    assert(seq![e].drop_first() =~= Seq::<WeedTimeEvent>::empty());
    assert(user_after_events(r, seq![e]) == user_step(r, e));
    assert(user_after_events(r, seq![e, e]) == user_after_events(user_step(r, e), seq![e]));
    assert(user_after_events(user_step(r, e), seq![e]) == user_step(user_step(r, e), e));
}

/// Law: once any chain event has been committed, the watermark holds a
/// floor of 1.
pub proof fn lemma_watermark_floor(r: Option<GuildStatsView>, e: WeedTimeEvent)
    requires
        (e matches WeedTimeEvent::NewChain(_)) || (e matches WeedTimeEvent::WeedTime(n, _)
            && n >= 1),
    ensures
        longest_of(guild_step(r, e)) >= 1,
{
}

/// What one event increments must stay below the counter ceiling for the
/// committer to run.
pub open spec fn commit_fits(
    e: WeedTimeEvent,
    g: Option<GuildStatsView>,
    u: Option<UserStatsView>,
) -> bool {
    let gt = match g {
        Some(gv) => gv.total_weed_times,
        None => 0,
    };
    let gc = match g {
        Some(gv) => gv.total_weed_crimes,
        None => 0,
    };
    let ut = match u {
        Some(uv) => uv.total_weed_times,
        None => 0,
    };
    let uc = match u {
        Some(uv) => uv.total_weed_crimes,
        None => 0,
    };
    let us = match u {
        Some(uv) => uv.chains_started,
        None => 0,
    };
    let ub = match u {
        Some(uv) => uv.chains_broken,
        None => 0,
    };
    match e {
        WeedTimeEvent::NewChain(_) => gt < u32::MAX && ut < u32::MAX && us < u32::MAX,
        WeedTimeEvent::ChainBroken(_) => ub < u32::MAX,
        WeedTimeEvent::WeedCrime(_) => gc < u32::MAX && uc < u32::MAX,
        WeedTimeEvent::WeedTime(_, _) => gt < u32::MAX && ut < u32::MAX,
    }
}

/// The community record a borrowed value stands for.
pub open spec fn guild_snapshot(g: Option<&GuildStats>) -> Option<GuildStatsView> {
    match g {
        Some(s) => Some(s@),
        None => None,
    }
}

/// The participant record a borrowed value stands for.
pub open spec fn user_snapshot(u: Option<&UserStats>) -> Option<UserStatsView> {
    match u {
        Some(s) => Some(s@),
        None => None,
    }
}

/// Applies one classified event to the two aggregate records, read as they
/// currently stand (`None` for "no record yet").  Returns the values to
/// write back: the community record only changes for chain and crime
/// events, the participant record changes for every event.  Each returned
/// record reflects exactly one application of the merge table; the caller
/// owes the store exactly one commit per classified message.
pub fn commit_event(event: &WeedTimeEvent, guild: Option<&GuildStats>, user: Option<&UserStats>) -> (r: (
    Option<GuildStats>,
    Option<UserStats>,
))
    requires
        commit_fits(*event, guild_snapshot(guild), user_snapshot(user)),
    ensures
        (*event matches WeedTimeEvent::ChainBroken(_)) ==> r.0.is_none(),
        !(*event matches WeedTimeEvent::ChainBroken(_)) ==> (r.0 matches Some(g2) && Some(g2@)
            == guild_step(guild_snapshot(guild), *event)),
        r.1 matches Some(u2) && Some(u2@) == user_step(user_snapshot(user), *event),
{
    let (guild_id, user_id): (u64, u64) = match event {
        WeedTimeEvent::NewChain(d) => (d.guild_id, d.user_id),
        WeedTimeEvent::ChainBroken(d) => (d.guild_id, d.user_id),
        WeedTimeEvent::WeedCrime(d) => (d.guild_id, d.user_id),
        WeedTimeEvent::WeedTime(_, d) => (d.guild_id, d.user_id),
    };
    let g: GuildStats = match guild {
        Some(s) => *s,
        None => GuildStats {
            guild: guild_id,
            utc_offset: 0,
            total_weed_times: 0,
            total_weed_crimes: 0,
            longest_chain: 0,
        },
    };
    let u: UserStats = match user {
        Some(s) => *s,
        None => UserStats {
            user: user_id,
            total_weed_times: 0,
            total_weed_crimes: 0,
            chains_started: 0,
            chains_broken: 0,
        },
    };
    match event {
        WeedTimeEvent::NewChain(_) => {
            let new_guild = GuildStats {
                total_weed_times: g.total_weed_times + 1,
                longest_chain: if g.longest_chain >= 1 {
                    g.longest_chain
                } else {
                    1
                },
                ..g
            };
            let new_user = UserStats {
                total_weed_times: u.total_weed_times + 1,
                chains_started: u.chains_started + 1,
                ..u
            };
            (Some(new_guild), Some(new_user))
        },
        WeedTimeEvent::ChainBroken(_) => {
            let new_user = UserStats { chains_broken: u.chains_broken + 1, ..u };
            (None, Some(new_user))
        },
        WeedTimeEvent::WeedCrime(_) => {
            let new_guild = GuildStats { total_weed_crimes: g.total_weed_crimes + 1, ..g };
            let new_user = UserStats { total_weed_crimes: u.total_weed_crimes + 1, ..u };
            (Some(new_guild), Some(new_user))
        },
        WeedTimeEvent::WeedTime(n, _) => {
            let new_guild = GuildStats {
                total_weed_times: g.total_weed_times + 1,
                longest_chain: if g.longest_chain >= *n {
                    g.longest_chain
                } else {
                    *n
                },
                ..g
            };
            let new_user = UserStats { total_weed_times: u.total_weed_times + 1, ..u };
            (Some(new_guild), Some(new_user))
        },
    }
}

/// The timezone command's core: validate the offset, then produce the
/// community record to store.  An illegal offset yields `None` and no
/// mutation; a legal one yields the current record with the offset replaced,
/// or a fresh record carrying only the key and the offset.
pub fn set_utc_offset(current: Option<&GuildStats>, guild_id: u64, offset_seconds: i32) -> (r:
    Option<GuildStats>)
    ensures
        r.is_some() <==> crate::localtime::valid_utc_offset(offset_seconds as int),
        r matches Some(g2) ==> g2.utc_offset == offset_seconds && (match current {
            Some(c) => g2@ == (GuildStatsView { utc_offset: offset_seconds as int, ..c@ }),
            None => g2@ == (GuildStatsView {
                utc_offset: offset_seconds as int,
                ..fresh_guild(guild_id as int)
            }),
        }),
{
    if !crate::localtime::validate_utc_offset(offset_seconds) {
        return None;
    }
    match current {
        Some(c) => {
            let mut g: GuildStats = *c;
            g.utc_offset = offset_seconds;
            Some(g)
        },
        None => Some(
            GuildStats {
                guild: guild_id,
                utc_offset: offset_seconds,
                total_weed_times: 0,
                total_weed_crimes: 0,
                longest_chain: 0,
            },
        ),
    }
}

/// The participant record to report for a stats query: the stored one, or a
/// fresh record created on first query.
pub fn user_stats_or_default(user_id: u64, found: Option<UserStats>) -> (r: UserStats)
    ensures
        match found {
            Some(u) => r == u,
            None => r@ == fresh_user(user_id as int),
        },
{
    match found {
        Some(u) => u,
        None => UserStats {
            user: user_id,
            total_weed_times: 0,
            total_weed_crimes: 0,
            chains_started: 0,
            chains_broken: 0,
        },
    }
}

} // verus!
