//! Unit tests for the clock arithmetic, marker detection, emoji rendering
//! and the committer's merge table.

use weed_time::db::{
    commit_event, set_utc_offset, user_stats_or_default, EventData, GuildStats, UserStats,
    WeedTimeEvent,
};
use weed_time::emoji::{combo_digits, combo_to_emojis};
use weed_time::localtime::{
    in_window, local_hour, local_minute, same_occurrence, split_local, validate_utc_offset,
};
use weed_time::text::{contains_marker, str_contains_str};

/// 2023-03-01 04:20:00 UTC.
const T_0420: i64 = 1677644400;

/// 2023-03-01 16:20:00 UTC.
const T_1620: i64 = 1677687600;

fn data(guild_id: u64, user_id: u64) -> EventData {
    EventData { guild_id, user_id }
}

#[test]
fn local_clock_fields() {
    assert_eq!(local_hour(T_0420, 0), 4);
    assert_eq!(local_minute(T_0420, 0), 20);
    let (day, sod) = split_local(T_0420, 0);
    assert_eq!(day, 19417);
    assert_eq!(sod, 4 * 3600 + 20 * 60);
    // The offset shifts the local clock.
    assert_eq!(local_hour(T_0420, 3600), 5);
    assert_eq!(local_hour(T_0420, -3600), 3);
}

#[test]
fn local_clock_before_the_epoch() {
    // 1969-12-31 04:20:00 UTC.
    let ts: i64 = -70800;
    assert_eq!(local_hour(ts, 0), 4);
    assert_eq!(local_minute(ts, 0), 20);
    assert!(in_window(ts, 0));
}

#[test]
fn window_matches_hour_modulo_twelve() {
    assert!(in_window(T_0420, 0));
    assert!(in_window(T_1620, 0));
    assert!(!in_window(T_0420 + 60, 0)); // 04:21
    assert!(!in_window(T_0420 + 3600, 0)); // 05:20
}

#[test]
fn window_follows_community_offset() {
    // 03:20 UTC is 04:20 at offset +3600.
    assert!(in_window(1677640800, 3600));
    assert!(!in_window(1677640800, 0));
    // 09:20 UTC is 04:20 at offset -18000.
    assert!(in_window(1677662400, -18000));
}

#[test]
fn occurrence_is_date_and_hour() {
    assert!(same_occurrence(T_0420, T_0420 + 30, 0));
    assert!(same_occurrence(T_0420, T_0420 + 35 * 60, 0));
    // Same clock reading a day later is a different occurrence.
    assert!(!same_occurrence(T_0420, T_0420 + 86400, 0));
    // Morning and afternoon windows are different occurrences.
    assert!(!same_occurrence(T_0420, T_1620, 0));
}

#[test]
fn offset_validation_bounds() {
    assert!(validate_utc_offset(0));
    assert!(validate_utc_offset(86399));
    assert!(validate_utc_offset(-86399));
    assert!(!validate_utc_offset(86400));
    assert!(!validate_utc_offset(-86400));
}

#[test]
fn marker_is_found_case_insensitively() {
    assert!(contains_marker("weed time"));
    assert!(contains_marker("WEED TIME"));
    assert!(contains_marker("wEeD tImE"));
    assert!(contains_marker("it is weed time, folks"));
    assert!(!contains_marker("weedtime"));
    assert!(!contains_marker("weed  time"));
    assert!(!contains_marker(""));
    assert!(!contains_marker("nothing here"));
}

#[test]
fn substring_search() {
    assert!(str_contains_str("abcdef", "cde"));
    assert!(str_contains_str("abcdef", ""));
    assert!(str_contains_str("abc", "abc"));
    assert!(!str_contains_str("abc", "abcd"));
    assert!(!str_contains_str("", "a"));
}

#[test]
fn emoji_digits_least_significant_first() {
    assert_eq!(combo_digits(0), vec![0]);
    assert_eq!(combo_digits(7), vec![7]);
    assert_eq!(combo_digits(42), vec![2, 4]);
    assert_eq!(combo_digits(420), vec![0, 2, 4]);
}

#[test]
fn emoji_rendering() {
    assert_eq!(combo_to_emojis(0), "<:combo0:1083097710112022739>");
    assert_eq!(combo_to_emojis(7), "<:combo7:1083097653363101697>");
    assert_eq!(
        combo_to_emojis(42),
        "<:combo2:1083097661814620302><:combo4:1083097659360944168>"
    );
}

#[test]
fn committer_new_chain_on_existing_records() {
    let g = GuildStats {
        guild: 1,
        utc_offset: 3600,
        total_weed_times: 5,
        total_weed_crimes: 2,
        longest_chain: 3,
    };
    let u = UserStats {
        user: 9,
        total_weed_times: 4,
        total_weed_crimes: 1,
        chains_started: 2,
        chains_broken: 1,
    };
    let (g2, u2) = commit_event(&WeedTimeEvent::NewChain(data(1, 9)), Some(&g), Some(&u));
    let g2 = g2.unwrap();
    assert_eq!(g2.total_weed_times, 6);
    assert_eq!(g2.longest_chain, 3); // watermark never lowered
    assert_eq!(g2.utc_offset, 3600); // offset preserved
    let u2 = u2.unwrap();
    assert_eq!(u2.chains_started, 3);
    assert_eq!(u2.total_weed_times, 5);
    assert_eq!(u2.chains_broken, 1);
}

#[test]
fn committer_chain_broken_touches_only_the_participant() {
    let (g, u) = commit_event(&WeedTimeEvent::ChainBroken(data(1, 9)), None, None);
    assert!(g.is_none());
    let u = u.unwrap();
    assert_eq!(u.user, 9);
    assert_eq!(u.chains_broken, 1);
    assert_eq!(u.total_weed_times, 0);
}

#[test]
fn committer_crime_increments_both_crime_counters() {
    let (g, u) = commit_event(&WeedTimeEvent::WeedCrime(data(3, 4)), None, None);
    let g = g.unwrap();
    assert_eq!(g.guild, 3);
    assert_eq!(g.total_weed_crimes, 1);
    assert_eq!(g.total_weed_times, 0);
    assert_eq!(g.longest_chain, 0);
    assert_eq!(u.unwrap().total_weed_crimes, 1);
}

#[test]
fn committer_weed_time_raises_watermark() {
    // A fresh record reflects only this event's effect.
    let (g, _) = commit_event(&WeedTimeEvent::WeedTime(5, data(1, 9)), None, None);
    let g = g.unwrap();
    assert_eq!(g.total_weed_times, 1);
    assert_eq!(g.longest_chain, 5);
    // A shorter chain never lowers the watermark.
    let (g2, _) = commit_event(&WeedTimeEvent::WeedTime(3, data(1, 9)), Some(&g), None);
    let g2 = g2.unwrap();
    assert_eq!(g2.total_weed_times, 2);
    assert_eq!(g2.longest_chain, 5);
}

#[test]
fn watermark_never_decreases_over_a_sequence() {
    let events = [
        WeedTimeEvent::NewChain(data(1, 9)),
        WeedTimeEvent::WeedTime(2, data(1, 8)),
        WeedTimeEvent::ChainBroken(data(1, 7)),
        WeedTimeEvent::WeedCrime(data(1, 9)),
        WeedTimeEvent::WeedTime(4, data(1, 8)),
        WeedTimeEvent::NewChain(data(1, 7)),
        WeedTimeEvent::WeedTime(2, data(1, 9)),
    ];
    let mut guild: Option<GuildStats> = None;
    let mut watermark: u32 = 0;
    for e in events.iter() {
        let (g2, _) = commit_event(e, guild.as_ref(), None);
        if let Some(g2) = g2 {
            assert!(g2.longest_chain >= watermark);
            watermark = g2.longest_chain;
            guild = Some(g2);
        }
    }
    assert_eq!(watermark, 4);
}

#[test]
fn timezone_update_preserves_counters() {
    let g = GuildStats {
        guild: 1,
        utc_offset: 0,
        total_weed_times: 5,
        total_weed_crimes: 2,
        longest_chain: 3,
    };
    let g2 = set_utc_offset(Some(&g), 1, 7200).expect("legal offset accepted");
    assert_eq!(g2.utc_offset, 7200);
    assert_eq!(g2.total_weed_times, 5);
    assert_eq!(g2.total_weed_crimes, 2);
    assert_eq!(g2.longest_chain, 3);
}

#[test]
fn timezone_rejects_illegal_offset() {
    assert!(set_utc_offset(None, 1, 86400).is_none());
    assert!(set_utc_offset(None, 1, -86400).is_none());
}

#[test]
fn timezone_creates_fresh_record() {
    let g = set_utc_offset(None, 42, -18000).expect("legal offset accepted");
    assert_eq!(g.guild, 42);
    assert_eq!(g.utc_offset, -18000);
    assert_eq!(g.total_weed_times, 0);
    assert_eq!(g.longest_chain, 0);
}

#[test]
fn user_stats_default_on_first_query() {
    let stored = UserStats {
        user: 9,
        total_weed_times: 4,
        total_weed_crimes: 1,
        chains_started: 2,
        chains_broken: 1,
    };
    assert_eq!(user_stats_or_default(9, Some(stored)), stored);
    let fresh = user_stats_or_default(5, None);
    assert_eq!(fresh.user, 5);
    assert_eq!(fresh.total_weed_times, 0);
    assert_eq!(fresh.chains_started, 0);
}
