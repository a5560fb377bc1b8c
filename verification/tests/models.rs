use cronos::models::bots::{
    all_bots, get_bot_age, get_bot_data, get_bot_guild_count, get_bot_premium,
    get_bot_trending_score, get_bot_votes, is_hidden, refresh_latest_data, refresh_latest_votes,
    remove_bot_from_live, set_bot_trending_data, update_live_data, vote_stats, Bot, LiveBots,
};
use cronos::models::packs::{
    all_packs, get_pack_bot_count, get_pack_data, get_pack_likes, get_pack_premium,
    get_pack_trending_score, remove_pack_from_live, set_pack_trending_data, LivePacks, Pack,
};
use cronos::models::utils::{as_signed, as_unsigned, process_rows, CounterRow, VoteStats};
use std::collections::HashMap;

fn bot(id: i64, username: &str) -> Bot {
    Bot {
        id,
        username: username.to_string(),
        avatar: None,
        discriminator: 1,
        prefix: Some("!".to_string()),
        is_packable: true,
        slug: None,
        flags: 0,
        features: 0,
        invite_url: "https://example.org/invite".to_string(),
        tags: vec!["music".to_string()],
        created_on: 1_650_000_000,
        is_hidden: false,
        is_forced_into_hiding: false,
        owner_id: 77,
        co_owner_ids: vec![78, 79],
        guild_count: Some(1000),
        brief_description: "music bot".to_string(),
    }
}

fn pack(id: i64, bots: Vec<i64>) -> Pack {
    Pack {
        id,
        name: "Music Starter".to_string(),
        description: "bots to start with".to_string(),
        created_on: 1_660_000_000,
        tag: "music".to_string(),
        bots,
        is_hidden: false,
        is_forced_into_hiding: false,
        owner_id: 5,
        co_owner_ids: vec![],
    }
}

#[test]
fn counters_are_read_as_unsigned() {
    assert_eq!(as_unsigned(0), 0);
    assert_eq!(as_unsigned(42), 42);
    assert_eq!(as_unsigned(i64::MAX), 9_223_372_036_854_775_807);
    assert_eq!(as_unsigned(-1), u64::MAX);
    assert_eq!(as_unsigned(i64::MIN), 9_223_372_036_854_775_808);
}

#[test]
fn unsigned_numbers_are_read_as_signed() {
    assert_eq!(as_signed(0), 0);
    assert_eq!(as_signed(42), 42);
    assert_eq!(as_signed(9_223_372_036_854_775_807), i64::MAX);
    assert_eq!(as_signed(9_223_372_036_854_775_808), i64::MIN);
    assert_eq!(as_signed(u64::MAX), -1);
}

#[test]
fn vote_stats_keep_both_counters() {
    let stats = VoteStats::new(12, 340);
    assert_eq!(stats.votes(), 12);
    assert_eq!(stats.all_time_votes(), 340);
    let wrapped = VoteStats::new(-2, -1);
    assert_eq!(wrapped.votes(), u64::MAX - 1);
    assert_eq!(wrapped.all_time_votes(), u64::MAX);
    let zero = VoteStats::default();
    assert_eq!(zero.votes(), 0);
    assert_eq!(zero.all_time_votes(), 0);
}

#[test]
fn counter_rows_build_the_table_and_later_rows_win() {
    let rows = vec![
        CounterRow { id: 1, votes: 5, all_time_votes: 50 },
        CounterRow { id: 2, votes: 7, all_time_votes: 70 },
        CounterRow { id: 1, votes: 6, all_time_votes: 51 },
    ];
    let table = process_rows(&rows);
    assert_eq!(table.len(), 2);
    assert_eq!(table.get(&1).unwrap().votes(), 6);
    assert_eq!(table.get(&1).unwrap().all_time_votes(), 51);
    assert_eq!(table.get(&2).unwrap().votes(), 7);
    assert!(process_rows(&Vec::new()).is_empty());
}

#[test]
fn votes_of_an_unknown_id_are_zero() {
    let mut votes: HashMap<i64, VoteStats> = HashMap::new();
    refresh_latest_votes(&mut votes, &vec![CounterRow { id: 9, votes: 3, all_time_votes: 4 }]);
    assert_eq!(vote_stats(&votes, 9).votes(), 3);
    assert_eq!(vote_stats(&votes, 10).votes(), 0);
    assert_eq!(get_bot_votes(&votes, 9), 3);
    assert_eq!(get_bot_votes(&votes, 10), 0);
    assert_eq!(get_pack_likes(&votes, 9), 3);
    assert_eq!(get_pack_likes(&votes, 11), 0);
    assert_eq!(cronos::models::packs::vote_stats(&votes, 9).all_time_votes(), 4);
}

#[test]
fn refreshing_votes_replaces_the_table() {
    let mut votes: HashMap<i64, VoteStats> = HashMap::new();
    refresh_latest_votes(&mut votes, &vec![CounterRow { id: 1, votes: 3, all_time_votes: 4 }]);
    refresh_latest_votes(&mut votes, &vec![CounterRow { id: 2, votes: 8, all_time_votes: 9 }]);
    assert_eq!(votes.len(), 1);
    assert_eq!(get_bot_votes(&votes, 1), 0);
    assert_eq!(get_bot_votes(&votes, 2), 8);
    let mut likes: HashMap<i64, VoteStats> = HashMap::new();
    cronos::models::packs::refresh_latest_votes(
        &mut likes,
        &vec![CounterRow { id: 4, votes: 1, all_time_votes: 2 }],
    );
    assert_eq!(get_pack_likes(&likes, 4), 1);
}

#[test]
fn live_cache_holds_rows_by_id() {
    let mut live = LiveBots::new();
    assert_eq!(live.len(), 0);
    update_live_data(&mut live, bot(1, "Kira"));
    update_live_data(&mut live, bot(2, "Kyra"));
    assert_eq!(live.len(), 2);
    assert_eq!(get_bot_data(&live, 1).unwrap().username, "Kira");
    assert_eq!(get_bot_data(&live, 2).unwrap().username, "Kyra");
    assert!(get_bot_data(&live, 3).is_none());
    let mut replaced = bot(1, "Kira the second");
    replaced.guild_count = Some(5);
    update_live_data(&mut live, replaced);
    assert_eq!(live.len(), 2);
    assert_eq!(get_bot_data(&live, 1).unwrap().username, "Kira the second");
    remove_bot_from_live(&mut live, 1);
    assert!(get_bot_data(&live, 1).is_none());
    remove_bot_from_live(&mut live, 1);
    assert_eq!(live.len(), 1);
}

#[test]
fn withheld_rows_never_enter_the_live_cache() {
    let mut live = LiveBots::new();
    update_live_data(&mut live, bot(1, "Kira"));
    let mut hidden = bot(1, "Kira");
    hidden.is_hidden = true;
    update_live_data(&mut live, hidden);
    assert!(get_bot_data(&live, 1).is_none());
    let mut forced = bot(2, "Kyra");
    forced.is_forced_into_hiding = true;
    update_live_data(&mut live, forced);
    assert!(get_bot_data(&live, 2).is_none());
    assert_eq!(live.len(), 0);
}

#[test]
fn bulk_refresh_replaces_the_cache_and_drops_withheld_rows() {
    let mut live = LiveBots::new();
    update_live_data(&mut live, bot(40, "Old"));
    let mut hidden = bot(2, "Hidden");
    hidden.is_hidden = true;
    refresh_latest_data(&mut live, vec![bot(1, "Kira"), hidden, bot(3, "Third")]);
    let mut ids = all_bots(&live);
    ids.sort();
    assert_eq!(ids, vec![1, 3]);
    refresh_latest_data(&mut live, vec![bot(1, "Kira"), bot(3, "Third")]);
    let mut again = all_bots(&live);
    again.sort();
    assert_eq!(again, vec![1, 3]);
    refresh_latest_data(&mut live, Vec::new());
    assert!(all_bots(&live).is_empty());
}

#[test]
fn a_later_row_of_a_scan_replaces_an_earlier_one() {
    let mut live = LiveBots::new();
    let mut hidden = bot(1, "Now hidden");
    hidden.is_forced_into_hiding = true;
    refresh_latest_data(&mut live, vec![bot(1, "First"), bot(1, "Second")]);
    assert_eq!(get_bot_data(&live, 1).unwrap().username, "Second");
    refresh_latest_data(&mut live, vec![bot(1, "First"), hidden]);
    assert!(get_bot_data(&live, 1).is_none());
}

#[test]
fn hidden_means_kept_out_of_packs() {
    let mut live = LiveBots::new();
    update_live_data(&mut live, bot(1, "Kira"));
    let mut unpackable = bot(2, "Kyra");
    unpackable.is_packable = false;
    update_live_data(&mut live, unpackable);
    assert!(!is_hidden(&live, 1));
    assert!(is_hidden(&live, 2));
    assert!(!is_hidden(&live, 3));
}

#[test]
fn premium_is_bit_zero_of_the_flags() {
    let mut live = LiveBots::new();
    let mut premium = bot(2, "Kyra");
    premium.flags = 1;
    let mut odd = bot(3, "Odd");
    odd.flags = -1;
    let mut even = bot(4, "Even");
    even.flags = 6;
    update_live_data(&mut live, bot(1, "Kira"));
    update_live_data(&mut live, premium);
    update_live_data(&mut live, odd);
    update_live_data(&mut live, even);
    assert!(!get_bot_premium(&live, 1));
    assert!(get_bot_premium(&live, 2));
    assert!(get_bot_premium(&live, 3));
    assert!(!get_bot_premium(&live, 4));
    assert!(!get_bot_premium(&live, 5));
    assert!(get_bot_data(&live, 2).unwrap().premium());
    assert!(!get_bot_data(&live, 1).unwrap().withheld());
}

#[test]
fn guild_count_age_and_trending_default_to_zero() {
    let mut live = LiveBots::new();
    let mut unknown = bot(2, "Kyra");
    unknown.guild_count = None;
    let mut negative = bot(3, "Neg");
    negative.guild_count = Some(-1);
    update_live_data(&mut live, bot(1, "Kira"));
    update_live_data(&mut live, unknown);
    update_live_data(&mut live, negative);
    assert_eq!(get_bot_guild_count(&live, 1), 1000);
    assert_eq!(get_bot_guild_count(&live, 2), 0);
    assert_eq!(get_bot_guild_count(&live, 3), u64::MAX);
    assert_eq!(get_bot_guild_count(&live, 4), 0);
    assert_eq!(get_bot_age(&live, 1), 1_650_000_000);
    assert_eq!(get_bot_age(&live, 4), 0);
    let mut trending: HashMap<i64, i64> = HashMap::new();
    let mut data: HashMap<i64, i64> = HashMap::new();
    data.insert(1, 900);
    data.insert(2, -5);
    set_bot_trending_data(&mut trending, data);
    assert_eq!(get_bot_trending_score(&trending, 1), 900);
    assert_eq!(get_bot_trending_score(&trending, 2), -5);
    assert_eq!(get_bot_trending_score(&trending, 3), 0);
}

#[test]
fn pack_cache_and_keys() {
    let mut packs = LivePacks::new();
    cronos::models::packs::update_live_data(&mut packs, pack(10, vec![1, 2, 999]));
    let mut hidden = pack(11, vec![1]);
    hidden.is_hidden = true;
    cronos::models::packs::update_live_data(&mut packs, hidden);
    assert_eq!(packs.len(), 1);
    assert_eq!(get_pack_data(&packs, 10).unwrap().name, "Music Starter");
    assert!(get_pack_data(&packs, 11).is_none());
    assert_eq!(all_packs(&packs), vec![10]);
    assert!(!get_pack_premium(10));
    let mut trending: HashMap<i64, i64> = HashMap::new();
    let mut data: HashMap<i64, i64> = HashMap::new();
    data.insert(10, 3);
    set_pack_trending_data(&mut trending, data);
    assert_eq!(get_pack_trending_score(&trending, 10), 3);
    assert_eq!(get_pack_trending_score(&trending, 12), 0);
    remove_pack_from_live(&mut packs, 10);
    assert!(get_pack_data(&packs, 10).is_none());
    cronos::models::packs::refresh_latest_data(&mut packs, vec![pack(1, vec![]), pack(2, vec![])]);
    let mut ids = all_packs(&packs);
    ids.sort();
    assert_eq!(ids, vec![1, 2]);
}

#[test]
fn a_pack_counts_the_bots_it_is_shown_with() {
    let mut bots = LiveBots::new();
    update_live_data(&mut bots, bot(1, "Kira"));
    let mut premium = bot(2, "Kyra");
    premium.flags = 1;
    update_live_data(&mut bots, premium);
    let mut unpackable = bot(3, "Solo");
    unpackable.is_packable = false;
    update_live_data(&mut bots, unpackable);
    let mut packs = LivePacks::new();
    cronos::models::packs::update_live_data(&mut packs, pack(10, vec![1, 2, 999, 3]));
    assert_eq!(get_pack_bot_count(&packs, &bots, 10), 2);
    assert_eq!(get_pack_bot_count(&packs, &bots, 11), 0);
    remove_bot_from_live(&mut bots, 1);
    assert_eq!(get_pack_bot_count(&packs, &bots, 10), 1);
}
