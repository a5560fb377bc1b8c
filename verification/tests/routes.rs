use cronos::models::bots::{remove_bot_from_live, update_live_data, Bot, LiveBots};
use cronos::models::packs::{LivePacks, Pack};
use cronos::models::utils::VoteStats;
use cronos::routes::bots::{BotApi, BotHit, BotSearchPayload, BotSource};
use cronos::routes::packs::{hydrate_members, PackApi, PackHit, PackSearchPayload, PackSource};
use cronos::routes::{
    check_limit, check_query, page_limit, response_query, ApiTags, StandardResponse,
    DEFAULT_LIMIT, MAX_LIMIT, MAX_OFFSET, MAX_QUERY_CHARS,
};
use cronos::search::index::IdTerm;
use cronos::search::index_impls::bots::BotIndex;
use cronos::search::index_impls::packs::PackIndex;
use cronos::search::queries::BaseQuery;
use cronos::search::ranking::Order;
use cronos::search::readers::bots::{BotFilter, BotsSortBy};
use cronos::search::readers::packs::{PackFilter, PacksSortBy};
use cronos::search::readers::{extract_search_data, DocAddress, SearchResult, TagCount};
use cronos::search::writer::WriterOp;
use cronos::search::FromTantivyDoc;
use std::collections::HashMap;
use tantivy::schema::Field;
use tantivy::Document;

fn bot(id: i64, username: &str, flags: i64) -> Bot {
    Bot {
        id,
        username: username.to_string(),
        avatar: Some("a1b2".to_string()),
        discriminator: 4,
        prefix: None,
        is_packable: true,
        slug: Some("kira".to_string()),
        flags,
        features: 0b0011,
        invite_url: "https://example.org/invite".to_string(),
        tags: vec!["music".to_string(), "fun".to_string()],
        created_on: 1_650_000_000,
        is_hidden: false,
        is_forced_into_hiding: false,
        owner_id: 77,
        co_owner_ids: vec![78, 79],
        guild_count: Some(1000),
        brief_description: "music bot".to_string(),
    }
}

fn pack(id: i64, bots: Vec<i64>) -> Pack {
    Pack {
        id,
        name: "Music Starter".to_string(),
        description: "bots to start with".to_string(),
        created_on: 1_660_000_000,
        tag: "music".to_string(),
        bots,
        is_hidden: false,
        is_forced_into_hiding: false,
        owner_id: 5,
        co_owner_ids: vec![6],
    }
}

fn stored(id: i64) -> Document {
    let mut document = Document::new();
    document.add_i64(Field::from_field_id(0), id);
    document
}

fn two_bots() -> LiveBots {
    let mut live = LiveBots::new();
    update_live_data(&mut live, bot(1, "Kira", 0));
    update_live_data(&mut live, bot(2, "Kyra", 1));
    live
}

fn bot_payload(query: Option<&str>, limit: Option<usize>, offset: usize) -> BotSearchPayload {
    BotSearchPayload {
        query: query.map(|text| text.to_string()),
        limit,
        offset,
        filter: BotFilter::default(),
        sort: BotsSortBy::default(),
        order: Order::default(),
    }
}

fn pack_payload(query: Option<&str>, limit: Option<usize>, offset: usize) -> PackSearchPayload {
    PackSearchPayload {
        query: query.map(|text| text.to_string()),
        limit,
        offset,
        filter: PackFilter::default(),
        sort: PacksSortBy::default(),
        order: Order::default(),
    }
}

#[test]
fn a_bot_hit_carries_the_row_and_its_votes() {
    let mut votes: HashMap<i64, VoteStats> = HashMap::new();
    votes.insert(1, VoteStats::new(12, 340));
    let hit = BotHit::from(&bot(1, "Kira", 5), &votes);
    assert_eq!(hit.id, 1);
    assert_eq!(hit.username, "Kira");
    assert_eq!(hit.avatar, Some("a1b2".to_string()));
    assert_eq!(hit.discriminator, 4);
    assert_eq!(hit.prefix, None);
    assert_eq!(hit.flags, 5);
    assert_eq!(hit.features, 3);
    assert_eq!(hit.tags, vec!["music".to_string(), "fun".to_string()]);
    assert_eq!(hit.created_on, 1_650_000_000);
    assert_eq!(hit.owner_id, 77);
    assert_eq!(hit.co_owner_ids, vec![78, 79]);
    assert_eq!(hit.guild_count, Some(1000));
    assert_eq!(hit.brief_description, "music bot");
    assert_eq!(hit.votes, 12);
    assert_eq!(hit.invite_url, "https://example.org/invite");
    let unknown = BotHit::from(&bot(2, "Kyra", 0), &votes);
    assert_eq!(unknown.votes, 0);
}

#[test]
fn votes_of_a_hit_are_read_as_signed() {
    let mut votes: HashMap<i64, VoteStats> = HashMap::new();
    votes.insert(1, VoteStats::new(-1, 0));
    assert_eq!(BotHit::from(&bot(1, "Kira", 0), &votes).votes, -1);
}

#[test]
fn a_stored_document_is_filled_from_the_live_cache() {
    let live = two_bots();
    let votes: HashMap<i64, VoteStats> = HashMap::new();
    let source = BotSource { live: &live, votes: &votes };
    let hit = BotHit::from_doc(&source, 0, &stored(2)).unwrap();
    assert_eq!(hit.id, 2);
    assert_eq!(hit.username, "Kyra");
    assert!(BotHit::from_doc(&source, 0, &stored(3)).is_none());
    assert!(BotHit::from_doc(&source, 1, &stored(2)).is_none());
    assert!(BotHit::from_doc(&source, 0, &Document::new()).is_none());
}

#[test]
fn the_first_value_under_the_id_field_counts() {
    let live = two_bots();
    let votes: HashMap<i64, VoteStats> = HashMap::new();
    let source = BotSource { live: &live, votes: &votes };
    let mut unsigned_first = Document::new();
    unsigned_first.add_u64(Field::from_field_id(0), 1);
    unsigned_first.add_i64(Field::from_field_id(0), 1);
    assert!(BotHit::from_doc(&source, 0, &unsigned_first).is_none());
    let mut other_field_first = Document::new();
    other_field_first.add_text(Field::from_field_id(3), "Kira");
    other_field_first.add_i64(Field::from_field_id(0), 1);
    other_field_first.add_i64(Field::from_field_id(0), 2);
    assert_eq!(BotHit::from_doc(&source, 0, &other_field_first).unwrap().id, 1);
}

#[test]
fn hits_without_a_live_row_are_dropped() {
    let live = two_bots();
    let votes: HashMap<i64, VoteStats> = HashMap::new();
    let source = BotSource { live: &live, votes: &votes };
    let docs = vec![stored(2), stored(9), stored(1), stored(2)];
    let hits: Vec<BotHit> = extract_search_data(&source, 0, &docs, 50);
    let ids: Vec<i64> = hits.iter().map(|hit| hit.id).collect();
    assert_eq!(ids, vec![2, 1, 2]);
    let capped: Vec<BotHit> = extract_search_data(&source, 0, &docs, 2);
    let ids: Vec<i64> = capped.iter().map(|hit| hit.id).collect();
    assert_eq!(ids, vec![2]);
    let none: Vec<BotHit> = extract_search_data(&source, 0, &docs, 0);
    assert!(none.is_empty());
}

#[test]
fn a_pack_is_shown_with_its_packable_bots_on_show() {
    let mut bots = two_bots();
    let mut packs = LivePacks::new();
    cronos::models::packs::update_live_data(&mut packs, pack(10, vec![1, 2, 999]));
    let mut likes: HashMap<i64, VoteStats> = HashMap::new();
    likes.insert(10, VoteStats::new(8, 80));
    let mut bot_votes: HashMap<i64, VoteStats> = HashMap::new();
    bot_votes.insert(2, VoteStats::new(3, 30));
    {
        let source = PackSource { live: &packs, votes: &likes, bots: &bots, bot_votes: &bot_votes };
        let hit = PackHit::from_doc(&source, 0, &stored(10)).unwrap();
        assert_eq!(hit.id, 10);
        assert_eq!(hit.name, "Music Starter");
        assert_eq!(hit.description, "bots to start with");
        assert_eq!(hit.created_on, 1_660_000_000);
        assert_eq!(hit.tag, "music");
        assert_eq!(hit.owner_id, 5);
        assert_eq!(hit.co_owner_ids, vec![6]);
        assert_eq!(hit.likes, 8);
        let members: Vec<i64> = hit.bots.iter().map(|member| member.id).collect();
        assert_eq!(members, vec![1, 2]);
        assert_eq!(hit.bots[1].votes, 3);
        assert_eq!(cronos::models::packs::get_pack_bot_count(&packs, &bots, 10), 2);
        assert!(PackHit::from_doc(&source, 0, &stored(11)).is_none());
    }
    remove_bot_from_live(&mut bots, 1);
    let source = PackSource { live: &packs, votes: &likes, bots: &bots, bot_votes: &bot_votes };
    let hit = PackHit::from_doc(&source, 0, &stored(10)).unwrap();
    let members: Vec<i64> = hit.bots.iter().map(|member| member.id).collect();
    assert_eq!(members, vec![2]);
    assert_eq!(cronos::models::packs::get_pack_bot_count(&packs, &bots, 10), 1);
}

#[test]
fn bots_that_are_not_packable_stay_out_of_a_pack() {
    let mut bots = two_bots();
    let mut solo = bot(3, "Solo", 0);
    solo.is_packable = false;
    update_live_data(&mut bots, solo);
    let votes: HashMap<i64, VoteStats> = HashMap::new();
    let members: Vec<i64> =
        hydrate_members(&vec![3, 2, 3, 1, 2], &bots, &votes).iter().map(|hit| hit.id).collect();
    assert_eq!(members, vec![2, 1, 2]);
    assert!(hydrate_members(&Vec::new(), &bots, &votes).is_empty());
}

#[test]
fn requests_out_of_range_are_not_in_order() {
    assert_eq!((DEFAULT_LIMIT, MAX_LIMIT, MAX_OFFSET, MAX_QUERY_CHARS), (20, 50, 40000, 50));
    assert!(bot_payload(None, None, 0).is_valid());
    assert!(bot_payload(Some("k"), Some(1), 40000).is_valid());
    assert!(bot_payload(Some(&"é".repeat(50)), Some(50), 0).is_valid());
    assert!(!bot_payload(Some(""), None, 0).is_valid());
    assert!(!bot_payload(Some(&"a".repeat(51)), None, 0).is_valid());
    assert!(!bot_payload(None, Some(0), 0).is_valid());
    assert!(!bot_payload(None, Some(51), 0).is_valid());
    assert!(!bot_payload(None, None, 40001).is_valid());
    let mut crowded = bot_payload(None, None, 0);
    crowded.filter.tags = (0..11).map(|i| format!("tag{}", i)).collect();
    assert!(!crowded.is_valid());
    assert!(pack_payload(None, None, 0).is_valid());
    assert!(!pack_payload(None, Some(51), 0).is_valid());
    let mut short = pack_payload(None, None, 0);
    short.filter.category = Some("a".to_string());
    assert!(!short.is_valid());
    assert!(check_query(&None));
    assert!(!check_query(&Some(String::new())));
    assert!(check_limit(Some(50)));
    assert!(!check_limit(Some(51)));
}

#[test]
fn the_page_defaults_to_twenty_and_the_query_to_a_star() {
    assert_eq!(page_limit(None), 20);
    assert_eq!(page_limit(Some(7)), 7);
    assert_eq!(response_query(&None), "*");
    assert_eq!(response_query(&Some("kira".to_string())), "kira");
}

#[test]
fn a_request_out_of_order_is_answered_with_nothing_found() {
    let (_, reader) = BotIndex::create();
    let answer = match BotApi.search(&reader, &bot_payload(None, Some(51), 3)) {
        Err(answer) => answer,
        Ok(_) => panic!("the request is out of order"),
    };
    assert!(answer.hits.is_empty());
    assert!(answer.tag_distribution.is_empty());
    assert_eq!(answer.nb_hits, 0);
    assert_eq!(answer.limit, 51);
    assert_eq!(answer.offset, 3);
    assert_eq!(answer.query, "*");
    let (_, pack_reader) = PackIndex::create();
    let answer = match PackApi.search(&pack_reader, &pack_payload(Some(""), None, 0)) {
        Err(answer) => answer,
        Ok(_) => panic!("the request is out of order"),
    };
    assert_eq!(answer.nb_hits, 0);
    assert_eq!(answer.limit, 20);
    assert_eq!(answer.query, "");
}

#[test]
fn a_request_in_order_starts_a_search() {
    let (_, reader) = BotIndex::create();
    let mut payload = bot_payload(Some("kira"), None, 5);
    payload.sort = BotsSortBy::Popularity;
    payload.order = Order::Asc;
    let mut run = match BotApi.search(&reader, &payload) {
        Ok(run) => run,
        Err(_) => panic!("the request is in order"),
    };
    {
        let request = run.next_request().unwrap();
        assert_eq!(request.limit, 25);
        assert!(matches!(request.order, Order::Asc));
        match &request.query.base {
            BaseQuery::Fuzzy(stage) => {
                let fields: Vec<u32> = stage.groups.iter().map(|group| group.field).collect();
                assert_eq!(fields, vec![3, 4, 5]);
            },
            BaseQuery::All => panic!("a stage was expected"),
        }
    }
    run.absorb(&vec![DocAddress { segment_ord: 0, doc_id: 0 }]);
    assert!(run.next_request().is_some());
    let (_, pack_reader) = PackIndex::create();
    let mut run = match PackApi.search(&pack_reader, &pack_payload(None, Some(50), 40000)) {
        Ok(run) => run,
        Err(_) => panic!("the request is in order"),
    };
    assert_eq!(run.next_request().unwrap().limit, 40050);
    run.absorb(&vec![DocAddress { segment_ord: 0, doc_id: 0 }]);
    assert!(run.page().is_empty());
}

#[test]
fn an_answer_carries_the_result_of_the_search() {
    let live = two_bots();
    let votes: HashMap<i64, VoteStats> = HashMap::new();
    let source = BotSource { live: &live, votes: &votes };
    let (_, reader) = BotIndex::create();
    let payload = bot_payload(Some("kir"), Some(2), 0);
    let mut run = match BotApi.search(&reader, &payload) {
        Ok(run) => run,
        Err(_) => panic!("the request is in order"),
    };
    run.absorb(&vec![DocAddress { segment_ord: 0, doc_id: 0 }]);
    let docs = vec![stored(1), stored(2), stored(1)];
    let buckets = vec![
        TagCount { tag: "music".to_string(), count: 2 },
        TagCount { tag: "fun".to_string(), count: 1 },
    ];
    let result: SearchResult<BotHit> = run.finish(&source, 0, &docs, 2, Some(buckets));
    assert_eq!(result.total, 2);
    assert_eq!(result.hits.len(), 2);
    let answer = BotApi.answer(&payload, result);
    let ids: Vec<i64> = answer.hits.iter().map(|hit| hit.id).collect();
    assert_eq!(ids, vec![1, 2]);
    assert_eq!(answer.nb_hits, 2);
    assert_eq!(answer.limit, 2);
    assert_eq!(answer.offset, 0);
    assert_eq!(answer.query, "kir");
    assert_eq!(answer.tag_distribution.len(), 2);
    assert_eq!(answer.tag_distribution[0].tag, "music");
    assert_eq!(answer.tag_distribution[0].count, 2);
    assert_eq!(answer.tag_distribution[1].tag, "fun");
}

#[test]
fn a_search_that_matches_nothing_has_an_empty_answer() {
    let live = two_bots();
    let votes: HashMap<i64, VoteStats> = HashMap::new();
    let source = BotSource { live: &live, votes: &votes };
    let (_, reader) = BotIndex::create();
    let payload = bot_payload(Some(&"zqxj ".repeat(10)), None, 0);
    let mut run = match BotApi.search(&reader, &payload) {
        Ok(run) => run,
        Err(_) => panic!("fifty characters are in order"),
    };
    while run.next_request().is_some() {
        run.absorb(&Vec::new());
    }
    assert!(run.page().is_empty());
    let result: SearchResult<BotHit> = run.finish(&source, 0, &Vec::new(), 0, None);
    let answer = BotApi.answer(&payload, result);
    assert!(answer.hits.is_empty());
    assert!(answer.tag_distribution.is_empty());
    assert_eq!(answer.nb_hits, 0);
    let empty = BotApi.empty_answer(&payload);
    assert!(empty.hits.is_empty());
    assert_eq!(empty.query, payload.query.clone().unwrap());
}

#[test]
fn the_count_does_not_depend_on_the_offset() {
    let packs = LivePacks::new();
    let bots = LiveBots::new();
    let votes: HashMap<i64, VoteStats> = HashMap::new();
    let source = PackSource { live: &packs, votes: &votes, bots: &bots, bot_votes: &votes };
    let (_, reader) = PackIndex::create();
    let payload = pack_payload(None, Some(50), 40000);
    let mut run = match PackApi.search(&reader, &payload) {
        Ok(run) => run,
        Err(_) => panic!("the request is in order"),
    };
    run.absorb(&vec![DocAddress { segment_ord: 0, doc_id: 0 }]);
    assert!(run.page().is_empty());
    let result: SearchResult<PackHit> = run.finish(&source, 0, &Vec::new(), 12, None);
    let answer = PackApi.answer(&payload, result);
    assert!(answer.hits.is_empty());
    assert_eq!(answer.nb_hits, 12);
    assert_eq!(answer.offset, 40000);
    assert_eq!(answer.limit, 50);
    assert_eq!(answer.query, "*");
}

#[test]
fn write_operations_answer_with_what_to_put_to_the_writer() {
    let (index, _) = BotIndex::create();
    let kira = bot(1, "Kira", 0);
    let ops = BotApi.update_bot(&index, Some(&kira)).unwrap();
    assert_eq!(ops.len(), 2);
    assert!(matches!(ops[0], WriterOp::RemoveDocuments(IdTerm { field: 0, id: 1 })));
    assert!(matches!(ops[1], WriterOp::AddDocument(_)));
    assert!(matches!(BotApi.update_bot(&index, None), Err(StandardResponse::BadRequest)));
    assert!(matches!(
        BotApi.remove_bot(&index, 7),
        WriterOp::RemoveDocuments(IdTerm { field: 0, id: 7 })
    ));
    assert!(matches!(
        BotApi.remove_bot(&index, u64::MAX),
        WriterOp::RemoveDocuments(IdTerm { field: 0, id: -1 })
    ));
    let refresh = BotApi.refresh_bots(&index, &vec![kira]);
    assert_eq!(refresh.len(), 3);
    assert!(matches!(refresh[0], WriterOp::ClearAll));
    let (packs, _) = PackIndex::create();
    let starter = pack(10, vec![1]);
    assert_eq!(PackApi.update_pack(&packs, Some(&starter)).unwrap().len(), 2);
    assert!(matches!(PackApi.update_pack(&packs, None), Err(StandardResponse::BadRequest)));
    assert!(matches!(
        PackApi.remove_pack(&packs, 10),
        WriterOp::RemoveDocuments(IdTerm { field: 0, id: 10 })
    ));
    assert_eq!(PackApi.refresh_packs(&packs, &vec![starter]).len(), 3);
    assert_ne!(StandardResponse::Accepted, StandardResponse::BadRequest);
    assert_ne!(ApiTags::Bots, ApiTags::Packs);
}

#[test]
fn the_ids_on_show_are_listed_once_each() {
    let live = two_bots();
    let mut ids = BotApi.get_bot_ids(&live);
    ids.sort();
    assert_eq!(ids, vec![1, 2]);
    assert!(BotApi.get_bot_ids(&LiveBots::new()).is_empty());
    let mut packs = LivePacks::new();
    cronos::models::packs::update_live_data(&mut packs, pack(10, vec![1]));
    assert_eq!(PackApi.get_pack_ids(&packs), vec![10]);
}
