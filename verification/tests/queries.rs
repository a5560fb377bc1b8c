use cronos::search::queries::{
    build_fuzzy_stage, distribution_query, parse_query, plan_distribution, plan_stages, BaseQuery,
    StageQuery, FIRST_BOOST_TENTHS, QUERY_TOKEN_LIMIT,
};
use cronos::search::tokenizer::SimpleTokenStream;

fn texts(words: &[&str]) -> Vec<String> {
    words.iter().map(|word| word.to_string()).collect()
}

fn stage(query: &BaseQuery) -> &StageQuery {
    match query {
        BaseQuery::Fuzzy(stage) => stage,
        BaseQuery::All => panic!("a stage was expected"),
    }
}

#[test]
fn an_absent_or_empty_text_is_one_wildcard_stage() {
    let fields = [3, 4, 5];
    let absent = parse_query(None, &fields);
    assert_eq!(absent.len(), 1);
    assert!(matches!(absent[0], BaseQuery::All));
    let empty = parse_query(Some(""), &fields);
    assert_eq!(empty.len(), 1);
    assert!(matches!(empty[0], BaseQuery::All));
    assert!(matches!(distribution_query(None, &fields), BaseQuery::All));
    assert!(matches!(distribution_query(Some(""), &fields), BaseQuery::All));
}

#[test]
fn a_text_without_tokens_has_no_stage() {
    let fields = [3, 4, 5];
    assert!(parse_query(Some("!!! ??"), &fields).is_empty());
    assert!(matches!(distribution_query(Some("!!! ??"), &fields), BaseQuery::All));
}

#[test]
fn a_short_token_is_matched_exactly_only() {
    let fields = [3, 4, 5];
    let stages = parse_query(Some("Kir"), &fields);
    assert_eq!(stages.len(), 1);
    let exact = stage(&stages[0]);
    assert_eq!(exact.distance, 0);
    assert_eq!(exact.groups.len(), 3);
    assert_eq!(exact.groups[0].field, 3);
    assert_eq!(exact.groups[1].field, 4);
    assert_eq!(exact.groups[2].field, 5);
    assert_eq!(exact.groups[0].tokens, texts(&["kir"]));
    assert_eq!(exact.groups[1].tokens, texts(&["kir"]));
    assert_eq!(exact.groups[2].tokens, texts(&["kir"]));
}

#[test]
fn boosts_start_at_one_and_fall_by_a_tenth_per_field() {
    assert_eq!(FIRST_BOOST_TENTHS, 10);
    let fields: Vec<u32> = (0..12).collect();
    let stages = parse_query(Some("kir"), &fields);
    let exact = stage(&stages[0]);
    let boosts: Vec<i128> = exact.groups.iter().map(|group| group.boost_tenths).collect();
    assert_eq!(boosts, vec![10, 9, 8, 7, 6, 5, 4, 3, 2, 1, 0, -1]);
}

#[test]
fn stages_open_at_four_and_eight_bytes() {
    let fields = [1];
    let four = parse_query(Some("kira"), &fields);
    assert_eq!(four.len(), 2);
    assert_eq!(stage(&four[0]).distance, 0);
    assert_eq!(stage(&four[1]).distance, 1);
    let seven = parse_query(Some("kirakir"), &fields);
    assert_eq!(seven.len(), 2);
    let eight = parse_query(Some("musicbot"), &fields);
    assert_eq!(eight.len(), 3);
    assert_eq!(stage(&eight[0]).distance, 0);
    assert_eq!(stage(&eight[1]).distance, 1);
    assert_eq!(stage(&eight[2]).distance, 2);
}

#[test]
fn each_stage_holds_the_tokens_that_reach_its_cut() {
    let fields = [1, 2];
    let stages = parse_query(Some("my kira musicbots"), &fields);
    assert_eq!(stages.len(), 3);
    assert_eq!(stage(&stages[0]).groups[0].tokens, texts(&["my", "kira", "musicbots"]));
    assert_eq!(stage(&stages[1]).groups[0].tokens, texts(&["kira", "musicbots"]));
    assert_eq!(stage(&stages[2]).groups[0].tokens, texts(&["musicbots"]));
    assert_eq!(stage(&stages[2]).groups[1].tokens, texts(&["musicbots"]));
}

#[test]
fn the_cut_counts_bytes() {
    let fields = [1];
    let stages = parse_query(Some("héé"), &fields);
    assert_eq!(stages.len(), 2);
    assert_eq!(stage(&stages[1]).groups[0].tokens, texts(&["héé"]));
}

#[test]
fn query_tokens_are_capped_at_ten_characters() {
    assert_eq!(QUERY_TOKEN_LIMIT, 10);
    let fields = [1];
    let stages = parse_query(Some("abcdefghijk kira abcdefghij"), &fields);
    assert_eq!(stage(&stages[0]).groups[0].tokens, texts(&["kira", "abcdefghij"]));
    assert!(parse_query(Some("abcdefghijk"), &fields).is_empty());
}

#[test]
fn the_distribution_query_is_the_exact_stage() {
    let fields = [3, 4];
    let query = distribution_query(Some("Kira Music"), &fields);
    let exact = stage(&query);
    assert_eq!(exact.distance, 0);
    assert_eq!(exact.groups.len(), 2);
    assert_eq!(exact.groups[0].tokens, texts(&["kira", "music"]));
    assert_eq!(exact.groups[1].boost_tenths, 9);
}

#[test]
fn a_stage_is_built_from_what_is_left_and_the_stream_is_set_back() {
    let fields = [7];
    let mut stream = SimpleTokenStream::from_tokens(texts(&["skip", "kira", "ab"]));
    assert_eq!(stream.next(), Some("skip".to_string()));
    let built = build_fuzzy_stage(1, 3, &fields, &mut stream).unwrap();
    assert_eq!(built.distance, 1);
    assert_eq!(built.groups[0].tokens, texts(&["kira"]));
    assert_eq!(stream.remaining(), 3);
    assert_eq!(stream.next(), Some("skip".to_string()));
}

#[test]
fn no_stage_without_fields_or_tokens() {
    let mut stream = SimpleTokenStream::from_tokens(texts(&["kira"]));
    assert!(build_fuzzy_stage(0, 0, &[], &mut stream).is_none());
    assert!(build_fuzzy_stage(1, 5, &[1], &mut stream).is_none());
    let mut empty = SimpleTokenStream::from_tokens(Vec::new());
    assert!(build_fuzzy_stage(0, 0, &[1], &mut empty).is_none());
    assert!(plan_stages(&[1], &mut empty).is_empty());
    assert!(matches!(plan_distribution(&[1], &mut empty), BaseQuery::All));
}

#[test]
fn stages_are_planned_from_given_tokens() {
    let mut stream = SimpleTokenStream::from_tokens(texts(&["abcd", "x"]));
    let stages = plan_stages(&[1, 2], &mut stream);
    assert_eq!(stages.len(), 2);
    assert_eq!(stage(&stages[0]).groups[1].tokens, texts(&["abcd", "x"]));
    assert_eq!(stage(&stages[1]).groups[1].tokens, texts(&["abcd"]));
    assert_eq!(stream.remaining(), 2);
    let distribution = plan_distribution(&[1, 2], &mut stream);
    assert_eq!(stage(&distribution).groups[0].tokens, texts(&["abcd", "x"]));
}
