use cronos::models::bots::Bot;
use cronos::models::packs::Pack;
use cronos::search::index::{FieldKind, IdTerm, Tokenizing};
use cronos::search::index_impls::bots::{BotFields, BotIndex};
use cronos::search::index_impls::packs::{PackFields, PackIndex};
use cronos::search::index_impls::IndexError;
use cronos::search::writer::WriterOp;
use tantivy::schema::{Field, Value};
use tantivy::Document;

fn bot(id: i64, username: &str, tags: &[&str], flags: i64, features: i64) -> Bot {
    Bot {
        id,
        username: username.to_string(),
        avatar: None,
        discriminator: 0,
        prefix: None,
        is_packable: true,
        slug: None,
        flags,
        features,
        invite_url: String::new(),
        tags: tags.iter().map(|tag| tag.to_string()).collect(),
        created_on: 0,
        is_hidden: false,
        is_forced_into_hiding: false,
        owner_id: 0,
        co_owner_ids: Vec::new(),
        guild_count: None,
        brief_description: "music bot".to_string(),
    }
}

fn pack(id: i64, name: &str) -> Pack {
    Pack {
        id,
        name: name.to_string(),
        description: "to start with".to_string(),
        created_on: 0,
        tag: "music".to_string(),
        bots: vec![1, 2],
        is_hidden: false,
        is_forced_into_hiding: false,
        owner_id: 0,
        co_owner_ids: Vec::new(),
    }
}

fn entries(document: &Document) -> Vec<(u32, Value)> {
    document
        .field_values()
        .iter()
        .map(|entry| (entry.field().field_id(), entry.value().clone()))
        .collect()
}

fn text(value: &str) -> Value {
    Value::Str(value.to_string())
}

fn describe(op: &WriterOp) -> String {
    match op {
        WriterOp::AddDocument(document) => {
            let id = document.get_first(Field::from_field_id(0)).and_then(|value| value.as_i64());
            format!("add {}", id.unwrap())
        },
        WriterOp::RemoveDocuments(IdTerm { field, id }) => format!("remove {} in {}", id, field),
        WriterOp::ClearAll => "clear".to_string(),
        WriterOp::Ping => "ping".to_string(),
    }
}

fn describe_all(ops: &[WriterOp]) -> Vec<String> {
    ops.iter().map(describe).collect()
}

#[test]
fn the_bot_index_has_seven_fields() {
    let fields = cronos::search::index_impls::bots::default_schema();
    let names: Vec<&str> = fields.iter().map(|field| field.name).collect();
    assert_eq!(
        names,
        vec!["id", "features", "premium", "username", "brief_description", "tags", "tags_agg"]
    );
    assert_eq!(fields[0].kind, FieldKind::I64);
    assert!(fields[0].indexed && fields[0].fast && fields[0].stored);
    assert_eq!(fields[1].kind, FieldKind::U64);
    assert!(fields[1].indexed && fields[1].fast && !fields[1].stored);
    assert_eq!(fields[2].kind, FieldKind::U64);
    assert!(fields[2].indexed && fields[2].fast && !fields[2].stored);
    for place in [3, 4, 5] {
        assert_eq!(fields[place].kind, FieldKind::Text);
        assert_eq!(fields[place].tokenizing, Tokenizing::Words);
        assert!(fields[place].indexed && !fields[place].stored);
    }
    assert!(!fields[3].fast && !fields[4].fast && fields[5].fast);
    assert_eq!(fields[6].kind, FieldKind::Text);
    assert_eq!(fields[6].tokenizing, Tokenizing::Raw);
    assert!(fields[6].indexed && fields[6].fast && !fields[6].stored);
}

#[test]
fn the_pack_index_has_five_fields() {
    let fields = cronos::search::index_impls::packs::default_schema();
    let names: Vec<&str> = fields.iter().map(|field| field.name).collect();
    assert_eq!(names, vec!["id", "name", "description", "tag", "tag_agg"]);
    assert!(fields[0].stored);
    assert!(fields.iter().skip(1).all(|field| !field.stored));
    assert_eq!(fields[3].tokenizing, Tokenizing::Words);
    assert!(fields[3].fast);
    assert_eq!(fields[4].tokenizing, Tokenizing::Raw);
    assert!(fields[4].fast);
}

#[test]
fn the_indexes_know_the_places_of_their_fields() {
    let (index, reader) = BotIndex::create();
    let fields = index.schema();
    assert_eq!(
        (fields.id, fields.features, fields.premium, fields.username),
        (0, 1, 2, 3)
    );
    assert_eq!((fields.description, fields.tags, fields.tags_agg), (4, 5, 6));
    assert_eq!(reader.id_field(), 0);
    let (packs, pack_reader) = PackIndex::create();
    let fields = packs.schema();
    assert_eq!((fields.id, fields.name, fields.description, fields.tag, fields.tag_agg), (0, 1, 2, 3, 4));
    assert_eq!(pack_reader.id_field(), 0);
}

#[test]
fn a_bot_document_holds_the_searchable_part_of_the_row() {
    let (index, _) = BotIndex::create();
    let kira = bot(1, "Kira", &["music", "fun"], 0, 0b0001);
    let document = kira.as_tantivy_doc(&index.schema());
    assert_eq!(
        entries(&document),
        vec![
            (0, Value::I64(1)),
            (2, Value::U64(0)),
            (3, text("Kira")),
            (4, text("music bot")),
            (1, Value::U64(1)),
            (5, text("music")),
            (6, text("music")),
            (5, text("fun")),
            (6, text("fun")),
        ]
    );
}

#[test]
fn a_premium_bot_has_the_flag_one_and_features_are_read_as_unsigned() {
    let fields = BotFields {
        id: 10,
        features: 11,
        premium: 12,
        username: 13,
        description: 14,
        tags: 15,
        tags_agg: 16,
    };
    let kyra = bot(-2, "Kyra", &[], 3, -1);
    let document = kyra.as_tantivy_doc(&fields);
    assert_eq!(
        entries(&document),
        vec![
            (10, Value::I64(-2)),
            (12, Value::U64(1)),
            (13, text("Kyra")),
            (14, text("music bot")),
            (11, Value::U64(u64::MAX)),
        ]
    );
}

#[test]
fn a_pack_document_holds_the_tag_twice() {
    let fields = PackFields { id: 0, name: 1, description: 2, tag: 3, tag_agg: 4 };
    let document = pack(10, "Music Starter").as_tantivy_doc(&fields);
    assert_eq!(
        entries(&document),
        vec![
            (0, Value::I64(10)),
            (1, text("Music Starter")),
            (2, text("to start with")),
            (3, text("music")),
            (4, text("music")),
        ]
    );
}

#[test]
fn a_removal_is_one_operation_on_the_id_field() {
    let (index, _) = BotIndex::create();
    assert_eq!(describe(&index.remove_bot(7)), "remove 7 in 0");
    let (packs, _) = PackIndex::create();
    assert_eq!(describe(&packs.remove_pack(-7)), "remove -7 in 0");
}

#[test]
fn an_upsert_removes_before_it_adds() {
    let (index, _) = BotIndex::create();
    let kira = bot(1, "Kira", &["music"], 0, 0);
    let ops = index.upsert_bot(Some(&kira)).unwrap();
    assert_eq!(describe_all(&ops), vec!["remove 1 in 0", "add 1"]);
    let (packs, _) = PackIndex::create();
    let starter = pack(10, "Music Starter");
    let ops = packs.upsert_pack(Some(&starter)).unwrap();
    assert_eq!(describe_all(&ops), vec!["remove 10 in 0", "add 10"]);
}

#[test]
fn an_upsert_of_a_withheld_row_only_removes() {
    let (index, _) = BotIndex::create();
    let mut hidden = bot(1, "Kira", &["music"], 0, 0);
    hidden.is_hidden = true;
    assert_eq!(describe_all(&index.upsert_bot(Some(&hidden)).unwrap()), vec!["remove 1 in 0"]);
    let mut forced = bot(2, "Kyra", &[], 0, 0);
    forced.is_forced_into_hiding = true;
    assert_eq!(describe_all(&index.upsert_bot(Some(&forced)).unwrap()), vec!["remove 2 in 0"]);
    let (packs, _) = PackIndex::create();
    let mut hidden_pack = pack(10, "Music Starter");
    hidden_pack.is_forced_into_hiding = true;
    assert_eq!(
        describe_all(&packs.upsert_pack(Some(&hidden_pack)).unwrap()),
        vec!["remove 10 in 0"]
    );
}

#[test]
fn an_upsert_without_a_row_is_refused() {
    let (index, _) = BotIndex::create();
    assert!(matches!(index.upsert_bot(None), Err(IndexError::NotFound)));
    let (packs, _) = PackIndex::create();
    assert!(matches!(packs.upsert_pack(None), Err(IndexError::NotFound)));
    assert_eq!(IndexError::NotFound.message(), "The entity does not exist.");
}

#[test]
fn a_full_refresh_clears_and_brings_the_rows_in() {
    let (index, _) = BotIndex::create();
    let mut hidden = bot(2, "Kyra", &[], 0, 0);
    hidden.is_hidden = true;
    let rows = vec![bot(1, "Kira", &[], 0, 0), hidden, bot(3, "Third", &[], 0, 0)];
    assert_eq!(
        describe_all(&index.full_refresh(&rows)),
        vec!["clear", "remove 1 in 0", "add 1", "remove 2 in 0", "remove 3 in 0", "add 3"]
    );
    assert_eq!(describe_all(&index.full_refresh(&Vec::new())), vec!["clear"]);
    let (packs, _) = PackIndex::create();
    assert_eq!(
        describe_all(&packs.full_refresh(&vec![pack(10, "a"), pack(11, "b")])),
        vec!["clear", "remove 10 in 0", "add 10", "remove 11 in 0", "add 11"]
    );
}

#[test]
fn a_full_refresh_run_twice_puts_the_same_operations() {
    let (index, _) = BotIndex::create();
    let rows = vec![bot(1, "Kira", &["music"], 0, 1), bot(2, "Kyra", &["music"], 1, 3)];
    let first = index.full_refresh(&rows);
    let second = index.full_refresh(&rows);
    assert_eq!(describe_all(&first), describe_all(&second));
    for (a, b) in first.iter().zip(second.iter()) {
        if let (WriterOp::AddDocument(a), WriterOp::AddDocument(b)) = (a, b) {
            assert_eq!(entries(a), entries(b));
        }
    }
}
