//! The bot index: its shape, and the operations that keep it in step with
//! the row store.

use crate::models::bots::{document_of, live_after, live_of_rows, tags_entries, Bot, BotView};
use crate::search::document::{first_i64_of, FieldEntry, FieldValue};
use crate::search::index::{
    aggregation_field, declare_aggregation, declare_number, declare_text, number_field,
    schema_view, text_field, FieldKind, FieldSpec, FieldSpecView, IdTerm,
};
use crate::search::index_impls::{
    all_keyed, change_in_order, change_ops, changes_ops, copies, copies_after, keyed,
    lemma_changes_keep_step, lemma_clear_forgets, lemma_one_each_counts, Change, IndexError,
};
use crate::search::readers::bots::{FieldContext, InnerReader};
use crate::search::index::holds_term;
use crate::search::writer::{
    arrivals_then_timeout, docs_after_all, index_along, lemma_accepted_operations_are_committed,
    op_views, IndexModel, WriterOp, WriterOpView, WriterState,
};
use vstd::prelude::*;

verus! {

/// The name of the id field.
pub const ID_FIELD: &'static str = "id";

/// The name of the field of the feature bits.
pub const FEATURES_FIELD: &'static str = "features";

/// The name of the field of the premium flag.
pub const PREMIUM_FIELD: &'static str = "premium";

/// The name of the username field.
pub const USERNAME_FIELD: &'static str = "username";

/// The name of the description field.
pub const DESCRIPTION_FIELD: &'static str = "brief_description";

/// The name of the text field of the tags.
pub const TAGS_FIELD: &'static str = "tags";

/// The name of the aggregation field of the tags.
pub const TAGS_AGG_FIELD: &'static str = "tags_agg";

/// The numeric ids of the fields of the bot index.
#[derive(Debug, Copy, Clone)]
pub struct BotFields {
    pub id: u32,
    pub features: u32,
    pub premium: u32,
    pub username: u32,
    pub description: u32,
    pub tags: u32,
    pub tags_agg: u32,
}

/// The ids that the declared shape gives to the fields: each field's place
/// in the shape.
pub open spec fn declared_fields() -> BotFields {
    BotFields { id: 0, features: 1, premium: 2, username: 3, description: 4, tags: 5, tags_agg: 6 }
}

/// The declared shape of the bot index.
pub open spec fn declared_schema() -> Seq<FieldSpecView> {
    seq![
        number_field(ID_FIELD@, FieldKind::I64, true),
        number_field(FEATURES_FIELD@, FieldKind::U64, false),
        number_field(PREMIUM_FIELD@, FieldKind::U64, false),
        text_field(USERNAME_FIELD@, false),
        text_field(DESCRIPTION_FIELD@, false),
        text_field(TAGS_FIELD@, true),
        aggregation_field(TAGS_AGG_FIELD@),
    ]
}

/// The shape of the bot index: the id, stored; the feature bits and the
/// premium flag; the three text fields; the tag aggregation field.
pub fn default_schema() -> (fields: Vec<FieldSpec>)
    ensures
        schema_view(fields@) == declared_schema(),
{
    let mut fields: Vec<FieldSpec> = Vec::new();
    fields.push(declare_number(ID_FIELD, FieldKind::I64, true));
    fields.push(declare_number(FEATURES_FIELD, FieldKind::U64, false));
    fields.push(declare_number(PREMIUM_FIELD, FieldKind::U64, false));
    fields.push(declare_text(USERNAME_FIELD, false));
    fields.push(declare_text(DESCRIPTION_FIELD, false));
    fields.push(declare_text(TAGS_FIELD, true));
    fields.push(declare_aggregation(TAGS_AGG_FIELD));
    assert(schema_view(fields@) =~= declared_schema());
    fields
}

/// The bot index as the glue sees it: the ids of its fields.
#[derive(Debug, Copy, Clone)]
pub struct BotIndex {
    schema: BotFields,
}

/// The operations of an upsert: the removal of what the index holds under
/// the row's id, then, unless the row is withheld, the row's document.
pub open spec fn upsert_ops(fields: BotFields, bot: BotView) -> Seq<WriterOpView> {
    let removal = WriterOpView::RemoveDocuments(IdTerm { field: fields.id, id: bot.id });
    if bot.withheld() {
        seq![removal]
    } else {
        seq![removal, WriterOpView::AddDocument(document_of(bot, fields))]
    }
}

/// The operations that bring the rows of a bulk scan into the index, one
/// upsert after the other.
pub open spec fn rows_ops(fields: BotFields, rows: Seq<Bot>) -> Seq<WriterOpView>
    decreases rows.len(),
{
    if rows.len() == 0 {
        Seq::empty()
    } else {
        rows_ops(fields, rows.drop_last()) + upsert_ops(fields, rows.last()@)
    }
}

/// The operations of a full refresh: everything is removed, then the rows
/// are brought in.
pub open spec fn refresh_ops(fields: BotFields, rows: Seq<Bot>) -> Seq<WriterOpView> {
    seq![WriterOpView::ClearAll] + rows_ops(fields, rows)
}

impl BotIndex {
    /// The ids of the index's fields.
    pub closed spec fn fields(self) -> BotFields {
        self.schema
    }

    /// The index of the declared shape, with the reader over it: the
    /// reader searches the username, the description and the tags, in
    /// that order.
    pub fn create() -> (made: (BotIndex, InnerReader))
        ensures
            made.0.fields() == declared_fields(),
            made.1.ctx() == (FieldContext {
                id_field: declared_fields().id,
                premium_field: declared_fields().premium,
                tags_agg_field: declared_fields().tags_agg,
                features_field: declared_fields().features,
            }),
            made.1.search_fields() == seq![
                declared_fields().username,
                declared_fields().description,
                declared_fields().tags,
            ],
    {
        let schema = BotFields {
            id: 0,
            features: 1,
            premium: 2,
            username: 3,
            description: 4,
            tags: 5,
            tags_agg: 6,
        };
        let ctx = FieldContext {
            id_field: schema.id,
            premium_field: schema.premium,
            tags_agg_field: schema.tags_agg,
            features_field: schema.features,
        };
        let mut search_fields: Vec<u32> = Vec::new();
        search_fields.push(schema.username);
        search_fields.push(schema.description);
        search_fields.push(schema.tags);
        assert(search_fields@ =~= seq![schema.username, schema.description, schema.tags]);
        (BotIndex { schema }, InnerReader::new(ctx, search_fields))
    }

    /// The ids of the index's fields.
    pub fn schema(&self) -> (fields: BotFields)
        ensures
            fields == self.fields(),
    {
        self.schema
    }

    /// The operation that removes a bot from the index.
    pub fn remove_bot(&self, bot_id: i64) -> (op: WriterOp)
        ensures
            op@ == WriterOpView::RemoveDocuments(IdTerm { field: self.fields().id, id: bot_id }),
    {
        WriterOp::RemoveDocuments(IdTerm { field: self.schema.id, id: bot_id })
    }

    /// The operations that bring a fetched row into the index. The row
    /// store's answer is handed in: without a row there is nothing to
    /// upsert.
    pub fn upsert_bot(&self, fetched: Option<&Bot>) -> (ops: Result<Vec<WriterOp>, IndexError>)
        ensures
            fetched.is_none() ==> ops == Err::<Vec<WriterOp>, IndexError>(IndexError::NotFound),
            fetched.is_some() ==> ops.is_ok() && op_views(ops.unwrap()@) == upsert_ops(
                self.fields(),
                fetched.unwrap()@,
            ),
    {
        match fetched {
            None => Err(IndexError::NotFound),
            Some(bot) => {
                let mut ops: Vec<WriterOp> = Vec::new();
                self.push_upsert(&mut ops, bot);
                assert(op_views(ops@) =~= upsert_ops(self.fields(), bot@));
                Ok(ops)
            },
        }
    }

    /// Appends the operations of one upsert.
    fn push_upsert(&self, ops: &mut Vec<WriterOp>, bot: &Bot)
        ensures
            op_views(final(ops)@) == op_views(old(ops)@) + upsert_ops(self.fields(), bot@),
    {
        let ghost before = op_views(ops@);
        ops.push(WriterOp::RemoveDocuments(IdTerm { field: self.schema.id, id: bot.id }));
        if !bot.withheld() {
            ops.push(WriterOp::AddDocument(bot.as_tantivy_doc(&self.schema)));
        }
        assert(op_views(ops@) =~= before + upsert_ops(self.fields(), bot@));
    }

    /// The operations of a full refresh from the rows of a bulk scan.
    pub fn full_refresh(&self, rows: &Vec<Bot>) -> (ops: Vec<WriterOp>)
        ensures
            op_views(ops@) == refresh_ops(self.fields(), rows@),
    {
        let mut ops: Vec<WriterOp> = Vec::new();
        ops.push(WriterOp::ClearAll);
        assert(op_views(ops@) =~= seq![WriterOpView::ClearAll] + rows_ops(
            self.fields(),
            rows@.take(0),
        ));
        let mut i: usize = 0;
        while i < rows.len()
            invariant
                i <= rows.len(),
                op_views(ops@) == seq![WriterOpView::ClearAll] + rows_ops(
                    self.fields(),
                    rows@.take(i as int),
                ),
            decreases rows.len() - i,
        {
            proof {
                assert(rows@.take(i + 1).drop_last() == rows@.take(i as int));
            }
            self.push_upsert(&mut ops, &rows[i]);
            i += 1;
        }
        proof {
            assert(rows@.take(rows.len() as int) == rows@);
        }
        ops
    }
}

/// A write operation on a bot, with what the row store gave for it.
pub enum BotChange {
    /// An upsert, with the row that was fetched.
    Upsert(Bot),
    /// A removal of the id.
    Remove(i64),
}

/// What a write operation does to the index.
pub open spec fn index_change(fields: BotFields, change: BotChange) -> Change {
    match change {
        BotChange::Upsert(bot) => Change::Put {
            id: bot.id,
            doc: document_of(bot@, fields),
            shown: !bot@.withheld(),
        },
        BotChange::Remove(id) => Change::Remove { id },
    }
}

/// What a run of write operations does to the index.
pub open spec fn index_changes(fields: BotFields, changes: Seq<BotChange>) -> Seq<Change> {
    Seq::new(changes.len(), |i: int| index_change(fields, changes[i]))
}

/// The live cache after a write operation.
pub open spec fn live_after_change(live: Map<i64, Bot>, change: BotChange) -> Map<i64, Bot> {
    match change {
        BotChange::Upsert(bot) => live_after(live, bot),
        BotChange::Remove(id) => live.remove(id),
    }
}

/// The live cache after a run of write operations.
pub open spec fn live_after_changes(live: Map<i64, Bot>, changes: Seq<BotChange>) -> Map<i64, Bot>
    decreases changes.len(),
{
    if changes.len() == 0 {
        live
    } else {
        live_after_change(live_after_changes(live, changes.drop_last()), changes.last())
    }
}

/// Whether a bot is on show after a run of write operations: the last
/// operation on its id decides. It is on show after an upsert of a row
/// that is not withheld, and not after an upsert of a withheld row or a
/// removal; without an operation on its id it is on show if it was before.
pub open spec fn shown_after(changes: Seq<BotChange>, id: i64, initially: bool) -> bool
    decreases changes.len(),
{
    if changes.len() == 0 {
        initially
    } else {
        match changes.last() {
            BotChange::Upsert(bot) if bot.id == id => !bot@.withheld(),
            BotChange::Remove(removed) if removed == id => false,
            _ => shown_after(changes.drop_last(), id, initially),
        }
    }
}

/// The entries of a run of tags are texts.
pub proof fn lemma_tags_are_texts(tags: Seq<Seq<char>>, fields: BotFields, i: int)
    requires
        0 <= i < tags_entries(tags, fields).len(),
    ensures
        tags_entries(tags, fields)[i].value is Text,
    decreases tags.len(),
{
    if tags.len() > 0 {
        let before = tags_entries(tags.drop_last(), fields);
        if i < before.len() {
            lemma_tags_are_texts(tags.drop_last(), fields, i);
        }
    }
}

/// The document of a bot is keyed by the bot's id: it holds that id under
/// the id field, first, and no other.
pub proof fn lemma_document_keyed(bot: BotView, fields: BotFields)
    ensures
        keyed(document_of(bot, fields), fields.id),
        first_i64_of(document_of(bot, fields), fields.id) == Some(bot.id),
{
    let doc = document_of(bot, fields);
    let tail = tags_entries(bot.tags, fields);
    assert(doc[0] == FieldEntry { field: fields.id, value: FieldValue::I64(bot.id) });
    assert forall|id: i64| #[trigger]
        holds_term(doc, IdTerm { field: fields.id, id }) <==> first_i64_of(
            doc,
            fields.id,
        ) == Some(id) by {
        let entry = FieldEntry { field: fields.id, value: FieldValue::I64(id) };
        if doc.contains(entry) {
            let i = choose|i: int| 0 <= i < doc.len() && doc[i] == entry;
            if i >= 5 {
                assert(doc[i] == tail[i - 5]);
                lemma_tags_are_texts(bot.tags, fields, i - 5);
            }
        }
        if id == bot.id {
            assert(doc[0] == entry);
        }
    }
}

/// The operations of an upsert are those of the change it makes.
pub proof fn lemma_upsert_is_change(fields: BotFields, bot: Bot)
    ensures
        upsert_ops(fields, bot@) == change_ops(fields.id, index_change(fields, BotChange::Upsert(bot))),
        change_in_order(fields.id, index_change(fields, BotChange::Upsert(bot))),
{
    lemma_document_keyed(bot@, fields);
    assert(upsert_ops(fields, bot@) =~= change_ops(
        fields.id,
        index_change(fields, BotChange::Upsert(bot)),
    ));
}

/// The live cache follows the index: after a run of write operations a bot
/// is on show exactly when the operations leave one document under its id.
pub proof fn lemma_live_follows(
    fields: BotFields,
    live: Map<i64, Bot>,
    changes: Seq<BotChange>,
    id: i64,
)
    ensures
        live_after_changes(live, changes).contains_key(id) == shown_after(
            changes,
            id,
            live.contains_key(id),
        ),
        copies_after(
            index_changes(fields, changes),
            id,
            if live.contains_key(id) {
                1
            } else {
                0
            },
        ) == (if shown_after(changes, id, live.contains_key(id)) {
            1nat
        } else {
            0nat
        }),
    decreases changes.len(),
{
    if changes.len() > 0 {
        lemma_live_follows(fields, live, changes.drop_last(), id);
        assert(index_changes(fields, changes).drop_last() == index_changes(
            fields,
            changes.drop_last(),
        ));
        assert(index_changes(fields, changes).last() == index_change(fields, changes.last()));
    }
}

/// After any run of upserts and removals, applied in order to an index and
/// a live cache that were in step, the two are in step again, and the last
/// operation on an id decides: the index holds one document under the id
/// and the bot is on show if that operation was an upsert of a row that is
/// not withheld; else the index holds none and the bot is not on show.
pub proof fn lemma_last_operation_decides(
    fields: BotFields,
    docs: Seq<Seq<FieldEntry>>,
    live: Map<i64, Bot>,
    changes: Seq<BotChange>,
    id: i64,
)
    requires
        all_keyed(docs, fields.id),
        copies(docs, fields.id, id) == (if live.contains_key(id) {
            1nat
        } else {
            0nat
        }),
    ensures
        live_after_changes(live, changes).contains_key(id) == shown_after(
            changes,
            id,
            live.contains_key(id),
        ),
        copies(
            docs_after_all(docs, changes_ops(fields.id, index_changes(fields, changes))),
            fields.id,
            id,
        ) == (if shown_after(changes, id, live.contains_key(id)) {
            1nat
        } else {
            0nat
        }),
        all_keyed(
            docs_after_all(docs, changes_ops(fields.id, index_changes(fields, changes))),
            fields.id,
        ),
{
    let steps = index_changes(fields, changes);
    assert forall|i: int| 0 <= i < steps.len() implies change_in_order(
        fields.id,
        #[trigger] steps[i],
    ) by {
        match changes[i] {
            BotChange::Upsert(bot) => {
                lemma_upsert_is_change(fields, bot);
            },
            BotChange::Remove(_) => {},
        }
    }
    lemma_changes_keep_step(fields.id, docs, steps, id);
    lemma_live_follows(fields, live, changes, id);
}

/// The upserts that the rows of a bulk scan stand for.
pub open spec fn upserts_of(rows: Seq<Bot>) -> Seq<BotChange> {
    Seq::new(rows.len(), |i: int| BotChange::Upsert(rows[i]))
}

/// Bringing the rows of a bulk scan in is upserting them one by one, in
/// the index and in the live cache.
pub proof fn lemma_rows_are_upserts(fields: BotFields, rows: Seq<Bot>)
    ensures
        rows_ops(fields, rows) == changes_ops(fields.id, index_changes(fields, upserts_of(rows))),
        live_of_rows(rows) == live_after_changes(Map::empty(), upserts_of(rows)),
    decreases rows.len(),
{
    let changes = upserts_of(rows);
    if rows.len() > 0 {
        lemma_rows_are_upserts(fields, rows.drop_last());
        lemma_upsert_is_change(fields, rows.last());
        assert(changes.drop_last() == upserts_of(rows.drop_last()));
        assert(index_changes(fields, changes).drop_last() == index_changes(
            fields,
            changes.drop_last(),
        ));
        assert(index_changes(fields, changes).last() == index_change(fields, changes.last()));
    } else {
        assert(index_changes(fields, changes) =~= Seq::<Change>::empty());
    }
}

/// After a full refresh the index and the live cache are in step, whatever
/// the index held before: the index holds one document under the id of
/// each bot that is on show, and none under any other id.
pub proof fn lemma_refresh_in_step(
    fields: BotFields,
    docs: Seq<Seq<FieldEntry>>,
    rows: Seq<Bot>,
    id: i64,
)
    ensures
        copies(docs_after_all(docs, refresh_ops(fields, rows)), fields.id, id) == (if live_of_rows(
            rows,
        ).contains_key(id) {
            1nat
        } else {
            0nat
        }),
        all_keyed(docs_after_all(docs, refresh_ops(fields, rows)), fields.id),
{
    lemma_clear_forgets(docs, rows_ops(fields, rows));
    lemma_rows_are_upserts(fields, rows);
    let empty = Seq::<Seq<FieldEntry>>::empty();
    assert(copies(empty, fields.id, id) == 0) by {
        reveal(Seq::filter);
    }
    lemma_last_operation_decides(fields, empty, Map::empty(), upserts_of(rows), id);
}

/// A full refresh is idempotent: run twice on the same rows, the second
/// run leaves the index as the first left it.
pub proof fn lemma_refresh_is_idempotent(
    fields: BotFields,
    docs: Seq<Seq<FieldEntry>>,
    rows: Seq<Bot>,
)
    ensures
        docs_after_all(
            docs_after_all(docs, refresh_ops(fields, rows)),
            refresh_ops(fields, rows),
        ) == docs_after_all(docs, refresh_ops(fields, rows)),
{
    lemma_clear_forgets(docs, rows_ops(fields, rows));
    lemma_clear_forgets(docs_after_all(docs, refresh_ops(fields, rows)), rows_ops(fields, rows));
}

/// A bulk scan puts finitely many bots on show.
pub proof fn lemma_live_of_rows_finite(rows: Seq<Bot>)
    ensures
        live_of_rows(rows).dom().finite(),
    decreases rows.len(),
{
    if rows.len() > 0 {
        lemma_live_of_rows_finite(rows.drop_last());
    }
}

/// After a full refresh the index holds as many documents as there are
/// bots on show, whatever it held before.
pub proof fn lemma_refresh_counts(fields: BotFields, docs: Seq<Seq<FieldEntry>>, rows: Seq<Bot>)
    ensures
        docs_after_all(docs, refresh_ops(fields, rows)).len() == live_of_rows(rows).len(),
{
    let fresh = docs_after_all(docs, refresh_ops(fields, rows));
    let shown = live_of_rows(rows).dom();
    lemma_live_of_rows_finite(rows);
    assert forall|id: i64|
        #[trigger] copies(fresh, fields.id, id) == (if shown.contains(id) {
            1nat
        } else {
            0nat
        }) by {
        lemma_refresh_in_step(fields, docs, rows, id);
    }
    lemma_refresh_in_step(fields, docs, rows, 0);
    lemma_one_each_counts(fresh, fields.id, shown);
}

/// After the commit that follows any run of upserts and removals, a search
/// can find a bot exactly when the last operation on its id was an upsert
/// of a row that is not withheld: then the readers see one document under
/// the id and the bot is on show; else they see none and it is not on show.
pub proof fn lemma_commit_shows_last_operation(
    fields: BotFields,
    index: IndexModel,
    live: Map<i64, Bot>,
    changes: Seq<BotChange>,
    id: i64,
)
    requires
        index.committed == index.pending,
        all_keyed(index.committed, fields.id),
        copies(index.committed, fields.id, id) == (if live.contains_key(id) {
            1nat
        } else {
            0nat
        }),
    ensures
        live_after_changes(live, changes).contains_key(id) == shown_after(
            changes,
            id,
            live.contains_key(id),
        ),
        copies(
            index_along(
                WriterState::Idle,
                index,
                arrivals_then_timeout(changes_ops(fields.id, index_changes(fields, changes))),
            ).committed,
            fields.id,
            id,
        ) == (if shown_after(changes, id, live.contains_key(id)) {
            1nat
        } else {
            0nat
        }),
{
    lemma_accepted_operations_are_committed(
        index,
        changes_ops(fields.id, index_changes(fields, changes)),
    );
    lemma_last_operation_decides(fields, index.committed, live, changes, id);
}

} // verus!
