//! The pack index: its shape, and the operations that keep it in step with
//! the row store.

use crate::models::packs::{document_of, live_after, live_of_rows, Pack, PackView};
use crate::search::document::{first_i64_of, FieldEntry, FieldValue};
use crate::search::index::{
    aggregation_field, declare_aggregation, declare_number, declare_text, number_field,
    schema_view, text_field, FieldKind, FieldSpec, FieldSpecView, IdTerm,
};
use crate::search::index_impls::{
    all_keyed, change_in_order, change_ops, changes_ops, copies, copies_after, keyed,
    lemma_changes_keep_step, lemma_clear_forgets, lemma_one_each_counts, Change, IndexError,
};
use crate::search::readers::packs::{FieldContext, InnerReader};
use crate::search::index::holds_term;
use crate::search::writer::{
    arrivals_then_timeout, docs_after_all, index_along, lemma_accepted_operations_are_committed,
    op_views, IndexModel, WriterOp, WriterOpView, WriterState,
};
use vstd::prelude::*;

verus! {

/// The name of the id field.
pub const ID_FIELD: &'static str = "id";

/// The name of the name field.
pub const NAME_FIELD: &'static str = "name";

/// The name of the description field.
pub const DESCRIPTION_FIELD: &'static str = "description";

/// The name of the text field of the tag.
pub const TAG_FIELD: &'static str = "tag";

/// The name of the aggregation field of the tag.
pub const TAG_AGG_FIELD: &'static str = "tag_agg";

/// The numeric ids of the fields of the pack index.
#[derive(Debug, Copy, Clone)]
pub struct PackFields {
    pub id: u32,
    pub name: u32,
    pub description: u32,
    pub tag: u32,
    pub tag_agg: u32,
}

/// The ids that the declared shape gives to the fields: each field's place
/// in the shape.
pub open spec fn declared_fields() -> PackFields {
    PackFields { id: 0, name: 1, description: 2, tag: 3, tag_agg: 4 }
}

/// The declared shape of the pack index.
pub open spec fn declared_schema() -> Seq<FieldSpecView> {
    seq![
        number_field(ID_FIELD@, FieldKind::I64, true),
        text_field(NAME_FIELD@, false),
        text_field(DESCRIPTION_FIELD@, false),
        text_field(TAG_FIELD@, true),
        aggregation_field(TAG_AGG_FIELD@),
    ]
}

/// The shape of the pack index: the id, stored; the three text fields;
/// the tag aggregation field.
pub fn default_schema() -> (fields: Vec<FieldSpec>)
    ensures
        schema_view(fields@) == declared_schema(),
{
    let mut fields: Vec<FieldSpec> = Vec::new();
    fields.push(declare_number(ID_FIELD, FieldKind::I64, true));
    fields.push(declare_text(NAME_FIELD, false));
    fields.push(declare_text(DESCRIPTION_FIELD, false));
    fields.push(declare_text(TAG_FIELD, true));
    fields.push(declare_aggregation(TAG_AGG_FIELD));
    assert(schema_view(fields@) =~= declared_schema());
    fields
}

/// The pack index as the glue sees it: the ids of its fields.
#[derive(Debug, Copy, Clone)]
pub struct PackIndex {
    schema: PackFields,
}

/// The operations of an upsert: the removal of what the index holds under
/// the row's id, then, unless the row is withheld, the row's document.
pub open spec fn upsert_ops(fields: PackFields, pack: PackView) -> Seq<WriterOpView> {
    let removal = WriterOpView::RemoveDocuments(IdTerm { field: fields.id, id: pack.id });
    if pack.withheld() {
        seq![removal]
    } else {
        seq![removal, WriterOpView::AddDocument(document_of(pack, fields))]
    }
}

/// The operations that bring the rows of a bulk scan into the index, one
/// upsert after the other.
pub open spec fn rows_ops(fields: PackFields, rows: Seq<Pack>) -> Seq<WriterOpView>
    decreases rows.len(),
{
    if rows.len() == 0 {
        Seq::empty()
    } else {
        rows_ops(fields, rows.drop_last()) + upsert_ops(fields, rows.last()@)
    }
}

/// The operations of a full refresh: everything is removed, then the rows
/// are brought in.
pub open spec fn refresh_ops(fields: PackFields, rows: Seq<Pack>) -> Seq<WriterOpView> {
    seq![WriterOpView::ClearAll] + rows_ops(fields, rows)
}

impl PackIndex {
    /// The ids of the index's fields.
    pub closed spec fn fields(self) -> PackFields {
        self.schema
    }

    /// The index of the declared shape, with the reader over it: the
    /// reader searches the name, the description and the tag, in that
    /// order.
    pub fn create() -> (made: (PackIndex, InnerReader))
        ensures
            made.0.fields() == declared_fields(),
            made.1.ctx() == (FieldContext {
                id_field: declared_fields().id,
                tag_agg_field: declared_fields().tag_agg,
            }),
            made.1.search_fields() == seq![
                declared_fields().name,
                declared_fields().description,
                declared_fields().tag,
            ],
    {
        let schema = PackFields { id: 0, name: 1, description: 2, tag: 3, tag_agg: 4 };
        let ctx = FieldContext { id_field: schema.id, tag_agg_field: schema.tag_agg };
        let mut search_fields: Vec<u32> = Vec::new();
        search_fields.push(schema.name);
        search_fields.push(schema.description);
        search_fields.push(schema.tag);
        assert(search_fields@ =~= seq![schema.name, schema.description, schema.tag]);
        (PackIndex { schema }, InnerReader::new(ctx, search_fields))
    }

    /// The ids of the index's fields.
    pub fn schema(&self) -> (fields: PackFields)
        ensures
            fields == self.fields(),
    {
        self.schema
    }

    /// The operation that removes a pack from the index.
    pub fn remove_pack(&self, pack_id: i64) -> (op: WriterOp)
        ensures
            op@ == WriterOpView::RemoveDocuments(IdTerm { field: self.fields().id, id: pack_id }),
    {
        WriterOp::RemoveDocuments(IdTerm { field: self.schema.id, id: pack_id })
    }

    /// The operations that bring a fetched row into the index. The row
    /// store's answer is handed in: without a row there is nothing to
    /// upsert.
    pub fn upsert_pack(&self, fetched: Option<&Pack>) -> (ops: Result<Vec<WriterOp>, IndexError>)
        ensures
            fetched.is_none() ==> ops == Err::<Vec<WriterOp>, IndexError>(IndexError::NotFound),
            fetched.is_some() ==> ops.is_ok() && op_views(ops.unwrap()@) == upsert_ops(
                self.fields(),
                fetched.unwrap()@,
            ),
    {
        match fetched {
            None => Err(IndexError::NotFound),
            Some(pack) => {
                let mut ops: Vec<WriterOp> = Vec::new();
                self.push_upsert(&mut ops, pack);
                assert(op_views(ops@) =~= upsert_ops(self.fields(), pack@));
                Ok(ops)
            },
        }
    }

    /// Appends the operations of one upsert.
    fn push_upsert(&self, ops: &mut Vec<WriterOp>, pack: &Pack)
        ensures
            op_views(final(ops)@) == op_views(old(ops)@) + upsert_ops(self.fields(), pack@),
    {
        let ghost before = op_views(ops@);
        ops.push(WriterOp::RemoveDocuments(IdTerm { field: self.schema.id, id: pack.id }));
        if !pack.withheld() {
            ops.push(WriterOp::AddDocument(pack.as_tantivy_doc(&self.schema)));
        }
        assert(op_views(ops@) =~= before + upsert_ops(self.fields(), pack@));
    }

    /// The operations of a full refresh from the rows of a bulk scan.
    pub fn full_refresh(&self, rows: &Vec<Pack>) -> (ops: Vec<WriterOp>)
        ensures
            op_views(ops@) == refresh_ops(self.fields(), rows@),
    {
        let mut ops: Vec<WriterOp> = Vec::new();
        ops.push(WriterOp::ClearAll);
        assert(op_views(ops@) =~= seq![WriterOpView::ClearAll] + rows_ops(
            self.fields(),
            rows@.take(0),
        ));
        let mut i: usize = 0;
        while i < rows.len()
            invariant
                i <= rows.len(),
                op_views(ops@) == seq![WriterOpView::ClearAll] + rows_ops(
                    self.fields(),
                    rows@.take(i as int),
                ),
            decreases rows.len() - i,
        {
            proof {
                assert(rows@.take(i + 1).drop_last() == rows@.take(i as int));
            }
            self.push_upsert(&mut ops, &rows[i]);
            i += 1;
        }
        proof {
            assert(rows@.take(rows.len() as int) == rows@);
        }
        ops
    }
}

/// A write operation on a pack, with what the row store gave for it.
pub enum PackChange {
    /// An upsert, with the row that was fetched.
    Upsert(Pack),
    /// A removal of the id.
    Remove(i64),
}

/// What a write operation does to the index.
pub open spec fn index_change(fields: PackFields, change: PackChange) -> Change {
    match change {
        PackChange::Upsert(pack) => Change::Put {
            id: pack.id,
            doc: document_of(pack@, fields),
            shown: !pack@.withheld(),
        },
        PackChange::Remove(id) => Change::Remove { id },
    }
}

/// What a run of write operations does to the index.
pub open spec fn index_changes(fields: PackFields, changes: Seq<PackChange>) -> Seq<Change> {
    Seq::new(changes.len(), |i: int| index_change(fields, changes[i]))
}

/// The live cache after a write operation.
pub open spec fn live_after_change(live: Map<i64, Pack>, change: PackChange) -> Map<i64, Pack> {
    match change {
        PackChange::Upsert(pack) => live_after(live, pack),
        PackChange::Remove(id) => live.remove(id),
    }
}

/// The live cache after a run of write operations.
pub open spec fn live_after_changes(live: Map<i64, Pack>, changes: Seq<PackChange>) -> Map<
    i64,
    Pack,
>
    decreases changes.len(),
{
    if changes.len() == 0 {
        live
    } else {
        live_after_change(live_after_changes(live, changes.drop_last()), changes.last())
    }
}

/// Whether a pack is on show after a run of write operations: the last
/// operation on its id decides. It is on show after an upsert of a row
/// that is not withheld, and not after an upsert of a withheld row or a
/// removal; without an operation on its id it is on show if it was before.
pub open spec fn shown_after(changes: Seq<PackChange>, id: i64, initially: bool) -> bool
    decreases changes.len(),
{
    if changes.len() == 0 {
        initially
    } else {
        match changes.last() {
            PackChange::Upsert(pack) if pack.id == id => !pack@.withheld(),
            PackChange::Remove(removed) if removed == id => false,
            _ => shown_after(changes.drop_last(), id, initially),
        }
    }
}

/// The document of a pack is keyed by the pack's id: it holds that id
/// under the id field, first, and no other.
pub proof fn lemma_document_keyed(pack: PackView, fields: PackFields)
    ensures
        keyed(document_of(pack, fields), fields.id),
        first_i64_of(document_of(pack, fields), fields.id) == Some(pack.id),
{
    let doc = document_of(pack, fields);
    assert(doc[0] == FieldEntry { field: fields.id, value: FieldValue::I64(pack.id) });
    assert forall|id: i64| #[trigger]
        holds_term(doc, IdTerm { field: fields.id, id }) <==> first_i64_of(doc, fields.id) == Some(
            id,
        ) by {
        let entry = FieldEntry { field: fields.id, value: FieldValue::I64(id) };
        if id == pack.id {
            assert(doc[0] == entry);
        }
    }
}

/// The operations of an upsert are those of the change it makes.
pub proof fn lemma_upsert_is_change(fields: PackFields, pack: Pack)
    ensures
        upsert_ops(fields, pack@) == change_ops(
            fields.id,
            index_change(fields, PackChange::Upsert(pack)),
        ),
        change_in_order(fields.id, index_change(fields, PackChange::Upsert(pack))),
{
    lemma_document_keyed(pack@, fields);
    assert(upsert_ops(fields, pack@) =~= change_ops(
        fields.id,
        index_change(fields, PackChange::Upsert(pack)),
    ));
}

/// The live cache follows the index: after a run of write operations a
/// pack is on show exactly when the operations leave one document under
/// its id.
pub proof fn lemma_live_follows(
    fields: PackFields,
    live: Map<i64, Pack>,
    changes: Seq<PackChange>,
    id: i64,
)
    ensures
        live_after_changes(live, changes).contains_key(id) == shown_after(
            changes,
            id,
            live.contains_key(id),
        ),
        copies_after(
            index_changes(fields, changes),
            id,
            if live.contains_key(id) {
                1
            } else {
                0
            },
        ) == (if shown_after(changes, id, live.contains_key(id)) {
            1nat
        } else {
            0nat
        }),
    decreases changes.len(),
{
    if changes.len() > 0 {
        lemma_live_follows(fields, live, changes.drop_last(), id);
        assert(index_changes(fields, changes).drop_last() == index_changes(
            fields,
            changes.drop_last(),
        ));
        assert(index_changes(fields, changes).last() == index_change(fields, changes.last()));
    }
}

/// After any run of upserts and removals, applied in order to an index and
/// a live cache that were in step, the two are in step again, and the last
/// operation on an id decides: the index holds one document under the id
/// and the pack is on show if that operation was an upsert of a row that
/// is not withheld; else the index holds none and the pack is not on show.
pub proof fn lemma_last_operation_decides(
    fields: PackFields,
    docs: Seq<Seq<FieldEntry>>,
    live: Map<i64, Pack>,
    changes: Seq<PackChange>,
    id: i64,
)
    requires
        all_keyed(docs, fields.id),
        copies(docs, fields.id, id) == (if live.contains_key(id) {
            1nat
        } else {
            0nat
        }),
    ensures
        live_after_changes(live, changes).contains_key(id) == shown_after(
            changes,
            id,
            live.contains_key(id),
        ),
        copies(
            docs_after_all(docs, changes_ops(fields.id, index_changes(fields, changes))),
            fields.id,
            id,
        ) == (if shown_after(changes, id, live.contains_key(id)) {
            1nat
        } else {
            0nat
        }),
        all_keyed(
            docs_after_all(docs, changes_ops(fields.id, index_changes(fields, changes))),
            fields.id,
        ),
{
    let steps = index_changes(fields, changes);
    assert forall|i: int| 0 <= i < steps.len() implies change_in_order(
        fields.id,
        #[trigger] steps[i],
    ) by {
        match changes[i] {
            PackChange::Upsert(pack) => {
                lemma_upsert_is_change(fields, pack);
            },
            PackChange::Remove(_) => {},
        }
    }
    lemma_changes_keep_step(fields.id, docs, steps, id);
    lemma_live_follows(fields, live, changes, id);
}

/// The upserts that the rows of a bulk scan stand for.
pub open spec fn upserts_of(rows: Seq<Pack>) -> Seq<PackChange> {
    Seq::new(rows.len(), |i: int| PackChange::Upsert(rows[i]))
}

/// Bringing the rows of a bulk scan in is upserting them one by one, in
/// the index and in the live cache.
pub proof fn lemma_rows_are_upserts(fields: PackFields, rows: Seq<Pack>)
    ensures
        rows_ops(fields, rows) == changes_ops(fields.id, index_changes(fields, upserts_of(rows))),
        live_of_rows(rows) == live_after_changes(Map::empty(), upserts_of(rows)),
    decreases rows.len(),
{
    let changes = upserts_of(rows);
    if rows.len() > 0 {
        lemma_rows_are_upserts(fields, rows.drop_last());
        lemma_upsert_is_change(fields, rows.last());
        assert(changes.drop_last() == upserts_of(rows.drop_last()));
        assert(index_changes(fields, changes).drop_last() == index_changes(
            fields,
            changes.drop_last(),
        ));
        assert(index_changes(fields, changes).last() == index_change(fields, changes.last()));
    } else {
        assert(index_changes(fields, changes) =~= Seq::<Change>::empty());
    }
}

/// After a full refresh the index and the live cache are in step, whatever
/// the index held before: the index holds one document under the id of
/// each pack that is on show, and none under any other id.
pub proof fn lemma_refresh_in_step(
    fields: PackFields,
    docs: Seq<Seq<FieldEntry>>,
    rows: Seq<Pack>,
    id: i64,
)
    ensures
        copies(docs_after_all(docs, refresh_ops(fields, rows)), fields.id, id) == (if live_of_rows(
            rows,
        ).contains_key(id) {
            1nat
        } else {
            0nat
        }),
        all_keyed(docs_after_all(docs, refresh_ops(fields, rows)), fields.id),
{
    lemma_clear_forgets(docs, rows_ops(fields, rows));
    lemma_rows_are_upserts(fields, rows);
    let empty = Seq::<Seq<FieldEntry>>::empty();
    assert(copies(empty, fields.id, id) == 0) by {
        reveal(Seq::filter);
    }
    lemma_last_operation_decides(fields, empty, Map::empty(), upserts_of(rows), id);
}

/// A full refresh is idempotent: run twice on the same rows, the second
/// run leaves the index as the first left it.
pub proof fn lemma_refresh_is_idempotent(
    fields: PackFields,
    docs: Seq<Seq<FieldEntry>>,
    rows: Seq<Pack>,
)
    ensures
        docs_after_all(
            docs_after_all(docs, refresh_ops(fields, rows)),
            refresh_ops(fields, rows),
        ) == docs_after_all(docs, refresh_ops(fields, rows)),
{
    lemma_clear_forgets(docs, rows_ops(fields, rows));
    lemma_clear_forgets(docs_after_all(docs, refresh_ops(fields, rows)), rows_ops(fields, rows));
}

/// A bulk scan puts finitely many packs on show.
pub proof fn lemma_live_of_rows_finite(rows: Seq<Pack>)
    ensures
        live_of_rows(rows).dom().finite(),
    decreases rows.len(),
{
    if rows.len() > 0 {
        lemma_live_of_rows_finite(rows.drop_last());
    }
}

/// After a full refresh the index holds as many documents as there are
/// packs on show, whatever it held before.
pub proof fn lemma_refresh_counts(fields: PackFields, docs: Seq<Seq<FieldEntry>>, rows: Seq<Pack>)
    ensures
        docs_after_all(docs, refresh_ops(fields, rows)).len() == live_of_rows(rows).len(),
{
    let fresh = docs_after_all(docs, refresh_ops(fields, rows));
    let shown = live_of_rows(rows).dom();
    lemma_live_of_rows_finite(rows);
    assert forall|id: i64|
        #[trigger] copies(fresh, fields.id, id) == (if shown.contains(id) {
            1nat
        } else {
            0nat
        }) by {
        lemma_refresh_in_step(fields, docs, rows, id);
    }
    lemma_refresh_in_step(fields, docs, rows, 0);
    lemma_one_each_counts(fresh, fields.id, shown);
}

/// After the commit that follows any run of upserts and removals, a search
/// can find a pack exactly when the last operation on its id was an upsert
/// of a row that is not withheld: then the readers see one document under
/// the id and the pack is on show; else they see none and it is not on show.
pub proof fn lemma_commit_shows_last_operation(
    fields: PackFields,
    index: IndexModel,
    live: Map<i64, Pack>,
    changes: Seq<PackChange>,
    id: i64,
)
    requires
        index.committed == index.pending,
        all_keyed(index.committed, fields.id),
        copies(index.committed, fields.id, id) == (if live.contains_key(id) {
            1nat
        } else {
            0nat
        }),
    ensures
        live_after_changes(live, changes).contains_key(id) == shown_after(
            changes,
            id,
            live.contains_key(id),
        ),
        copies(
            index_along(
                WriterState::Idle,
                index,
                arrivals_then_timeout(changes_ops(fields.id, index_changes(fields, changes))),
            ).committed,
            fields.id,
            id,
        ) == (if shown_after(changes, id, live.contains_key(id)) {
            1nat
        } else {
            0nat
        }),
{
    lemma_accepted_operations_are_committed(
        index,
        changes_ops(fields.id, index_changes(fields, changes)),
    );
    lemma_last_operation_decides(fields, index.committed, live, changes, id);
}

} // verus!
