//! The glue between the entities and their indexes: which operations an
//! upsert, a removal and a full refresh put to the writer, and what they
//! leave in the index.

pub mod bots;
pub mod packs;

use crate::search::document::{first_i64_of, FieldEntry};
use crate::search::index::{holds_term, lacks_term, IdTerm};
use crate::search::writer::{docs_after, docs_after_all, lemma_docs_after_concat, WriterOpView};
use vstd::prelude::*;

verus! {

/// Why an index operation was refused.
#[derive(Debug, Copy, Clone, PartialEq, Eq, Structural)]
pub enum IndexError {
    /// The row store holds no row under the id.
    NotFound,
}

impl IndexError {
    /// The error in words.
    pub fn message(&self) -> (text: String)
        ensures
            text@ == "The entity does not exist."@,
    {
        "The entity does not exist.".to_owned()
    }
}

/// Whether a document holds an id under a field.
pub open spec fn holds_id(field: u32, id: i64) -> spec_fn(Seq<FieldEntry>) -> bool {
    |doc: Seq<FieldEntry>| holds_term(doc, IdTerm { field, id })
}

/// How many documents hold an id under a field.
pub open spec fn copies(docs: Seq<Seq<FieldEntry>>, field: u32, id: i64) -> nat {
    docs.filter(holds_id(field, id)).len()
}

/// A document is keyed under a field when it holds an id under the field,
/// and one only: its first.
pub open spec fn keyed(doc: Seq<FieldEntry>, field: u32) -> bool {
    &&& first_i64_of(doc, field) is Some
    &&& forall|id: i64| #[trigger]
        holds_term(doc, IdTerm { field, id }) <==> first_i64_of(doc, field) == Some(id)
}

/// Every document is keyed under the field.
pub open spec fn all_keyed(docs: Seq<Seq<FieldEntry>>, field: u32) -> bool {
    forall|i: int| 0 <= i < docs.len() ==> keyed(#[trigger] docs[i], field)
}

/// A change that a write operation makes to an index: it puts the document
/// of an entity in place of what the index holds under the entity's id, or
/// leaves nothing in its place where the entity is not shown; or it
/// removes what the index holds under an id.
pub enum Change {
    Put { id: i64, doc: Seq<FieldEntry>, shown: bool },
    Remove { id: i64 },
}

/// The operations of a change: the removal by the id's term, then, for an
/// entity that is shown, its document.
pub open spec fn change_ops(field: u32, change: Change) -> Seq<WriterOpView> {
    match change {
        Change::Put { id, doc, shown } => if shown {
            seq![
                WriterOpView::RemoveDocuments(IdTerm { field, id }),
                WriterOpView::AddDocument(doc),
            ]
        } else {
            seq![WriterOpView::RemoveDocuments(IdTerm { field, id })]
        },
        Change::Remove { id } => seq![WriterOpView::RemoveDocuments(IdTerm { field, id })],
    }
}

/// The operations of a run of changes, in order.
pub open spec fn changes_ops(field: u32, changes: Seq<Change>) -> Seq<WriterOpView>
    decreases changes.len(),
{
    if changes.len() == 0 {
        Seq::empty()
    } else {
        changes_ops(field, changes.drop_last()) + change_ops(field, changes.last())
    }
}

/// A change is in order when the document that it puts is keyed by the id
/// that it is put under.
pub open spec fn change_in_order(field: u32, change: Change) -> bool {
    match change {
        Change::Put { id, doc, shown } => keyed(doc, field) && first_i64_of(doc, field) == Some(
            id,
        ),
        Change::Remove { id } => true,
    }
}

/// How many documents an index holds under an id after a change: a put of
/// a shown entity under the id leaves one, a put of another entity under
/// the id or a removal of the id leaves none, and a change to another id
/// leaves as many as before.
pub open spec fn copies_left(change: Change, id: i64, before: nat) -> nat {
    match change {
        Change::Put { id: put, doc, shown } if put == id => if shown {
            1
        } else {
            0
        },
        Change::Remove { id: removed } if removed == id => 0,
        _ => before,
    }
}

/// How many documents an index holds under an id after a run of changes:
/// the last change to the id decides, and without one there are as many
/// as before.
pub open spec fn copies_after(changes: Seq<Change>, id: i64, initially: nat) -> nat
    decreases changes.len(),
{
    if changes.len() == 0 {
        initially
    } else {
        copies_left(changes.last(), id, copies_after(changes.drop_last(), id, initially))
    }
}

/// Adding a document adds one copy under the ids it holds, and none under
/// the others.
pub proof fn lemma_copies_after_add(
    docs: Seq<Seq<FieldEntry>>,
    doc: Seq<FieldEntry>,
    field: u32,
    id: i64,
)
    ensures
        copies(docs.push(doc), field, id) == copies(docs, field, id) + (if holds_term(
            doc,
            IdTerm { field, id },
        ) {
            1nat
        } else {
            0nat
        }),
{
    reveal(Seq::filter);
    assert(docs.push(doc).drop_last() == docs);
}

/// Removing by an id's term leaves no copy under that id. Where every
/// document is keyed, it leaves the copies under any other id as they
/// were, and every document that stays is keyed.
pub proof fn lemma_copies_after_remove(
    docs: Seq<Seq<FieldEntry>>,
    field: u32,
    removed: i64,
    id: i64,
)
    requires
        all_keyed(docs, field),
    ensures
        all_keyed(docs.filter(lacks_term(IdTerm { field, id: removed })), field),
        copies(docs.filter(lacks_term(IdTerm { field, id: removed })), field, id) == (if removed
            == id {
            0
        } else {
            copies(docs, field, id)
        }),
    decreases docs.len(),
{
    reveal(Seq::filter);
    let term = IdTerm { field, id: removed };
    if docs.len() > 0 {
        let rest = docs.drop_last();
        let doc = docs.last();
        assert(all_keyed(rest, field)) by {
            assert forall|i: int| 0 <= i < rest.len() implies keyed(#[trigger] rest[i], field) by {
                assert(rest[i] == docs[i]);
            }
        }
        lemma_copies_after_remove(rest, field, removed, id);
        let kept = rest.filter(lacks_term(term));
        assert(keyed(doc, field)) by {
            assert(doc == docs[docs.len() - 1]);
        }
        if lacks_term(term)(doc) {
            assert(docs.filter(lacks_term(term)) == kept.push(doc));
            lemma_copies_after_add(kept, doc, field, id);
            assert forall|i: int| 0 <= i < kept.push(doc).len() implies keyed(
                #[trigger] kept.push(doc)[i],
                field,
            ) by {
                if i < kept.len() {
                    assert(kept.push(doc)[i] == kept[i]);
                }
            }
        } else {
            assert(docs.filter(lacks_term(term)) == kept);
            assert(holds_term(doc, IdTerm { field, id: removed }));
            if removed != id {
                assert(!holds_term(doc, IdTerm { field, id }));
            }
        }
    }
}

/// The documents of an index after one operation.
pub proof fn lemma_docs_after_one(docs: Seq<Seq<FieldEntry>>, op: WriterOpView)
    ensures
        docs_after_all(docs, seq![op]) == docs_after(docs, op),
{
    assert(seq![op].drop_last() == Seq::<WriterOpView>::empty());
    assert(docs_after_all(docs, Seq::<WriterOpView>::empty()) == docs);
}

/// The documents of an index after two operations.
pub proof fn lemma_docs_after_two(docs: Seq<Seq<FieldEntry>>, first: WriterOpView, second: WriterOpView)
    ensures
        docs_after_all(docs, seq![first, second]) == docs_after(docs_after(docs, first), second),
{
    assert(seq![first, second].drop_last() == seq![first]);
    lemma_docs_after_one(docs, first);
}

/// One change that is in order keeps every document keyed, and leaves
/// under each id what `copies_after` says.
pub proof fn lemma_change_keeps_step(
    field: u32,
    docs: Seq<Seq<FieldEntry>>,
    change: Change,
    id: i64,
)
    requires
        all_keyed(docs, field),
        change_in_order(field, change),
    ensures
        all_keyed(docs_after_all(docs, change_ops(field, change)), field),
        copies(docs_after_all(docs, change_ops(field, change)), field, id) == copies_left(
            change,
            id,
            copies(docs, field, id),
        ),
{
    match change {
        Change::Put { id: put, doc, shown } => {
            let removal = WriterOpView::RemoveDocuments(IdTerm { field, id: put });
            let kept = docs.filter(lacks_term(IdTerm { field, id: put }));
            lemma_copies_after_remove(docs, field, put, id);
            if shown {
                lemma_docs_after_two(docs, removal, WriterOpView::AddDocument(doc));
                lemma_copies_after_add(kept, doc, field, id);
                assert forall|i: int| 0 <= i < kept.push(doc).len() implies keyed(
                    #[trigger] kept.push(doc)[i],
                    field,
                ) by {
                    if i < kept.len() {
                        assert(kept.push(doc)[i] == kept[i]);
                    }
                }
                assert(holds_term(doc, IdTerm { field, id: put }));
                if put != id {
                    assert(!holds_term(doc, IdTerm { field, id }));
                }
            } else {
                lemma_docs_after_one(docs, removal);
            }
        },
        Change::Remove { id: removed } => {
            lemma_copies_after_remove(docs, field, removed, id);
            lemma_docs_after_one(
                docs,
                WriterOpView::RemoveDocuments(IdTerm { field, id: removed }),
            );
        },
    }
}

/// After any run of changes that are in order, every document is keyed,
/// and the index holds under each id what the last change to the id left.
pub proof fn lemma_changes_keep_step(
    field: u32,
    docs: Seq<Seq<FieldEntry>>,
    changes: Seq<Change>,
    id: i64,
)
    requires
        all_keyed(docs, field),
        forall|i: int| 0 <= i < changes.len() ==> change_in_order(field, #[trigger] changes[i]),
    ensures
        all_keyed(docs_after_all(docs, changes_ops(field, changes)), field),
        copies(docs_after_all(docs, changes_ops(field, changes)), field, id) == copies_after(
            changes,
            id,
            copies(docs, field, id),
        ),
    decreases changes.len(),
{
    if changes.len() > 0 {
        let rest = changes.drop_last();
        let last = changes.last();
        assert forall|i: int| 0 <= i < rest.len() implies change_in_order(
            field,
            #[trigger] rest[i],
        ) by {
            assert(rest[i] == changes[i]);
        }
        assert(change_in_order(field, last)) by {
            assert(last == changes[changes.len() - 1]);
        }
        lemma_changes_keep_step(field, docs, rest, id);
        let middle = docs_after_all(docs, changes_ops(field, rest));
        lemma_docs_after_concat(docs, changes_ops(field, rest), change_ops(field, last));
        lemma_change_keeps_step(field, middle, last, id);
    }
}

/// Where an index holds at most one document under an id, it still does
/// after any run of changes that are in order.
pub proof fn lemma_one_document_per_id(
    field: u32,
    docs: Seq<Seq<FieldEntry>>,
    changes: Seq<Change>,
    id: i64,
)
    requires
        all_keyed(docs, field),
        forall|i: int| 0 <= i < changes.len() ==> change_in_order(field, #[trigger] changes[i]),
        copies(docs, field, id) <= 1,
    ensures
        copies(docs_after_all(docs, changes_ops(field, changes)), field, id) <= 1,
{
    lemma_changes_keep_step(field, docs, changes, id);
    lemma_copies_after_bound(changes, id, copies(docs, field, id));
}

/// A run of changes never leaves more than one document under an id where
/// there was at most one.
pub proof fn lemma_copies_after_bound(changes: Seq<Change>, id: i64, initially: nat)
    requires
        initially <= 1,
    ensures
        copies_after(changes, id, initially) <= 1,
    decreases changes.len(),
{
    if changes.len() > 0 {
        lemma_copies_after_bound(changes.drop_last(), id, initially);
    }
}

/// Whatever an index held, after everything is removed and a run of
/// operations is applied it holds what an empty index holds after that
/// run.
pub proof fn lemma_clear_forgets(docs: Seq<Seq<FieldEntry>>, ops: Seq<WriterOpView>)
    ensures
        docs_after_all(docs, seq![WriterOpView::ClearAll] + ops) == docs_after_all(
            Seq::empty(),
            ops,
        ),
{
    lemma_docs_after_concat(docs, seq![WriterOpView::ClearAll], ops);
    lemma_docs_after_one(docs, WriterOpView::ClearAll);
}

/// An index that holds one document under each of a set of ids, and none
/// under any other id, holds as many documents as the set has ids.
pub proof fn lemma_one_each_counts(docs: Seq<Seq<FieldEntry>>, field: u32, shown: Set<i64>)
    requires
        all_keyed(docs, field),
        shown.finite(),
        forall|id: i64|
            #[trigger] copies(docs, field, id) == (if shown.contains(id) {
                1nat
            } else {
                0nat
            }),
    ensures
        docs.len() == shown.len(),
    decreases docs.len(),
{
    if docs.len() == 0 {
        assert forall|id: i64| !shown.contains(id) by {
            assert(copies(docs, field, id) == 0) by {
                reveal(Seq::filter);
            }
        }
        assert(shown =~= Set::<i64>::empty());
    } else {
        let rest = docs.drop_last();
        let doc = docs.last();
        assert(docs == rest.push(doc));
        assert(keyed(doc, field)) by {
            assert(doc == docs[docs.len() - 1]);
        }
        let key = first_i64_of(doc, field).unwrap();
        assert(holds_term(doc, IdTerm { field, id: key }));
        lemma_copies_after_add(rest, doc, field, key);
        assert(copies(docs, field, key) == 1);
        assert(shown.contains(key));
        let fewer = shown.remove(key);
        assert(all_keyed(rest, field)) by {
            assert forall|i: int| 0 <= i < rest.len() implies keyed(#[trigger] rest[i], field) by {
                assert(rest[i] == docs[i]);
            }
        }
        assert forall|id: i64|
            #[trigger] copies(rest, field, id) == (if fewer.contains(id) {
                1nat
            } else {
                0nat
            }) by {
            lemma_copies_after_add(rest, doc, field, id);
            if id != key {
                assert(!holds_term(doc, IdTerm { field, id }));
                assert(copies(docs, field, id) == (if shown.contains(id) {
                    1nat
                } else {
                    0nat
                }));
            }
        }
        lemma_one_each_counts(rest, field, fewer);
    }
}

} // verus!
