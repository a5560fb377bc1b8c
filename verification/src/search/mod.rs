//! Documents, queries, the writer and the readers of the two indexes.

pub mod document;
pub mod index;
pub mod index_impls;
pub mod queries;
pub mod ranking;
pub mod readers;
pub mod tokenizer;
pub mod writer;

use tantivy::Document;
use vstd::prelude::*;

verus! {

/// The view of an optional value.
pub open spec fn optional_view<T: View>(value: Option<T>) -> Option<T::V> {
    match value {
        Some(inner) => Some(inner@),
        None => None,
    }
}

/// A response shape that is filled from a stored document and a source of
/// live data. A stored document holds an id and nothing else; the rest of
/// a hit comes from the source, and a document whose id the source does
/// not know gives no hit.
pub trait FromTantivyDoc<S>: Sized + View {
    /// The hit that a document stands for, if the source knows its id.
    spec fn hit_of(source: &S, id_field: u32, doc: Document) -> Option<Self::V>;

    /// Fills a hit from a stored document.
    fn from_doc(source: &S, id_field: u32, doc: &Document) -> (hit: Option<Self>)
        ensures
            optional_view(hit) == Self::hit_of(source, id_field, *doc),
    ;
}

/// The hits that a run of stored documents stands for: one for each
/// document that gives a hit, in the order of the documents.
pub open spec fn hits_of<S, T: FromTantivyDoc<S>>(
    source: &S,
    id_field: u32,
    docs: Seq<Document>,
) -> Seq<T::V>
    decreases docs.len(),
{
    if docs.len() == 0 {
        Seq::empty()
    } else {
        let before = hits_of::<S, T>(source, id_field, docs.drop_last());
        match T::hit_of(source, id_field, docs.last()) {
            Some(hit) => before.push(hit),
            None => before,
        }
    }
}

/// There are never more hits than documents.
pub proof fn lemma_hits_within_docs<S, T: FromTantivyDoc<S>>(
    source: &S,
    id_field: u32,
    docs: Seq<Document>,
)
    ensures
        hits_of::<S, T>(source, id_field, docs).len() <= docs.len(),
    decreases docs.len(),
{
    if docs.len() > 0 {
        lemma_hits_within_docs::<S, T>(source, id_field, docs.drop_last());
    }
}

} // verus!
