//! Index documents of the engine, as the library fills and reads them.
//!
//! A document is the engine's own type. What it holds is named by
//! [`document_entries`]; the functions below are the only ones that touch a
//! document, and each says what it does to those entries.

use tantivy::schema::Field;
use tantivy::Document;
use vstd::prelude::*;

verus! {

/// The engine's document type.
#[verifier::external_type_specification]
#[verifier::external_body]
pub struct ExDocument(tantivy::Document);

/// A value that a document holds for a field, as far as the library looks
/// into it.
pub enum FieldValue {
    /// A signed 64-bit integer.
    I64(i64),
    /// An unsigned 64-bit integer.
    U64(u64),
    /// A text.
    Text(Seq<char>),
    /// A value of a kind that the library neither writes nor reads.
    Other,
}

/// One entry of a document: the numeric id of a field and a value for it.
pub struct FieldEntry {
    pub field: u32,
    pub value: FieldValue,
}

/// The entries of a document, in the order they were added. A field may
/// occur more than once. An entry holds `I64`, `U64` or `Text` for a value
/// of the engine of that kind, and `Other` for a value of any other kind.
pub uninterp spec fn document_entries(doc: Document) -> Seq<FieldEntry>;

/// `Document::new`: a document without entries.
#[verifier::external_body]
pub(crate) fn new_document() -> (doc: Document)
    ensures
        document_entries(doc) == Seq::<FieldEntry>::empty(),
{
    Document::new()
}

/// `Document::add_i64`: appends one entry, the signed integer under the
/// field.
#[verifier::external_body]
pub(crate) fn add_i64(doc: &mut Document, field: u32, value: i64)
    ensures
        document_entries(*final(doc)) == document_entries(*old(doc)).push(
            FieldEntry { field, value: FieldValue::I64(value) },
        ),
{
    doc.add_i64(Field::from_field_id(field), value)
}

/// `Document::add_u64`: appends one entry, the unsigned integer under the
/// field.
#[verifier::external_body]
pub(crate) fn add_u64(doc: &mut Document, field: u32, value: u64)
    ensures
        document_entries(*final(doc)) == document_entries(*old(doc)).push(
            FieldEntry { field, value: FieldValue::U64(value) },
        ),
{
    doc.add_u64(Field::from_field_id(field), value)
}

/// `Document::add_text`: appends one entry, a copy of the text under the
/// field.
#[verifier::external_body]
pub(crate) fn add_text(doc: &mut Document, field: u32, text: &str)
    ensures
        document_entries(*final(doc)) == document_entries(*old(doc)).push(
            FieldEntry { field, value: FieldValue::Text(text@) },
        ),
{
    doc.add_text(Field::from_field_id(field), text)
}

/// The first value that the entries hold for a field, if it is a signed
/// integer.
pub open spec fn first_i64_of(entries: Seq<FieldEntry>, field: u32) -> Option<i64>
    decreases entries.len(),
{
    if entries.len() == 0 {
        None
    } else if entries[0].field == field {
        match entries[0].value {
            FieldValue::I64(value) => Some(value),
            _ => None,
        }
    } else {
        first_i64_of(entries.drop_first(), field)
    }
}

/// `Document::get_first`, read through `Value::as_i64`: the first value
/// under the field, if there is one and it is a signed integer.
#[verifier::external_body]
pub(crate) fn first_i64(doc: &Document, field: u32) -> (value: Option<i64>)
    ensures
        value == first_i64_of(document_entries(*doc), field),
{
    doc.get_first(Field::from_field_id(field)).and_then(|found| found.as_i64())
}

} // verus!
