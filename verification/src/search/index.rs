//! The declared shape of an index, and what an index holds.
//!
//! The shape is plain data that the engine's schema is built from: one
//! entry per field, a field's numeric id being its place in the list.

use crate::search::document::{FieldEntry, FieldValue};
use vstd::prelude::*;

verus! {

/// The kind of value that a field holds.
#[derive(Debug, Copy, Clone, PartialEq, Eq, Structural)]
pub enum FieldKind {
    /// Signed 64-bit integers.
    I64,
    /// Unsigned 64-bit integers.
    U64,
    /// Text.
    Text,
}

/// How the text of a field is cut into terms.
#[derive(Debug, Copy, Clone, PartialEq, Eq, Structural)]
pub enum Tokenizing {
    /// By the word tokenizer, with term frequencies and positions kept.
    Words,
    /// Not at all: the whole value is one term, kept verbatim.
    Raw,
}

/// One field of an index.
#[derive(Debug)]
pub struct FieldSpec {
    /// The field's name.
    pub name: &'static str,
    /// The kind of value it holds.
    pub kind: FieldKind,
    /// Whether the field can be searched.
    pub indexed: bool,
    /// Whether the field is a fast field, readable per document.
    pub fast: bool,
    /// Whether the value is stored and comes back with a document.
    pub stored: bool,
    /// How a text field is cut into terms.
    pub tokenizing: Tokenizing,
}

/// What a field entry of the shape says.
pub struct FieldSpecView {
    pub name: Seq<char>,
    pub kind: FieldKind,
    pub indexed: bool,
    pub fast: bool,
    pub stored: bool,
    pub tokenizing: Tokenizing,
}

impl View for FieldSpec {
    type V = FieldSpecView;

    open spec fn view(&self) -> FieldSpecView {
        FieldSpecView {
            name: self.name@,
            kind: self.kind,
            indexed: self.indexed,
            fast: self.fast,
            stored: self.stored,
            tokenizing: self.tokenizing,
        }
    }
}

/// An integer field that can be searched and read per document.
pub open spec fn number_field(name: Seq<char>, kind: FieldKind, stored: bool) -> FieldSpecView {
    FieldSpecView { name, kind, indexed: true, fast: true, stored, tokenizing: Tokenizing::Raw }
}

/// A text field that is searched by words.
pub open spec fn text_field(name: Seq<char>, fast: bool) -> FieldSpecView {
    FieldSpecView {
        name,
        kind: FieldKind::Text,
        indexed: true,
        fast,
        stored: false,
        tokenizing: Tokenizing::Words,
    }
}

/// An aggregation field: text kept verbatim, searchable by exact term and
/// readable per document.
pub open spec fn aggregation_field(name: Seq<char>) -> FieldSpecView {
    FieldSpecView {
        name,
        kind: FieldKind::Text,
        indexed: true,
        fast: true,
        stored: false,
        tokenizing: Tokenizing::Raw,
    }
}

/// The views of the fields of a shape.
pub open spec fn schema_view(fields: Seq<FieldSpec>) -> Seq<FieldSpecView> {
    Seq::new(fields.len(), |i: int| fields[i]@)
}

/// Declares an integer field.
pub fn declare_number(name: &'static str, kind: FieldKind, stored: bool) -> (field: FieldSpec)
    ensures
        field@ == number_field(name@, kind, stored),
{
    FieldSpec { name, kind, indexed: true, fast: true, stored, tokenizing: Tokenizing::Raw }
}

/// Declares a text field that is searched by words.
pub fn declare_text(name: &'static str, fast: bool) -> (field: FieldSpec)
    ensures
        field@ == text_field(name@, fast),
{
    FieldSpec {
        name,
        kind: FieldKind::Text,
        indexed: true,
        fast,
        stored: false,
        tokenizing: Tokenizing::Words,
    }
}

/// Declares an aggregation field.
pub fn declare_aggregation(name: &'static str) -> (field: FieldSpec)
    ensures
        field@ == aggregation_field(name@),
{
    FieldSpec {
        name,
        kind: FieldKind::Text,
        indexed: true,
        fast: true,
        stored: false,
        tokenizing: Tokenizing::Raw,
    }
}

/// A term on an id field: the documents that hold the id under the field.
#[derive(Debug, Copy, Clone, PartialEq, Eq, Structural)]
pub struct IdTerm {
    pub field: u32,
    pub id: i64,
}

/// Whether a document holds the term: one of its entries is the id under
/// the term's field.
pub open spec fn holds_term(doc: Seq<FieldEntry>, term: IdTerm) -> bool {
    doc.contains(FieldEntry { field: term.field, value: FieldValue::I64(term.id) })
}

/// Whether a document does not hold the term.
pub open spec fn lacks_term(term: IdTerm) -> spec_fn(Seq<FieldEntry>) -> bool {
    |doc: Seq<FieldEntry>| !holds_term(doc, term)
}

} // verus!
