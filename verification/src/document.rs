//! The structured document: the serializer's representation of a value as
//! an ordered object of named fields. The external serializer produces it;
//! everything this library does with it — form flattening, header
//! validation, the empty-body check — is verified against this model.

use vstd::prelude::*;
use crate::text::{spec_bool_text, spec_idec, spec_udec, bool_to_string, i64_to_string, u64_to_string};

verus! {

/// One field's value inside a structured document.
///
/// Numbers carry no fractional part: the document model is exact.
/// Whatever lies outside it — a nested array or object, or a number with
/// a fractional part — is already rendered to its full document text and
/// carried as one opaque string, never flattened further.
#[derive(Debug, Clone, PartialEq)]
pub enum FieldValue {
    /// An absent value.
    Null,
    /// A boolean.
    Bool(bool),
    /// A signed integer.
    Int(i64),
    /// An unsigned integer.
    UInt(u64),
    /// A text value, used verbatim.
    Text(String),
    /// A value outside the exact scalar model — a nested array or
    /// object, or a non-integral number — as its rendered document text.
    Compound(String),
}

/// A whole serialized value: either an ordered object of named fields, or
/// some other representation (a scalar or an array), which the operations
/// that need an object reject.
#[derive(Debug, Clone, PartialEq)]
pub enum Document {
    /// An ordered object of named fields.
    Object(Vec<(String, FieldValue)>),
    /// A representation that is not an object.
    NonObject(FieldValue),
}

/// The canonical text of a field value: booleans and integers in their
/// canonical decimal or keyword form, text verbatim, a nested compound as
/// its document text, and an absent value as the `null` keyword.
pub open spec fn spec_value_text(v: FieldValue) -> Seq<char> {
    match v {
        FieldValue::Null => "null"@,
        FieldValue::Bool(b) => spec_bool_text(b),
        FieldValue::Int(i) => spec_idec(i as int),
        FieldValue::UInt(u) => spec_udec(u as nat),
        FieldValue::Text(s) => s@,
        FieldValue::Compound(t) => t@,
    }
}

/// What a field contributes to a flat form: nothing when absent, its
/// canonical text otherwise.
pub open spec fn spec_form_value(v: FieldValue) -> Option<Seq<char>> {
    if v is Null {
        None
    } else {
        Some(spec_value_text(v))
    }
}

/// Whether `doc` is the canonical empty-object form.
pub open spec fn spec_is_empty_object(doc: Document) -> bool {
    match doc {
        Document::Object(es) => es@.len() == 0,
        Document::NonObject(_) => false,
    }
}

/// Renders a field value to its canonical text.
pub fn value_text(v: &FieldValue) -> (r: String)
    ensures
        r@ == spec_value_text(*v),
{
    match v {
        FieldValue::Null => "null".to_owned(),
        FieldValue::Bool(b) => bool_to_string(*b),
        FieldValue::Int(i) => i64_to_string(*i),
        FieldValue::UInt(u) => u64_to_string(*u),
        FieldValue::Text(s) => s.clone(),
        FieldValue::Compound(t) => t.clone(),
    }
}

/// What a field contributes to a flat form, if anything.
pub fn form_value(v: &FieldValue) -> (r: Option<String>)
    ensures
        match r {
            Some(s) => spec_form_value(*v) == Some(s@),
            None => spec_form_value(*v) is None,
        },
{
    match v {
        FieldValue::Null => None,
        _ => Some(value_text(v)),
    }
}

impl Document {
    /// Whether this document is the canonical empty-object form.
    pub fn is_empty_object(&self) -> (b: bool)
        ensures
            b == spec_is_empty_object(*self),
    {
        match self {
            Document::Object(es) => es.len() == 0,
            Document::NonObject(_) => false,
        }
    }

    /// An object with no fields: the canonical empty document.
    pub fn empty() -> (d: Document)
        ensures
            d matches Document::Object(es) && es@.len() == 0,
    {
        Document::Object(Vec::new())
    }
}

} // verus!
