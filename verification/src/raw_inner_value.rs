//! The text that a literal stands for.

use vstd::prelude::*;
use crate::ast::{opt_text, Value, ValueView};

verus! {

/// The text of a literal as the store keeps it: a number or a string as it
/// was written, `true` or `false` for a boolean, and none for `NULL` and for
/// a placeholder.
pub open spec fn raw_text(v: ValueView) -> Option<Seq<char>> {
    match v {
        ValueView::Number(t, _) => Some(t),
        ValueView::DoubleQuotedString(t) => Some(t),
        ValueView::SingleQuotedString(t) => Some(t),
        ValueView::DollarQuotedString(t) => Some(t),
        ValueView::EscapedStringLiteral(t) => Some(t),
        ValueView::NationalStringLiteral(t) => Some(t),
        ValueView::HexStringLiteral(t) => Some(t),
        ValueView::Boolean(b) => if b {
            Some("true"@)
        } else {
            Some("false"@)
        },
        ValueView::SingleQuotedByteStringLiteral(t) => Some(t),
        ValueView::DoubleQuotedByteStringLiteral(t) => Some(t),
        ValueView::RawStringLiteral(t) => Some(t),
        ValueView::Null => None,
        ValueView::UnQuotedString(t) => Some(t),
        ValueView::Placeholder(_) => None,
    }
}

/// A value that has a text to be kept under.
pub trait InnerRawValue {
    /// The text, or none where the value is absent.
    spec fn raw(&self) -> Option<Seq<char>>;

    fn get_inner_raw_str(&self) -> (r: Option<String>)
        ensures
            opt_text(r) == self.raw(),
    ;
}

impl InnerRawValue for Value {
    open spec fn raw(&self) -> Option<Seq<char>> {
        raw_text(self@)
    }

    fn get_inner_raw_str(&self) -> (r: Option<String>) {
        match self {
            Value::Number(v, _l) => Some(v.clone()),
            Value::DoubleQuotedString(v) => Some(v.clone()),
            Value::SingleQuotedString(v) => Some(v.clone()),
            Value::DollarQuotedString(v) => Some(v.clone()),
            Value::EscapedStringLiteral(v) => Some(v.clone()),
            Value::NationalStringLiteral(v) => Some(v.clone()),
            Value::HexStringLiteral(v) => Some(v.clone()),
            Value::Boolean(v) => if *v {
                Some("true".to_owned())
            } else {
                Some("false".to_owned())
            },
            Value::SingleQuotedByteStringLiteral(v) => Some(v.clone()),
            Value::DoubleQuotedByteStringLiteral(v) => Some(v.clone()),
            Value::RawStringLiteral(v) => Some(v.clone()),
            Value::Null => None,
            Value::UnQuotedString(v) => Some(v.clone()),
            Value::Placeholder(_) => None,
        }
    }
}

} // verus!
