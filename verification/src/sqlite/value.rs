//! Dynamically typed values: what a JSON value is to the binder.

use serde_json::{Number, Value};
use vstd::prelude::*;

verus! {

/// `serde_json::Value`, a JSON value, carried without looking inside.
#[verifier::external_type_specification]
#[verifier::external_body]
pub struct ExValue(Value);

/// `serde_json::Number`, a JSON number, carried without looking inside.
#[verifier::external_type_specification]
#[verifier::external_body]
pub struct ExNumber(Number);

/// Whether `Value::is_null` holds of the value.
pub uninterp spec fn json_is_null(v: Value) -> bool;

/// What `Value::as_str` yields: the text of a JSON string, nothing for any
/// other value.
pub uninterp spec fn json_str(v: Value) -> Option<Seq<char>>;

/// What `Value::as_number` yields: the number of a JSON number, nothing for
/// any other value.
pub uninterp spec fn json_number(v: Value) -> Option<Number>;

/// The JSON text that formatting the value with `Display` produces.
pub uninterp spec fn json_text(v: Value) -> Seq<char>;

/// `serde_json::Value::is_null`: true for `Value::Null` alone. The contract
/// only names the answer.
pub assume_specification[ serde_json::Value::is_null ](v: &serde_json::Value) -> (r: bool)
    ensures
        r == json_is_null(*v),
;

/// `serde_json::Value::as_str`: the string slice held by `Value::String`,
/// `None` for every other variant. The contract only names the answer.
pub assume_specification<'a>[ serde_json::Value::as_str ](v: &'a serde_json::Value) -> (r: Option<
    &'a str,
>)
    ensures
        match r {
            Some(s) => json_str(*v) == Some(s@),
            None => json_str(*v) is None,
        },
;

/// `serde_json::Value::as_number`: the number held by `Value::Number`, `None`
/// for every other variant. The contract only names the answer.
pub assume_specification<'a>[ serde_json::Value::as_number ](v: &'a serde_json::Value) -> (r: Option<
    &'a serde_json::Number,
>)
    ensures
        match r {
            Some(n) => json_number(*v) == Some(*n),
            None => json_number(*v) is None,
        },
;

/// `Clone` of `serde_json::Number`, which is derived: the copy equals the
/// number it was made from.
pub assume_specification[ <serde_json::Number as Clone>::clone ](n: &serde_json::Number) -> (r:
    serde_json::Number)
    ensures
        r == *n,
;

/// The number that `Number::from` makes of an unsigned integer.
pub uninterp spec fn number_from(n: u64) -> Number;

/// `From<u64>` of `serde_json::Number`: the JSON number for an unsigned
/// integer. The contract only names the number, which depends on the integer
/// alone.
#[verifier::external_body]
pub(crate) fn number_from_u64(n: u64) -> (r: Number)
    ensures
        r == number_from(n),
{
    Number::from(n)
}

/// `ToString` of `serde_json::Value`, that is its `Display`: the compact JSON
/// serialization. The contract only names the text, which depends on the value
/// alone.
#[verifier::external_body]
fn serialize(v: &Value) -> (r: String)
    ensures
        r@ == json_text(*v),
{
    v.to_string()
}

/// A dynamically typed value, as the binder sees it.
#[derive(Debug, Clone, PartialEq)]
pub enum DynamicValue {
    /// No value.
    Null,
    /// Text, taken verbatim.
    Text(String),
    /// A number, integer or not.
    Number(Number),
    /// Anything else, held as its JSON text.
    Other(String),
}

/// The mathematical content of a [`DynamicValue`].
pub enum DynamicValueView {
    Null,
    Text(Seq<char>),
    Number(Number),
    Other(Seq<char>),
}

impl View for DynamicValue {
    type V = DynamicValueView;

    open spec fn view(&self) -> DynamicValueView {
        match self {
            DynamicValue::Null => DynamicValueView::Null,
            DynamicValue::Text(s) => DynamicValueView::Text(s@),
            DynamicValue::Number(n) => DynamicValueView::Number(*n),
            DynamicValue::Other(s) => DynamicValueView::Other(s@),
        }
    }
}

/// The dynamic value that a JSON value stands for: null, a string's text, a
/// number, and for booleans, arrays and objects their JSON text.
pub open spec fn dynamic_of(v: Value) -> DynamicValueView {
    if json_is_null(v) {
        DynamicValueView::Null
    } else if json_str(v) is Some {
        DynamicValueView::Text(json_str(v)->Some_0)
    } else if json_number(v) is Some {
        DynamicValueView::Number(json_number(v)->Some_0)
    } else {
        DynamicValueView::Other(json_text(v))
    }
}

impl DynamicValue {
    /// Classifies a JSON value.
    pub fn from_json(value: &Value) -> (d: DynamicValue)
        ensures
            d@ == dynamic_of(*value),
    {
        if value.is_null() {
            return DynamicValue::Null;
        }
        if let Some(s) = value.as_str() {
            return DynamicValue::Text(s.to_owned());
        }
        if let Some(n) = value.as_number() {
            return DynamicValue::Number(n.clone());
        }
        DynamicValue::Other(serialize(value))
    }
}

} // verus!
