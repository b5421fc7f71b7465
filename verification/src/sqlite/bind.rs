//! The value binder: turns dynamically typed values into statement
//! parameters, one parameter per value, in order.

use crate::sqlite::value::{dynamic_of, DynamicValue, DynamicValueView};
use serde_json::{Number, Value};
use sqlx::sqlite::SqliteArguments;
use vstd::prelude::*;

verus! {

/// `sqlx::sqlite::SqliteArguments`, the list of parameters that a statement
/// is run with.
#[verifier::external_type_specification]
#[verifier::external_body]
pub struct ExSqliteArguments<'q>(SqliteArguments<'q>);

/// A parameter as the store receives it. There is no integer parameter: every
/// number travels as a 64-bit float, so integers beyond 2^53 lose precision.
pub enum Param {
    /// SQL NULL.
    Null,
    /// Text.
    Text(Seq<char>),
    /// A 64-bit float, given by its bit pattern.
    Real(u64),
}

/// The parameters that an argument list holds, first added first.
pub uninterp spec fn bound_params(arguments: SqliteArguments<'static>) -> Seq<Param>;

/// The bit pattern of the 64-bit float that `Number::as_f64` yields, nothing
/// where it yields none.
pub uninterp spec fn number_real(n: Number) -> Option<u64>;

/// The parameter that a number is bound as: its 64-bit float, or NULL where
/// the number has none.
pub open spec fn real_param(n: Number) -> Param {
    match number_real(n) {
        Some(bits) => Param::Real(bits),
        None => Param::Null,
    }
}

/// The coercion policy: the parameter that a dynamic value is bound as.
pub open spec fn coerce(value: DynamicValueView) -> Param {
    match value {
        DynamicValueView::Null => Param::Null,
        DynamicValueView::Text(s) => Param::Text(s),
        DynamicValueView::Number(n) => real_param(n),
        DynamicValueView::Other(s) => Param::Text(s),
    }
}

/// The parameters that a list of dynamic values is bound as.
pub open spec fn coerce_all(values: Seq<DynamicValue>) -> Seq<Param> {
    values.map_values(|d: DynamicValue| coerce(d@))
}

/// The parameters that a list of JSON values is bound as.
pub open spec fn coerce_json(values: Seq<Value>) -> Seq<Param> {
    values.map_values(|v: Value| coerce(dynamic_of(v)))
}

/// `Default` of `sqlx::sqlite::SqliteArguments`, which is derived: a list
/// without parameters.
#[verifier::external_body]
pub(crate) fn no_arguments() -> (arguments: SqliteArguments<'static>)
    ensures
        bound_params(arguments) == Seq::<Param>::empty(),
{
    SqliteArguments::default()
}

/// `sqlx::Arguments::add` with an absent JSON value: `Option`'s encoder writes
/// nothing for `None`, and the list then takes one NULL at its end.
#[verifier::external_body]
fn add_null<'q>(arguments: &mut SqliteArguments<'q>)
    ensures
        bound_params(*final(arguments)) == bound_params(*old(arguments)).push(Param::Null),
{
    let _ = sqlx::Arguments::add(arguments, None::<Value>);
}

/// `sqlx::Arguments::add` with a `String`: its encoder appends the text,
/// owned and unchanged, to the list.
#[verifier::external_body]
fn add_text<'q>(arguments: &mut SqliteArguments<'q>, text: String)
    ensures
        bound_params(*final(arguments)) == bound_params(*old(arguments)).push(Param::Text(text@)),
{
    let _ = sqlx::Arguments::add(arguments, text);
}

/// `sqlx::Arguments::add` with what `serde_json::Number::as_f64` yields: the
/// float's encoder appends it as a double; where there is no float, the list
/// takes one NULL, as for any absent value.
#[verifier::external_body]
fn add_real<'q>(arguments: &mut SqliteArguments<'q>, n: &Number)
    ensures
        bound_params(*final(arguments)) == bound_params(*old(arguments)).push(
            match number_real(*n) {
                Some(bits) => Param::Real(bits),
                None => Param::Null,
            },
        ),
{
    let _ = sqlx::Arguments::add(arguments, n.as_f64());
}

/// Binds one value as the next parameter.
pub fn bind_value<'q>(arguments: &mut SqliteArguments<'q>, value: &DynamicValue)
    ensures
        bound_params(*final(arguments)) == bound_params(*old(arguments)).push(coerce(value@)),
{
    match value {
        DynamicValue::Null => add_null(arguments),
        DynamicValue::Text(s) => add_text(arguments, s.clone()),
        DynamicValue::Number(n) => add_real(arguments, n),
        DynamicValue::Other(s) => add_text(arguments, s.clone()),
    }
}

/// Binds every value of the list, in order, after the parameters that are
/// already bound.
pub fn bind_values<'q>(arguments: SqliteArguments<'q>, values: &Vec<DynamicValue>) -> (bound:
    SqliteArguments<'q>)
    ensures
        bound_params(bound) == bound_params(arguments) + coerce_all(values@),
{
    let mut bound = arguments;
    let mut i: usize = 0;
    while i < values.len()
        invariant
            i <= values.len(),
            bound_params(bound) == bound_params(arguments) + coerce_all(values@.take(i as int)),
        decreases values.len() - i,
    {
        bind_value(&mut bound, &values[i]);
        proof {
            assert(values@.take(i + 1) == values@.take(i as int).push(values@[i as int]));
            assert(coerce_all(values@.take(i + 1)) == coerce_all(values@.take(i as int)).push(
                coerce(values@[i as int]@),
            ));
        }
        i += 1;
    }
    proof {
        assert(values@.take(values.len() as int) == values@);
    }
    bound
}

/// Binds every JSON value of the list, in order, after the parameters that
/// are already bound: null as NULL, a string as its text, a number as a 64-bit
/// float, anything else as its JSON text.
pub fn bind_cond_json_list<'q>(arguments: SqliteArguments<'q>, values: Vec<Value>) -> (bound:
    SqliteArguments<'q>)
    ensures
        bound_params(bound) == bound_params(arguments) + coerce_json(values@),
{
    let mut bound = arguments;
    let mut i: usize = 0;
    while i < values.len()
        invariant
            i <= values.len(),
            bound_params(bound) == bound_params(arguments) + coerce_json(values@.take(i as int)),
        decreases values.len() - i,
    {
        let value = DynamicValue::from_json(&values[i]);
        bind_value(&mut bound, &value);
        proof {
            assert(values@.take(i + 1) == values@.take(i as int).push(values@[i as int]));
            assert(coerce_json(values@.take(i + 1)) == coerce_json(values@.take(i as int)).push(
                coerce(dynamic_of(values@[i as int])),
            ));
        }
        i += 1;
    }
    proof {
        assert(values@.take(values.len() as int) == values@);
    }
    bound
}

} // verus!
