//! JSON values as the gateway hands them out, and the reading of result
//! rows into them.
//!
//! A JSON value is carried, never inspected: parsing is the JSON crate's
//! work, and what it gives for a text is named by [`parsed_json`].

use vstd::prelude::*;
use crate::text::opt_text;

verus! {

/// Declares `serde_json::Value` as an opaque type: values of it are
/// carried and compared, and nothing is known of what is inside one.
#[verifier::external_type_specification]
#[verifier::external_body]
pub struct ExJsonValue(serde_json::Value);

/// What `serde_json::from_str::<serde_json::Value>` gives for `text`: the
/// value that the text denotes, or `None` where the text is not one JSON
/// document.
pub uninterp spec fn parsed_json(text: Seq<char>) -> Option<serde_json::Value>;

/// Calls `serde_json::from_str` for a `serde_json::Value` and drops the
/// error. Trusted: the outcome is a function of the text alone.
#[verifier::external_body]
fn parse_json(text: &str) -> (value: Option<serde_json::Value>)
    ensures
        value == parsed_json(text@),
{
    serde_json::from_str::<serde_json::Value>(text).ok()
}

/// Gives `serde_json::Value::Null`. Trusted: it is the value that the
/// document `null` parses to.
#[verifier::external_body]
fn json_null() -> (value: serde_json::Value)
    ensures
        parsed_json("null"@) == Some(value),
{
    serde_json::Value::Null
}

/// The JSON null value.
pub open spec fn null_value() -> serde_json::Value {
    parsed_json("null"@).unwrap()
}

/// `value` is what some text parses to, or it is null.
pub open spec fn is_json_value(value: serde_json::Value) -> bool {
    ||| value == null_value()
    ||| exists|text: Seq<char>| parsed_json(text) == Some(value)
}

/// The value that stands for one result row. A row is the text of its
/// single column, or `None` where the column could not be read. A row
/// without text, or with text that is no JSON document, stands as null.
pub open spec fn row_value(row: Option<Seq<char>>) -> serde_json::Value {
    match row {
        Some(text) => match parsed_json(text) {
            Some(value) => value,
            None => null_value(),
        },
        None => null_value(),
    }
}

/// The values that stand for a batch of rows, one per row, in order.
pub open spec fn rows_values(rows: Seq<Option<String>>) -> Seq<serde_json::Value> {
    Seq::new(rows.len(), |i: int| row_value(opt_text(rows[i])))
}

/// Reads one row, given what its text parsed to.
pub fn value_or_null(parsed: Option<serde_json::Value>) -> (value: serde_json::Value)
    ensures
        parsed is Some ==> value == parsed.unwrap(),
        parsed is None ==> value == null_value(),
{
    match parsed {
        Some(value) => value,
        None => json_null(),
    }
}

/// Reads one row into a JSON value.
pub fn read_row(row: &Option<String>) -> (value: serde_json::Value)
    ensures
        value == row_value(opt_text(*row)),
        is_json_value(value),
{
    match row {
        Some(text) => {
            let parsed = parse_json(text.as_str());
            value_or_null(parsed)
        },
        None => value_or_null(None),
    }
}

/// Reads a batch of rows into JSON values. No row fails the batch.
pub fn read_rows(rows: &Vec<Option<String>>) -> (values: Vec<serde_json::Value>)
    ensures
        values@ == rows_values(rows@),
        values.len() == rows.len(),
        forall|i: int| 0 <= i < values.len() ==> is_json_value(#[trigger] values[i]),
{
    let mut values: Vec<serde_json::Value> = Vec::new();
    let mut i: usize = 0;
    while i < rows.len()
        invariant
            i <= rows.len(),
            values.len() == i,
            forall|k: int| 0 <= k < i ==> values[k] == rows_values(rows@)[k],
            forall|k: int| 0 <= k < i ==> is_json_value(#[trigger] values[k]),
        decreases rows.len() - i,
    {
        let value = read_row(&rows[i]);
        values.push(value);
        i += 1;
    }
    proof {
        assert(values@ =~= rows_values(rows@));
    }
    values
}

} // verus!
