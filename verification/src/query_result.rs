//! The uniform answer to a query.

use vstd::prelude::*;
use crate::text::opt_text;

verus! {

/// The uniform answer to a query, whichever backend ran it.
#[derive(Debug, Clone, PartialEq, Eq)]
pub struct QueryResult {
    pub success: bool,
    pub data: Option<Vec<serde_json::Value>>,
    pub error: Option<String>,
    pub row_count: usize,
}

/// The mathematical value of a [`QueryResult`].
pub struct QueryResultView {
    pub success: bool,
    pub data: Option<Seq<serde_json::Value>>,
    pub error: Option<Seq<char>>,
    pub row_count: nat,
}

impl View for QueryResult {
    type V = QueryResultView;

    open spec fn view(&self) -> QueryResultView {
        QueryResultView {
            success: self.success,
            data: match self.data {
                Some(values) => Some(values@),
                None => None,
            },
            error: opt_text(self.error),
            row_count: self.row_count as nat,
        }
    }
}

impl QueryResultView {
    /// A success carries its rows and their count and no error. A failure
    /// carries an error, no rows and a count of zero.
    pub open spec fn well_formed(self) -> bool {
        if self.success {
            &&& self.data is Some
            &&& self.row_count == self.data.unwrap().len()
            &&& self.error is None
        } else {
            &&& self.data is None
            &&& self.row_count == 0
            &&& self.error is Some
        }
    }
}

/// The failure that carries `message`.
pub open spec fn failure(message: Seq<char>) -> QueryResultView {
    QueryResultView { success: false, data: None, error: Some(message), row_count: 0 }
}

/// The success that carries `values`.
pub open spec fn success(values: Seq<serde_json::Value>) -> QueryResultView {
    QueryResultView { success: true, data: Some(values), error: None, row_count: values.len() }
}

impl QueryResult {
    /// A failed query with its diagnostic.
    pub fn failed(message: String) -> (result: QueryResult)
        ensures
            result@ == failure(message@),
            result@.well_formed(),
    {
        QueryResult { success: false, data: None, error: Some(message), row_count: 0 }
    }

    /// A query that gave `values`, one per row.
    pub fn succeeded(values: Vec<serde_json::Value>) -> (result: QueryResult)
        ensures
            result@ == success(values@),
            result@.well_formed(),
    {
        let row_count = values.len();
        QueryResult { success: true, data: Some(values), error: None, row_count }
    }
}

} // verus!
