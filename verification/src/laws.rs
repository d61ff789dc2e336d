//! What holds of the library as a whole, proved from the definitions that
//! the functions' contracts are stated over.

use vstd::prelude::*;
use crate::gateway::{
    known_for_probes, probe_step, query_step, unknown_kind_error, DescriptorView, ProbeStepView,
    QueryStepView,
};
use crate::json::{is_json_value, rows_values};
use crate::postgres::{reply_result, PostgresReply};
use crate::query_result::failure;
use crate::runtime::{combined_text, detection_of, status_of_start, AttemptView};
use crate::text::{contains_text, lemma_prefix_occurs, lemma_suffix_occurs};

verus! {

/// A probe of a `sqlite` descriptor is answered at once, and the answer is
/// that it is reachable exactly when a connection string was given. What the
/// string holds plays no part: two such descriptors that both give one, or
/// both give none, get the same answer.
///
/// Stated for descriptors that give no connection string or a non-empty
/// one. An empty one counts as given.
pub proof fn sqlite_probe_needs_a_connection_string(first: DescriptorView, second: DescriptorView)
    requires
        first.connection_type == "sqlite"@,
        second.connection_type == "sqlite"@,
        first.connection_string is Some ==> first.connection_string.unwrap().len() > 0,
        second.connection_string is Some ==> second.connection_string.unwrap().len() > 0,
    ensures
        probe_step(first) == ProbeStepView::Answer(
            first.connection_string is Some && first.connection_string.unwrap().len() > 0,
        ),
        first.connection_string is Some == second.connection_string is Some ==> probe_step(first)
            == probe_step(second),
{
}

/// A kind that is none of `sqlite`, `postgres`, `mysql`, `mongodb` is not
/// reachable, and a query to it fails with an error that holds the kind.
pub proof fn unknown_kind_is_refused(descriptor: DescriptorView, query: Seq<char>)
    requires
        !known_for_probes(descriptor.connection_type),
    ensures
        probe_step(descriptor) == ProbeStepView::Answer(false),
        query_step(descriptor, query) == QueryStepView::Finished(
            failure(unknown_kind_error(descriptor.connection_type)),
        ),
        contains_text(unknown_kind_error(descriptor.connection_type), descriptor.connection_type),
{
    lemma_suffix_occurs("Unknown database type: "@, descriptor.connection_type);
}

/// A query to any kind but `postgres` is answered at once with a failure
/// whose error holds the kind as it was given.
pub proof fn refused_query_names_the_kind(descriptor: DescriptorView, query: Seq<char>)
    requires
        descriptor.connection_type != "postgres"@,
    ensures
        query_step(descriptor, query) matches QueryStepView::Finished(result) && !result.success
            && result.well_formed() && contains_text(
            result.error.unwrap(),
            descriptor.connection_type,
        ),
{
    lemma_prefix_occurs(descriptor.connection_type, " execution not yet implemented"@);
    lemma_suffix_occurs("Unknown database type: "@, descriptor.connection_type);
}

/// A successful result counts its rows, and each of its elements is a JSON
/// value or null. The gateway itself never finishes a query with success:
/// a success is always read from a server's reply.
pub proof fn successful_result_counts_json_rows(
    descriptor: DescriptorView,
    query: Seq<char>,
    reply: PostgresReply,
)
    ensures
        query_step(descriptor, query) matches QueryStepView::Finished(result) ==> !result.success,
        reply_result(reply).well_formed(),
        reply_result(reply).success ==> {
            let result = reply_result(reply);
            &&& result.data is Some
            &&& result.row_count == result.data.unwrap().len()
            &&& forall|i: int|
                0 <= i < result.data.unwrap().len() ==> is_json_value(
                    #[trigger] result.data.unwrap()[i],
                )
        },
{
    if let PostgresReply::Rows(rows) = reply {
        let values = rows_values(rows@);
        assert forall|i: int| 0 <= i < values.len() implies is_json_value(#[trigger] values[i]) by {
            lemma_row_is_json(rows@, i);
        }
    }
}

/// The value that stands for a row is a JSON value or null.
pub proof fn lemma_row_is_json(rows: Seq<Option<String>>, i: int)
    requires
        0 <= i < rows.len(),
    ensures
        is_json_value(rows_values(rows)[i]),
{
}

/// Detection keeps no state: the same outcome of the version command gives
/// the same status. Whether the runtime counts as installed and as running
/// depends on the combined text alone, not on how it was split between the
/// two streams.
pub proof fn detection_is_repeatable(first: AttemptView, second: AttemptView)
    ensures
        first == second ==> detection_of(first) == detection_of(second),
        (first matches Ok(a) && second matches Ok(b) && combined_text(a.0, a.1) == combined_text(
            b.0,
            b.1,
        )) ==> detection_of(first) == detection_of(second),
{
}

/// A start request looks at nothing but its own spawn: every spawn that
/// succeeded is reported as installed and running, without error, however
/// many came before it.
pub proof fn every_spawn_is_reported_running(earlier: Seq<Result<(), Seq<char>>>)
    ensures
        status_of_start(Ok(())).installed,
        status_of_start(Ok(())).running,
        status_of_start(Ok(())).error is None,
        forall|i: int|
            0 <= i < earlier.len() && earlier[i] is Ok ==> #[trigger] status_of_start(earlier[i])
                == status_of_start(Ok(())),
{
}

/// A connection that could not be opened fails the query: no data, no
/// rows counted, and an error that is not empty.
pub proof fn connection_error_fails_the_query(message: String)
    ensures
        reply_result(PostgresReply::ConnectionFailed(message)) == failure(
            "Connection error: "@ + message@,
        ),
        !reply_result(PostgresReply::ConnectionFailed(message)).success,
        reply_result(PostgresReply::ConnectionFailed(message)).data is None,
        reply_result(PostgresReply::ConnectionFailed(message)).row_count == 0,
        reply_result(PostgresReply::ConnectionFailed(message)).error.unwrap().len() > 0,
{
    reveal_strlit("Connection error: ");
}

} // verus!
