//! The database gateway: routes a connection descriptor, and a query where
//! there is one, to the backend that its kind names.
//!
//! Routing depends on the kind alone. Where the backend needs a server, the
//! gateway says what to do next ([`ProbeStep::Connect`], [`QueryStep::Run`])
//! and the caller comes back with what happened.

use vstd::prelude::*;
use crate::postgres::{
    connection_url, postgres_connection_string, wrap_query, wrapped_query, TargetView,
};
use crate::query_result::{failure, QueryResult, QueryResultView};
use crate::text::{
    contains_text, join, lemma_prefix_occurs, lemma_suffix_occurs, opt_text, same_text,
};

verus! {

/// The parameters that name a database and the way to reach it. Only the
/// kind is required; which of the others matter depends on the kind.
#[derive(Debug, Clone, PartialEq, Eq)]
pub struct DatabaseConnectionTest {
    pub connection_type: String,
    pub host: Option<String>,
    pub port: Option<u16>,
    pub username: Option<String>,
    pub password: Option<String>,
    pub database: Option<String>,
    pub connection_string: Option<String>,
}

/// The mathematical value of a [`DatabaseConnectionTest`].
pub struct DescriptorView {
    pub connection_type: Seq<char>,
    pub host: Option<Seq<char>>,
    pub port: Option<u16>,
    pub username: Option<Seq<char>>,
    pub password: Option<Seq<char>>,
    pub database: Option<Seq<char>>,
    pub connection_string: Option<Seq<char>>,
}

impl View for DatabaseConnectionTest {
    type V = DescriptorView;

    open spec fn view(&self) -> DescriptorView {
        DescriptorView {
            connection_type: self.connection_type@,
            host: opt_text(self.host),
            port: self.port,
            username: opt_text(self.username),
            password: opt_text(self.password),
            database: opt_text(self.database),
            connection_string: opt_text(self.connection_string),
        }
    }
}

impl DescriptorView {
    /// The fields that a PostgreSQL connection is built from.
    pub open spec fn target(self) -> TargetView {
        TargetView {
            host: self.host,
            port: self.port,
            username: self.username,
            password: self.password,
            database: self.database,
        }
    }
}

/// What to do about a reachability probe.
#[derive(Debug, Clone, PartialEq, Eq)]
pub enum ProbeStep {
    /// The answer is known without any outside work.
    Answer(bool),
    /// Open a PostgreSQL connection with this connection string, close it at
    /// once, and give the outcome to
    /// [`test_postgres_connection`](crate::postgres::test_postgres_connection).
    Connect(String),
}

/// The mathematical value of a [`ProbeStep`].
pub enum ProbeStepView {
    Answer(bool),
    Connect(Seq<char>),
}

impl View for ProbeStep {
    type V = ProbeStepView;

    open spec fn view(&self) -> ProbeStepView {
        match self {
            ProbeStep::Answer(reachable) => ProbeStepView::Answer(*reachable),
            ProbeStep::Connect(url) => ProbeStepView::Connect(url@),
        }
    }
}

/// What to do about a query.
#[derive(Debug, Clone, PartialEq, Eq)]
pub enum QueryStep {
    /// The result is known without any outside work.
    Finished(QueryResult),
    /// Open a PostgreSQL connection with `connection_string`, run
    /// `statement` without parameters, and give the reply to
    /// [`execute_postgres_query`](crate::postgres::execute_postgres_query).
    Run { connection_string: String, statement: String },
}

/// The mathematical value of a [`QueryStep`].
pub enum QueryStepView {
    Finished(QueryResultView),
    Run { connection_string: Seq<char>, statement: Seq<char> },
}

impl View for QueryStep {
    type V = QueryStepView;

    open spec fn view(&self) -> QueryStepView {
        match self {
            QueryStep::Finished(result) => QueryStepView::Finished(result@),
            QueryStep::Run { connection_string, statement } => QueryStepView::Run {
                connection_string: connection_string@,
                statement: statement@,
            },
        }
    }
}

/// The step that a probe of `descriptor` takes.
///
/// `sqlite` is reachable exactly when a connection string was given,
/// whatever it holds. `postgres` needs a connection attempt. `mysql` always
/// counts as reachable, `mongodb` and every other kind never.
pub open spec fn probe_step(descriptor: DescriptorView) -> ProbeStepView {
    let kind = descriptor.connection_type;
    if kind == "sqlite"@ {
        ProbeStepView::Answer(descriptor.connection_string is Some)
    } else if kind == "postgres"@ {
        ProbeStepView::Connect(connection_url(descriptor.target()))
    } else if kind == "mysql"@ {
        ProbeStepView::Answer(true)
    } else {
        ProbeStepView::Answer(false)
    }
}

/// The error of a query to a kind that the gateway does not know.
pub open spec fn unknown_kind_error(kind: Seq<char>) -> Seq<char> {
    "Unknown database type: "@ + kind
}

/// The error of a query to a kind whose backend cannot run queries yet: the
/// kind as it was given, then the fixed text.
pub open spec fn not_implemented_error(kind: Seq<char>) -> Seq<char> {
    kind + " execution not yet implemented"@
}

/// The step that a query to `descriptor` takes.
///
/// `postgres` runs the wrapped query. `sqlite` and `mysql` fail as not yet
/// implemented. Every other kind fails as unknown. Either error names the
/// kind.
pub open spec fn query_step(descriptor: DescriptorView, query: Seq<char>) -> QueryStepView {
    let kind = descriptor.connection_type;
    if kind == "postgres"@ {
        QueryStepView::Run {
            connection_string: connection_url(descriptor.target()),
            statement: wrapped_query(query),
        }
    } else if kind == "sqlite"@ || kind == "mysql"@ {
        QueryStepView::Finished(failure(not_implemented_error(kind)))
    } else {
        QueryStepView::Finished(failure(unknown_kind_error(kind)))
    }
}

/// The kinds that a query is routed by: every other kind is answered as
/// unknown.
pub open spec fn known_for_queries(kind: Seq<char>) -> bool {
    kind == "postgres"@ || kind == "sqlite"@ || kind == "mysql"@
}

/// The kinds that a descriptor may name: `sqlite`, `postgres`, `mysql` and
/// `mongodb`.
pub open spec fn known_for_probes(kind: Seq<char>) -> bool {
    kind == "sqlite"@ || kind == "postgres"@ || kind == "mysql"@ || kind == "mongodb"@
}

fn connection_string_of(descriptor: &DatabaseConnectionTest) -> (url: String)
    ensures
        url@ == connection_url(descriptor@.target()),
{
    postgres_connection_string(
        &descriptor.host,
        descriptor.port,
        &descriptor.username,
        &descriptor.password,
        &descriptor.database,
    )
}

/// Routes a reachability probe by the descriptor's kind.
pub fn test_database_connection(descriptor: &DatabaseConnectionTest) -> (step: ProbeStep)
    ensures
        step@ == probe_step(descriptor@),
        !known_for_probes(descriptor.connection_type@) ==> step@ == ProbeStepView::Answer(false),
{
    let kind = descriptor.connection_type.as_str();
    if same_text(kind, "sqlite") {
        ProbeStep::Answer(descriptor.connection_string.is_some())
    } else if same_text(kind, "postgres") {
        ProbeStep::Connect(connection_string_of(descriptor))
    } else if same_text(kind, "mysql") {
        ProbeStep::Answer(true)
    } else {
        ProbeStep::Answer(false)
    }
}

/// Routes a query by the descriptor's kind. `limit` is accepted and not
/// applied by any backend.
pub fn execute_database_query(
    descriptor: &DatabaseConnectionTest,
    query: &str,
    limit: Option<i64>,
) -> (step: QueryStep)
    ensures
        step@ == query_step(descriptor@, query@),
        step matches QueryStep::Finished(result) ==> !result.success && result@.well_formed(),
        step matches QueryStep::Finished(result) ==> contains_text(
            result.error.unwrap()@,
            descriptor.connection_type@,
        ),
        descriptor.connection_type@ != "postgres"@ ==> step is Finished,
{
    let kind = descriptor.connection_type.as_str();
    if same_text(kind, "postgres") {
        QueryStep::Run {
            connection_string: connection_string_of(descriptor),
            statement: wrap_query(query),
        }
    } else if same_text(kind, "sqlite") || same_text(kind, "mysql") {
        proof {
            lemma_prefix_occurs(kind@, " execution not yet implemented"@);
        }
        QueryStep::Finished(QueryResult::failed(join(kind, " execution not yet implemented")))
    } else {
        proof {
            lemma_suffix_occurs("Unknown database type: "@, kind@);
        }
        QueryStep::Finished(QueryResult::failed(join("Unknown database type: ", kind)))
    }
}

} // verus!
