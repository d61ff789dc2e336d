//! The PostgreSQL adapter: where to connect, what to send, and how to read
//! what the server gave back.
//!
//! The caller opens the connection and runs the statement. This module
//! builds the connection string and the statement, and turns the server's
//! reply into a [`QueryResult`].

use vstd::prelude::*;
use crate::json::{is_json_value, read_rows, rows_values};
use crate::query_result::{failure, success, QueryResult, QueryResultView};
use crate::text::{decimal, decimal_text, join, opt_text};

verus! {

/// The parameters of a PostgreSQL connection as given, each one optional.
pub struct TargetView {
    pub host: Option<Seq<char>>,
    pub port: Option<u16>,
    pub username: Option<Seq<char>>,
    pub password: Option<Seq<char>>,
    pub database: Option<Seq<char>>,
}

/// A text field, or its default where it is absent.
pub open spec fn text_or(field: Option<Seq<char>>, default: Seq<char>) -> Seq<char> {
    match field {
        Some(text) => text,
        None => default,
    }
}

/// The port, or 5432 where it is absent.
pub open spec fn port_or_default(port: Option<u16>) -> u16 {
    match port {
        Some(p) => p,
        None => 5432,
    }
}

/// The part of the URL that follows the credentials: `@host:port/database`.
pub open spec fn url_location(host: Seq<char>, port: u16, database: Seq<char>) -> Seq<char> {
    "@"@ + host + ":"@ + decimal_text(port as nat) + "/"@ + database
}

/// The connection URL for a target. Absent fields take their defaults:
/// host `localhost`, port 5432, user `postgres`, database `postgres`, empty
/// password. An empty password leaves the URL without a password segment.
/// No field is escaped.
pub open spec fn connection_url(target: TargetView) -> Seq<char> {
    let host = text_or(target.host, "localhost"@);
    let port = port_or_default(target.port);
    let username = text_or(target.username, "postgres"@);
    let password = text_or(target.password, ""@);
    let database = text_or(target.database, "postgres"@);
    if password.len() == 0 {
        "postgresql://"@ + username + url_location(host, port, database)
    } else {
        "postgresql://"@ + username + ":"@ + password + url_location(host, port, database)
    }
}

/// The statement that is run for `query`: the query as a sub-select, each of
/// its rows turned into one JSON object by the server.
pub open spec fn wrapped_query(query: Seq<char>) -> Seq<char> {
    "SELECT row_to_json(t) FROM ("@ + query + ") t"@
}

fn str_or<'a>(field: &'a Option<String>, default: &'a str) -> (text: &'a str)
    ensures
        text@ == text_or(opt_text(*field), default@),
{
    match field {
        Some(text) => text.as_str(),
        None => default,
    }
}

/// Builds the connection URL, see [`connection_url`].
pub fn postgres_connection_string(
    host: &Option<String>,
    port: Option<u16>,
    username: &Option<String>,
    password: &Option<String>,
    database: &Option<String>,
) -> (url: String)
    ensures
        url@ == connection_url(
            (TargetView {
                host: opt_text(*host),
                port,
                username: opt_text(*username),
                password: opt_text(*password),
                database: opt_text(*database),
            }),
        ),
{
    let host = str_or(host, "localhost");
    let port: u16 = match port {
        Some(p) => p,
        None => 5432,
    };
    let username = str_or(username, "postgres");
    let password = str_or(password, "");
    let database = str_or(database, "postgres");

    let mut url = join("postgresql://", username);
    if !password.is_empty() {
        url.append(":");
        url.append(password);
    }
    let ghost credentials = url@;
    url.append("@");
    url.append(host);
    url.append(":");
    let digits = decimal(port);
    url.append(digits.as_str());
    url.append("/");
    url.append(database);
    proof {
        assert(url@ =~= credentials + url_location(host@, port, database@));
        if password@.len() == 0 {
            assert(credentials =~= "postgresql://"@ + username@);
        } else {
            assert(credentials =~= "postgresql://"@ + username@ + ":"@ + password@);
        }
    }
    url
}

/// Wraps `query` for execution, see [`wrapped_query`]. The query is used as
/// it stands: a trailing semicolon or a second statement breaks the
/// wrapper, and nothing in it is escaped or bound.
pub fn wrap_query(query: &str) -> (statement: String)
    ensures
        statement@ == wrapped_query(query@),
{
    let mut statement = join("SELECT row_to_json(t) FROM (", query);
    statement.append(") t");
    statement
}

/// What came back from the server for one query.
#[derive(Debug, Clone, PartialEq, Eq)]
pub enum PostgresReply {
    /// The connection could not be opened; the diagnostic.
    ConnectionFailed(String),
    /// The statement was refused or failed; the diagnostic.
    QueryFailed(String),
    /// The rows in the order the server sent them. Each is the text of its
    /// single column, or `None` where that column could not be read.
    Rows(Vec<Option<String>>),
}

/// The result that a reply stands for.
pub open spec fn reply_result(reply: PostgresReply) -> QueryResultView {
    match reply {
        PostgresReply::ConnectionFailed(message) => failure("Connection error: "@ + message@),
        PostgresReply::QueryFailed(message) => failure("Query execution error: "@ + message@),
        PostgresReply::Rows(rows) => success(rows_values(rows@)),
    }
}

/// Turns the server's reply into the query's result. Rows are read as JSON
/// one by one, a bad row as null; an error of the connection or of the
/// statement fails the call with its message.
pub fn execute_postgres_query(reply: PostgresReply) -> (result: QueryResult)
    ensures
        result@ == reply_result(reply),
        result@.well_formed(),
        result.success == reply is Rows,
        result.success ==> forall|i: int|
            0 <= i < result.data.unwrap().len() ==> is_json_value(
                #[trigger] result.data.unwrap()[i],
            ),
        !result.success ==> result.error.unwrap()@.len() > 0,
{
    match reply {
        PostgresReply::ConnectionFailed(message) => {
            proof {
                reveal_strlit("Connection error: ");
            }
            QueryResult::failed(join("Connection error: ", message.as_str()))
        },
        PostgresReply::QueryFailed(message) => {
            proof {
                reveal_strlit("Query execution error: ");
            }
            QueryResult::failed(join("Query execution error: ", message.as_str()))
        },
        PostgresReply::Rows(rows) => QueryResult::succeeded(read_rows(&rows)),
    }
}

/// Answers a reachability probe: reachable exactly when the connection
/// opened. Why it failed makes no difference.
pub fn test_postgres_connection(attempt: &Result<(), String>) -> (reachable: bool)
    ensures
        reachable == attempt is Ok,
{
    attempt.is_ok()
}

} // verus!
