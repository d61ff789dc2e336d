use desk_backend::gateway::{execute_database_query, test_database_connection};
use desk_backend::json::{read_row, read_rows, value_or_null};
use desk_backend::{DatabaseConnectionTest, ProbeStep, QueryResult, QueryStep};
use serde_json::Value;

fn descriptor(kind: &str) -> DatabaseConnectionTest {
    DatabaseConnectionTest {
        connection_type: kind.to_string(),
        host: None,
        port: None,
        username: None,
        password: None,
        database: None,
        connection_string: None,
    }
}

fn failed(message: &str) -> QueryStep {
    QueryStep::Finished(QueryResult {
        success: false,
        data: None,
        error: Some(message.to_string()),
        row_count: 0,
    })
}

#[test]
fn sqlite_probe_without_connection_string_fails() {
    assert_eq!(test_database_connection(&descriptor("sqlite")), ProbeStep::Answer(false));
}

#[test]
fn sqlite_probe_with_connection_string_succeeds_whatever_it_holds() {
    for path in ["app.db", ":memory:", "/no/such/dir/x.sqlite", "???"] {
        let mut d = descriptor("sqlite");
        d.connection_string = Some(path.to_string());
        assert_eq!(test_database_connection(&d), ProbeStep::Answer(true));
    }
}

#[test]
fn sqlite_probe_counts_an_empty_connection_string_as_given() {
    let mut d = descriptor("sqlite");
    d.connection_string = Some(String::new());
    assert_eq!(test_database_connection(&d), ProbeStep::Answer(true));
}

#[test]
fn sqlite_probe_ignores_the_other_fields() {
    let mut d = descriptor("sqlite");
    d.host = Some("h".to_string());
    d.port = Some(1);
    d.username = Some("u".to_string());
    d.password = Some("p".to_string());
    d.database = Some("d".to_string());
    assert_eq!(test_database_connection(&d), ProbeStep::Answer(false));
}

#[test]
fn postgres_probe_asks_for_a_connection() {
    assert_eq!(
        test_database_connection(&descriptor("postgres")),
        ProbeStep::Connect("postgresql://postgres@localhost:5432/postgres".to_string())
    );
    let mut d = descriptor("postgres");
    d.host = Some("10.0.0.5".to_string());
    d.port = Some(5433);
    d.username = Some("bob".to_string());
    d.password = Some("pw".to_string());
    d.database = Some("inventory".to_string());
    d.connection_string = Some("ignored".to_string());
    assert_eq!(
        test_database_connection(&d),
        ProbeStep::Connect("postgresql://bob:pw@10.0.0.5:5433/inventory".to_string())
    );
}

#[test]
fn mysql_probe_always_succeeds() {
    assert_eq!(test_database_connection(&descriptor("mysql")), ProbeStep::Answer(true));
}

#[test]
fn mongodb_probe_always_fails() {
    let mut d = descriptor("mongodb");
    d.connection_string = Some("mongodb://localhost".to_string());
    assert_eq!(test_database_connection(&d), ProbeStep::Answer(false));
}

#[test]
fn unknown_kind_probe_fails() {
    for kind in ["oracle", "", "SQLite", "postgresql", " mysql", "sqlite3"] {
        let mut d = descriptor(kind);
        d.connection_string = Some("x".to_string());
        assert_eq!(test_database_connection(&d), ProbeStep::Answer(false), "{kind:?}");
    }
}

#[test]
fn postgres_query_is_wrapped_and_sent() {
    let step = execute_database_query(&descriptor("postgres"), "SELECT 1 AS x", None);
    assert_eq!(
        step,
        QueryStep::Run {
            connection_string: "postgresql://postgres@localhost:5432/postgres".to_string(),
            statement: "SELECT row_to_json(t) FROM (SELECT 1 AS x) t".to_string(),
        }
    );
}

#[test]
fn limit_is_not_applied() {
    let d = descriptor("postgres");
    let without = execute_database_query(&d, "SELECT * FROM t", None);
    let with = execute_database_query(&d, "SELECT * FROM t", Some(10));
    let negative = execute_database_query(&d, "SELECT * FROM t", Some(-1));
    assert_eq!(without, with);
    assert_eq!(without, negative);
}

#[test]
fn sqlite_query_is_not_yet_implemented() {
    let mut d = descriptor("sqlite");
    d.connection_string = Some("app.db".to_string());
    assert_eq!(
        execute_database_query(&d, "SELECT 1", None),
        failed("sqlite execution not yet implemented")
    );
}

#[test]
fn mysql_query_is_not_yet_implemented() {
    assert_eq!(
        execute_database_query(&descriptor("mysql"), "SELECT 1", Some(5)),
        failed("mysql execution not yet implemented")
    );
}

#[test]
fn not_implemented_error_names_the_kind_as_given() {
    for kind in ["sqlite", "mysql"] {
        match execute_database_query(&descriptor(kind), "SELECT 1", None) {
            QueryStep::Finished(result) => {
                assert!(!result.success);
                assert_eq!(result.data, None);
                assert_eq!(result.row_count, 0);
                let error = result.error.unwrap();
                assert!(error.starts_with(kind));
                assert_eq!(error, format!("{kind} execution not yet implemented"));
            }
            QueryStep::Run { .. } => panic!("nothing runs for {kind}"),
        }
    }
}

#[test]
fn mongodb_query_is_an_unknown_kind() {
    assert_eq!(
        execute_database_query(&descriptor("mongodb"), "{}", None),
        failed("Unknown database type: mongodb")
    );
}

#[test]
fn unknown_kind_query_names_the_kind() {
    for kind in ["oracle", "", "Postgres", "redis://x"] {
        let step = execute_database_query(&descriptor(kind), "SELECT 1", None);
        assert_eq!(step, failed(&format!("Unknown database type: {kind}")));
        match step {
            QueryStep::Finished(result) => {
                assert!(!result.success);
                assert!(result.error.unwrap().contains(kind));
            }
            QueryStep::Run { .. } => panic!("an unknown kind runs nothing"),
        }
    }
}

#[test]
fn value_or_null_keeps_a_parsed_value() {
    assert_eq!(value_or_null(Some(Value::Bool(false))), Value::Bool(false));
    assert_eq!(value_or_null(Some(Value::Null)), Value::Null);
    assert_eq!(value_or_null(None), Value::Null);
}

#[test]
fn read_row_parses_or_gives_null() {
    assert_eq!(read_row(&Some("[true]".to_string())), Value::Array(vec![Value::Bool(true)]));
    assert_eq!(read_row(&Some("[true".to_string())), Value::Null);
    assert_eq!(read_row(&None), Value::Null);
}

#[test]
fn read_rows_gives_one_value_per_row() {
    let rows = vec![Some("1".to_string()), None, Some("\"a\"".to_string())];
    let values = read_rows(&rows);
    assert_eq!(values.len(), rows.len());
    assert_eq!(values[1], Value::Null);
    assert_eq!(values[2], Value::String("a".to_string()));
    assert_eq!(read_rows(&Vec::new()), Vec::<Value>::new());
}
