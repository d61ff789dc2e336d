//! Decision logic of a small desktop backend: supervision of a local model
//! runtime and a gateway that routes database requests to a backend adapter.
//!
//! The library holds no process, socket or file handle. Callers perform the
//! outside work and hand over plain values; every answer is a value.

pub mod gateway;
pub mod json;
pub mod laws;
pub mod postgres;
pub mod query_result;
pub mod runtime;
pub mod text;

pub use gateway::{DatabaseConnectionTest, ProbeStep, QueryStep};
pub use postgres::PostgresReply;
pub use query_result::QueryResult;
pub use runtime::{EnvironmentVariable, OllamaStatus, ProcessOutput, ShellCommand};
