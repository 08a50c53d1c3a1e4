//! Client-side core of the PostgreSQL extended-query protocol, with
//! machine-checked contracts.
//!
//! A caller prepares a statement (`prepare`), encodes a request for it (`query`),
//! sends it to a `connection`, and feeds the backend messages that
//! the connection routes to it into a consumer (`stream`): a stream of
//! rows, gathered rows, or the count of affected rows. Requests are
//! pipelined: any number may be outstanding, and every message goes to
//! the oldest request that has not ended. Server errors carry a
//! SQLSTATE code that a registry classifies (`sqlstate`); the registry
//! is built from the error-code catalogue (`catalogue`), from which
//! the source text of a static registry can be written too
//! (`codegen`).
//!
//! Nothing here reads or writes a socket or a file. A driver moves
//! bytes between the stream and the connection, and hands each
//! message to the consumer that the connection names.

pub mod catalogue;
pub mod codegen;
pub mod connection;
pub mod error;
pub mod generic_client;
pub mod message;
pub mod prepare;
mod private;
pub mod query;
pub mod sqlstate;
pub mod stream;
pub mod text;
pub mod types;
pub mod wire;
