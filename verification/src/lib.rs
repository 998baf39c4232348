//! Verified core of a small CRUD backend for a `users` table.
//!
//! The library holds the decision logic of the service: the data model,
//! a verified model of the table's lifecycle, the SQL statements and
//! parameters each operation issues, the connection-bootstrap fallback,
//! the idempotent schema-initialization state machine, and the mapping
//! from database outcomes to HTTP-level responses. The surrounding
//! process (routing, the connection pool, actual I/O) lives outside the
//! library and drives it with plain values.

pub mod conn;
pub mod models;
pub mod plan;
pub mod response;
pub mod schema;
pub mod store;

pub use models::CreateUser;
pub use models::UpdateUser;
pub use models::User;
