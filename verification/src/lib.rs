//! Prepared-statement handles and column metadata for a PostgreSQL
//! wire-protocol client.
//!
//! A [`Statement`] is a cheaply shareable handle to a server-side prepared
//! statement; when the last handle is released the statement is closed on the
//! server, best-effort. A [`Column`] describes one result column and derives
//! the standard precision and scale figures from the column's type and raw
//! type modifier, following PostgreSQL's own conventions.

pub mod column;
pub mod statement;
pub mod types;
pub mod wire;

pub use column::Column;
pub use statement::Statement;
pub use types::Type;
