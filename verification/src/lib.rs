//! Verified persistence core for a local, single-user job-application tracker.
//!
//! The library covers the entity-agnostic mechanism shared by every stored
//! entity: the codec between closed enumerations and their fixed stored
//! tokens, the partial-update statement builder with its bind-order
//! invariant, the idempotent schema-bootstrap plan, and the decoding of
//! returned rows into typed records.  Statement execution is asynchronous
//! I/O and stays outside the library; callers hand rows in and take typed
//! values back.

pub mod bootstrap;
pub mod commands;
pub mod date;
pub mod enums;
pub mod labels;
pub mod models;
pub mod schema;
pub mod statements;
pub mod text;
pub mod update;

pub use text::i64_to_string;
pub use text::str_eq;
pub use text::trim_str;
