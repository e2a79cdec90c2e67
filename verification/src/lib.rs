//! A synchronous boundary layer over the DataFusion query engine.
//!
//! The crate wraps the engine's sessions, SQL execution, table registration
//! and columnar export behind plain-value entry points, and reports every
//! failure through an error-slot protocol: a fallible operation either
//! succeeds and leaves the slot untouched, or fails, returns its sentinel
//! value, and (when the caller asked for detail) stores one categorized,
//! NUL-terminated error record in the slot.

pub mod data_frame;
pub mod engine;
pub mod error;
pub mod options;
pub mod schema;
pub mod session;
