//! A pass-through wrapper that lets any serializable value be kept in a
//! database column as one binary blob, with the rules by which each supported
//! database client binds such a blob as a parameter and reads it back.
//!
//! The wrapper never looks inside its payload. Turning a payload into bytes
//! and back is the work of a binary document format that the caller hands in
//! as a function; the bindings decide what the database client is given for
//! each outcome of that work.

pub mod codec;
pub mod rusqlite_binding;
pub mod sqlx_binding;
pub mod wrapper;

pub use wrapper::DBson;
