//! Values cross between a statically typed host and an embedded script
//! interpreter over one shared value stack. This crate holds that stack,
//! and the tables that its values name, as plain data and states, for every
//! operation on it, where each value lies before and after: what a push
//! puts on the stack, what a read makes of the slots it looks at, what a
//! store does to a table, what a run of code leaves behind, and that a step
//! which fails leaves the context as it found it.
//!
//! `tlua` is the marshalling layer. `error` and `c_api` hold the error codes
//! and the small enumerations of the data store that the interpreter runs
//! beside. `external` holds the few items of the standard library that are
//! taken on trust.

pub mod c_api;
pub mod error;
pub mod external;
pub mod tlua;
