//! The marshalling layer between host values and the value stack of a
//! context.
//!
//! `state` holds the context: the stack, the store of tables, and the
//! primitives on both. `guard` holds the ownership of stack slots and the
//! resolved index. `push` and `read` are the two capabilities that a host
//! type implements to cross, in `numbers`, `values`, `tuples` and
//! `rust_tables` for the types of the host language. `lua_tables` and
//! `lua_functions` are the handles on tables and functions. `laws` states
//! what holds across a push and a read.
//!
//! Running code is not part of this crate. Where a call has to run a
//! function or a source text, it takes an engine, a closure that stands for
//! the interpreter: the engine is handed the store of tables and reports
//! the store as the run left it, and the call is verified for whatever the
//! engine reports.

pub mod context;
pub mod error;
pub mod functions_write;
pub mod guard;
pub mod laws;
pub mod lua_functions;
pub mod lua_tables;
pub mod numbers;
pub mod push;
pub mod read;
pub mod rust_tables;
pub mod state;
pub mod tuples;
pub mod value;
pub mod values;

pub use error::{typename, typenames, LuaError};
pub use functions_write::{call_host, Function};
pub use guard::{AbsoluteIndex, PushGuard};
pub use laws::{push_and_read, Flat, RoundTrip};
pub use lua_functions::{
    display, finish_run, number_text, read_results, CallOutcome, LuaFunction,
    LuaFunctionCallError, Run,
};
pub use lua_tables::{CheckedSetError, LuaTable, LuaTableIterator, MethodCallError};
pub use push::{Push, PushInto, PushOne, PushOneInto, Void};
pub use read::LuaRead;
pub use rust_tables::{PushIterError, TableMap};
pub use state::{
    Lua, GLOBALS, LUAI_MAXCSTACK, LUA_GLOBALSINDEX, LUA_REGISTRYINDEX, REGISTRY,
};
pub use tuples::TuplePushError;
pub use value::{LuaType, LuaValue, TableData};
pub use values::{False, Nil, True, UnknownTable};
