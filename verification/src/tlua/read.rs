use crate::tlua::state::Lua;
use crate::tlua::value::{TableValue, Value};
use vstd::prelude::*;

verus! {

/// Host types that can be read off the stack of a context.
///
/// A read looks at the slot that an index stands for and, for a type of
/// several values, at the slots above it. It changes nothing. Whether it
/// succeeds, and what it returns, depends on the values from that slot
/// upward and on the tables of the store alone: an index that stands for
/// no slot reads as no values.
pub trait LuaRead: Sized {
    /// The name of the host type, as an error reports it.
    spec fn expected_name_spec() -> Seq<char>;

    /// The number of values that a read of this type expects.
    spec fn n_values_spec() -> int;

    /// Whether `vals`, the values from a place upward, can be read as this
    /// type in a context with the store `tables`.
    spec fn readable(tables: Seq<TableValue>, vals: Seq<Value>) -> bool;

    /// Whether `r` is what a read of `vals` returns in a context with the
    /// store `tables`.
    spec fn decodes(tables: Seq<TableValue>, vals: Seq<Value>, r: Self) -> bool;

    /// The name of the host type, as an error reports it.
    fn expected_name() -> (s: String)
        ensures
            s@ == Self::expected_name_spec(),
    ;

    /// The number of values that a read of this type expects.
    fn n_values_expected() -> (n: i32)
        ensures
            n == Self::n_values_spec(),
            0 <= n,
    ;

    /// Reads the value at `index`.
    fn lua_read_at_position(lua: &Lua, index: i32) -> (r: Option<Self>)
        requires
            lua.inv(),
        ensures
            r.is_some() == Self::readable(lua@.tables, lua@.values_from(index as int)),
            r matches Some(v) ==> Self::decodes(lua@.tables, lua@.values_from(index as int), v),
    ;

    /// Reads the value that the topmost slots hold: as many slots as the
    /// type expects values.
    fn lua_read(lua: &Lua) -> (r: Option<Self>)
        requires
            lua.inv(),
        ensures
            r.is_some() == Self::readable(lua@.tables, lua@.values_from(-Self::n_values_spec())),
            r matches Some(v) ==> Self::decodes(
                lua@.tables,
                lua@.values_from(-Self::n_values_spec()),
                v,
            ),
    {
        let n = Self::n_values_expected();
        Self::lua_read_at_position(lua, -n)
    }

    /// Reads the value at `index`, where a zero index reads nothing.
    fn lua_read_at_maybe_zero_position(lua: &Lua, index: i32) -> (r: Option<Self>)
        requires
            lua.inv(),
        ensures
            r.is_some() == (index != 0 && Self::readable(
                lua@.tables,
                lua@.values_from(index as int),
            )),
            r matches Some(v) ==> Self::decodes(lua@.tables, lua@.values_from(index as int), v),
    {
        if index != 0 {
            Self::lua_read_at_position(lua, index)
        } else {
            None
        }
    }
}

} // verus!
