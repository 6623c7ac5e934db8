use crate::tlua::guard::PushGuard;
use crate::tlua::push::{plain, Push, PushOne, Pushed, Void};
use crate::tlua::read::LuaRead;
use crate::tlua::state::Lua;
use crate::tlua::value::{LuaValue, TableValue, Value};
use vstd::prelude::*;
use vstd::string::StringExecFns;

verus! {

impl Push for bool {
    type Err = Void;

    open spec fn outcome(&self, base: nat) -> Result<Pushed, Void> {
        Ok(plain(seq![Value::Boolean(*self)]))
    }

    open spec fn peak(&self) -> nat {
        1
    }

    fn push_to_lua(&self, lua: &mut Lua) -> (r: Result<PushGuard, Void>) {
        lua.pushboolean(*self);
        Ok(PushGuard::new(lua, 1))
    }
}

impl PushOne for bool {
    proof fn lemma_pushes_one(&self, base: nat) {
    }
}

impl LuaRead for bool {
    open spec fn expected_name_spec() -> Seq<char> {
        "bool"@
    }

    open spec fn n_values_spec() -> int {
        1
    }

    open spec fn readable(tables: Seq<TableValue>, vals: Seq<Value>) -> bool {
        vals.len() > 0 && vals[0] is Boolean
    }

    open spec fn decodes(tables: Seq<TableValue>, vals: Seq<Value>, r: bool) -> bool {
        vals.len() > 0 && vals[0] == Value::Boolean(r)
    }

    fn expected_name() -> (s: String) {
        String::from_str("bool")
    }

    fn n_values_expected() -> (n: i32) {
        1
    }

    fn lua_read_at_position(lua: &Lua, index: i32) -> (r: Option<bool>) {
        lua.toboolean(index)
    }
}

impl Push for str {
    type Err = Void;

    open spec fn outcome(&self, base: nat) -> Result<Pushed, Void> {
        Ok(plain(seq![Value::Text(self@)]))
    }

    open spec fn peak(&self) -> nat {
        1
    }

    fn push_to_lua(&self, lua: &mut Lua) -> (r: Result<PushGuard, Void>) {
        lua.pushstring(self);
        Ok(PushGuard::new(lua, 1))
    }
}

impl PushOne for str {
    proof fn lemma_pushes_one(&self, base: nat) {
    }
}

impl Push for String {
    type Err = Void;

    open spec fn outcome(&self, base: nat) -> Result<Pushed, Void> {
        Ok(plain(seq![Value::Text(self@)]))
    }

    open spec fn peak(&self) -> nat {
        1
    }

    fn push_to_lua(&self, lua: &mut Lua) -> (r: Result<PushGuard, Void>) {
        lua.pushstring(self.as_str());
        Ok(PushGuard::new(lua, 1))
    }
}

impl PushOne for String {
    proof fn lemma_pushes_one(&self, base: nat) {
    }
}

impl LuaRead for String {
    open spec fn expected_name_spec() -> Seq<char> {
        "text"@
    }

    open spec fn n_values_spec() -> int {
        1
    }

    open spec fn readable(tables: Seq<TableValue>, vals: Seq<Value>) -> bool {
        vals.len() > 0 && vals[0] is Text
    }

    open spec fn decodes(tables: Seq<TableValue>, vals: Seq<Value>, r: String) -> bool {
        vals.len() > 0 && vals[0] == Value::Text(r@)
    }

    fn expected_name() -> (s: String) {
        String::from_str("text")
    }

    fn n_values_expected() -> (n: i32) {
        1
    }

    fn lua_read_at_position(lua: &Lua, index: i32) -> (r: Option<String>) {
        lua.tostring(index)
    }
}

/// The nil of the interpreter, as a host value.
#[derive(Debug, Clone, Copy, PartialEq, Eq, Structural)]
pub struct Nil;

impl Push for Nil {
    type Err = Void;

    open spec fn outcome(&self, base: nat) -> Result<Pushed, Void> {
        Ok(plain(seq![Value::Nil]))
    }

    open spec fn peak(&self) -> nat {
        1
    }

    fn push_to_lua(&self, lua: &mut Lua) -> (r: Result<PushGuard, Void>) {
        lua.pushnil();
        Ok(PushGuard::new(lua, 1))
    }
}

impl PushOne for Nil {
    proof fn lemma_pushes_one(&self, base: nat) {
    }
}

impl LuaRead for Nil {
    open spec fn expected_name_spec() -> Seq<char> {
        "nil"@
    }

    open spec fn n_values_spec() -> int {
        1
    }

    open spec fn readable(tables: Seq<TableValue>, vals: Seq<Value>) -> bool {
        vals.len() > 0 && vals[0] is Nil
    }

    open spec fn decodes(tables: Seq<TableValue>, vals: Seq<Value>, r: Nil) -> bool {
        vals.len() > 0 && vals[0] is Nil
    }

    fn expected_name() -> (s: String) {
        String::from_str("nil")
    }

    fn n_values_expected() -> (n: i32) {
        1
    }

    fn lua_read_at_position(lua: &Lua, index: i32) -> (r: Option<Nil>) {
        match lua.type_at(index) {
            crate::tlua::value::LuaType::Nil => Some(Nil),
            _ => None,
        }
    }
}

/// The truth value `true`, as a host type of its own: a read of it succeeds
/// on that value alone.
#[derive(Debug, Clone, Copy, PartialEq, Eq, Structural)]
pub struct True;

impl Push for True {
    type Err = Void;

    open spec fn outcome(&self, base: nat) -> Result<Pushed, Void> {
        Ok(plain(seq![Value::Boolean(true)]))
    }

    open spec fn peak(&self) -> nat {
        1
    }

    fn push_to_lua(&self, lua: &mut Lua) -> (r: Result<PushGuard, Void>) {
        lua.pushboolean(true);
        Ok(PushGuard::new(lua, 1))
    }
}

impl PushOne for True {
    proof fn lemma_pushes_one(&self, base: nat) {
    }
}

impl LuaRead for True {
    open spec fn expected_name_spec() -> Seq<char> {
        "true"@
    }

    open spec fn n_values_spec() -> int {
        1
    }

    open spec fn readable(tables: Seq<TableValue>, vals: Seq<Value>) -> bool {
        vals.len() > 0 && vals[0] == Value::Boolean(true)
    }

    open spec fn decodes(tables: Seq<TableValue>, vals: Seq<Value>, r: True) -> bool {
        vals.len() > 0 && vals[0] == Value::Boolean(true)
    }

    fn expected_name() -> (s: String) {
        String::from_str("true")
    }

    fn n_values_expected() -> (n: i32) {
        1
    }

    fn lua_read_at_position(lua: &Lua, index: i32) -> (r: Option<True>) {
        match lua.toboolean(index) {
            Some(true) => Some(True),
            _ => None,
        }
    }
}

/// The truth value `false`, as a host type of its own: a read of it
/// succeeds on that value alone.
#[derive(Debug, Clone, Copy, PartialEq, Eq, Structural)]
pub struct False;

impl Push for False {
    type Err = Void;

    open spec fn outcome(&self, base: nat) -> Result<Pushed, Void> {
        Ok(plain(seq![Value::Boolean(false)]))
    }

    open spec fn peak(&self) -> nat {
        1
    }

    fn push_to_lua(&self, lua: &mut Lua) -> (r: Result<PushGuard, Void>) {
        lua.pushboolean(false);
        Ok(PushGuard::new(lua, 1))
    }
}

impl PushOne for False {
    proof fn lemma_pushes_one(&self, base: nat) {
    }
}

impl LuaRead for False {
    open spec fn expected_name_spec() -> Seq<char> {
        "false"@
    }

    open spec fn n_values_spec() -> int {
        1
    }

    open spec fn readable(tables: Seq<TableValue>, vals: Seq<Value>) -> bool {
        vals.len() > 0 && vals[0] == Value::Boolean(false)
    }

    open spec fn decodes(tables: Seq<TableValue>, vals: Seq<Value>, r: False) -> bool {
        vals.len() > 0 && vals[0] == Value::Boolean(false)
    }

    fn expected_name() -> (s: String) {
        String::from_str("false")
    }

    fn n_values_expected() -> (n: i32) {
        1
    }

    fn lua_read_at_position(lua: &Lua, index: i32) -> (r: Option<False>) {
        match lua.toboolean(index) {
            Some(false) => Some(False),
            _ => None,
        }
    }
}

/// An absent value goes over as nil; a present one as itself.
impl<T: Push> Push for Option<T> {
    type Err = T::Err;

    open spec fn outcome(&self, base: nat) -> Result<Pushed, T::Err> {
        match self {
            Some(v) => v.outcome(base),
            None => Ok(plain(seq![Value::Nil])),
        }
    }

    open spec fn peak(&self) -> nat {
        match self {
            Some(v) => v.peak(),
            None => 1,
        }
    }

    fn push_to_lua(&self, lua: &mut Lua) -> (r: Result<PushGuard, T::Err>) {
        match self {
            Some(v) => v.push_to_lua(lua),
            None => {
                lua.pushnil();
                Ok(PushGuard::new(lua, 1))
            },
        }
    }
}

impl<T: PushOne> PushOne for Option<T> {
    proof fn lemma_pushes_one(&self, base: nat) {
        match self {
            Some(v) => v.lemma_pushes_one(base),
            None => {},
        }
    }
}

/// A read of an optional value always succeeds: where the values cannot be
/// read as `T`, it returns the absent value.
impl<T: LuaRead> LuaRead for Option<T> {
    open spec fn expected_name_spec() -> Seq<char> {
        "Option<"@ + T::expected_name_spec() + ">"@
    }

    open spec fn n_values_spec() -> int {
        T::n_values_spec()
    }

    open spec fn readable(tables: Seq<TableValue>, vals: Seq<Value>) -> bool {
        true
    }

    open spec fn decodes(tables: Seq<TableValue>, vals: Seq<Value>, r: Option<T>) -> bool {
        match r {
            Some(v) => T::readable(tables, vals) && T::decodes(tables, vals, v),
            None => !T::readable(tables, vals),
        }
    }

    fn expected_name() -> (s: String) {
        let mut s = String::from_str("Option<");
        let inner = T::expected_name();
        s.append(inner.as_str());
        s.append(">");
        s
    }

    fn n_values_expected() -> (n: i32) {
        T::n_values_expected()
    }

    fn lua_read_at_position(lua: &Lua, index: i32) -> (r: Option<Option<T>>) {
        Some(T::lua_read_at_position(lua, index))
    }
}

/// The host type of no value at all.
pub type Unit = ();

/// No value at all: nothing is pushed, and a read expects nothing.
impl Push for Unit {
    type Err = Void;

    open spec fn outcome(&self, base: nat) -> Result<Pushed, Void> {
        Ok(plain(Seq::empty()))
    }

    open spec fn peak(&self) -> nat {
        0
    }

    fn push_to_lua(&self, lua: &mut Lua) -> (r: Result<PushGuard, Void>) {
        Ok(PushGuard::new(lua, 0))
    }
}

impl LuaRead for Unit {
    open spec fn expected_name_spec() -> Seq<char> {
        "()"@
    }

    open spec fn n_values_spec() -> int {
        0
    }

    open spec fn readable(tables: Seq<TableValue>, vals: Seq<Value>) -> bool {
        true
    }

    open spec fn decodes(tables: Seq<TableValue>, vals: Seq<Value>, r: ()) -> bool {
        true
    }

    fn expected_name() -> (s: String) {
        String::from_str("()")
    }

    fn n_values_expected() -> (n: i32) {
        0
    }

    fn lua_read_at_position(lua: &Lua, index: i32) -> (r: Option<()>) {
        Some(())
    }
}

/// The error of pushing a table value that names no table of the context.
#[derive(Debug, Clone, Copy, PartialEq, Eq, Structural)]
pub struct UnknownTable;

/// Any value goes over as itself, where the context holds the table that
/// it names.
impl Push for LuaValue {
    type Err = UnknownTable;

    open spec fn outcome(&self, base: nat) -> Result<Pushed, UnknownTable> {
        if self.model().within(base) {
            Ok(plain(seq![self.model()]))
        } else {
            Err(UnknownTable)
        }
    }

    open spec fn peak(&self) -> nat {
        1
    }

    fn push_to_lua(&self, lua: &mut Lua) -> (r: Result<PushGuard, UnknownTable>) {
        if self.is_valid(lua.table_count()) {
            lua.push_value(self.duplicate());
            Ok(PushGuard::new(lua, 1))
        } else {
            Err(UnknownTable)
        }
    }
}

impl PushOne for LuaValue {
    proof fn lemma_pushes_one(&self, base: nat) {
    }
}

/// Any value reads as itself.
impl LuaRead for LuaValue {
    open spec fn expected_name_spec() -> Seq<char> {
        "any"@
    }

    open spec fn n_values_spec() -> int {
        1
    }

    open spec fn readable(tables: Seq<TableValue>, vals: Seq<Value>) -> bool {
        vals.len() > 0
    }

    open spec fn decodes(tables: Seq<TableValue>, vals: Seq<Value>, r: LuaValue) -> bool {
        vals.len() > 0 && vals[0] == r.model()
    }

    fn expected_name() -> (s: String) {
        String::from_str("any")
    }

    fn n_values_expected() -> (n: i32) {
        1
    }

    fn lua_read_at_position(lua: &Lua, index: i32) -> (r: Option<LuaValue>) {
        lua.value_at(index)
    }
}

} // verus!
