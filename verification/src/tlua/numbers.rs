use crate::tlua::guard::PushGuard;
use crate::tlua::push::{plain, Push, PushOne, Pushed, Void};
use crate::tlua::read::LuaRead;
use crate::tlua::state::Lua;
use crate::tlua::value::{TableValue, Value};
use vstd::prelude::*;
use vstd::string::StringExecFns;

verus! {

impl Push for i8 {
    type Err = Void;

    open spec fn outcome(&self, base: nat) -> Result<Pushed, Void> {
        Ok(plain(seq![Value::Number(*self as int)]))
    }

    open spec fn peak(&self) -> nat {
        1
    }

    fn push_to_lua(&self, lua: &mut Lua) -> (r: Result<PushGuard, Void>) {
        lua.pushinteger(*self as i64);
        Ok(PushGuard::new(lua, 1))
    }
}

impl PushOne for i8 {
    proof fn lemma_pushes_one(&self, base: nat) {
    }
}

impl LuaRead for i8 {
    open spec fn expected_name_spec() -> Seq<char> {
        "i8"@
    }

    open spec fn n_values_spec() -> int {
        1
    }

    /// A number reads as this type where the type can hold exactly that
    /// number.
    open spec fn readable(tables: Seq<TableValue>, vals: Seq<Value>) -> bool {
        &&& vals.len() > 0
        &&& vals[0] matches Value::Number(n)
        &&& i8::MIN <= n <= i8::MAX
    }

    open spec fn decodes(tables: Seq<TableValue>, vals: Seq<Value>, r: i8) -> bool {
        vals.len() > 0 && vals[0] == Value::Number(r as int)
    }

    fn expected_name() -> (s: String) {
        String::from_str("i8")
    }

    fn n_values_expected() -> (n: i32) {
        1
    }

    fn lua_read_at_position(lua: &Lua, index: i32) -> (r: Option<i8>) {
        match lua.tointeger(index) {
            Some(n) => if i8::MIN as i64 <= n && n <= i8::MAX as i64 {
                Some(n as i8)
            } else {
                None
            },
            None => None,
        }
    }
}

impl Push for i16 {
    type Err = Void;

    open spec fn outcome(&self, base: nat) -> Result<Pushed, Void> {
        Ok(plain(seq![Value::Number(*self as int)]))
    }

    open spec fn peak(&self) -> nat {
        1
    }

    fn push_to_lua(&self, lua: &mut Lua) -> (r: Result<PushGuard, Void>) {
        lua.pushinteger(*self as i64);
        Ok(PushGuard::new(lua, 1))
    }
}

impl PushOne for i16 {
    proof fn lemma_pushes_one(&self, base: nat) {
    }
}

impl LuaRead for i16 {
    open spec fn expected_name_spec() -> Seq<char> {
        "i16"@
    }

    open spec fn n_values_spec() -> int {
        1
    }

    /// A number reads as this type where the type can hold exactly that
    /// number.
    open spec fn readable(tables: Seq<TableValue>, vals: Seq<Value>) -> bool {
        &&& vals.len() > 0
        &&& vals[0] matches Value::Number(n)
        &&& i16::MIN <= n <= i16::MAX
    }

    open spec fn decodes(tables: Seq<TableValue>, vals: Seq<Value>, r: i16) -> bool {
        vals.len() > 0 && vals[0] == Value::Number(r as int)
    }

    fn expected_name() -> (s: String) {
        String::from_str("i16")
    }

    fn n_values_expected() -> (n: i32) {
        1
    }

    fn lua_read_at_position(lua: &Lua, index: i32) -> (r: Option<i16>) {
        match lua.tointeger(index) {
            Some(n) => if i16::MIN as i64 <= n && n <= i16::MAX as i64 {
                Some(n as i16)
            } else {
                None
            },
            None => None,
        }
    }
}

impl Push for i32 {
    type Err = Void;

    open spec fn outcome(&self, base: nat) -> Result<Pushed, Void> {
        Ok(plain(seq![Value::Number(*self as int)]))
    }

    open spec fn peak(&self) -> nat {
        1
    }

    fn push_to_lua(&self, lua: &mut Lua) -> (r: Result<PushGuard, Void>) {
        lua.pushinteger(*self as i64);
        Ok(PushGuard::new(lua, 1))
    }
}

impl PushOne for i32 {
    proof fn lemma_pushes_one(&self, base: nat) {
    }
}

impl LuaRead for i32 {
    open spec fn expected_name_spec() -> Seq<char> {
        "i32"@
    }

    open spec fn n_values_spec() -> int {
        1
    }

    /// A number reads as this type where the type can hold exactly that
    /// number.
    open spec fn readable(tables: Seq<TableValue>, vals: Seq<Value>) -> bool {
        &&& vals.len() > 0
        &&& vals[0] matches Value::Number(n)
        &&& i32::MIN <= n <= i32::MAX
    }

    open spec fn decodes(tables: Seq<TableValue>, vals: Seq<Value>, r: i32) -> bool {
        vals.len() > 0 && vals[0] == Value::Number(r as int)
    }

    fn expected_name() -> (s: String) {
        String::from_str("i32")
    }

    fn n_values_expected() -> (n: i32) {
        1
    }

    fn lua_read_at_position(lua: &Lua, index: i32) -> (r: Option<i32>) {
        match lua.tointeger(index) {
            Some(n) => if i32::MIN as i64 <= n && n <= i32::MAX as i64 {
                Some(n as i32)
            } else {
                None
            },
            None => None,
        }
    }
}

impl Push for i64 {
    type Err = Void;

    open spec fn outcome(&self, base: nat) -> Result<Pushed, Void> {
        Ok(plain(seq![Value::Number(*self as int)]))
    }

    open spec fn peak(&self) -> nat {
        1
    }

    fn push_to_lua(&self, lua: &mut Lua) -> (r: Result<PushGuard, Void>) {
        lua.pushinteger(*self);
        Ok(PushGuard::new(lua, 1))
    }
}

impl PushOne for i64 {
    proof fn lemma_pushes_one(&self, base: nat) {
    }
}

impl LuaRead for i64 {
    open spec fn expected_name_spec() -> Seq<char> {
        "i64"@
    }

    open spec fn n_values_spec() -> int {
        1
    }

    /// A number reads as this type where the type can hold exactly that
    /// number.
    open spec fn readable(tables: Seq<TableValue>, vals: Seq<Value>) -> bool {
        &&& vals.len() > 0
        &&& vals[0] matches Value::Number(n)
        &&& i64::MIN <= n <= i64::MAX
    }

    open spec fn decodes(tables: Seq<TableValue>, vals: Seq<Value>, r: i64) -> bool {
        vals.len() > 0 && vals[0] == Value::Number(r as int)
    }

    fn expected_name() -> (s: String) {
        String::from_str("i64")
    }

    fn n_values_expected() -> (n: i32) {
        1
    }

    fn lua_read_at_position(lua: &Lua, index: i32) -> (r: Option<i64>) {
        match lua.tointeger(index) {
            Some(n) => Some(n),
            None => None,
        }
    }
}

impl Push for u8 {
    type Err = Void;

    open spec fn outcome(&self, base: nat) -> Result<Pushed, Void> {
        Ok(plain(seq![Value::Number(*self as int)]))
    }

    open spec fn peak(&self) -> nat {
        1
    }

    fn push_to_lua(&self, lua: &mut Lua) -> (r: Result<PushGuard, Void>) {
        lua.pushinteger(*self as i64);
        Ok(PushGuard::new(lua, 1))
    }
}

impl PushOne for u8 {
    proof fn lemma_pushes_one(&self, base: nat) {
    }
}

impl LuaRead for u8 {
    open spec fn expected_name_spec() -> Seq<char> {
        "u8"@
    }

    open spec fn n_values_spec() -> int {
        1
    }

    /// A number reads as this type where the type can hold exactly that
    /// number.
    open spec fn readable(tables: Seq<TableValue>, vals: Seq<Value>) -> bool {
        &&& vals.len() > 0
        &&& vals[0] matches Value::Number(n)
        &&& u8::MIN <= n <= u8::MAX
    }

    open spec fn decodes(tables: Seq<TableValue>, vals: Seq<Value>, r: u8) -> bool {
        vals.len() > 0 && vals[0] == Value::Number(r as int)
    }

    fn expected_name() -> (s: String) {
        String::from_str("u8")
    }

    fn n_values_expected() -> (n: i32) {
        1
    }

    fn lua_read_at_position(lua: &Lua, index: i32) -> (r: Option<u8>) {
        match lua.tointeger(index) {
            Some(n) => if u8::MIN as i64 <= n && n <= u8::MAX as i64 {
                Some(n as u8)
            } else {
                None
            },
            None => None,
        }
    }
}

impl Push for u16 {
    type Err = Void;

    open spec fn outcome(&self, base: nat) -> Result<Pushed, Void> {
        Ok(plain(seq![Value::Number(*self as int)]))
    }

    open spec fn peak(&self) -> nat {
        1
    }

    fn push_to_lua(&self, lua: &mut Lua) -> (r: Result<PushGuard, Void>) {
        lua.pushinteger(*self as i64);
        Ok(PushGuard::new(lua, 1))
    }
}

impl PushOne for u16 {
    proof fn lemma_pushes_one(&self, base: nat) {
    }
}

impl LuaRead for u16 {
    open spec fn expected_name_spec() -> Seq<char> {
        "u16"@
    }

    open spec fn n_values_spec() -> int {
        1
    }

    /// A number reads as this type where the type can hold exactly that
    /// number.
    open spec fn readable(tables: Seq<TableValue>, vals: Seq<Value>) -> bool {
        &&& vals.len() > 0
        &&& vals[0] matches Value::Number(n)
        &&& u16::MIN <= n <= u16::MAX
    }

    open spec fn decodes(tables: Seq<TableValue>, vals: Seq<Value>, r: u16) -> bool {
        vals.len() > 0 && vals[0] == Value::Number(r as int)
    }

    fn expected_name() -> (s: String) {
        String::from_str("u16")
    }

    fn n_values_expected() -> (n: i32) {
        1
    }

    fn lua_read_at_position(lua: &Lua, index: i32) -> (r: Option<u16>) {
        match lua.tointeger(index) {
            Some(n) => if u16::MIN as i64 <= n && n <= u16::MAX as i64 {
                Some(n as u16)
            } else {
                None
            },
            None => None,
        }
    }
}

impl Push for u32 {
    type Err = Void;

    open spec fn outcome(&self, base: nat) -> Result<Pushed, Void> {
        Ok(plain(seq![Value::Number(*self as int)]))
    }

    open spec fn peak(&self) -> nat {
        1
    }

    fn push_to_lua(&self, lua: &mut Lua) -> (r: Result<PushGuard, Void>) {
        lua.pushinteger(*self as i64);
        Ok(PushGuard::new(lua, 1))
    }
}

impl PushOne for u32 {
    proof fn lemma_pushes_one(&self, base: nat) {
    }
}

impl LuaRead for u32 {
    open spec fn expected_name_spec() -> Seq<char> {
        "u32"@
    }

    open spec fn n_values_spec() -> int {
        1
    }

    /// A number reads as this type where the type can hold exactly that
    /// number.
    open spec fn readable(tables: Seq<TableValue>, vals: Seq<Value>) -> bool {
        &&& vals.len() > 0
        &&& vals[0] matches Value::Number(n)
        &&& u32::MIN <= n <= u32::MAX
    }

    open spec fn decodes(tables: Seq<TableValue>, vals: Seq<Value>, r: u32) -> bool {
        vals.len() > 0 && vals[0] == Value::Number(r as int)
    }

    fn expected_name() -> (s: String) {
        String::from_str("u32")
    }

    fn n_values_expected() -> (n: i32) {
        1
    }

    fn lua_read_at_position(lua: &Lua, index: i32) -> (r: Option<u32>) {
        match lua.tointeger(index) {
            Some(n) => if u32::MIN as i64 <= n && n <= u32::MAX as i64 {
                Some(n as u32)
            } else {
                None
            },
            None => None,
        }
    }
}

} // verus!
