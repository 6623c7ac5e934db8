use tarantool::tlua::{typename, typenames, AbsoluteIndex, Lua, LuaError, LUA_GLOBALSINDEX};

fn mixed() -> Lua {
    let mut lua = Lua::new();
    lua.pushinteger(1);
    lua.pushstring("s");
    lua.pushinteger(2);
    lua.pushboolean(true);
    lua.pushnil();
    lua.newtable();
    lua.pushfunction(0);
    lua
}

#[test]
fn typename_of_each_kind() {
    let lua = mixed();
    assert_eq!(typename(&lua, 1), "number");
    assert_eq!(typename(&lua, 2), "string");
    assert_eq!(typename(&lua, 4), "boolean");
    assert_eq!(typename(&lua, 5), "nil");
    assert_eq!(typename(&lua, 6), "table");
    assert_eq!(typename(&lua, -1), "function");
    assert_eq!(typename(&lua, 8), "no value");
    assert_eq!(typename(&lua, 0), "no value");
    assert_eq!(typename(&lua, LUA_GLOBALSINDEX), "table");
}

#[test]
fn typenames_joins_the_kinds() {
    let lua = mixed();
    let first = AbsoluteIndex::new(1, &lua);
    assert_eq!(typenames(&lua, first, 0), "()");
    assert_eq!(typenames(&lua, first, 1), "number");
    assert_eq!(typenames(&lua, first, 2), "(number, string)");
    assert_eq!(typenames(&lua, first, 3), "(number, string, number)");
    assert_eq!(
        typenames(&lua, first, 7),
        "(number, string, number, boolean, nil, table, function)"
    );
    assert_eq!(typenames(&lua, AbsoluteIndex::new(-2, &lua), 3), "(table, function, no value)");
}

#[test]
fn wrong_type_names_the_topmost_values() {
    let lua = mixed();
    match LuaError::wrong_type::<(i32, i32)>(&lua, 2) {
        LuaError::WrongType { rust_expected, lua_actual } => {
            assert_eq!(rust_expected, "(i32, i32)");
            assert_eq!(lua_actual, "(table, function)");
        }
        _ => panic!(),
    }
    match LuaError::wrong_type::<bool>(&lua, 0) {
        LuaError::WrongType { rust_expected, lua_actual } => {
            assert_eq!(rust_expected, "bool");
            assert_eq!(lua_actual, "()");
        }
        _ => panic!(),
    }
}
