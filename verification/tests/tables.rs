use tarantool::tlua::{
    call_host, CallOutcome, CheckedSetError, Lua, LuaError, LuaFunction, LuaFunctionCallError,
    LuaRead, LuaTable, LuaType, LuaValue, Run,
    UnknownTable, MethodCallError, PushGuard, TableData, LUA_GLOBALSINDEX, LUA_REGISTRYINDEX,
};

fn bad_value() -> LuaValue {
    LuaValue::Table(999)
}

fn table_of_three(lua: &mut Lua) -> LuaTable {
    let guard = lua.try_push(vec![28i32, 92, 17]).unwrap();
    LuaTable::lua_read_at_position(lua, guard, -1).unwrap()
}

#[test]
fn global_set_then_get() {
    let mut lua = Lua::new();
    lua.set("a", 12i32);
    assert_eq!(lua.get::<i32>("a"), Some(12));
    assert_eq!(lua.get::<String>("a"), None);
    assert_eq!(lua.get::<i32>("b"), None);
    assert_eq!(lua.get::<Option<i32>>("b"), Some(None));
    assert_eq!(lua.gettop(), 0);
    lua.set("a", "text now");
    assert_eq!(lua.get::<String>("a"), Some("text now".to_string()));
    lua.set("a", None::<i32>);
    assert_eq!(lua.objlen(LUA_GLOBALSINDEX), 0);
}

#[test]
fn global_checked_set_changes_nothing_on_failure() {
    let mut lua = Lua::new();
    lua.set("keep", 1i32);
    lua.pushinteger(5);
    let r = lua.checked_set("keep", bad_value());
    assert!(matches!(r, Err(UnknownTable)));
    assert_eq!(lua.gettop(), 1);
    assert_eq!(lua.get::<i32>("keep"), Some(1));
    assert!(lua.checked_set("keep", LuaValue::Number(2)).is_ok());
    assert_eq!(lua.get::<i32>("keep"), Some(2));
    assert_eq!(lua.gettop(), 1);
}

#[test]
fn into_get_keeps_an_unreadable_value_on_the_stack() {
    let mut lua = Lua::new();
    lua.set("a", "text");
    let guard = lua.into_get::<i32>("a").unwrap_err();
    assert_eq!(guard.size(), 1);
    assert_eq!(lua.gettop(), 1);
    assert_eq!(lua.read::<String>(guard).ok(), Some("text".to_string()));
    assert_eq!(lua.gettop(), 0);
    assert_eq!(lua.into_get::<String>("a").ok(), Some("text".to_string()));
    assert_eq!(lua.gettop(), 0);
}

#[test]
fn globals_table_reaches_the_globals() {
    let mut lua = Lua::new();
    let globals = lua.globals_table();
    assert_eq!(globals.position(), LUA_GLOBALSINDEX);
    globals.set(&mut lua, "a", 5i32);
    assert_eq!(lua.get::<i32>("a"), Some(5));
    assert_eq!(globals.get::<i32, _>(&mut lua, "a"), Some(5));
    assert_eq!(globals.into_inner().size(), 0);
    assert_eq!(lua.gettop(), 0);
}

#[test]
fn registry_is_a_table_of_its_own() {
    let mut lua = Lua::new();
    let registry = LuaTable::registry(&lua);
    assert_eq!(registry.position(), LUA_REGISTRYINDEX);
    registry.set(&mut lua, 3i32, "hello");
    assert_eq!(registry.get::<String, _>(&mut lua, 3i32), Some("hello".to_string()));
    assert_eq!(lua.objlen(LUA_REGISTRYINDEX), 1);
    assert_eq!(lua.objlen(LUA_GLOBALSINDEX), 0);
    assert_eq!(lua.gettop(), 0);
}

#[test]
fn reading_a_table_handle() {
    let mut lua = Lua::new();
    lua.pushinteger(1);
    let guard = PushGuard::new(&lua, 1);
    let guard = LuaTable::lua_read_at_position(&lua, guard, -1).unwrap_err();
    assert_eq!(guard.size(), 1);
    guard.into_inner(&mut lua);
    let table = table_of_three(&mut lua);
    assert_eq!(table.position(), 1);
    assert_eq!(table.get::<i32, _>(&mut lua, 1i32), Some(28));
    assert_eq!(table.get::<i32, _>(&mut lua, 3i32), Some(17));
    assert_eq!(table.get::<u8, _>(&mut lua, 2i32), Some(92));
    assert_eq!(table.get::<i8, _>(&mut lua, 2i32), Some(92));
    assert_eq!(table.get::<i32, _>(&mut lua, 4i32), None);
    assert_eq!(lua.gettop(), 1);
    table.into_inner().into_inner(&mut lua);
    assert_eq!(lua.gettop(), 0);
}

#[test]
fn get_always_pops_exactly_one_slot() {
    let mut lua = Lua::new();
    let table = table_of_three(&mut lua);
    for key in 0..6i32 {
        let _ = table.get::<i32, _>(&mut lua, key);
        assert_eq!(lua.gettop(), 1);
        let _ = table.get::<String, _>(&mut lua, key);
        assert_eq!(lua.gettop(), 1);
    }
}

#[test]
fn get_impl_and_into_get_leave_the_value_on_failure() {
    let mut lua = Lua::new();
    let table = table_of_three(&mut lua);
    let guard = LuaTable::get_impl::<String, _>(&mut lua, 1, 1i32).unwrap_err();
    assert_eq!(guard.size(), 1);
    assert_eq!(lua.gettop(), 2);
    assert_eq!(lua.tointeger(-1), Some(28));
    guard.into_inner(&mut lua);
    assert_eq!(LuaTable::get_impl::<i32, _>(&mut lua, 1, 2i32).ok(), Some(92));
    assert_eq!(lua.gettop(), 1);
    let (guard, table) = table.into_get::<String, _>(&mut lua, 1i32).unwrap_err();
    assert_eq!(lua.gettop(), 2);
    guard.into_inner(&mut lua);
    assert_eq!(table.into_get::<i32, _>(&mut lua, 1i32).ok(), Some(28));
    assert_eq!(lua.gettop(), 0);
}

#[test]
fn set_stores_and_replaces() {
    let mut lua = Lua::new();
    let table = table_of_three(&mut lua);
    table.set(&mut lua, "name", "value");
    table.set(&mut lua, 1i32, 100i32);
    assert_eq!(lua.gettop(), 1);
    assert_eq!(lua.objlen(1), 4);
    assert_eq!(table.get::<String, _>(&mut lua, "name"), Some("value".to_string()));
    assert_eq!(table.get::<i32, _>(&mut lua, 1i32), Some(100));
    table.set(&mut lua, "name", None::<i32>);
    assert_eq!(lua.objlen(1), 3);
    table.set(&mut lua, None::<i32>, 1i32);
    assert_eq!(lua.objlen(1), 3);
}

#[test]
fn checked_set_installs_no_partial_entry() {
    let mut lua = Lua::new();
    let table = table_of_three(&mut lua);
    let r = table.checked_set(&mut lua, bad_value(), 1i32);
    assert!(matches!(r, Err(CheckedSetError::KeyPushError(UnknownTable))));
    assert_eq!(lua.gettop(), 1);
    assert_eq!(lua.objlen(1), 3);
    let r = table.checked_set(&mut lua, "key", bad_value());
    assert!(matches!(r, Err(CheckedSetError::ValuePushError(UnknownTable))));
    assert_eq!(lua.gettop(), 1);
    assert_eq!(lua.objlen(1), 3);
    assert_eq!(table.get::<LuaValue, _>(&mut lua, "key"), Some(LuaValue::Nil));
    let r = table.checked_set(&mut lua, LuaValue::Number(9), LuaValue::Boolean(true));
    assert!(r.is_ok());
    assert_eq!(table.get::<bool, _>(&mut lua, 9i32), Some(true));
}

#[test]
fn iteration_exhaustion() {
    let mut lua = Lua::new();
    let table = table_of_three(&mut lua);
    let mut it = table.iter::<i32, i32>(&mut lua);
    assert_eq!(lua.gettop(), 2);
    let mut seen = Vec::new();
    while let Some(item) = it.next(&mut lua) {
        assert_eq!(lua.gettop(), 2);
        seen.push(item);
    }
    assert_eq!(seen, vec![Some((1, 28)), Some((2, 92)), Some((3, 17))]);
    assert!(it.finished());
    assert_eq!(lua.gettop(), 1);
    assert_eq!(it.next(&mut lua), None);
    assert_eq!(it.next(&mut lua), None);
    assert_eq!(lua.gettop(), 1);
    it.drop(&mut lua);
    assert_eq!(lua.gettop(), 1);
    let again = table.entries::<i32, i32>(&mut lua);
    assert_eq!(again.len(), 3);
    assert_eq!(again, seen);
    assert_eq!(lua.gettop(), 1);
}

#[test]
fn an_empty_table_yields_nothing() {
    let mut lua = Lua::new();
    lua.newtable();
    let table = LuaTable::lua_read_at_position(&lua, PushGuard::new(&lua, 1), 1).unwrap();
    let mut it = table.iter::<i32, i32>(&mut lua);
    assert_eq!(it.next(&mut lua), None);
    assert_eq!(lua.gettop(), 1);
    assert!(table.entries::<LuaValue, LuaValue>(&mut lua).is_empty());
}

#[test]
fn dropping_a_walk_early_pops_the_pending_key() {
    let mut lua = Lua::new();
    let table = table_of_three(&mut lua);
    let mut it = table.iter::<i32, i32>(&mut lua);
    assert_eq!(it.next(&mut lua), Some(Some((1, 28))));
    assert!(!it.finished());
    assert_eq!(lua.gettop(), 2);
    it.drop(&mut lua);
    assert_eq!(lua.gettop(), 1);
    let fresh = table.iter::<i32, i32>(&mut lua);
    assert_eq!(lua.gettop(), 2);
    fresh.drop(&mut lua);
    assert_eq!(lua.gettop(), 1);
}

#[test]
fn an_undecodable_entry_is_marked_and_the_walk_goes_on() {
    let mut lua = Lua::new();
    let guard = lua
        .try_push(vec![
            LuaValue::Number(1),
            LuaValue::String("two".to_string()),
            LuaValue::Number(3),
        ])
        .unwrap();
    let table = LuaTable::lua_read_at_position(&lua, guard, -1).unwrap();
    let items = table.entries::<i32, i32>(&mut lua);
    assert_eq!(items, vec![Some((1, 1)), None, Some((3, 3))]);
    let items = table.entries::<String, i32>(&mut lua);
    assert_eq!(items, vec![None, None, None]);
    assert_eq!(lua.gettop(), 1);
}

#[test]
fn pushing_a_table_handle_names_the_same_table() {
    let mut lua = Lua::new();
    let table = table_of_three(&mut lua);
    let guard = table.push_to_lua(&mut lua);
    assert_eq!(guard.size(), 1);
    assert_eq!(lua.gettop(), 2);
    assert_eq!(lua.totable(2), Some(table.table_id(&lua)));
    assert_eq!(Vec::<i32>::lua_read_at_position(&lua, 2), Some(vec![28, 92, 17]));
    lua.pushinteger(4);
    lua.pushinteger(1);
    lua.settable(2);
    assert_eq!(table.get::<i32, _>(&mut lua, 4i32), Some(1));
}

#[test]
fn table_empty_array() {
    let mut lua = Lua::new();
    let table = table_of_three(&mut lua);
    let inner = table.empty_array(&mut lua, "inner");
    assert_eq!(lua.gettop(), 2);
    assert_eq!(inner.position(), 2);
    assert_eq!(lua.objlen(2), 0);
    assert_eq!(lua.objlen(1), 4);
    let id = inner.table_id(&lua);
    assert_eq!(table.get::<LuaValue, _>(&mut lua, "inner"), Some(LuaValue::Table(id)));
    inner.set(&mut lua, 1i32, "filled");
    assert_eq!(
        table.get::<Vec<String>, _>(&mut lua, "inner"),
        Some(vec!["filled".to_string()])
    );
    assert_eq!(inner.into_inner().size(), 1);
}

#[test]
fn global_empty_array() {
    let mut lua = Lua::new();
    let array = lua.empty_array("my_values");
    assert_eq!(lua.gettop(), 1);
    array.set(&mut lua, 1i32, 10i32);
    array.set(&mut lua, 2i32, 15i32);
    array.set(&mut lua, 3i32, 20i32);
    assert_eq!(array.entries::<i32, i32>(&mut lua), vec![Some((1, 10)), Some((2, 15)), Some((3, 20))]);
    assert_eq!(lua.type_at(-1), LuaType::Table);
    array.into_inner().into_inner(&mut lua);
    assert_eq!(lua.gettop(), 0);
    let sum: i32 = lua.get::<Vec<i32>>("my_values").unwrap().iter().sum();
    assert_eq!(sum, 45);
}

#[test]
fn get_or_create_metatable_is_idempotent() {
    let mut lua = Lua::new();
    let table = table_of_three(&mut lua);
    let first = table.get_or_create_metatable(&mut lua);
    assert_eq!(lua.gettop(), 2);
    assert_eq!(first.position(), 2);
    assert_eq!(lua.objlen(2), 0);
    let first_id = first.table_id(&lua);
    first.set(&mut lua, "x", 1i32);
    let guard = first.into_inner();
    assert_eq!(guard.size(), 2);
    lua.pop(1);
    let table = LuaTable::lua_read_at_position(&lua, PushGuard::new(&lua, 1), 1).unwrap();
    let second = table.get_or_create_metatable(&mut lua);
    assert_eq!(lua.gettop(), 2);
    assert_eq!(second.table_id(&lua), first_id);
    assert_eq!(second.get::<i32, _>(&mut lua, "x"), Some(1));
    second.into_inner().into_inner(&mut lua);
    assert_eq!(lua.gettop(), 0);
}

#[test]
fn the_metatable_of_the_globals() {
    let mut lua = Lua::new();
    let meta = lua.globals_table().get_or_create_metatable(&mut lua);
    assert_eq!(lua.gettop(), 1);
    meta.set(&mut lua, "__index", tarantool::tlua::Function { pin: 3 });
    assert_eq!(meta.into_inner().size(), 1);
    lua.pop(1);
    let again = lua.globals_table().get_or_create_metatable(&mut lua);
    assert_eq!(
        again.get::<tarantool::tlua::Function, _>(&mut lua, "__index"),
        Some(tarantool::tlua::Function { pin: 3 })
    );
}

fn method_table(lua: &mut Lua) -> LuaTable {
    let guard = lua
        .try_push(vec![
            (LuaValue::String("a".to_string()), LuaValue::Number(0)),
            (LuaValue::String("inc_a".to_string()), LuaValue::Function(7)),
        ])
        .unwrap();
    LuaTable::lua_read_at_position(lua, guard, -1).unwrap()
}

fn number(v: &LuaValue) -> i64 {
    match v {
        LuaValue::Number(n) => *n,
        _ => 0,
    }
}

// What the interpreter would do with
// `function(self, b, c) self.a = self.a + (b or 1) + (c or 0) end`.
fn inc_a(id: u32, args: Vec<LuaValue>, mut tables: Vec<TableData>) -> Run {
    assert_eq!(id, 7);
    let this = match args[0] {
        LuaValue::Table(this) => this,
        _ => panic!("self is no table"),
    };
    let b = args.get(1).map(number).unwrap_or(1);
    let c = args.get(2).map(number).unwrap_or(0);
    let key = LuaValue::String("a".to_string());
    let a = number(&tables[this].get(&key));
    tables[this].set(key, LuaValue::Number(a + b + c));
    Run { tables, outcome: CallOutcome::Returned(vec![]) }
}

#[test]
fn table_method_call() {
    let mut lua = Lua::new();
    let t = method_table(&mut lua);
    let () = t.call_method(&mut lua, "inc_a", (), inc_a).unwrap();
    assert_eq!(t.get::<i32, _>(&mut lua, "a"), Some(1));
    let () = t.call_method(&mut lua, "inc_a", (2i32,), inc_a).unwrap();
    assert_eq!(t.get::<i32, _>(&mut lua, "a"), Some(3));
    let () = t.call_method(&mut lua, "inc_a", (2i32, 3i32), inc_a).unwrap();
    assert_eq!(t.get::<i32, _>(&mut lua, "a"), Some(8));
    assert_eq!(lua.gettop(), 1);
    let e = t.call_method::<(), _, _>(&mut lua, "inc_b", (), inc_a).unwrap_err();
    assert!(matches!(e, MethodCallError::NoSuchMethod));
    let e = t.call_method::<(), _, _>(&mut lua, "a", (), inc_a).unwrap_err();
    assert!(matches!(e, MethodCallError::NoSuchMethod));
    assert_eq!(t.get::<i32, _>(&mut lua, "a"), Some(8));
}

#[test]
fn a_fresh_table_reads_five_after_inc_a_of_two_and_three() {
    let mut lua = Lua::new();
    let t = method_table(&mut lua);
    let () = t.call_method(&mut lua, "inc_a", (2i32, 3i32), inc_a).unwrap();
    assert_eq!(t.get::<i32, _>(&mut lua, "a"), Some(5));
}

#[test]
fn method_call_errors() {
    let mut lua = Lua::new();
    let table = method_table(&mut lua);
    let before = lua.table_count();
    let e = table
        .call_method::<(), _, _>(&mut lua, "inc_a", bad_value(), |_, _, _| {
            panic!("the method must not be called")
        })
        .unwrap_err();
    assert!(matches!(e, MethodCallError::PushError(UnknownTable)));
    let e = table
        .call_method::<i32, _, _>(&mut lua, "inc_a", (), |_, _, tables| Run {
            tables,
            outcome: CallOutcome::Raised(LuaValue::String("oops".to_string())),
        })
        .unwrap_err();
    match e {
        MethodCallError::LuaError(LuaError::ExecutionError(msg)) => assert_eq!(msg, "oops"),
        other => panic!("{:?}", other),
    }
    let e = table
        .call_method::<i32, _, _>(&mut lua, "inc_a", (), |_, _, _| Run {
            tables: vec![],
            outcome: CallOutcome::Returned(vec![LuaValue::Number(1)]),
        })
        .unwrap_err();
    match e {
        MethodCallError::LuaError(LuaError::ExecutionError(msg)) => {
            assert_eq!(msg, "malformed tables")
        }
        other => panic!("{:?}", other),
    }
    assert_eq!(lua.gettop(), 1);
    assert_eq!(lua.table_count(), before);
    assert_eq!(table.get::<i32, _>(&mut lua, "a"), Some(0));
}

#[test]
fn a_host_function_as_a_method() {
    let mut lua = Lua::new();
    let table = method_table(&mut lua);
    let sum: i32 = table
        .call_method(&mut lua, "inc_a", (2i32, 3i32), |_, args, tables| {
            call_host(|(_, b, c): (LuaValue, i32, i32)| b + c, args, tables)
        })
        .unwrap();
    assert_eq!(sum, 5);
}

#[test]
fn method_call_error_from_function_call_error() {
    let e: MethodCallError<i32> = LuaFunctionCallError::PushError(5).into();
    assert!(matches!(e, MethodCallError::PushError(5)));
    let e: MethodCallError<i32> =
        LuaFunctionCallError::LuaError(LuaError::SyntaxError("s".to_string())).into();
    assert!(matches!(e, MethodCallError::LuaError(LuaError::SyntaxError(_))));
    let _ = LuaFunction::lua_read_at_position;
}
