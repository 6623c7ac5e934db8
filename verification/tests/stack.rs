use tarantool::tlua::{
    AbsoluteIndex, Lua, LuaType, LuaValue, PushGuard, TableData, GLOBALS, LUA_GLOBALSINDEX,
    LUA_REGISTRYINDEX, REGISTRY,
};

#[test]
fn new_context_is_empty() {
    let lua = Lua::new();
    assert_eq!(lua.gettop(), 0);
    assert_eq!(lua.type_at(1), LuaType::NoValue);
    assert_eq!(lua.type_at(-1), LuaType::NoValue);
    assert_eq!(lua.type_at(LUA_GLOBALSINDEX), LuaType::Table);
    assert_eq!(lua.type_at(LUA_REGISTRYINDEX), LuaType::Table);
    assert_eq!(lua.objlen(LUA_GLOBALSINDEX), 0);
    assert_eq!(lua.table_count(), 2);
    assert_eq!(lua.totable(LUA_GLOBALSINDEX), Some(GLOBALS));
    assert_eq!(lua.totable(LUA_REGISTRYINDEX), Some(REGISTRY));
}

#[test]
fn push_primitives_grow_the_stack_by_one() {
    let mut lua = Lua::new();
    lua.pushnil();
    lua.pushboolean(true);
    lua.pushinteger(-7);
    lua.pushstring("abc");
    lua.newtable();
    lua.pushfunction(3);
    assert_eq!(lua.gettop(), 6);
    assert_eq!(lua.type_at(1), LuaType::Nil);
    assert_eq!(lua.type_at(2), LuaType::Boolean);
    assert_eq!(lua.type_at(3), LuaType::Number);
    assert_eq!(lua.type_at(4), LuaType::String);
    assert_eq!(lua.type_at(5), LuaType::Table);
    assert_eq!(lua.type_at(6), LuaType::Function);
    assert_eq!(lua.toboolean(2), Some(true));
    assert_eq!(lua.tointeger(3), Some(-7));
    assert_eq!(lua.tostring(4), Some("abc".to_string()));
    assert_eq!(lua.tofunction(6), Some(3));
    assert_eq!(lua.tointeger(4), None);
    assert_eq!(lua.tostring(3), None);
}

#[test]
fn relative_and_absolute_indices_name_the_same_slot() {
    let mut lua = Lua::new();
    lua.pushinteger(10);
    lua.pushinteger(20);
    lua.pushinteger(30);
    assert_eq!(lua.tointeger(-1), Some(30));
    assert_eq!(lua.tointeger(3), Some(30));
    assert_eq!(lua.tointeger(-3), Some(10));
    assert_eq!(lua.tointeger(1), Some(10));
    assert_eq!(lua.tointeger(-4), None);
    assert_eq!(lua.tointeger(4), None);
    assert_eq!(lua.tointeger(0), None);
}

#[test]
fn pop_removes_the_topmost_slots() {
    let mut lua = Lua::new();
    lua.pushinteger(1);
    lua.pushinteger(2);
    lua.pushinteger(3);
    lua.pop(2);
    assert_eq!(lua.gettop(), 1);
    assert_eq!(lua.tointeger(-1), Some(1));
    lua.pop(0);
    assert_eq!(lua.gettop(), 1);
}

#[test]
fn pushvalue_copies_a_slot() {
    let mut lua = Lua::new();
    lua.pushstring("x");
    lua.pushinteger(5);
    lua.pushvalue(1);
    assert_eq!(lua.gettop(), 3);
    assert_eq!(lua.tostring(-1), Some("x".to_string()));
    assert_eq!(lua.tostring(1), Some("x".to_string()));
}

#[test]
fn a_copied_table_value_names_the_same_table() {
    let mut lua = Lua::new();
    lua.newtable();
    lua.pushvalue(1);
    assert_eq!(lua.totable(1), lua.totable(2));
    lua.pushinteger(1);
    lua.pushstring("stored through the copy");
    lua.settable(2);
    assert_eq!(lua.objlen(2), 1);
    assert_eq!(lua.objlen(1), 1);
    lua.pushinteger(1);
    lua.gettable(1);
    assert_eq!(lua.tostring(-1), Some("stored through the copy".to_string()));
}

#[test]
fn each_new_table_is_another_table() {
    let mut lua = Lua::new();
    lua.newtable();
    lua.newtable();
    assert_eq!(lua.totable(1), Some(2));
    assert_eq!(lua.totable(2), Some(3));
    assert_eq!(lua.table_count(), 4);
    lua.pushinteger(5);
    lua.rawseti(1, 1);
    assert_eq!(lua.objlen(1), 1);
    assert_eq!(lua.objlen(2), 0);
    assert_eq!(lua.totable(3), None);
}

#[test]
fn settable_and_gettable() {
    let mut lua = Lua::new();
    lua.newtable();
    lua.pushstring("k");
    lua.pushinteger(42);
    lua.settable(-3);
    assert_eq!(lua.gettop(), 1);
    lua.pushstring("k");
    lua.gettable(1);
    assert_eq!(lua.gettop(), 2);
    assert_eq!(lua.tointeger(-1), Some(42));
    lua.pop(1);
    lua.pushstring("missing");
    lua.gettable(1);
    assert_eq!(lua.type_at(-1), LuaType::Nil);
}

#[test]
fn storing_nil_removes_an_entry_and_a_nil_key_stores_nothing() {
    let mut lua = Lua::new();
    lua.newtable();
    lua.pushstring("k");
    lua.pushinteger(1);
    lua.settable(1);
    assert_eq!(lua.objlen(1), 1);
    lua.pushstring("k");
    lua.pushnil();
    lua.settable(1);
    assert_eq!(lua.objlen(1), 0);
    lua.pushnil();
    lua.pushinteger(1);
    lua.settable(1);
    assert_eq!(lua.objlen(1), 0);
    assert_eq!(lua.gettop(), 1);
}

#[test]
fn storing_under_a_key_twice_replaces_the_value() {
    let mut lua = Lua::new();
    lua.newtable();
    lua.pushinteger(1);
    lua.rawseti(1, 7);
    lua.pushinteger(2);
    lua.rawseti(1, 7);
    assert_eq!(lua.objlen(1), 1);
    lua.pushinteger(7);
    lua.gettable(1);
    assert_eq!(lua.tointeger(-1), Some(2));
}

#[test]
fn next_walks_the_entries_in_order() {
    let mut lua = Lua::new();
    lua.newtable();
    lua.pushstring("one");
    lua.rawseti(1, 1);
    lua.pushstring("two");
    lua.rawseti(1, 2);
    lua.pushnil();
    assert!(lua.next(1));
    assert_eq!(lua.gettop(), 3);
    assert_eq!(lua.tointeger(-2), Some(1));
    assert_eq!(lua.tostring(-1), Some("one".to_string()));
    lua.pop(1);
    assert!(lua.next(1));
    assert_eq!(lua.tointeger(-2), Some(2));
    assert_eq!(lua.tostring(-1), Some("two".to_string()));
    lua.pop(1);
    assert!(!lua.next(1));
    assert_eq!(lua.gettop(), 1);
}

#[test]
fn metatable_primitives() {
    let mut lua = Lua::new();
    lua.newtable();
    assert!(!lua.getmetatable(1));
    assert_eq!(lua.gettop(), 1);
    lua.newtable();
    let meta = lua.totable(2);
    lua.pushinteger(9);
    lua.rawseti(2, 1);
    lua.setmetatable(1);
    assert_eq!(lua.gettop(), 1);
    assert!(lua.getmetatable(1));
    assert_eq!(lua.gettop(), 2);
    assert_eq!(lua.totable(2), meta);
    assert_eq!(lua.objlen(2), 1);
    lua.pushinteger(8);
    lua.rawseti(2, 2);
    lua.pop(1);
    assert!(lua.getmetatable(1));
    assert_eq!(lua.objlen(-1), 2);
    lua.pop(1);
    lua.pushnil();
    lua.setmetatable(1);
    assert!(!lua.getmetatable(1));
}

#[test]
fn the_store_of_tables_can_be_copied_and_replaced() {
    let mut lua = Lua::new();
    lua.newtable();
    let mut tables = lua.tables_copy();
    assert_eq!(tables.len(), 3);
    tables[GLOBALS].entries.push((LuaValue::String("a".to_string()), LuaValue::Number(5)));
    tables[2].entries.push((LuaValue::Number(1), LuaValue::Table(2)));
    assert!(lua.replace_tables(tables));
    assert_eq!(lua.objlen(LUA_GLOBALSINDEX), 1);
    assert_eq!(lua.objlen(1), 1);
    let fewer = vec![TableData::new(), TableData::new()];
    assert!(!lua.replace_tables(fewer));
    let mut dangling = lua.tables_copy();
    dangling[REGISTRY].entries.push((LuaValue::Number(1), LuaValue::Table(17)));
    assert!(!lua.replace_tables(dangling));
    assert_eq!(lua.objlen(LUA_REGISTRYINDEX), 0);
    assert_eq!(lua.table_data(2).entries, vec![(LuaValue::Number(1), LuaValue::Table(2))]);
    let forked = lua.fork();
    assert_eq!(forked.gettop(), 0);
    assert_eq!(forked.table_count(), 3);
    assert!(Lua::from_tables(vec![TableData::new()]).is_err());
    let again = Lua::from_tables(lua.into_tables()).unwrap();
    assert_eq!(again.objlen(LUA_GLOBALSINDEX), 1);
}

#[test]
fn take_hands_out_the_topmost_values_in_order() {
    let mut lua = Lua::new();
    lua.pushinteger(1);
    lua.pushinteger(2);
    lua.pushinteger(3);
    let taken = lua.take(2);
    assert_eq!(taken, vec![LuaValue::Number(2), LuaValue::Number(3)]);
    assert_eq!(lua.gettop(), 1);
    assert_eq!(lua.tointeger(-1), Some(1));
    assert!(lua.take(0).is_empty());
    assert_eq!(lua.gettop(), 1);
}

#[test]
fn field_index_counts_up_from_a_slot() {
    let mut lua = Lua::new();
    lua.pushinteger(1);
    lua.pushinteger(2);
    lua.pushinteger(3);
    assert_eq!(lua.field_index(-2, 0), 2);
    assert_eq!(lua.field_index(-2, 1), 3);
    assert_eq!(lua.field_index(-2, 2), 0);
    assert_eq!(lua.field_index(-5, 1), 0);
    assert_eq!(lua.field_index(LUA_GLOBALSINDEX, 0), LUA_GLOBALSINDEX);
    assert_eq!(lua.field_index(LUA_GLOBALSINDEX, 1), 0);
}

#[test]
fn guard_records_height_and_size() {
    let mut lua = Lua::new();
    lua.pushinteger(1);
    lua.pushinteger(2);
    let guard = PushGuard::new(&lua, 2);
    assert_eq!(guard.size(), 2);
    assert_eq!(guard.top(), 2);
    guard.into_inner(&mut lua);
    assert_eq!(lua.gettop(), 0);
}

#[test]
fn zero_slot_guard_releases_nothing() {
    let mut lua = Lua::new();
    lua.pushinteger(1);
    let guard = PushGuard::new(&lua, 0);
    guard.into_inner(&mut lua);
    assert_eq!(lua.gettop(), 1);
}

#[test]
fn forgotten_guards_merge_into_one_without_double_release() {
    let mut lua = Lua::new();
    lua.pushinteger(0);
    lua.pushstring("key");
    let key = PushGuard::new(&lua, 1);
    lua.pushstring("value");
    let value = PushGuard::new(&lua, 1);
    let merged_size = key.forget() + value.assert_one_and_forget();
    assert_eq!(merged_size, 2);
    assert_eq!(lua.gettop(), 3);
    let merged = PushGuard::new(&lua, merged_size);
    merged.into_inner(&mut lua);
    assert_eq!(lua.gettop(), 1);
    assert_eq!(lua.tointeger(-1), Some(0));
}

#[test]
fn absolute_index_is_fixed_at_resolution() {
    let mut lua = Lua::new();
    lua.pushinteger(10);
    lua.pushinteger(20);
    let resolved = AbsoluteIndex::new(-1, &lua);
    assert_eq!(resolved.get(), 2);
    lua.pushinteger(30);
    assert_eq!(resolved.get(), 2);
    assert_eq!(i32::from(resolved), 2);
    let later = AbsoluteIndex::new(-1, &lua);
    assert_eq!(later.get(), 3);
    let positive = AbsoluteIndex::new(1, &lua);
    assert_eq!(positive.get(), 1);
    let registry = AbsoluteIndex::new(LUA_REGISTRYINDEX, &lua);
    assert_eq!(i32::from(registry), LUA_REGISTRYINDEX);
    assert_eq!(registry.get(), LUA_REGISTRYINDEX as u32);
    let unchecked = AbsoluteIndex::new_unchecked(5);
    assert_eq!(unchecked.get(), 5);
}

#[test]
fn value_equality_and_validity() {
    let a = LuaValue::Table(3);
    let b = a.duplicate();
    assert!(a.same(&b));
    assert!(!a.same(&LuaValue::Table(4)));
    assert!(a.is_valid(4));
    assert!(!a.is_valid(3));
    assert!(LuaValue::Number(1).is_valid(0));
    let good = TableData {
        entries: vec![(LuaValue::Number(1), LuaValue::String("x".to_string()))],
        metatable: Some(1),
    };
    assert!(good.is_valid(2));
    assert!(!good.is_valid(1));
    assert_eq!(good.duplicate(), good);
    let twice = TableData {
        entries: vec![
            (LuaValue::Number(1), LuaValue::Boolean(true)),
            (LuaValue::Number(1), LuaValue::Boolean(false)),
        ],
        metatable: None,
    };
    assert!(!twice.is_valid(2));
    let nil_key =
        TableData { entries: vec![(LuaValue::Nil, LuaValue::Boolean(true))], metatable: None };
    assert!(!nil_key.is_valid(2));
    let nil_value =
        TableData { entries: vec![(LuaValue::Number(1), LuaValue::Nil)], metatable: None };
    assert!(!nil_value.is_valid(2));
    let beyond =
        TableData { entries: vec![(LuaValue::Number(1), LuaValue::Table(2))], metatable: None };
    assert!(!beyond.is_valid(2));
    assert!(beyond.is_valid(3));
    assert!(LuaValue::Nil.is_nil());
    assert!(!LuaValue::Number(0).is_nil());
    assert_eq!(LuaValue::Function(1).type_of(), LuaType::Function);
}

#[test]
fn table_data_find_get_set_next() {
    let mut t = TableData::new();
    t.set(LuaValue::String("a".to_string()), LuaValue::Number(1));
    t.set(LuaValue::String("b".to_string()), LuaValue::Number(2));
    t.set(LuaValue::String("a".to_string()), LuaValue::Number(3));
    assert_eq!(t.entries.len(), 2);
    assert_eq!(t.find(&LuaValue::String("b".to_string())), Some(1));
    assert_eq!(t.find(&LuaValue::String("c".to_string())), None);
    assert_eq!(t.get(&LuaValue::String("a".to_string())), LuaValue::Number(3));
    assert_eq!(t.get(&LuaValue::String("c".to_string())), LuaValue::Nil);
    assert_eq!(
        t.next(&LuaValue::Nil),
        Some((LuaValue::String("a".to_string()), LuaValue::Number(3)))
    );
    assert_eq!(
        t.next(&LuaValue::String("a".to_string())),
        Some((LuaValue::String("b".to_string()), LuaValue::Number(2)))
    );
    assert_eq!(t.next(&LuaValue::String("b".to_string())), None);
    assert_eq!(t.next(&LuaValue::String("zzz".to_string())), None);
    t.set(LuaValue::String("a".to_string()), LuaValue::Nil);
    assert_eq!(t.entries.len(), 1);
    assert!(t.is_valid(2));
}

#[test]
fn type_names_are_those_of_the_interpreter() {
    assert_eq!(LuaType::NoValue.name(), "no value");
    assert_eq!(LuaType::Nil.name(), "nil");
    assert_eq!(LuaType::Boolean.name(), "boolean");
    assert_eq!(LuaType::Number.name(), "number");
    assert_eq!(LuaType::String.name(), "string");
    assert_eq!(LuaType::Table.name(), "table");
    assert_eq!(LuaType::Function.name(), "function");
}

#[test]
fn settop_truncates_or_pads_with_nil() {
    let mut lua = Lua::new();
    lua.pushinteger(1);
    lua.pushinteger(2);
    lua.pushinteger(3);
    lua.settop(1);
    assert_eq!(lua.gettop(), 1);
    assert_eq!(lua.tointeger(1), Some(1));
    lua.settop(3);
    assert_eq!(lua.gettop(), 3);
    assert_eq!(lua.tointeger(1), Some(1));
    assert_eq!(lua.type_at(2), LuaType::Nil);
    assert_eq!(lua.type_at(3), LuaType::Nil);
    lua.settop(0);
    assert_eq!(lua.gettop(), 0);
}

#[test]
fn guard_describes_the_kinds_of_its_slots() {
    let mut lua = Lua::new();
    lua.pushinteger(0);
    lua.pushinteger(69);
    lua.pushstring("foo");
    lua.pushboolean(true);
    assert_eq!(PushGuard::new(&lua, 3).lua_types(&lua), "(number, string, boolean)");
    assert_eq!(PushGuard::new(&lua, 1).lua_types(&lua), "boolean");
    assert_eq!(PushGuard::new(&lua, 0).lua_types(&lua), "()");
    let low = PushGuard::new(&lua, 2);
    lua.pop(1);
    lua.pushnil();
    lua.pushnil();
    assert_eq!(low.lua_types(&lua), "(string, nil)");
}
