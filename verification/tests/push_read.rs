use tarantool::tlua::{
    push_and_read, False, Function, Lua, LuaError, LuaRead, LuaType, LuaValue, Nil, Push, PushInto,
    PushIterError, TableMap, True, TuplePushError, UnknownTable,
};

#[test]
fn scalars_take_one_slot_each() {
    let mut lua = Lua::new();
    for _ in 0..2 {
        let before = lua.gettop();
        let guard = lua.push(5i32);
        assert_eq!(guard.size(), 1);
        assert_eq!(lua.gettop(), before + 1);
        assert_eq!(guard.top(), lua.gettop());
        guard.forget();
    }
    let guard = lua.push(true);
    assert_eq!(guard.size(), 1);
    guard.forget();
    let guard = lua.push("text");
    assert_eq!(guard.size(), 1);
    guard.forget();
    let guard = lua.push(String::from("owned"));
    assert_eq!(guard.size(), 1);
    guard.forget();
    let guard = lua.push(None::<i32>);
    assert_eq!(guard.size(), 1);
    guard.forget();
    assert_eq!(lua.type_at(-1), LuaType::Nil);
    assert_eq!(lua.tostring(-2), Some("owned".to_string()));
    assert_eq!(lua.tostring(-3), Some("text".to_string()));
    assert_eq!(lua.toboolean(-4), Some(true));
    assert_eq!(lua.gettop(), 6);
}

#[test]
fn round_trip_of_integers() {
    let mut lua = Lua::new();
    assert_eq!(push_and_read(&mut lua, &-128i8), Some(-128i8));
    assert_eq!(push_and_read(&mut lua, &i16::MAX), Some(i16::MAX));
    assert_eq!(push_and_read(&mut lua, &i32::MIN), Some(i32::MIN));
    assert_eq!(push_and_read(&mut lua, &i64::MIN), Some(i64::MIN));
    assert_eq!(push_and_read(&mut lua, &i64::MAX), Some(i64::MAX));
    assert_eq!(push_and_read(&mut lua, &255u8), Some(255u8));
    assert_eq!(push_and_read(&mut lua, &u16::MAX), Some(u16::MAX));
    assert_eq!(push_and_read(&mut lua, &u32::MAX), Some(u32::MAX));
    assert_eq!(lua.gettop(), 0);
}

#[test]
fn round_trip_of_text_and_truth_values() {
    let mut lua = Lua::new();
    assert_eq!(push_and_read(&mut lua, &String::from("héllo")), Some(String::from("héllo")));
    assert_eq!(push_and_read(&mut lua, &String::new()), Some(String::new()));
    assert_eq!(push_and_read(&mut lua, &true), Some(true));
    assert_eq!(push_and_read(&mut lua, &false), Some(false));
    assert_eq!(push_and_read(&mut lua, &Nil), Some(Nil));
    assert_eq!(push_and_read(&mut lua, &True), Some(True));
    assert_eq!(push_and_read(&mut lua, &False), Some(False));
    assert_eq!(lua.gettop(), 0);
}

#[test]
fn round_trip_of_optional_values() {
    let mut lua = Lua::new();
    assert_eq!(push_and_read(&mut lua, &Some(3i32)), Some(Some(3i32)));
    assert_eq!(push_and_read(&mut lua, &None::<i32>), Some(None::<i32>));
    assert_eq!(lua.gettop(), 0);
}

#[test]
fn round_trip_of_sequences() {
    let mut lua = Lua::new();
    let numbers = vec![10i32, 20, 30];
    assert_eq!(push_and_read(&mut lua, &numbers), Some(vec![10i32, 20, 30]));
    let words = vec![String::from("a"), String::from("b")];
    assert_eq!(push_and_read(&mut lua, &words), Some(words.clone()));
    let nested = vec![vec![1u8, 2], vec![], vec![3]];
    let guard = lua.try_push(&nested).unwrap();
    assert_eq!(lua.read::<Vec<Vec<u8>>>(guard).ok(), Some(nested.clone()));
    let empty: Vec<i64> = Vec::new();
    assert_eq!(push_and_read(&mut lua, &empty), Some(Vec::new()));
    assert_eq!(lua.gettop(), 0);
}

#[test]
fn round_trip_of_mappings() {
    let mut lua = Lua::new();
    let map = TableMap {
        pairs: vec![
            (String::from("foo"), 1i32),
            (String::from("bar"), 2i32),
            (String::from("baz"), 3i32),
        ],
    };
    let back = push_and_read(&mut lua, &map).unwrap();
    assert_eq!(
        back.pairs,
        vec![(String::from("foo"), 1i32), (String::from("bar"), 2i32), (String::from("baz"), 3i32)]
    );
    assert_eq!(lua.gettop(), 0);
}

#[test]
fn round_trip_of_any_value() {
    let mut lua = Lua::new();
    let text = LuaValue::String("x".to_string());
    assert_eq!(push_and_read(&mut lua, &text), Some(LuaValue::String("x".to_string())));
    assert_eq!(push_and_read(&mut lua, &LuaValue::Table(0)), Some(LuaValue::Table(0)));
    assert_eq!(push_and_read(&mut lua, &LuaValue::Function(4)), Some(LuaValue::Function(4)));
    assert_eq!(push_and_read(&mut lua, &LuaValue::Table(2)), None);
    assert_eq!(lua.gettop(), 0);
    assert_eq!(lua.table_count(), 2);
}

#[test]
fn push_and_read_leaves_no_table_behind() {
    let mut lua = Lua::new();
    assert_eq!(push_and_read(&mut lua, &vec![1u8, 2u8]), Some(vec![1, 2]));
    assert_eq!(lua.table_count(), 2);
    assert_eq!(push_and_read(&mut lua, &vec!["a".to_string()]), Some(vec!["a".to_string()]));
    assert_eq!(lua.table_count(), 2);
}

#[test]
fn a_pushed_sequence_is_one_new_table_of_the_store() {
    let mut lua = Lua::new();
    let guard = lua.try_push(vec![vec![1i32, 2], vec![3]]).unwrap();
    assert_eq!(guard.size(), 1);
    assert_eq!(lua.totable(-1), Some(2));
    assert_eq!(lua.table_count(), 5);
    assert_eq!(
        lua.table_data(2).entries,
        vec![(LuaValue::Number(1), LuaValue::Table(3)), (LuaValue::Number(2), LuaValue::Table(4))]
    );
    assert_eq!(lua.read::<Vec<Vec<i32>>>(guard).ok(), Some(vec![vec![1, 2], vec![3]]));
}

#[test]
fn a_sequence_becomes_a_table_with_keys_from_one() {
    let mut lua = Lua::new();
    let guard = lua.try_push(vec![String::from("a"), String::from("b")]).unwrap();
    assert_eq!(guard.size(), 1);
    assert_eq!(lua.gettop(), 1);
    assert_eq!(lua.objlen(1), 2);
    lua.pushinteger(1);
    lua.gettable(1);
    assert_eq!(lua.tostring(-1), Some("a".to_string()));
    lua.pop(1);
    lua.pushinteger(2);
    lua.gettable(1);
    assert_eq!(lua.tostring(-1), Some("b".to_string()));
    lua.pop(1);
    lua.pushinteger(0);
    lua.gettable(1);
    assert_eq!(lua.type_at(-1), LuaType::Nil);
}

#[test]
fn pairs_become_entries() {
    let mut lua = Lua::new();
    let guard = lua.try_push_iter(vec![("x", 1i32), ("y", 2i32)]).unwrap();
    assert_eq!(guard.size(), 1);
    lua.pushstring("y");
    lua.gettable(1);
    assert_eq!(lua.tointeger(-1), Some(2));
}

#[test]
fn items_of_no_value_store_nothing() {
    let mut lua = Lua::new();
    let guard = lua.push_iter(vec![(), (), ()]).unwrap();
    assert_eq!(guard.size(), 1);
    assert_eq!(lua.objlen(1), 0);
}

#[test]
fn an_item_of_three_values_is_too_many() {
    let mut lua = Lua::new();
    lua.pushinteger(99);
    let r = lua.try_push_iter(vec![(1i32, 2i32, 3i32)]);
    assert!(matches!(r, Err(PushIterError::TooManyValues(3))));
    assert_eq!(lua.gettop(), 1);
    assert_eq!(lua.tointeger(-1), Some(99));
    assert!(lua.push_iter(vec![(1i32, 2i32, 3i32)]).is_none());
    assert_eq!(lua.gettop(), 1);
}

fn bad_value() -> LuaValue {
    LuaValue::Table(999)
}

#[test]
fn a_value_that_names_no_table_is_not_pushed() {
    let mut lua = Lua::new();
    let r = lua.try_push(bad_value());
    assert!(matches!(r, Err(UnknownTable)));
    assert_eq!(lua.gettop(), 0);
}

#[test]
fn atomic_composite_push() {
    let mut lua = Lua::new();
    lua.pushstring("below");
    let before = lua.gettop();
    let entries = vec![
        ("one", LuaValue::Number(1)),
        ("two", bad_value()),
        ("three", LuaValue::Number(3)),
    ];
    let r = lua.try_push(entries);
    match r {
        Err(PushIterError::ValuePushError(TuplePushError::Other(UnknownTable))) => (),
        other => panic!("{:?}", other.map(|g| g.size())),
    }
    assert_eq!(lua.gettop(), before);
    assert_eq!(lua.tostring(-1), Some("below".to_string()));
    assert_eq!(lua.type_at(before + 1), LuaType::NoValue);
    assert_eq!(lua.table_count(), 2);
    let nested = vec![vec![LuaValue::Number(1)], vec![bad_value()], vec![LuaValue::Number(3)]];
    assert!(lua.try_push(nested).is_err());
    assert_eq!(lua.gettop(), before);
    assert_eq!(lua.table_count(), 2);
}

#[test]
fn a_failing_key_is_told_apart_from_a_failing_value() {
    let mut lua = Lua::new();
    let r = lua.try_push(vec![(bad_value(), LuaValue::Number(1))]);
    assert!(matches!(
        r,
        Err(PushIterError::ValuePushError(TuplePushError::First(UnknownTable)))
    ));
    assert_eq!(lua.gettop(), 0);
}

#[test]
fn failed_sequence_push_leaves_the_stack_as_it_was() {
    let mut lua = Lua::new();
    let r = lua.try_push(vec![LuaValue::Number(1), LuaValue::Number(2), bad_value()]);
    assert!(matches!(r, Err(PushIterError::ValuePushError(UnknownTable))));
    assert_eq!(lua.gettop(), 0);
}

#[test]
fn tuples_take_one_slot_per_component() {
    let mut lua = Lua::new();
    let guard = lua.push((1i32, "two", true));
    assert_eq!(guard.size(), 3);
    assert_eq!(lua.gettop(), 3);
    assert_eq!(lua.tointeger(1), Some(1));
    assert_eq!(lua.tostring(2), Some("two".to_string()));
    assert_eq!(lua.toboolean(3), Some(true));
    guard.into_inner(&mut lua);
    assert_eq!(lua.gettop(), 0);
    let guard = lua.push((7i32,));
    assert_eq!(guard.size(), 1);
    guard.forget();
    let guard = lua.push((1i32, 2i32, 3i32, 4i32));
    assert_eq!(guard.size(), 4);
    assert_eq!(lua.gettop(), 5);
}

#[test]
fn a_failing_component_undoes_the_components_before_it() {
    let mut lua = Lua::new();
    let r = lua.try_push((1i32, 2i32, bad_value()));
    assert!(matches!(
        r,
        Err(TuplePushError::Other(TuplePushError::Other(UnknownTable)))
    ));
    assert_eq!(lua.gettop(), 0);
    let r = lua.try_push((bad_value(), 2i32));
    assert!(matches!(r, Err(TuplePushError::First(UnknownTable))));
    assert_eq!(lua.gettop(), 0);
}

#[test]
fn push_by_reference_keeps_the_value() {
    let mut lua = Lua::new();
    let text = String::from("kept");
    let guard = lua.push(&text);
    assert_eq!(guard.size(), 1);
    assert_eq!(text, "kept");
    let guard2 = text.push_to_lua(&mut lua).unwrap();
    assert_eq!(guard2.size(), 1);
    let guard3 = text.push_into_lua(&mut lua).unwrap();
    assert_eq!(guard3.size(), 1);
    assert_eq!(lua.gettop(), 3);
    assert_eq!(lua.tostring(1), lua.tostring(3));
}

#[test]
fn push_no_err_returns_the_guard() {
    let mut lua = Lua::new();
    let guard = 5u8.push_no_err(&mut lua);
    assert_eq!(guard.size(), 1);
    let guard = 6u8.push_into_no_err(&mut lua);
    assert_eq!(guard.size(), 1);
    assert_eq!(lua.gettop(), 2);
    let guard = lua.push_one(7u8);
    assert_eq!(guard.size(), 1);
    let guard = lua.try_push_one(8u8).unwrap();
    assert_eq!(guard.size(), 1);
    assert_eq!(lua.tointeger(-1), Some(8));
}

#[test]
fn type_mismatch() {
    let mut lua = Lua::new();
    let guard = lua.push(12i32);
    let guard = match lua.read::<String>(guard) {
        Err(guard) => guard,
        Ok(_) => panic!(),
    };
    assert_eq!(lua.gettop(), 1);
    match LuaError::wrong_type::<String>(&lua, 1) {
        LuaError::WrongType { rust_expected, lua_actual } => {
            assert_eq!(rust_expected, "text");
            assert_eq!(lua_actual, "number");
        }
        _ => panic!(),
    }
    assert_eq!(lua.read::<i32>(guard).ok(), Some(12));
    assert_eq!(lua.gettop(), 0);
}

#[test]
fn a_failed_read_hands_the_guard_back_for_another_type() {
    let mut lua = Lua::new();
    let guard = lua.push("seven");
    let guard = lua.read::<i32>(guard).unwrap_err();
    assert_eq!(guard.size(), 1);
    assert_eq!(lua.gettop(), 1);
    let guard = lua.read::<bool>(guard).unwrap_err();
    assert_eq!(lua.read::<String>(guard).ok(), Some("seven".to_string()));
    assert_eq!(lua.gettop(), 0);
}

#[test]
fn read_at_positions() {
    let mut lua = Lua::new();
    lua.pushinteger(1);
    lua.pushstring("two");
    let guard = lua.push(3i32);
    let guard = lua.read_at::<i32>(guard, 0).unwrap_err();
    assert_eq!(lua.gettop(), 3);
    let guard = lua.read_at::<String>(guard, 1).unwrap_err();
    assert_eq!(lua.read_at::<String>(guard, 2).ok(), Some("two".to_string()));
    assert_eq!(lua.gettop(), 2);
    let guard = lua.push(4i32);
    assert_eq!(lua.read_at_nz::<i32>(guard, 1).ok(), Some(1));
    assert_eq!(lua.gettop(), 2);
}

#[test]
fn numbers_are_not_truncated() {
    let mut lua = Lua::new();
    lua.pushinteger(256);
    lua.pushinteger(-1);
    lua.pushinteger(i64::from(i32::MAX) + 1);
    assert_eq!(u8::lua_read_at_position(&lua, 1), None);
    assert_eq!(u16::lua_read_at_position(&lua, 1), Some(256));
    assert_eq!(i8::lua_read_at_position(&lua, 1), None);
    assert_eq!(u8::lua_read_at_position(&lua, 2), None);
    assert_eq!(u32::lua_read_at_position(&lua, 2), None);
    assert_eq!(i8::lua_read_at_position(&lua, 2), Some(-1));
    assert_eq!(i32::lua_read_at_position(&lua, 3), None);
    assert_eq!(u32::lua_read_at_position(&lua, 3), Some(2147483648));
    assert_eq!(i64::lua_read_at_position(&lua, 3), Some(2147483648));
}

#[test]
fn optional_reads_take_a_failure_as_absent() {
    let mut lua = Lua::new();
    lua.pushstring("not a number");
    lua.pushinteger(4);
    assert_eq!(Option::<i32>::lua_read_at_position(&lua, 1), Some(None));
    assert_eq!(Option::<i32>::lua_read_at_position(&lua, 2), Some(Some(4)));
    assert_eq!(Option::<i32>::lua_read_at_position(&lua, 3), Some(None));
    assert_eq!(Option::<i32>::lua_read(&lua), Some(Some(4)));
}

#[test]
fn either_reads_the_first_shape_that_fits() {
    let mut lua = Lua::new();
    lua.pushinteger(4);
    lua.pushstring("four");
    lua.pushboolean(true);
    assert_eq!(Result::<i32, String>::lua_read_at_position(&lua, 1), Some(Ok(4)));
    assert_eq!(
        Result::<i32, String>::lua_read_at_position(&lua, 2),
        Some(Err("four".to_string()))
    );
    assert_eq!(Result::<i32, String>::lua_read_at_position(&lua, 3), None);
    assert_eq!(
        Result::<LuaValue, i32>::lua_read_at_position(&lua, 1),
        Some(Ok(LuaValue::Number(4)))
    );
}

#[test]
fn tuples_read_from_increasing_places() {
    let mut lua = Lua::new();
    lua.pushinteger(1);
    lua.pushstring("two");
    lua.pushinteger(3);
    assert_eq!(
        <(i32, String, i32)>::lua_read_at_position(&lua, 1),
        Some((1, "two".to_string(), 3))
    );
    assert_eq!(<(i32, String, i32)>::lua_read(&lua), Some((1, "two".to_string(), 3)));
    assert_eq!(<(String, i32)>::lua_read(&lua), Some(("two".to_string(), 3)));
    assert_eq!(<(i32,)>::lua_read(&lua), Some((3,)));
    assert_eq!(<(i32, i32)>::lua_read_at_position(&lua, 1), None);
    assert_eq!(<(i32, String)>::lua_read_at_position(&lua, 1), Some((1, "two".to_string())));
    assert_eq!(<(i32, i32)>::lua_read_at_position(&lua, 3), None);
    assert_eq!(
        <(i32, Option<i32>, Option<i32>)>::lua_read_at_position(&lua, 3),
        Some((3, None, None))
    );
    assert_eq!(
        <(i32, String, i32, Option<bool>)>::lua_read_at_position(&lua, 1),
        Some((1, "two".to_string(), 3, None))
    );
    assert_eq!(<(i32, i32)>::lua_read_at_position(&lua, -7), None);
    assert_eq!(<(Option<i32>, Option<i32>)>::lua_read_at_position(&lua, -7), Some((None, None)));
}

#[test]
fn unit_reads_from_anything() {
    let mut lua = Lua::new();
    assert_eq!(<()>::lua_read(&lua), Some(()));
    lua.pushinteger(1);
    assert_eq!(<()>::lua_read_at_position(&lua, 1), Some(()));
    assert_eq!(<()>::n_values_expected(), 0);
    assert_eq!(<()>::lua_read_at_maybe_zero_position(&lua, 0), None);
}

#[test]
fn marker_types_read_their_own_value_only() {
    let mut lua = Lua::new();
    lua.pushboolean(true);
    lua.pushboolean(false);
    lua.pushnil();
    assert_eq!(True::lua_read_at_position(&lua, 1), Some(True));
    assert_eq!(True::lua_read_at_position(&lua, 2), None);
    assert_eq!(False::lua_read_at_position(&lua, 2), Some(False));
    assert_eq!(False::lua_read_at_position(&lua, 1), None);
    assert_eq!(Nil::lua_read_at_position(&lua, 3), Some(Nil));
    assert_eq!(Nil::lua_read_at_position(&lua, 2), None);
    assert_eq!(Nil::lua_read_at_position(&lua, 4), None);
}

#[test]
fn expected_names() {
    assert_eq!(i32::expected_name(), "i32");
    assert_eq!(u8::expected_name(), "u8");
    assert_eq!(bool::expected_name(), "bool");
    assert_eq!(String::expected_name(), "text");
    assert_eq!(Option::<i32>::expected_name(), "Option<i32>");
    assert_eq!(Vec::<String>::expected_name(), "Vec<text>");
    assert_eq!(<(i32,)>::expected_name(), "(i32,)");
    assert_eq!(<(i8, i8, i8, i8)>::expected_name(), "(i8, i8, i8, i8)");
    assert_eq!(<(bool, String)>::expected_name(), "(bool, text)");
    assert_eq!(Result::<True, False>::expected_name(), "Result<true, false>");
    assert_eq!(TableMap::<String, i32>::expected_name(), "TableMap<text, i32>");
    assert_eq!(LuaValue::expected_name(), "any");
    assert_eq!(<()>::expected_name(), "()");
    assert_eq!(Nil::expected_name(), "nil");
    assert_eq!(i32::n_values_expected(), 1);
    assert_eq!(<(i32, i32, i32)>::n_values_expected(), 3);
    assert_eq!(Result::<(i32, i32), i32>::n_values_expected(), 2);
}

#[test]
fn a_table_with_a_gap_does_not_read_as_a_sequence_of_numbers() {
    let mut lua = Lua::new();
    lua.newtable();
    lua.pushinteger(10);
    lua.rawseti(1, 1);
    lua.pushinteger(30);
    lua.rawseti(1, 3);
    assert_eq!(Vec::<i32>::lua_read_at_position(&lua, 1), None);
    assert_eq!(
        Vec::<Option<i32>>::lua_read_at_position(&lua, 1),
        Some(vec![Some(10), None])
    );
    lua.pushinteger(5);
    assert_eq!(Vec::<i32>::lua_read_at_position(&lua, 2), None);
    assert_eq!(TableMap::<i32, i32>::lua_read_at_position(&lua, 2).map(|m| m.pairs), None);
    assert_eq!(
        TableMap::<i32, i32>::lua_read_at_position(&lua, 1).map(|m| m.pairs),
        Some(vec![(1, 10), (3, 30)])
    );
    assert_eq!(TableMap::<String, i32>::lua_read_at_position(&lua, 1).map(|m| m.pairs), None);
}

#[test]
fn host_function_takes_one_slot_and_comes_back() {
    let mut lua = Lua::new();
    let guard = lua.push(Function { pin: 12 });
    assert_eq!(guard.size(), 1);
    assert_eq!(lua.type_at(-1), LuaType::Function);
    assert_eq!(lua.tofunction(-1), Some(12));
    guard.into_inner(&mut lua);
    assert_eq!(push_and_read(&mut lua, &Function { pin: 3 }), Some(Function { pin: 3 }));
    lua.pushinteger(1);
    assert_eq!(Function::lua_read_at_position(&lua, -1), None);
    assert_eq!(Function::expected_name(), "function");
}
