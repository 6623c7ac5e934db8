use std::io::{Error, ErrorKind};
use tarantool::tlua::{
    call_host, display, finish_run, number_text, read_results, CallOutcome, False, Lua, LuaError,
    LuaFunction, LuaFunctionCallError, LuaValue, PushGuard, Run, TableData, True, UnknownTable,
    GLOBALS,
};

fn function_on_stack(lua: &mut Lua, id: u32) -> LuaFunction {
    lua.pushfunction(id);
    let guard = PushGuard::new(lua, 1);
    LuaFunction::lua_read_at_position(lua, guard, -1).unwrap()
}

fn number(v: &LuaValue) -> i64 {
    match v {
        LuaValue::Number(n) => *n,
        _ => panic!("not a number"),
    }
}

fn returned(tables: Vec<TableData>, values: Vec<LuaValue>) -> Run {
    Run { tables, outcome: CallOutcome::Returned(values) }
}

fn raised(tables: Vec<TableData>, text: &str) -> Run {
    Run { tables, outcome: CallOutcome::Raised(LuaValue::String(text.to_string())) }
}

#[test]
fn basic() {
    let mut lua = Lua::new();
    let f = function_on_stack(&mut lua, 1);
    let val: i32 = f
        .call(&mut lua, |id, args, tables| {
            assert_eq!(id, 1);
            assert!(args.is_empty());
            assert_eq!(tables.len(), 2);
            returned(tables, vec![LuaValue::Number(5)])
        })
        .unwrap();
    assert_eq!(val, 5);
    assert_eq!(lua.gettop(), 1);
}

#[test]
fn args() {
    let mut lua = Lua::new();
    let f = function_on_stack(&mut lua, 2);
    let val: i32 = f
        .call_with_args(&mut lua, 3i32, |_, args, tables| {
            returned(tables, vec![LuaValue::Number(number(&args[0]) * 5)])
        })
        .unwrap();
    assert_eq!(val, 15);
}

#[test]
fn args_in_order() {
    let mut lua = Lua::new();
    let f = function_on_stack(&mut lua, 2);
    let val: i32 = f
        .call_with_args(&mut lua, (5i32, 3i32), |_, args, tables| {
            assert_eq!(args.len(), 2);
            returned(tables, vec![LuaValue::Number(number(&args[0]) - number(&args[1]))])
        })
        .unwrap();
    assert_eq!(val, 2);
    assert_eq!(lua.gettop(), 1);
}

#[test]
fn a_handle_is_made_of_functions_only() {
    let mut lua = Lua::new();
    lua.pushinteger(1);
    let guard = PushGuard::new(&lua, 1);
    let guard = LuaFunction::lua_read_at_position(&lua, guard, -1).unwrap_err();
    assert_eq!(guard.size(), 1);
    let f = function_on_stack(&mut lua, 9);
    assert_eq!(f.into_inner().size(), 1);
}

#[test]
fn call_error_propagation() {
    let mut lua = Lua::new();
    let f = function_on_stack(&mut lua, 1);
    let res: Result<(), LuaError> = f.call(&mut lua, |_, _, tables| raised(tables, "oops"));
    match res {
        Err(LuaError::ExecutionError(msg)) => assert_eq!(msg, "oops"),
        other => panic!("{:?}", other),
    }
    assert_eq!(lua.gettop(), 1);
    let res: Result<i32, _> =
        f.call_with_args(&mut lua, (1i32, 2i32), |_, _, tables| raised(tables, "oops"));
    match res {
        Err(LuaFunctionCallError::LuaError(LuaError::ExecutionError(msg))) => {
            assert_eq!(msg, "oops")
        }
        other => panic!("{:?}", other),
    }
    assert_eq!(lua.gettop(), 1);
}

#[test]
fn a_call_can_change_a_table_that_it_was_handed() {
    let mut lua = Lua::new();
    let f = function_on_stack(&mut lua, 1);
    lua.newtable();
    let table = lua.totable(-1).unwrap();
    let guard = lua.try_push(LuaValue::Table(table)).unwrap();
    guard.into_inner(&mut lua);
    let r: Result<(), _> = f.call_with_args(&mut lua, LuaValue::Table(table), |_, args, mut tables| {
        let id = match args[0] {
            LuaValue::Table(id) => id,
            _ => panic!(),
        };
        tables[id].set(LuaValue::Number(1), LuaValue::String("set by the call".to_string()));
        tables.push(TableData::new());
        returned(tables, vec![])
    });
    assert!(r.is_ok());
    assert_eq!(lua.gettop(), 2);
    assert_eq!(lua.objlen(2), 1);
    assert_eq!(lua.table_count(), 4);
    lua.pushinteger(1);
    lua.gettable(2);
    assert_eq!(lua.tostring(-1), Some("set by the call".to_string()));
}

#[test]
fn raised_values_give_their_text() {
    let mut lua = Lua::new();
    let cases: Vec<(LuaValue, &str)> = vec![
        (LuaValue::Nil, "nil"),
        (LuaValue::Number(-42), "-42"),
        (LuaValue::Number(0), "0"),
        (LuaValue::Boolean(true), "true"),
        (LuaValue::Boolean(false), "false"),
        (LuaValue::Function(1), "function"),
        (LuaValue::Table(1), "table"),
        (LuaValue::Table(2), "malformed error value"),
    ];
    for (value, text) in cases {
        match read_results::<()>(&mut lua, CallOutcome::Raised(value)) {
            Err(LuaError::ExecutionError(msg)) => assert_eq!(msg, text),
            other => panic!("{:?}", other),
        }
    }
    assert_eq!(lua.gettop(), 0);
}

#[test]
fn either_or() {
    let mut lua = Lua::new();
    let foo = function_on_stack(&mut lua, 1);
    let engine = |_: u32, args: Vec<LuaValue>, tables: Vec<TableData>| {
        if number(&args[0]) > 0 {
            returned(
                tables,
                vec![LuaValue::Boolean(true), LuaValue::Number(69), LuaValue::Number(420)],
            )
        } else {
            returned(tables, vec![LuaValue::Boolean(false), LuaValue::String("hello".to_string())])
        }
    };
    type Res = Result<(True, i32, i32), (False, String)>;
    let res: Res = foo.call_with_args(&mut lua, 1i32, engine).unwrap();
    assert_eq!(res, Ok((True, 69, 420)));
    let res: Res = foo.call_with_args(&mut lua, 0i32, engine).unwrap();
    assert_eq!(res, Err((False, "hello".to_string())));
    assert_eq!(lua.gettop(), 1);
}

#[test]
fn check_types() {
    let mut lua = Lua::new();
    let twelve = || CallOutcome::Returned(vec![LuaValue::Number(12)]);
    let err = read_results::<bool>(&mut lua, twelve()).unwrap_err();
    match &err {
        LuaError::WrongType { rust_expected, lua_actual } => {
            assert_eq!(rust_expected, "bool");
            assert_eq!(lua_actual, "number");
        }
        v => panic!("{:?}", v),
    };
    assert_eq!(err.message(), "Wrong type returned by Lua: bool expected, got number");
    assert_eq!(read_results::<i32>(&mut lua, twelve()).unwrap(), 12i32);
    assert_eq!(read_results::<u8>(&mut lua, twelve()).unwrap(), 12u8);
    assert_eq!(
        read_results::<String>(&mut lua, twelve()).unwrap_err().message(),
        "Wrong type returned by Lua: text expected, got number"
    );
}

#[test]
fn multiple_return_values() {
    let mut lua = Lua::new();
    let four = || {
        CallOutcome::Returned(vec![
            LuaValue::Number(69),
            LuaValue::String("foo".to_string()),
            LuaValue::Number(3),
            LuaValue::Boolean(true),
        ])
    };
    let res: (i32, String, i64, bool) = read_results(&mut lua, four()).unwrap();
    assert_eq!(res, (69, "foo".to_string(), 3, true));
    let e = read_results::<(i8, i8, i8, i8)>(&mut lua, four()).unwrap_err();
    assert_eq!(
        e.message(),
        "Wrong type returned by Lua: (i8, i8, i8, i8) expected, got (number, string, number, boolean)",
    );
    let e = read_results::<(i32, i32, i32)>(&mut lua, four()).unwrap_err();
    match e {
        LuaError::WrongType { rust_expected, lua_actual } => {
            assert_eq!(rust_expected, "(i32, i32, i32)");
            assert_eq!(lua_actual, "(number, string, number, boolean)");
        }
        other => panic!("{:?}", other),
    }
    assert_eq!(lua.gettop(), 0);
}

#[test]
fn multiple_return_values_fail() {
    let mut lua = Lua::new();
    let three = || {
        CallOutcome::Returned(vec![LuaValue::Number(1), LuaValue::Number(2), LuaValue::Number(3)])
    };
    assert_eq!(read_results::<i32>(&mut lua, three()).unwrap(), 1);
    assert_eq!(read_results::<(i32,)>(&mut lua, three()).unwrap(), (1,));
    assert_eq!(read_results::<(i32, i32)>(&mut lua, three()).unwrap(), (1, 2));
    assert_eq!(read_results::<(i32, i32, i32)>(&mut lua, three()).unwrap(), (1, 2, 3));
    assert_eq!(
        read_results::<(i32, i32, i32, i32)>(&mut lua, three()).unwrap_err().message(),
        "Wrong type returned by Lua: (i32, i32, i32, i32) expected, got (number, number, number)"
    );
    assert_eq!(
        read_results::<(i32, i32, i32, Option<i32>)>(&mut lua, three()).unwrap(),
        (1, 2, 3, None)
    );
    assert_eq!(
        read_results::<(bool, String, i64)>(&mut lua, three()).unwrap_err().message(),
        "Wrong type returned by Lua: (bool, text, i64) expected, got (number, number, number)"
    );
}

#[test]
fn zero_results() {
    let mut lua = Lua::new();
    lua.pushinteger(1);
    assert!(read_results::<()>(&mut lua, CallOutcome::Returned(vec![])).is_ok());
    let e = read_results::<i32>(&mut lua, CallOutcome::Returned(vec![])).unwrap_err();
    assert_eq!(e.message(), "Wrong type returned by Lua: i32 expected, got ()");
    assert_eq!(
        read_results::<Option<i32>>(&mut lua, CallOutcome::Returned(vec![])).unwrap(),
        None
    );
    assert_eq!(lua.gettop(), 1);
}

#[test]
fn declaring_no_result_discards_what_was_returned() {
    let mut lua = Lua::new();
    lua.pushinteger(1);
    let r = read_results::<()>(
        &mut lua,
        CallOutcome::Returned(vec![LuaValue::Number(1), LuaValue::Number(2)]),
    );
    assert!(r.is_ok());
    assert_eq!(lua.gettop(), 1);
    assert_eq!(lua.tointeger(-1), Some(1));
}

#[test]
fn malformed_results_and_overflow_are_execution_errors() {
    let mut lua = Lua::new();
    match read_results::<LuaValue>(&mut lua, CallOutcome::Returned(vec![LuaValue::Table(2)])) {
        Err(LuaError::ExecutionError(msg)) => assert_eq!(msg, "malformed result"),
        other => panic!("{:?}", other),
    }
    let many: Vec<LuaValue> = (0..8001).map(LuaValue::Number).collect();
    match read_results::<i32>(&mut lua, CallOutcome::Returned(many)) {
        Err(LuaError::ExecutionError(msg)) => assert_eq!(msg, "stack overflow"),
        other => panic!("{:?}", other),
    }
    let fits: Vec<LuaValue> = (0..8000).map(LuaValue::Number).collect();
    assert_eq!(read_results::<i32>(&mut lua, CallOutcome::Returned(fits)).unwrap(), 0);
    assert_eq!(lua.gettop(), 0);
}

#[test]
fn a_report_that_is_no_store_changes_nothing() {
    let mut lua = Lua::new();
    lua.set("a", 1i32);
    let twice = TableData {
        entries: vec![
            (LuaValue::Number(1), LuaValue::Number(1)),
            (LuaValue::Number(1), LuaValue::Number(2)),
        ],
        metatable: None,
    };
    let run = returned(vec![twice, TableData::new()], vec![LuaValue::Number(1)]);
    match finish_run::<i32>(&mut lua, run) {
        Err(LuaError::ExecutionError(msg)) => assert_eq!(msg, "malformed tables"),
        other => panic!("{:?}", other),
    }
    let run = returned(vec![TableData::new()], vec![]);
    assert!(finish_run::<()>(&mut lua, run).is_err());
    assert_eq!(lua.get::<i32>("a"), Some(1));
    let mut tables = lua.tables_copy();
    tables.push(TableData::new());
    let run = returned(tables, vec![LuaValue::Table(2)]);
    assert_eq!(finish_run::<LuaValue>(&mut lua, run).unwrap(), LuaValue::Table(2));
    assert_eq!(lua.table_count(), 3);
}

#[test]
fn arguments_that_cannot_be_pushed_prevent_the_call() {
    let mut lua = Lua::new();
    let f = function_on_stack(&mut lua, 1);
    let r: Result<i32, _> = f.call_with_args(&mut lua, LuaValue::Table(999), |_, _, _| {
        panic!("the function must not be called")
    });
    assert!(matches!(r, Err(LuaFunctionCallError::PushError(UnknownTable))));
    assert_eq!(lua.gettop(), 1);
}

// What the interpreter would do with `a = 5`, or with `return a + 1`.
fn assign_or_add(code: String, mut tables: Vec<TableData>) -> Result<Run, String> {
    let a = LuaValue::String("a".to_string());
    if code == "a = 5" {
        tables[GLOBALS].set(a, LuaValue::Number(5));
        Ok(returned(tables, vec![]))
    } else if code == "return a + 1" {
        let value = number(&tables[GLOBALS].get(&a)) + 1;
        Ok(returned(tables, vec![LuaValue::Number(value)]))
    } else {
        Err(format!("unexpected symbol near '{}'", code))
    }
}

#[test]
fn exec_changes_a_global() {
    let mut lua = Lua::new();
    lua.exec("a = 5", assign_or_add).unwrap();
    assert_eq!(lua.get::<i32>("a"), Some(5));
    let six: u32 = lua.eval("return a + 1", assign_or_add).unwrap();
    assert_eq!(six, 6);
    assert_eq!(lua.gettop(), 0);
}

#[test]
fn eval_and_exec() {
    let mut lua = Lua::new();
    let twelve: i32 = lua
        .eval("return 3 * 4;", |code, tables| {
            assert_eq!(code, "return 3 * 4;");
            Ok(returned(tables, vec![LuaValue::Number(12)]))
        })
        .unwrap();
    assert_eq!(twelve, 12);
    assert!(lua.exec("a = 12 * 5", |_, tables| Ok(returned(tables, vec![]))).is_ok());
    assert_eq!(lua.gettop(), 0);
}

#[test]
fn syntax_error() {
    let mut lua = Lua::new();
    lua.set("keep", 1i32);
    match lua.exec("azerazer", assign_or_add) {
        Err(LuaError::SyntaxError(msg)) => assert_eq!(msg, "unexpected symbol near 'azerazer'"),
        _ => panic!(),
    };
    match lua.eval::<i32, _>("azerazer", |_, _| Err("no program".to_string())) {
        Err(e @ LuaError::SyntaxError(_)) => assert_eq!(e.message(), "Syntax error: no program"),
        _ => panic!(),
    };
    assert_eq!(lua.get::<i32>("keep"), Some(1));
}

#[test]
fn execution_error() {
    let mut lua = Lua::new();
    let raise =
        |_: String, tables: Vec<TableData>| Ok(raised(tables, "attempt to index a nil value"));
    match lua.exec("return a:hello()", raise) {
        Err(e @ LuaError::ExecutionError(_)) => {
            assert_eq!(e.message(), "Execution error: attempt to index a nil value");
            assert_eq!(e.description(), "attempt to index a nil value");
            assert!(e.cause().is_none());
        }
        _ => panic!(),
    };
}

#[test]
fn execute_from_reader_errors_if_cant_read() {
    let mut lua = Lua::new();
    let failed = Err(Error::new(ErrorKind::Other, "oh no!"));
    match lua.exec_from(failed, |_, _| panic!("nothing to run")) {
        Ok(_) => panic!("Reading succeded"),
        Err(LuaError::ReadError(e)) => assert_eq!("oh no!", e.to_string()),
        Err(_) => panic!("Unexpected error happened"),
    }
    let failed = Err(Error::new(ErrorKind::Other, "oh no!"));
    match lua.eval_from::<i32, _>(failed, |_, _| panic!("nothing to run")) {
        Err(e @ LuaError::ReadError(_)) => {
            assert_eq!(e.message(), "Read error: oh no!");
            assert_eq!(e.description(), "read error");
            assert_eq!(e.cause().map(|c| c.to_string()), Some("oh no!".to_string()));
        }
        _ => panic!(),
    }
    let read = Ok("return 1".to_string());
    let one: i32 = lua
        .eval_from(read, |code, tables| {
            assert_eq!(code, "return 1");
            Ok(returned(tables, vec![LuaValue::Number(1)]))
        })
        .unwrap();
    assert_eq!(one, 1);
    assert!(lua.exec_from(Ok("a = 5".to_string()), assign_or_add).is_ok());
    assert_eq!(lua.get::<i32>("a"), Some(5));
}

#[test]
fn error_from_io_error() {
    let e: LuaError = Error::new(ErrorKind::NotFound, "gone").into();
    assert!(matches!(e, LuaError::ReadError(_)));
    let wrong = LuaError::WrongType { rust_expected: "a".into(), lua_actual: "b".into() };
    assert_eq!(wrong.description(), "wrong type returned by Lua");
    assert!(wrong.cause().is_none());
    assert_eq!(LuaError::SyntaxError("s".into()).description(), "s");
}

#[test]
fn numbers_in_base_ten() {
    assert_eq!(number_text(0), "0");
    assert_eq!(number_text(7), "7");
    assert_eq!(number_text(10), "10");
    assert_eq!(number_text(-1), "-1");
    assert_eq!(number_text(1234567890), "1234567890");
    assert_eq!(number_text(i64::MAX), "9223372036854775807");
    assert_eq!(number_text(i64::MIN), "-9223372036854775808");
    assert_eq!(display(&LuaValue::String("as is".into())), "as is");
    assert_eq!(display(&LuaValue::Number(-305)), "-305");
}

fn store() -> Vec<TableData> {
    vec![TableData::new(), TableData::new()]
}

fn outcome_of(run: Run) -> CallOutcome {
    run.outcome
}

#[test]
fn host_function_takes_decoded_arguments() {
    let add = |(a, b): (i32, i32)| a + b;
    match outcome_of(call_host(add, vec![LuaValue::Number(2), LuaValue::Number(3)], store())) {
        CallOutcome::Returned(vals) => assert_eq!(vals, vec![LuaValue::Number(5)]),
        other => panic!("{:?}", other),
    }
    match outcome_of(call_host(|(): ()| (1i32, "two"), vec![], store())) {
        CallOutcome::Returned(vals) => {
            assert_eq!(vals, vec![LuaValue::Number(1), LuaValue::String("two".to_string())])
        }
        other => panic!("{:?}", other),
    }
    let with_default = |(a, b): (i32, Option<i32>)| a + b.unwrap_or(10);
    match outcome_of(call_host(with_default, vec![LuaValue::Number(1)], store())) {
        CallOutcome::Returned(vals) => assert_eq!(vals, vec![LuaValue::Number(11)]),
        other => panic!("{:?}", other),
    }
}

#[test]
fn host_function_returns_a_new_table_in_the_store() {
    let run = call_host(|n: i32| vec![n, n + 1], vec![LuaValue::Number(7)], store());
    assert_eq!(run.tables.len(), 3);
    assert_eq!(
        run.tables[2].entries,
        vec![
            (LuaValue::Number(1), LuaValue::Number(7)),
            (LuaValue::Number(2), LuaValue::Number(8))
        ]
    );
    match run.outcome {
        CallOutcome::Returned(vals) => assert_eq!(vals, vec![LuaValue::Table(2)]),
        other => panic!("{:?}", other),
    }
}

#[test]
fn host_function_raises_on_bad_arguments_and_on_failure() {
    let add = |(a, b): (i32, i32)| a + b;
    let args = vec![LuaValue::Number(2), LuaValue::String("x".to_string())];
    match outcome_of(call_host(add, args, store())) {
        CallOutcome::Raised(v) => assert_eq!(
            v,
            LuaValue::String("bad arguments: (i32, i32) expected, got (number, string)".to_string())
        ),
        other => panic!("{:?}", other),
    }
    match outcome_of(call_host(add, vec![], store())) {
        CallOutcome::Raised(v) => {
            assert_eq!(v, LuaValue::String("bad arguments: (i32, i32) expected, got ()".to_string()))
        }
        other => panic!("{:?}", other),
    }
    match outcome_of(call_host(|a: i32| a, vec![LuaValue::Table(5)], store())) {
        CallOutcome::Raised(v) => assert_eq!(v, LuaValue::String("malformed arguments".to_string())),
        other => panic!("{:?}", other),
    }
    match outcome_of(call_host(|a: i32| a, vec![LuaValue::Number(1)], vec![])) {
        CallOutcome::Raised(v) => assert_eq!(v, LuaValue::String("malformed tables".to_string())),
        other => panic!("{:?}", other),
    }
    match outcome_of(call_host(|_: i32| LuaValue::Table(9), vec![LuaValue::Number(1)], store())) {
        CallOutcome::Raised(v) => {
            assert_eq!(v, LuaValue::String("host function failed".to_string()))
        }
        other => panic!("{:?}", other),
    }
}

#[test]
fn a_host_function_serves_as_the_engine_of_a_call() {
    let mut lua = Lua::new();
    let f = function_on_stack(&mut lua, 1);
    let sum: i32 = f
        .call_with_args(&mut lua, (4i32, 5i32), |_, args, tables| {
            call_host(|(a, b): (i32, i32)| a * b, args, tables)
        })
        .unwrap();
    assert_eq!(sum, 20);
    let r: Result<i32, _> = f.call_with_args(&mut lua, "x", |_, args, tables| {
        call_host(|(a, b): (i32, i32)| a * b, args, tables)
    });
    match r {
        Err(LuaFunctionCallError::LuaError(LuaError::ExecutionError(msg))) => {
            assert_eq!(msg, "bad arguments: (i32, i32) expected, got string")
        }
        other => panic!("{:?}", other),
    }
    assert_eq!(lua.gettop(), 1);
}

#[test]
fn two_functions_at_the_same_time() {
    let mut lua = Lua::new();
    let f1 = function_on_stack(&mut lua, 1);
    let f2 = function_on_stack(&mut lua, 2);
    let engine = |id: u32, _: Vec<LuaValue>, tables: Vec<TableData>| {
        returned(tables, vec![LuaValue::Number(if id == 1 { 69 } else { 420 })])
    };
    assert_eq!(f1.call::<i32, _>(&mut lua, engine).unwrap(), 69);
    assert_eq!(f2.call::<i32, _>(&mut lua, engine).unwrap(), 420);
    assert_eq!(lua.gettop(), 2);
}

#[test]
fn call_and_read_table() {
    let mut lua = Lua::new();
    let f = function_on_stack(&mut lua, 1);
    let val: Vec<u8> = f
        .call(&mut lua, |_, _, mut tables| {
            let made = tables.len();
            tables.push(TableData {
                entries: vec![
                    (LuaValue::Number(1), LuaValue::Number(1)),
                    (LuaValue::Number(2), LuaValue::Number(2)),
                    (LuaValue::Number(3), LuaValue::Number(3)),
                ],
                metatable: None,
            });
            returned(tables, vec![LuaValue::Table(made)])
        })
        .unwrap();
    assert_eq!(val[1], 2);
    assert_eq!(val, vec![1, 2, 3]);
}

#[test]
fn lua_function_returns_function() {
    let mut lua = Lua::new();
    let bar = function_on_stack(&mut lua, 1);
    let engine = |id: u32, _: Vec<LuaValue>, tables: Vec<TableData>| {
        if id == 1 {
            returned(tables, vec![LuaValue::Function(2)])
        } else {
            returned(tables, vec![LuaValue::Number(5)])
        }
    };
    let foo: LuaValue = bar.call(&mut lua, engine).unwrap();
    assert_eq!(foo, LuaValue::Function(2));
    let guard = lua.try_push(foo).unwrap();
    let foo = LuaFunction::lua_read_at_position(&lua, guard, -1).unwrap();
    let val: i32 = foo.call(&mut lua, engine).unwrap();
    assert_eq!(val, 5);
}

#[test]
fn from_function_call_error() {
    fn inner() -> Result<u32, LuaError> {
        let mut lua = Lua::new();
        let f = function_on_stack(&mut lua, 1);
        let res = f.call_with_args(&mut lua, (1i32, 2i32), |_, args, tables| {
            returned(tables, vec![LuaValue::Number(number(&args[0]) + number(&args[1]))])
        })?;
        Ok(res)
    }
    assert_eq!(inner().unwrap(), 3);
    fn failing() -> Result<u32, LuaError> {
        let mut lua = Lua::new();
        let f = function_on_stack(&mut lua, 1);
        let res = f.call_with_args(&mut lua, 1i32, |_, _, tables| raised(tables, "no"))?;
        Ok(res)
    }
    assert!(matches!(failing(), Err(LuaError::ExecutionError(_))));
}
